//! Dual numbers: a value with its first derivative.

use vstd::prelude::*;
use crate::rules::{derivative, derivative_at, power_derivative, power_derivative_at};
use crate::scalar::{ArithmeticDomainError, Elementary, Exact, Function, Outcome, Scalar};

verus! {

/// A value and its tangent, the first derivative with respect to an implicit
/// variable. Any pair of scalars is a dual number.
#[derive(Clone, Copy, Debug)]
pub struct Dual<T> {
    pub value: T,
    pub tangent: T,
}

impl<T: Scalar> Dual<T> {
    pub fn new(value: T, tangent: T) -> (r: Self)
        ensures
            r == (Dual { value, tangent }),
    {
        Dual { value, tangent }
    }

    pub fn value(&self) -> (r: T)
        ensures
            r == self.value,
    {
        self.value
    }

    pub fn tangent(&self) -> (r: T)
        ensures
            r == self.tangent,
    {
        self.tangent
    }

    /// A bare scalar as a dual number: its tangent is zero.
    pub open spec fn constant(value: T) -> Self {
        Dual { value, tangent: T::zero_value() }
    }

    /// The variable of differentiation at `value`: its tangent is one.
    pub open spec fn variable(value: T) -> Self {
        Dual { value, tangent: T::one_value() }
    }

    pub fn from_scalar(value: T) -> (r: Self)
        ensures
            r == Self::constant(value),
    {
        Dual { value, tangent: T::zero() }
    }

    pub fn from_variable(value: T) -> (r: Self)
        ensures
            r == Self::variable(value),
    {
        Dual { value, tangent: T::one() }
    }

    /// What an operation returns whose value came out as the failed value
    /// `v`: the failure stands in the tangent too.
    pub open spec fn failure(v: T) -> Self {
        Dual { value: v, tangent: v }
    }

    /// The chain rule: `f(self)` from `f0 = f(value)` and `f1 = f'(value)`.
    pub open spec fn chain(self, f0: T, f1: T) -> Self {
        Dual { value: f0, tangent: f1.product(self.tangent) }
    }

    /// Applies the chain rule to the value `f0` and the derivative `f1` of a
    /// function at `self.value`.
    pub fn chain_rule(&self, f0: T, f1: T) -> (r: Self)
        ensures
            r == self.chain(f0, f1),
    {
        Dual { value: f0, tangent: f1.mul(&self.tangent) }
    }

    pub fn add_scalar(&self, rhs: &T) -> (r: Self)
        ensures
            r == self.sum(Self::constant(*rhs)),
    {
        self.add(&Self::from_scalar(*rhs))
    }

    pub fn sub_scalar(&self, rhs: &T) -> (r: Self)
        ensures
            r == self.difference(Self::constant(*rhs)),
    {
        self.sub(&Self::from_scalar(*rhs))
    }

    pub fn mul_scalar(&self, rhs: &T) -> (r: Self)
        ensures
            r == self.product(Self::constant(*rhs)),
    {
        self.mul(&Self::from_scalar(*rhs))
    }

    pub fn div_scalar(&self, rhs: &T) -> (r: Outcome<Self>)
        ensures
            r == self.quotient(Self::constant(*rhs)),
    {
        self.div(&Self::from_scalar(*rhs))
    }
}

impl<T: Scalar> Scalar for Dual<T> {
    open spec fn zero_value() -> Self {
        Dual { value: T::zero_value(), tangent: T::zero_value() }
    }

    open spec fn one_value() -> Self {
        Dual { value: T::one_value(), tangent: T::zero_value() }
    }

    open spec fn sum(self, rhs: Self) -> Self {
        Dual { value: self.value.sum(rhs.value), tangent: self.tangent.sum(rhs.tangent) }
    }

    open spec fn difference(self, rhs: Self) -> Self {
        Dual {
            value: self.value.difference(rhs.value),
            tangent: self.tangent.difference(rhs.tangent),
        }
    }

    /// The product rule.
    open spec fn product(self, rhs: Self) -> Self {
        Dual {
            value: self.value.product(rhs.value),
            tangent: self.value.product(rhs.tangent).sum(self.tangent.product(rhs.value)),
        }
    }

    open spec fn negation(self) -> Self {
        Dual { value: self.value.negation(), tangent: self.tangent.negation() }
    }

    /// The quotient rule; fails where the scalar fails to divide the values,
    /// or the numerator of the tangent by the square of the divisor's value.
    /// Where the quotient of the values is a failed value, so is the tangent.
    open spec fn quotient(self, rhs: Self) -> Outcome<Self> {
        match self.value.quotient(rhs.value) {
            Ok(value) => if value.failed() {
                Ok(Self::failure(value))
            } else {
                match self.tangent.product(rhs.value).difference(
                    self.value.product(rhs.tangent),
                ).quotient(rhs.value.product(rhs.value)) {
                    Ok(tangent) => Ok(Dual { value, tangent }),
                    Err(e) => Err(e),
                }
            },
            Err(e) => Err(e),
        }
    }

    /// Only the values are compared, the tangents are ignored.
    open spec fn same(self, rhs: Self) -> bool {
        self.value.same(rhs.value)
    }

    /// Only the values are compared, the tangents are ignored.
    open spec fn below(self, rhs: Self) -> bool {
        self.value.below(rhs.value)
    }

    /// A dual number has failed where its value has.
    open spec fn failed(self) -> bool {
        self.value.failed()
    }

    fn zero() -> (r: Self) {
        Dual { value: T::zero(), tangent: T::zero() }
    }

    fn one() -> (r: Self) {
        Dual { value: T::one(), tangent: T::zero() }
    }

    fn add(&self, rhs: &Self) -> (r: Self) {
        Dual { value: self.value.add(&rhs.value), tangent: self.tangent.add(&rhs.tangent) }
    }

    fn sub(&self, rhs: &Self) -> (r: Self) {
        Dual { value: self.value.sub(&rhs.value), tangent: self.tangent.sub(&rhs.tangent) }
    }

    fn mul(&self, rhs: &Self) -> (r: Self) {
        Dual {
            value: self.value.mul(&rhs.value),
            tangent: self.value.mul(&rhs.tangent).add(&self.tangent.mul(&rhs.value)),
        }
    }

    fn neg(&self) -> (r: Self) {
        Dual { value: self.value.neg(), tangent: self.tangent.neg() }
    }

    fn div(&self, rhs: &Self) -> (r: Outcome<Self>)
        ensures
            r matches Ok(q) ==> (q.value.failed() ==> q.tangent.failed()),
    {
        let value = self.value.div(&rhs.value)?;
        if value.is_failed() {
            return Ok(Dual { value, tangent: value });
        }
        let numerator = self.tangent.mul(&rhs.value).sub(&self.value.mul(&rhs.tangent));
        let tangent = numerator.div(&rhs.value.mul(&rhs.value))?;
        Ok(Dual { value, tangent })
    }

    fn equals(&self, rhs: &Self) -> (r: bool) {
        self.value.equals(&rhs.value)
    }

    fn less_than(&self, rhs: &Self) -> (r: bool) {
        self.value.less_than(&rhs.value)
    }

    fn is_failed(&self) -> (r: bool) {
        self.value.is_failed()
    }
}

impl<T: Elementary> Elementary for Dual<T> {
    type Base = T::Base;

    /// `f(value)` with the tangent `f'(value) * tangent`. Where `f(value)` is a
    /// failed value, so is the tangent.
    open spec fn image(self, f: Function) -> Outcome<Self> {
        match self.value.image(f) {
            Ok(f0) => if f0.failed() {
                Ok(Self::failure(f0))
            } else {
                match derivative(f, self.value) {
                    Ok(f1) => Ok(self.chain(f0, f1)),
                    Err(e) => Err(e),
                }
            },
            Err(e) => Err(e),
        }
    }

    open spec fn lifted(c: T::Base) -> Self {
        Self::constant(T::lifted(c))
    }

    /// `value^n` with the tangent `n value^(n-1) * tangent`. Where `value^n` is
    /// a failed value, so is the tangent.
    open spec fn raised(self, n: T::Base) -> Outcome<Self> {
        match self.value.raised(n) {
            Ok(f0) => if f0.failed() {
                Ok(Self::failure(f0))
            } else {
                match power_derivative(self.value, n) {
                    Ok(f1) => Ok(self.chain(f0, f1)),
                    Err(e) => Err(e),
                }
            },
            Err(e) => Err(e),
        }
    }

    fn apply(&self, f: Function) -> (r: Outcome<Self>)
        ensures
            r matches Ok(y) ==> (y.value.failed() ==> y.tangent.failed()),
    {
        let f0 = self.value.apply(f)?;
        if f0.is_failed() {
            return Ok(Dual { value: f0, tangent: f0 });
        }
        let f1 = derivative_at(f, &self.value)?;
        Ok(self.chain_rule(f0, f1))
    }

    fn lift(c: &T::Base) -> (r: Self) {
        Self::from_scalar(T::lift(c))
    }

    fn powf(&self, n: &T::Base) -> (r: Outcome<Self>)
        ensures
            r matches Ok(y) ==> (y.value.failed() ==> y.tangent.failed()),
    {
        let f0 = self.value.powf(n)?;
        if f0.is_failed() {
            return Ok(Dual { value: f0, tangent: f0 });
        }
        let f1 = power_derivative_at(&self.value, n)?;
        Ok(self.chain_rule(f0, f1))
    }
}

/// `(w + x) + (y + z)` is `(w + y) + (x + z)`.
pub proof fn sum_interchange<T: Exact>(w: T, x: T, y: T, z: T)
    ensures
        w.sum(x).sum(y.sum(z)) == w.sum(y).sum(x.sum(z)),
{
    T::sum_associates(w, x, y.sum(z));
    T::sum_associates(x, y, z);
    T::sum_commutes(x, y);
    T::sum_associates(y, x, z);
    T::sum_associates(w, y, x.sum(z));
}

/// `a * (x + y)` is `a * x + a * y`.
pub proof fn product_distributes_left<T: Exact>(a: T, x: T, y: T)
    ensures
        a.product(x.sum(y)) == a.product(x).sum(a.product(y)),
{
    T::product_commutes(a, x.sum(y));
    T::product_distributes(x, y, a);
    T::product_commutes(x, a);
    T::product_commutes(y, a);
}

/// The dual numbers over an exact scalar are exact themselves; the divisors
/// are those with an invertible value.
impl<T: Exact> Exact for Dual<T> {
    open spec fn invertible(self) -> bool {
        self.value.invertible()
    }

    proof fn never_failed(a: Self) {
        T::never_failed(a.value);
    }

    proof fn sum_commutes(a: Self, b: Self) {
        T::sum_commutes(a.value, b.value);
        T::sum_commutes(a.tangent, b.tangent);
    }

    proof fn sum_associates(a: Self, b: Self, c: Self) {
        T::sum_associates(a.value, b.value, c.value);
        T::sum_associates(a.tangent, b.tangent, c.tangent);
    }

    proof fn sum_zero(a: Self) {
        T::sum_zero(a.value);
        T::sum_zero(a.tangent);
    }

    proof fn sum_then_difference(a: Self, b: Self) {
        T::sum_then_difference(a.value, b.value);
        T::sum_then_difference(a.tangent, b.tangent);
    }

    proof fn sum_of_negation(a: Self, b: Self) {
        T::sum_of_negation(a.value, b.value);
        T::sum_of_negation(a.tangent, b.tangent);
        T::sum_of_negation(a.value, a.value);
        T::sum_of_negation(a.tangent, a.tangent);
    }

    proof fn product_commutes(a: Self, b: Self) {
        T::product_commutes(a.value, b.value);
        T::product_commutes(a.value, b.tangent);
        T::product_commutes(a.tangent, b.value);
        T::sum_commutes(a.value.product(b.tangent), a.tangent.product(b.value));
    }

    proof fn product_associates(a: Self, b: Self, c: Self) {
        T::product_associates(a.value, b.value, c.value);
        T::product_associates(a.value, b.value, c.tangent);
        T::product_associates(a.value, b.tangent, c.value);
        T::product_associates(a.tangent, b.value, c.value);
        T::product_distributes(
            a.value.product(b.tangent),
            a.tangent.product(b.value),
            c.value,
        );
        product_distributes_left(
            a.value,
            b.value.product(c.tangent),
            b.tangent.product(c.value),
        );
        T::sum_associates(
            a.value.product(b.value.product(c.tangent)),
            a.value.product(b.tangent.product(c.value)),
            a.tangent.product(b.value.product(c.value)),
        );
    }

    proof fn product_one(a: Self) {
        T::product_one(a.value);
        T::product_one(a.tangent);
        T::product_zero(a.value);
        T::sum_commutes(T::zero_value(), a.tangent);
        T::sum_zero(a.tangent);
    }

    proof fn product_zero(a: Self) {
        T::product_zero(a.value);
        T::product_zero(a.tangent);
        T::sum_zero(T::zero_value());
    }

    proof fn product_distributes(a: Self, b: Self, c: Self) {
        T::product_distributes(a.value, b.value, c.value);
        T::product_distributes(a.value, b.value, c.tangent);
        T::product_distributes(a.tangent, b.tangent, c.value);
        sum_interchange(
            a.value.product(c.tangent),
            b.value.product(c.tangent),
            a.tangent.product(c.value),
            b.tangent.product(c.value),
        );
    }

    proof fn quotient_defined(a: Self, b: Self) {
        if a.value.quotient(b.value) is Ok {
            T::never_failed(a.value.quotient(b.value).unwrap());
        }
        T::quotient_defined(a.value, b.value);
        T::invertible_product(b.value, b.value);
        T::quotient_defined(
            a.tangent.product(b.value).difference(a.value.product(b.tangent)),
            b.value.product(b.value),
        );
    }

    /// `(a * b) / b` is `a`, tangent included: the quotient rule undoes the
    /// product rule.
    proof fn product_then_quotient(a: Self, b: Self) {
        let p = a.product(b);
        let bb = b.value.product(b.value);
        let cross = a.value.product(b.value).product(b.tangent);
        let kept = a.tangent.product(bb);
        T::product_then_quotient(a.value, b.value);
        T::never_failed(a.value);
        // (a0 b1 + a1 b0) b0 = (a0 b0) b1 + a1 (b0 b0)
        T::product_distributes(
            a.value.product(b.tangent),
            a.tangent.product(b.value),
            b.value,
        );
        T::product_associates(a.value, b.tangent, b.value);
        T::product_commutes(b.tangent, b.value);
        T::product_associates(a.value, b.value, b.tangent);
        T::product_associates(a.tangent, b.value, b.value);
        assert(p.tangent.product(b.value) == cross.sum(kept));
        // less (a0 b0) b1, that leaves a1 (b0 b0)
        T::sum_commutes(cross, kept);
        T::sum_then_difference(kept, cross);
        T::invertible_product(b.value, b.value);
        T::product_then_quotient(a.tangent, bb);
        assert(p.quotient(b) == Ok::<Self, ArithmeticDomainError>(a));
    }

    proof fn invertible_product(a: Self, b: Self) {
        T::invertible_product(a.value, b.value);
    }
}

} // verus!
