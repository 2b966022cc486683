//! Hyper-dual numbers: a value with its first and second derivative.

use vstd::prelude::*;
use crate::dual::{product_distributes_left, sum_interchange, Dual};
use crate::rules::{
    derivative,
    derivative_at,
    power_derivative,
    power_derivative_at,
    power_second_derivative,
    power_second_derivative_at,
    second_derivative,
    second_derivative_at,
};
use crate::scalar::{ArithmeticDomainError, Elementary, Exact, Function, Outcome, Scalar};

verus! {

/// A value with its first derivative `v1` and its second derivative `v2`, both
/// with respect to one implicit variable. Any triple of scalars is a
/// hyper-dual number.
#[derive(Clone, Copy, Debug)]
pub struct Dual2<T> {
    pub value: T,
    pub v1: T,
    pub v2: T,
}

impl<T: Scalar> Dual2<T> {
    pub fn new(value: T, v1: T, v2: T) -> (r: Self)
        ensures
            r == (Dual2 { value, v1, v2 }),
    {
        Dual2 { value, v1, v2 }
    }

    pub fn value(&self) -> (r: T)
        ensures
            r == self.value,
    {
        self.value
    }

    pub fn first_derivative(&self) -> (r: T)
        ensures
            r == self.v1,
    {
        self.v1
    }

    pub fn second_derivative(&self) -> (r: T)
        ensures
            r == self.v2,
    {
        self.v2
    }

    /// A bare scalar as a hyper-dual number: both derivatives are zero.
    pub open spec fn constant(value: T) -> Self {
        Dual2 { value, v1: T::zero_value(), v2: T::zero_value() }
    }

    /// The variable of differentiation at `value`: its first derivative is
    /// one, its second zero.
    pub open spec fn variable(value: T) -> Self {
        Dual2 { value, v1: T::one_value(), v2: T::zero_value() }
    }

    /// The first-order part: the dual number of the value and `v1`.
    pub open spec fn first_order(self) -> Dual<T> {
        Dual { value: self.value, tangent: self.v1 }
    }

    pub fn from_scalar(value: T) -> (r: Self)
        ensures
            r == Self::constant(value),
    {
        Dual2 { value, v1: T::zero(), v2: T::zero() }
    }

    pub fn from_variable(value: T) -> (r: Self)
        ensures
            r == Self::variable(value),
    {
        Dual2 { value, v1: T::one(), v2: T::zero() }
    }

    /// Drops the second derivative.
    pub fn to_dual(&self) -> (r: Dual<T>)
        ensures
            r == self.first_order(),
    {
        Dual { value: self.value, tangent: self.v1 }
    }

    /// What an operation returns whose value came out as the failed value
    /// `v`: the failure stands in both derivatives too.
    pub open spec fn failure(v: T) -> Self {
        Dual2 { value: v, v1: v, v2: v }
    }

    /// The second-order chain rule: `f(self)` from `f0 = f(value)`,
    /// `f1 = f'(value)` and `f2 = f''(value)`.
    pub open spec fn chain(self, f0: T, f1: T, f2: T) -> Self {
        Dual2 {
            value: f0,
            v1: f1.product(self.v1),
            v2: f2.product(self.v1.product(self.v1)).sum(f1.product(self.v2)),
        }
    }

    /// Applies the second-order chain rule to the value `f0` and the
    /// derivatives `f1` and `f2` of a function at `self.value`.
    pub fn chain_rule(&self, f0: T, f1: T, f2: T) -> (r: Self)
        ensures
            r == self.chain(f0, f1, f2),
    {
        Dual2 {
            value: f0,
            v1: f1.mul(&self.v1),
            v2: f2.mul(&self.v1.mul(&self.v1)).add(&f1.mul(&self.v2)),
        }
    }

    pub fn add_scalar(&self, rhs: &T) -> (r: Self)
        ensures
            r == self.sum(Self::constant(*rhs)),
    {
        self.add(&Self::from_scalar(*rhs))
    }

    pub fn sub_scalar(&self, rhs: &T) -> (r: Self)
        ensures
            r == self.difference(Self::constant(*rhs)),
    {
        self.sub(&Self::from_scalar(*rhs))
    }

    pub fn mul_scalar(&self, rhs: &T) -> (r: Self)
        ensures
            r == self.product(Self::constant(*rhs)),
    {
        self.mul(&Self::from_scalar(*rhs))
    }

    pub fn div_scalar(&self, rhs: &T) -> (r: Outcome<Self>)
        ensures
            r == self.quotient(Self::constant(*rhs)),
    {
        self.div(&Self::from_scalar(*rhs))
    }
}

/// The second derivative of a quotient `q = a / b` from its value `q0` and its
/// first derivative `q1`: `(a'' - 2 q' b' - q b'') / b`.
pub open spec fn quotient_v2<T: Scalar>(a: Dual2<T>, b: Dual2<T>, q0: T, q1: T) -> Outcome<T> {
    a.v2.difference(q1.product(b.v1).sum(q1.product(b.v1))).difference(
        q0.product(b.v2),
    ).quotient(b.value)
}

impl<T: Scalar> Scalar for Dual2<T> {
    open spec fn zero_value() -> Self {
        Dual2 { value: T::zero_value(), v1: T::zero_value(), v2: T::zero_value() }
    }

    open spec fn one_value() -> Self {
        Dual2 { value: T::one_value(), v1: T::zero_value(), v2: T::zero_value() }
    }

    open spec fn sum(self, rhs: Self) -> Self {
        Dual2 {
            value: self.value.sum(rhs.value),
            v1: self.v1.sum(rhs.v1),
            v2: self.v2.sum(rhs.v2),
        }
    }

    open spec fn difference(self, rhs: Self) -> Self {
        Dual2 {
            value: self.value.difference(rhs.value),
            v1: self.v1.difference(rhs.v1),
            v2: self.v2.difference(rhs.v2),
        }
    }

    /// The product rule and its derivative:
    /// `v2 = a.v2 * b.value + 2 * a.v1 * b.v1 + a.value * b.v2`.
    open spec fn product(self, rhs: Self) -> Self {
        let cross = self.v1.product(rhs.v1);
        Dual2 {
            value: self.value.product(rhs.value),
            v1: self.value.product(rhs.v1).sum(self.v1.product(rhs.value)),
            v2: self.v2.product(rhs.value).sum(cross.sum(cross)).sum(
                self.value.product(rhs.v2),
            ),
        }
    }

    open spec fn negation(self) -> Self {
        Dual2 { value: self.value.negation(), v1: self.v1.negation(), v2: self.v2.negation() }
    }

    /// The quotient rule and its derivative; the value and `v1` are those of
    /// the first-order quotient, `v2` is `quotient_v2`. Where the quotient of
    /// the values is a failed value, so are both derivatives.
    open spec fn quotient(self, rhs: Self) -> Outcome<Self> {
        match self.first_order().quotient(rhs.first_order()) {
            Ok(q) => if q.value.failed() {
                Ok(Self::failure(q.value))
            } else {
                match quotient_v2(self, rhs, q.value, q.tangent) {
                    Ok(v2) => Ok(Dual2 { value: q.value, v1: q.tangent, v2 }),
                    Err(e) => Err(e),
                }
            },
            Err(e) => Err(e),
        }
    }

    /// Only the values are compared, the derivatives are ignored.
    open spec fn same(self, rhs: Self) -> bool {
        self.value.same(rhs.value)
    }

    /// Only the values are compared, the derivatives are ignored.
    open spec fn below(self, rhs: Self) -> bool {
        self.value.below(rhs.value)
    }

    /// A hyper-dual number has failed where its value has.
    open spec fn failed(self) -> bool {
        self.value.failed()
    }

    fn zero() -> (r: Self) {
        Dual2 { value: T::zero(), v1: T::zero(), v2: T::zero() }
    }

    fn one() -> (r: Self) {
        Dual2 { value: T::one(), v1: T::zero(), v2: T::zero() }
    }

    fn add(&self, rhs: &Self) -> (r: Self) {
        Dual2 {
            value: self.value.add(&rhs.value),
            v1: self.v1.add(&rhs.v1),
            v2: self.v2.add(&rhs.v2),
        }
    }

    fn sub(&self, rhs: &Self) -> (r: Self) {
        Dual2 {
            value: self.value.sub(&rhs.value),
            v1: self.v1.sub(&rhs.v1),
            v2: self.v2.sub(&rhs.v2),
        }
    }

    fn mul(&self, rhs: &Self) -> (r: Self) {
        let cross = self.v1.mul(&rhs.v1);
        Dual2 {
            value: self.value.mul(&rhs.value),
            v1: self.value.mul(&rhs.v1).add(&self.v1.mul(&rhs.value)),
            v2: self.v2.mul(&rhs.value).add(&cross.add(&cross)).add(&self.value.mul(&rhs.v2)),
        }
    }

    fn neg(&self) -> (r: Self) {
        Dual2 { value: self.value.neg(), v1: self.v1.neg(), v2: self.v2.neg() }
    }

    fn div(&self, rhs: &Self) -> (r: Outcome<Self>)
        ensures
            r matches Ok(q) ==> (q.value.failed() ==> q.v1.failed() && q.v2.failed()),
    {
        let q = self.to_dual().div(&rhs.to_dual())?;
        if q.value.is_failed() {
            return Ok(Dual2 { value: q.value, v1: q.value, v2: q.value });
        }
        let step = q.tangent.mul(&rhs.v1);
        let numerator = self.v2.sub(&step.add(&step)).sub(&q.value.mul(&rhs.v2));
        let v2 = numerator.div(&rhs.value)?;
        Ok(Dual2 { value: q.value, v1: q.tangent, v2 })
    }

    fn equals(&self, rhs: &Self) -> (r: bool) {
        self.value.equals(&rhs.value)
    }

    fn less_than(&self, rhs: &Self) -> (r: bool) {
        self.value.less_than(&rhs.value)
    }

    fn is_failed(&self) -> (r: bool) {
        self.value.is_failed()
    }
}

impl<T: Elementary> Elementary for Dual2<T> {
    type Base = T::Base;

    /// `f(value)` with `v1 = f'(value) * v1` and
    /// `v2 = f''(value) * v1² + f'(value) * v2`. Where `f(value)` is a failed
    /// value, so are both derivatives.
    open spec fn image(self, f: Function) -> Outcome<Self> {
        match self.value.image(f) {
            Ok(f0) => if f0.failed() {
                Ok(Self::failure(f0))
            } else {
                match derivative(f, self.value) {
                    Ok(f1) => match second_derivative(f, self.value) {
                        Ok(f2) => Ok(self.chain(f0, f1, f2)),
                        Err(e) => Err(e),
                    },
                    Err(e) => Err(e),
                }
            },
            Err(e) => Err(e),
        }
    }

    open spec fn lifted(c: T::Base) -> Self {
        Self::constant(T::lifted(c))
    }

    /// `value^n` with `v1 = n value^(n-1) * v1` and
    /// `v2 = n (n-1) value^(n-2) * v1² + n value^(n-1) * v2`. Where `value^n`
    /// is a failed value, so are both derivatives.
    open spec fn raised(self, n: T::Base) -> Outcome<Self> {
        match self.value.raised(n) {
            Ok(f0) => if f0.failed() {
                Ok(Self::failure(f0))
            } else {
                match power_derivative(self.value, n) {
                    Ok(f1) => match power_second_derivative(self.value, n) {
                        Ok(f2) => Ok(self.chain(f0, f1, f2)),
                        Err(e) => Err(e),
                    },
                    Err(e) => Err(e),
                }
            },
            Err(e) => Err(e),
        }
    }

    fn apply(&self, f: Function) -> (r: Outcome<Self>)
        ensures
            r matches Ok(y) ==> (y.value.failed() ==> y.v1.failed() && y.v2.failed()),
    {
        let f0 = self.value.apply(f)?;
        if f0.is_failed() {
            return Ok(Dual2 { value: f0, v1: f0, v2: f0 });
        }
        let f1 = derivative_at(f, &self.value)?;
        let f2 = second_derivative_at(f, &self.value)?;
        Ok(self.chain_rule(f0, f1, f2))
    }

    fn lift(c: &T::Base) -> (r: Self) {
        Self::from_scalar(T::lift(c))
    }

    fn powf(&self, n: &T::Base) -> (r: Outcome<Self>)
        ensures
            r matches Ok(y) ==> (y.value.failed() ==> y.v1.failed() && y.v2.failed()),
    {
        let f0 = self.value.powf(n)?;
        if f0.is_failed() {
            return Ok(Dual2 { value: f0, v1: f0, v2: f0 });
        }
        let f1 = power_derivative_at(&self.value, n)?;
        let f2 = power_second_derivative_at(&self.value, n)?;
        Ok(self.chain_rule(f0, f1, f2))
    }
}

/// `(x + y) * c + (x + y) * c` is `(x * c + x * c) + (y * c + y * c)`.
proof fn twice_distributes<T: Exact>(x: T, y: T, c: T)
    ensures
        x.sum(y).product(c).sum(x.sum(y).product(c)) == x.product(c).sum(x.product(c)).sum(
            y.product(c).sum(y.product(c)),
        ),
{
    T::product_distributes(x, y, c);
    sum_interchange(x.product(c), y.product(c), x.product(c), y.product(c));
}

/// The second derivative of `(a * b) * c` is that of `a * (b * c)`.
proof fn product_associates_v2<T: Exact>(a: Dual2<T>, b: Dual2<T>, c: Dual2<T>)
    ensures
        a.product(b).product(c).v2 == a.product(b.product(c)).v2,
{
    let p = a.product(b);
    let r = b.product(c);
    // the six monomials, each as x * (y * z)
    let m1 = a.v2.product(b.value.product(c.value));
    let m2 = a.v1.product(b.v1.product(c.value));
    let m3 = a.value.product(b.v2.product(c.value));
    let m4 = a.value.product(b.v1.product(c.v1));
    let m5 = a.v1.product(b.value.product(c.v1));
    let m6 = a.value.product(b.value.product(c.v2));
    let d2 = m2.sum(m2);
    let d4 = m4.sum(m4);
    let d5 = m5.sum(m5);
    // p.v2 * c.value = (m1 + 2 m2) + m3
    let ab = a.v1.product(b.v1);
    T::product_distributes(a.v2.product(b.value).sum(ab.sum(ab)), a.value.product(b.v2), c.value);
    T::product_distributes(a.v2.product(b.value), ab.sum(ab), c.value);
    T::product_distributes(ab, ab, c.value);
    T::product_associates(a.v2, b.value, c.value);
    T::product_associates(a.v1, b.v1, c.value);
    T::product_associates(a.value, b.v2, c.value);
    assert(p.v2.product(c.value) == m1.sum(d2).sum(m3));
    // 2 (p.v1 * c.v1) = 2 m4 + 2 m5
    twice_distributes(a.value.product(b.v1), a.v1.product(b.value), c.v1);
    T::product_associates(a.value, b.v1, c.v1);
    T::product_associates(a.v1, b.value, c.v1);
    assert(p.v1.product(c.v1).sum(p.v1.product(c.v1)) == d4.sum(d5));
    // p.value * c.v2 = m6
    T::product_associates(a.value, b.value, c.v2);
    let left = m1.sum(d2).sum(m3).sum(d4.sum(d5)).sum(m6);
    assert(p.product(c).v2 == left);
    // 2 (a.v1 * r.v1) = 2 m5 + 2 m2
    product_distributes_left(a.v1, b.value.product(c.v1), b.v1.product(c.value));
    sum_interchange(m5, m2, m5, m2);
    assert(a.v1.product(r.v1).sum(a.v1.product(r.v1)) == d5.sum(d2));
    // a.value * r.v2 = (m3 + 2 m4) + m6
    let bc = b.v1.product(c.v1);
    product_distributes_left(a.value, b.v2.product(c.value).sum(bc.sum(bc)), b.value.product(c.v2));
    product_distributes_left(a.value, b.v2.product(c.value), bc.sum(bc));
    product_distributes_left(a.value, bc, bc);
    assert(a.value.product(r.v2) == m3.sum(d4).sum(m6));
    let right = m1.sum(d5.sum(d2)).sum(m3.sum(d4).sum(m6));
    assert(a.product(r).v2 == right);
    // both are m1 + (2 m2 + (m3 + (2 m4 + (2 m5 + m6))))
    let t5 = d5.sum(m6);
    let t4 = d4.sum(t5);
    let t3 = m3.sum(t4);
    T::sum_associates(m1.sum(d2).sum(m3), d4.sum(d5), m6);
    T::sum_associates(d4, d5, m6);
    T::sum_associates(m1.sum(d2), m3, t4);
    T::sum_associates(m1, d2, t3);
    assert(left == m1.sum(d2.sum(t3)));
    let z = d4.sum(m6);
    T::sum_associates(m3, d4, m6);
    T::sum_associates(m1, d5.sum(d2), m3.sum(z));
    T::sum_commutes(d5, d2);
    T::sum_associates(d2, d5, m3.sum(z));
    T::sum_associates(d5, m3, z);
    T::sum_commutes(d5, m3);
    T::sum_associates(m3, d5, z);
    T::sum_associates(d5, d4, m6);
    T::sum_commutes(d5, d4);
    assert(d5.sum(z) == t4);
    assert(right == m1.sum(d2.sum(t3)));
}

/// The hyper-dual numbers over an exact scalar are exact themselves; the
/// divisors are those with an invertible value.
impl<T: Exact> Exact for Dual2<T> {
    open spec fn invertible(self) -> bool {
        self.value.invertible()
    }

    proof fn never_failed(a: Self) {
        T::never_failed(a.value);
    }

    proof fn sum_commutes(a: Self, b: Self) {
        T::sum_commutes(a.value, b.value);
        T::sum_commutes(a.v1, b.v1);
        T::sum_commutes(a.v2, b.v2);
    }

    proof fn sum_associates(a: Self, b: Self, c: Self) {
        T::sum_associates(a.value, b.value, c.value);
        T::sum_associates(a.v1, b.v1, c.v1);
        T::sum_associates(a.v2, b.v2, c.v2);
    }

    proof fn sum_zero(a: Self) {
        T::sum_zero(a.value);
        T::sum_zero(a.v1);
        T::sum_zero(a.v2);
    }

    proof fn sum_then_difference(a: Self, b: Self) {
        T::sum_then_difference(a.value, b.value);
        T::sum_then_difference(a.v1, b.v1);
        T::sum_then_difference(a.v2, b.v2);
    }

    proof fn sum_of_negation(a: Self, b: Self) {
        T::sum_of_negation(a.value, b.value);
        T::sum_of_negation(a.v1, b.v1);
        T::sum_of_negation(a.v2, b.v2);
        T::sum_of_negation(a.value, a.value);
        T::sum_of_negation(a.v1, a.v1);
        T::sum_of_negation(a.v2, a.v2);
    }

    proof fn product_commutes(a: Self, b: Self) {
        Dual::<T>::product_commutes(a.first_order(), b.first_order());
        let x = a.v2.product(b.value);
        let d = a.v1.product(b.v1).sum(a.v1.product(b.v1));
        let e = a.value.product(b.v2);
        T::product_commutes(a.v2, b.value);
        T::product_commutes(a.v1, b.v1);
        T::product_commutes(a.value, b.v2);
        // (x + d) + e = (e + d) + x
        T::sum_associates(x, d, e);
        T::sum_commutes(x, d.sum(e));
        T::sum_commutes(d, e);
    }

    proof fn product_associates(a: Self, b: Self, c: Self) {
        Dual::<T>::product_associates(a.first_order(), b.first_order(), c.first_order());
        product_associates_v2(a, b, c);
    }

    proof fn product_one(a: Self) {
        Dual::<T>::product_one(a.first_order());
        T::product_one(a.v2);
        T::product_zero(a.v1);
        T::product_zero(a.value);
        T::sum_zero(T::zero_value());
        T::sum_zero(a.v2);
    }

    proof fn product_zero(a: Self) {
        T::product_zero(a.value);
        T::product_zero(a.v1);
        T::product_zero(a.v2);
        T::sum_zero(T::zero_value());
    }

    proof fn product_distributes(a: Self, b: Self, c: Self) {
        Dual::<T>::product_distributes(a.first_order(), b.first_order(), c.first_order());
        let ac = a.v1.product(c.v1);
        let bc = b.v1.product(c.v1);
        T::product_distributes(a.v2, b.v2, c.value);
        twice_distributes(a.v1, b.v1, c.v1);
        T::product_distributes(a.value, b.value, c.v2);
        sum_interchange(a.v2.product(c.value), b.v2.product(c.value), ac.sum(ac), bc.sum(bc));
        sum_interchange(
            a.v2.product(c.value).sum(ac.sum(ac)),
            b.v2.product(c.value).sum(bc.sum(bc)),
            a.value.product(c.v2),
            b.value.product(c.v2),
        );
    }

    proof fn quotient_defined(a: Self, b: Self) {
        Dual::<T>::quotient_defined(a.first_order(), b.first_order());
        if a.first_order().quotient(b.first_order()) is Ok {
            let q = a.first_order().quotient(b.first_order()).unwrap();
            T::never_failed(q.value);
            T::quotient_defined(
                a.v2.difference(q.tangent.product(b.v1).sum(q.tangent.product(b.v1))).difference(
                    q.value.product(b.v2),
                ),
                b.value,
            );
        }
    }

    /// `(a * b) / b` is `a`, both derivatives included: the second-order
    /// quotient rule undoes the second-order product rule.
    proof fn product_then_quotient(a: Self, b: Self) {
        let p = a.product(b);
        Dual::<T>::product_then_quotient(a.first_order(), b.first_order());
        T::never_failed(a.value);
        assert(p.first_order().quotient(b.first_order()) == Ok::<
            Dual<T>,
            ArithmeticDomainError,
        >(a.first_order()));
        // p.v2 = (a2 b0 + 2 a1 b1) + a0 b2; less 2 a1 b1 and a0 b2 that is a2 b0
        let kept = a.v2.product(b.value);
        let cross = a.v1.product(b.v1);
        let twice = cross.sum(cross);
        let last = a.value.product(b.v2);
        T::sum_associates(kept, twice, last);
        T::sum_commutes(twice, last);
        T::sum_associates(kept, last, twice);
        T::sum_then_difference(kept.sum(last), twice);
        T::sum_then_difference(kept, last);
        assert(p.v2.difference(twice).difference(last) == kept);
        T::product_then_quotient(a.v2, b.value);
    }

    proof fn invertible_product(a: Self, b: Self) {
        T::invertible_product(a.value, b.value);
    }
}

} // verus!
