//! The capability set that a type needs to serve as the base of a
//! differentiable tower.

use vstd::prelude::*;

verus! {

/// The one failure of the engine: an operation was asked for a value outside
/// its domain (division by a non-invertible value, logarithm or square root
/// of an out-of-domain value, and the like).
#[derive(Clone, Copy, Debug, PartialEq, Eq, Structural)]
pub struct ArithmeticDomainError;

/// What an operation with a restricted domain hands back.
pub type Outcome<T> = Result<T, ArithmeticDomainError>;

/// The elementary functions that the engine differentiates.
#[derive(Clone, Copy, Debug, PartialEq, Eq, Structural)]
pub enum Function {
    Exp,
    Ln,
    Sqrt,
    Sin,
    Cos,
    Tan,
    Sinh,
    Cosh,
    Tanh,
    Asin,
    Acos,
    Atan,
}

/// Arithmetic and comparison of a numeric type.
///
/// Every executable operation has a counterpart in ghost code and returns
/// exactly what that counterpart denotes, so an operation is a function of its
/// operands alone. Addition, subtraction, multiplication and negation are
/// total; division reports a domain error exactly where the type itself does,
/// as an `Err` or as a failed value.
pub trait Scalar: Sized + Copy {
    spec fn zero_value() -> Self;

    spec fn one_value() -> Self;

    spec fn sum(self, rhs: Self) -> Self;

    spec fn difference(self, rhs: Self) -> Self;

    spec fn product(self, rhs: Self) -> Self;

    spec fn negation(self) -> Self;

    spec fn quotient(self, rhs: Self) -> Outcome<Self>;

    /// Equality by value.
    spec fn same(self, rhs: Self) -> bool;

    /// Strict order by value.
    spec fn below(self, rhs: Self) -> bool;

    /// Whether `self` is a failed value: what a type that reports no errors
    /// hands back from an operation outside its domain (NaN, for floating
    /// point). A type that reports every failure as an error has none.
    spec fn failed(self) -> bool;

    fn zero() -> (r: Self)
        ensures
            r == Self::zero_value(),
    ;

    fn one() -> (r: Self)
        ensures
            r == Self::one_value(),
    ;

    fn add(&self, rhs: &Self) -> (r: Self)
        ensures
            r == self.sum(*rhs),
    ;

    fn sub(&self, rhs: &Self) -> (r: Self)
        ensures
            r == self.difference(*rhs),
    ;

    fn mul(&self, rhs: &Self) -> (r: Self)
        ensures
            r == self.product(*rhs),
    ;

    fn neg(&self) -> (r: Self)
        ensures
            r == self.negation(),
    ;

    fn div(&self, rhs: &Self) -> (r: Outcome<Self>)
        ensures
            r == self.quotient(*rhs),
    ;

    fn equals(&self, rhs: &Self) -> (r: bool)
        ensures
            r == self.same(*rhs),
    ;

    fn less_than(&self, rhs: &Self) -> (r: bool)
        ensures
            r == self.below(*rhs),
    ;

    fn is_failed(&self) -> (r: bool)
        ensures
            r == self.failed(),
    ;
}

/// The `n`-th power of `x`: one multiplied `n` times by `x`.
pub open spec fn power<T: Scalar>(x: T, n: nat) -> T
    decreases n,
{
    if n == 0 {
        T::one_value()
    } else {
        power(x, (n - 1) as nat).product(x)
    }
}

/// Raises `x` to the `n`-th power by repeated multiplication. On a dual or
/// hyper-dual number the product rule differentiates the power along the way.
pub fn powi<T: Scalar>(x: &T, n: u32) -> (r: T)
    ensures
        r == power(*x, n as nat),
{
    let mut r = T::one();
    let mut i: u32 = 0;
    while i < n
        invariant
            i <= n,
            r == power(*x, i as nat),
        decreases n - i,
    {
        r = r.mul(x);
        i += 1;
    }
    r
}

/// A scalar on which the elementary functions are defined.
pub trait Elementary: Scalar {
    /// The scalar at the bottom of the tower: the type of a constant exponent.
    type Base: Scalar;

    /// The value of `f` at `self`, or the domain error of the type.
    spec fn image(self, f: Function) -> Outcome<Self>;

    /// A base scalar as a constant of this type.
    spec fn lifted(c: Self::Base) -> Self;

    /// `self` raised to the constant exponent `n`, or the domain error of the
    /// type.
    spec fn raised(self, n: Self::Base) -> Outcome<Self>;

    fn apply(&self, f: Function) -> (r: Outcome<Self>)
        ensures
            r == self.image(f),
    ;

    fn lift(c: &Self::Base) -> (r: Self)
        ensures
            r == Self::lifted(*c),
    ;

    fn powf(&self, n: &Self::Base) -> (r: Outcome<Self>)
        ensures
            r == self.raised(*n),
    ;
}

/// A scalar whose arithmetic is exact: a commutative ring in which division
/// is defined exactly by the invertible elements.
pub trait Exact: Scalar {
    /// Whether `self` may stand as a divisor.
    spec fn invertible(self) -> bool;

    /// Every failure is an error: no value is a failed one.
    proof fn never_failed(a: Self)
        ensures
            !a.failed(),
    ;

    proof fn sum_commutes(a: Self, b: Self)
        ensures
            a.sum(b) == b.sum(a),
    ;

    proof fn sum_associates(a: Self, b: Self, c: Self)
        ensures
            a.sum(b).sum(c) == a.sum(b.sum(c)),
    ;

    proof fn sum_zero(a: Self)
        ensures
            a.sum(Self::zero_value()) == a,
    ;

    proof fn sum_then_difference(a: Self, b: Self)
        ensures
            a.sum(b).difference(b) == a,
    ;

    proof fn sum_of_negation(a: Self, b: Self)
        ensures
            a.sum(b.negation()) == a.difference(b),
            a.sum(a.negation()) == Self::zero_value(),
    ;

    proof fn product_commutes(a: Self, b: Self)
        ensures
            a.product(b) == b.product(a),
    ;

    proof fn product_associates(a: Self, b: Self, c: Self)
        ensures
            a.product(b).product(c) == a.product(b.product(c)),
    ;

    proof fn product_one(a: Self)
        ensures
            a.product(Self::one_value()) == a,
    ;

    proof fn product_zero(a: Self)
        ensures
            a.product(Self::zero_value()) == Self::zero_value(),
    ;

    proof fn product_distributes(a: Self, b: Self, c: Self)
        ensures
            a.sum(b).product(c) == a.product(c).sum(b.product(c)),
    ;

    proof fn quotient_defined(a: Self, b: Self)
        ensures
            a.quotient(b) is Ok <==> b.invertible(),
    ;

    proof fn product_then_quotient(a: Self, b: Self)
        requires
            b.invertible(),
        ensures
            a.product(b).quotient(b) == Ok::<Self, ArithmeticDomainError>(a),
    ;

    proof fn invertible_product(a: Self, b: Self)
        ensures
            a.product(b).invertible() <==> a.invertible() && b.invertible(),
    ;
}

} // verus!
