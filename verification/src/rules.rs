//! The derivative formulas of the elementary functions, shared by the first-
//! and the second-order engine.

use vstd::prelude::*;
use crate::scalar::{Elementary, Function, Outcome, Scalar};

verus! {

/// `1 - x²`, the radicand in the derivatives of `asin` and `acos`.
pub open spec fn one_minus_square<T: Scalar>(x: T) -> T {
    T::one_value().difference(x.product(x))
}

/// `1 + x²`, the denominator in the derivative of `atan`.
pub open spec fn one_plus_square<T: Scalar>(x: T) -> T {
    T::one_value().sum(x.product(x))
}

/// `1 / d`, passing on the error of `d`.
pub open spec fn reciprocal<T: Scalar>(d: Outcome<T>) -> Outcome<T> {
    match d {
        Ok(d) => T::one_value().quotient(d),
        Err(e) => Err(e),
    }
}

/// `g(y)` for a total `g`, passing on the error of `y`.
pub open spec fn map_ok<T>(y: Outcome<T>, g: spec_fn(T) -> T) -> Outcome<T> {
    match y {
        Ok(y) => Ok(g(y)),
        Err(e) => Err(e),
    }
}

/// The first derivative `f'(x)`.
///
/// | f | f' |
/// |---|----|
/// | exp | exp x |
/// | ln | 1 / x |
/// | sqrt | 1 / (2 sqrt x) |
/// | sin, cos | cos x, -sin x |
/// | tan | 1 + tan² x |
/// | sinh, cosh | cosh x, sinh x |
/// | tanh | 1 - tanh² x |
/// | asin, acos | 1 / sqrt(1 - x²), -1 / sqrt(1 - x²) |
/// | atan | 1 / (1 + x²) |
pub open spec fn derivative<T: Elementary>(f: Function, x: T) -> Outcome<T> {
    match f {
        Function::Exp => x.image(Function::Exp),
        Function::Ln => T::one_value().quotient(x),
        Function::Sqrt => reciprocal(map_ok(x.image(Function::Sqrt), |s: T| s.sum(s))),
        Function::Sin => x.image(Function::Cos),
        Function::Cos => map_ok(x.image(Function::Sin), |s: T| s.negation()),
        Function::Tan => map_ok(x.image(Function::Tan), |t: T| one_plus_square(t)),
        Function::Sinh => x.image(Function::Cosh),
        Function::Cosh => x.image(Function::Sinh),
        Function::Tanh => map_ok(x.image(Function::Tanh), |t: T| one_minus_square(t)),
        Function::Asin => reciprocal(one_minus_square(x).image(Function::Sqrt)),
        Function::Acos => map_ok(
            reciprocal(one_minus_square(x).image(Function::Sqrt)),
            |r: T| r.negation(),
        ),
        Function::Atan => T::one_value().quotient(one_plus_square(x)),
    }
}

/// The second derivative `f''(x)`.
///
/// | f | f'' |
/// |---|-----|
/// | exp | exp x |
/// | ln | -(1 / x²) |
/// | sqrt | -(f'(x) / 2x) |
/// | sin, cos | -sin x, -cos x |
/// | tan | 2 tan x (1 + tan² x) |
/// | sinh, cosh | sinh x, cosh x |
/// | tanh | -(2 tanh x (1 - tanh² x)) |
/// | asin | x f'(x) / (1 - x²) |
/// | acos | x f'(x) / (1 - x²) |
/// | atan | -(2x / (1 + x²)²) |
pub open spec fn second_derivative<T: Elementary>(f: Function, x: T) -> Outcome<T> {
    match f {
        Function::Exp => x.image(Function::Exp),
        Function::Ln => map_ok(T::one_value().quotient(x.product(x)), |r: T| r.negation()),
        Function::Sqrt => match derivative(Function::Sqrt, x) {
            Ok(d) => map_ok(d.quotient(x.sum(x)), |r: T| r.negation()),
            Err(e) => Err(e),
        },
        Function::Sin => map_ok(x.image(Function::Sin), |s: T| s.negation()),
        Function::Cos => map_ok(x.image(Function::Cos), |c: T| c.negation()),
        Function::Tan => map_ok(
            x.image(Function::Tan),
            |t: T| t.sum(t).product(one_plus_square(t)),
        ),
        Function::Sinh => x.image(Function::Sinh),
        Function::Cosh => x.image(Function::Cosh),
        Function::Tanh => map_ok(
            x.image(Function::Tanh),
            |t: T| t.sum(t).product(one_minus_square(t)).negation(),
        ),
        Function::Asin | Function::Acos => match derivative(f, x) {
            Ok(d) => x.product(d).quotient(one_minus_square(x)),
            Err(e) => Err(e),
        },
        Function::Atan => map_ok(
            x.sum(x).quotient(one_plus_square(x).product(one_plus_square(x))),
            |r: T| r.negation(),
        ),
    }
}

/// The exponent `n - 1`.
pub open spec fn one_less<B: Scalar>(n: B) -> B {
    n.difference(B::one_value())
}

/// Whether `n` equals zero by value.
pub open spec fn vanishes<B: Scalar>(n: B) -> bool {
    n.same(B::zero_value())
}

/// The first derivative of `x` raised to the constant `n`: `n x^(n-1)`, and
/// zero where `n` is zero, whatever `x^(n-1)` would be.
pub open spec fn power_derivative<T: Elementary>(x: T, n: T::Base) -> Outcome<T> {
    if vanishes(n) {
        Ok(T::zero_value())
    } else {
        map_ok(x.raised(one_less(n)), |p: T| T::lifted(n).product(p))
    }
}

/// The second derivative of `x` raised to the constant `n`:
/// `n (n-1) x^(n-2)`, and zero where `n (n-1)` is zero, whatever `x^(n-2)`
/// would be.
pub open spec fn power_second_derivative<T: Elementary>(x: T, n: T::Base) -> Outcome<T> {
    if vanishes(n.product(one_less(n))) {
        Ok(T::zero_value())
    } else {
        map_ok(
            x.raised(one_less(one_less(n))),
            |p: T| T::lifted(n.product(one_less(n))).product(p),
        )
    }
}

/// Computes `1 - x²`.
pub fn one_minus_square_of<T: Scalar>(x: &T) -> (r: T)
    ensures
        r == one_minus_square(*x),
{
    T::one().sub(&x.mul(x))
}

/// Computes `1 + x²`.
pub fn one_plus_square_of<T: Scalar>(x: &T) -> (r: T)
    ensures
        r == one_plus_square(*x),
{
    T::one().add(&x.mul(x))
}

/// Evaluates the first derivative of `f` at `x`; fails exactly where one of
/// the scalar operations of its formula fails.
pub fn derivative_at<T: Elementary>(f: Function, x: &T) -> (r: Outcome<T>)
    ensures
        r == derivative(f, *x),
{
    match f {
        Function::Exp => x.apply(Function::Exp),
        Function::Ln => T::one().div(x),
        Function::Sqrt => {
            let s = x.apply(Function::Sqrt)?;
            T::one().div(&s.add(&s))
        },
        Function::Sin => x.apply(Function::Cos),
        Function::Cos => {
            let s = x.apply(Function::Sin)?;
            Ok(s.neg())
        },
        Function::Tan => {
            let t = x.apply(Function::Tan)?;
            Ok(one_plus_square_of(&t))
        },
        Function::Sinh => x.apply(Function::Cosh),
        Function::Cosh => x.apply(Function::Sinh),
        Function::Tanh => {
            let t = x.apply(Function::Tanh)?;
            Ok(one_minus_square_of(&t))
        },
        Function::Asin => {
            let s = one_minus_square_of(x).apply(Function::Sqrt)?;
            T::one().div(&s)
        },
        Function::Acos => {
            let s = one_minus_square_of(x).apply(Function::Sqrt)?;
            let r = T::one().div(&s)?;
            Ok(r.neg())
        },
        Function::Atan => T::one().div(&one_plus_square_of(x)),
    }
}

/// Evaluates the second derivative of `f` at `x`; fails exactly where one of
/// the scalar operations of its formula fails.
pub fn second_derivative_at<T: Elementary>(f: Function, x: &T) -> (r: Outcome<T>)
    ensures
        r == second_derivative(f, *x),
{
    match f {
        Function::Exp => x.apply(Function::Exp),
        Function::Ln => {
            let r = T::one().div(&x.mul(x))?;
            Ok(r.neg())
        },
        Function::Sqrt => {
            let d = derivative_at(Function::Sqrt, x)?;
            let r = d.div(&x.add(x))?;
            Ok(r.neg())
        },
        Function::Sin => {
            let s = x.apply(Function::Sin)?;
            Ok(s.neg())
        },
        Function::Cos => {
            let c = x.apply(Function::Cos)?;
            Ok(c.neg())
        },
        Function::Tan => {
            let t = x.apply(Function::Tan)?;
            Ok(t.add(&t).mul(&one_plus_square_of(&t)))
        },
        Function::Sinh => x.apply(Function::Sinh),
        Function::Cosh => x.apply(Function::Cosh),
        Function::Tanh => {
            let t = x.apply(Function::Tanh)?;
            Ok(t.add(&t).mul(&one_minus_square_of(&t)).neg())
        },
        Function::Asin | Function::Acos => {
            let d = derivative_at(f, x)?;
            x.mul(&d).div(&one_minus_square_of(x))
        },
        Function::Atan => {
            let p = one_plus_square_of(x);
            let r = x.add(x).div(&p.mul(&p))?;
            Ok(r.neg())
        },
    }
}

/// Computes `n - 1`.
pub fn one_less_than<B: Scalar>(n: &B) -> (r: B)
    ensures
        r == one_less(*n),
{
    n.sub(&B::one())
}

/// Tells whether `n` equals zero by value.
pub fn is_zero<B: Scalar>(n: &B) -> (r: bool)
    ensures
        r == vanishes(*n),
{
    n.equals(&B::zero())
}

/// Evaluates the first derivative of the power with the constant exponent
/// `n` at `x`: zero for the exponent zero, and else failing exactly where `x`
/// cannot be raised to `n - 1`.
pub fn power_derivative_at<T: Elementary>(x: &T, n: &T::Base) -> (r: Outcome<T>)
    ensures
        r == power_derivative(*x, *n),
{
    if is_zero(n) {
        return Ok(T::zero());
    }
    let p = x.powf(&one_less_than(n))?;
    Ok(T::lift(n).mul(&p))
}

/// Evaluates the second derivative of the power with the constant exponent
/// `n` at `x`: zero for the exponents zero and one, and else failing exactly
/// where `x` cannot be raised to `n - 2`.
pub fn power_second_derivative_at<T: Elementary>(x: &T, n: &T::Base) -> (r: Outcome<T>)
    ensures
        r == power_second_derivative(*x, *n),
{
    let m = one_less_than(n);
    let factor = n.mul(&m);
    if is_zero(&factor) {
        return Ok(T::zero());
    }
    let p = x.powf(&one_less_than(&m))?;
    Ok(T::lift(&factor).mul(&p))
}

} // verus!
