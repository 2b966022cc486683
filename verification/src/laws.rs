//! Laws that relate the operations of the engine.

use vstd::prelude::*;
use crate::dual::Dual;
use crate::dual2::Dual2;
use crate::rules::{
    derivative,
    one_less,
    power_derivative,
    power_second_derivative,
    second_derivative,
    vanishes,
};
use crate::scalar::{power, ArithmeticDomainError, Elementary, Exact, Function, Scalar};

verus! {

/// The value and the first derivative of a hyper-dual result are those of the
/// dual engine on the first-order parts of the operands, whatever the
/// second-order terms hold: for sum, difference, product and negation.
pub proof fn first_order_of_arithmetic<T: Scalar>(a: Dual2<T>, b: Dual2<T>)
    ensures
        a.sum(b).first_order() == a.first_order().sum(b.first_order()),
        a.difference(b).first_order() == a.first_order().difference(b.first_order()),
        a.product(b).first_order() == a.first_order().product(b.first_order()),
        a.negation().first_order() == a.first_order().negation(),
{
}

/// A hyper-dual quotient has the first-order part that the dual engine
/// computes, and fails wherever the dual engine does.
pub proof fn first_order_of_quotient<T: Scalar>(a: Dual2<T>, b: Dual2<T>)
    ensures
        match a.quotient(b) {
            Ok(q) => a.first_order().quotient(b.first_order()) == Ok::<
                Dual<T>,
                ArithmeticDomainError,
            >(q.first_order()),
            Err(_) => true,
        },
        a.first_order().quotient(b.first_order()) is Err ==> a.quotient(b) is Err,
{
}

/// Over an exact scalar the hyper-dual quotient exists exactly where the dual
/// one does, and then has its value and first derivative.
pub proof fn first_order_of_exact_quotient<T: Exact>(a: Dual2<T>, b: Dual2<T>)
    ensures
        a.quotient(b) is Ok <==> a.first_order().quotient(b.first_order()) is Ok,
        a.quotient(b) is Ok ==> a.first_order().quotient(b.first_order()) == Ok::<
            Dual<T>,
            ArithmeticDomainError,
        >(a.quotient(b).unwrap().first_order()),
{
    let fa = a.first_order();
    let fb = b.first_order();
    if fa.quotient(fb) is Ok {
        let q = fa.quotient(fb).unwrap();
        T::quotient_defined(a.value, b.value);
        T::quotient_defined(
            a.v2.difference(q.tangent.product(b.v1).sum(q.tangent.product(b.v1))).difference(
                q.value.product(b.v2),
            ),
            b.value,
        );
    }
}

/// An elementary function of a hyper-dual number has the first-order part
/// that the dual engine computes, and fails wherever the dual engine does.
pub proof fn first_order_of_image<T: Elementary>(x: Dual2<T>, f: Function)
    ensures
        match x.image(f) {
            Ok(y) => x.first_order().image(f) == Ok::<Dual<T>, ArithmeticDomainError>(
                y.first_order(),
            ),
            Err(_) => true,
        },
        x.first_order().image(f) is Err ==> x.image(f) is Err,
{
}

/// A power of a hyper-dual number has the first-order part that the dual
/// engine computes, and fails wherever the dual engine does.
pub proof fn first_order_of_raised<T: Elementary>(x: Dual2<T>, n: T::Base)
    ensures
        match x.raised(n) {
            Ok(y) => x.first_order().raised(n) == Ok::<Dual<T>, ArithmeticDomainError>(
                y.first_order(),
            ),
            Err(_) => true,
        },
        x.first_order().raised(n) is Err ==> x.raised(n) is Err,
{
}

/// Seeded with the tangent one, the dual engine returns `f(x)` and `f'(x)`.
pub proof fn unit_tangent_gives_derivative<T: Elementary + Exact>(f: Function, x: T)
    ensures
        match Dual::variable(x).image(f) {
            Ok(y) => x.image(f) == Ok::<T, ArithmeticDomainError>(y.value) && derivative(f, x)
                == Ok::<T, ArithmeticDomainError>(y.tangent),
            Err(_) => x.image(f) is Err || derivative(f, x) is Err,
        },
{
    if x.image(f) is Ok {
        T::never_failed(x.image(f).unwrap());
    }
    if derivative(f, x) is Ok {
        T::product_one(derivative(f, x).unwrap());
    }
}

/// Seeded with the first derivative one and the second zero, the hyper-dual
/// engine returns `f(x)`, `f'(x)` and `f''(x)`.
pub proof fn unit_tangent_gives_second_derivative<T: Elementary + Exact>(f: Function, x: T)
    ensures
        match Dual2::variable(x).image(f) {
            Ok(y) => {
                &&& x.image(f) == Ok::<T, ArithmeticDomainError>(y.value)
                &&& derivative(f, x) == Ok::<T, ArithmeticDomainError>(y.v1)
                &&& second_derivative(f, x) == Ok::<T, ArithmeticDomainError>(y.v2)
            },
            Err(_) => x.image(f) is Err || derivative(f, x) is Err || second_derivative(f, x)
                is Err,
        },
{
    if x.image(f) is Ok {
        T::never_failed(x.image(f).unwrap());
    }
    if derivative(f, x) is Ok && second_derivative(f, x) is Ok {
        let f1 = derivative(f, x).unwrap();
        let f2 = second_derivative(f, x).unwrap();
        T::product_one(f1);
        T::product_one(T::one_value());
        T::product_one(f2);
        T::product_zero(f1);
        T::sum_zero(f2);
    }
}

/// Seeded with the first derivative one and the second zero, the engines
/// return `x^n`, `n x^(n-1)` and `n (n-1) x^(n-2)` for a constant exponent.
pub proof fn unit_tangent_gives_power_derivatives<T: Elementary + Exact>(x: T, n: T::Base)
    ensures
        match Dual::variable(x).raised(n) {
            Ok(y) => x.raised(n) == Ok::<T, ArithmeticDomainError>(y.value)
                && power_derivative(x, n) == Ok::<T, ArithmeticDomainError>(y.tangent),
            Err(_) => x.raised(n) is Err || power_derivative(x, n) is Err,
        },
        match Dual2::variable(x).raised(n) {
            Ok(y) => {
                &&& x.raised(n) == Ok::<T, ArithmeticDomainError>(y.value)
                &&& power_derivative(x, n) == Ok::<T, ArithmeticDomainError>(y.v1)
                &&& power_second_derivative(x, n) == Ok::<T, ArithmeticDomainError>(y.v2)
            },
            Err(_) => x.raised(n) is Err || power_derivative(x, n) is Err
                || power_second_derivative(x, n) is Err,
        },
{
    if x.raised(n) is Ok {
        T::never_failed(x.raised(n).unwrap());
    }
    if power_derivative(x, n) is Ok {
        let f1 = power_derivative(x, n).unwrap();
        T::product_one(f1);
        if power_second_derivative(x, n) is Ok {
            let f2 = power_second_derivative(x, n).unwrap();
            T::product_one(T::one_value());
            T::product_one(f2);
            T::product_zero(f1);
            T::sum_zero(f2);
        }
    }
}

/// Multiplying the variable at `a` by the variable at `b` and dividing by the
/// latter again restores the variable at `a`, tangent included, wherever `b`
/// may stand as a divisor.
pub proof fn product_then_quotient_restores<T: Exact>(a: T, b: T)
    requires
        b.invertible(),
    ensures
        Dual::variable(a).product(Dual::variable(b)).quotient(Dual::variable(b)) == Ok::<
            Dual<T>,
            ArithmeticDomainError,
        >(Dual::variable(a)),
        Dual::variable(a).product(Dual::variable(b)).quotient(Dual::variable(b)).unwrap().tangent
            == Dual::variable(a).tangent,
{
    Dual::<T>::product_then_quotient(Dual::variable(a), Dual::variable(b));
}

/// Dividing a product of dual or of hyper-dual numbers by one of its factors
/// restores the other, every derivative included, wherever the value of the
/// factor may stand as a divisor: the quotient rules undo the product rules.
pub proof fn product_then_quotient_restores_all<T: Exact>(
    a: Dual<T>,
    b: Dual<T>,
    c: Dual2<T>,
    d: Dual2<T>,
)
    requires
        b.value.invertible(),
        d.value.invertible(),
    ensures
        a.product(b).quotient(b) == Ok::<Dual<T>, ArithmeticDomainError>(a),
        c.product(d).quotient(d) == Ok::<Dual2<T>, ArithmeticDomainError>(c),
{
    Dual::<T>::product_then_quotient(a, b);
    Dual2::<T>::product_then_quotient(c, d);
}

/// `y` added up `n` times.
pub open spec fn multiple<T: Scalar>(y: T, n: nat) -> T
    decreases n,
{
    if n == 0 {
        T::zero_value()
    } else {
        multiple(y, (n - 1) as nat).sum(y)
    }
}

/// `(n y) * x` is `n (y * x)`.
pub proof fn multiple_of_product<T: Exact>(y: T, n: nat, x: T)
    ensures
        multiple(y, n).product(x) == multiple(y.product(x), n),
    decreases n,
{
    if n == 0 {
        T::product_commutes(T::zero_value(), x);
        T::product_zero(x);
    } else {
        multiple_of_product(y, (n - 1) as nat, x);
        T::product_distributes(multiple(y, (n - 1) as nat), y, x);
    }
}

/// The chain rule for powers follows from the product rule: over an exact
/// scalar, the power `n + 1` of a dual number `g` has the value `g^(n+1)` and
/// the tangent `(n + 1) g^n g'`.
pub proof fn power_chain_rule<T: Exact>(g: Dual<T>, n: nat)
    ensures
        power(g, n + 1).value == power(g.value, n + 1),
        power(g, n + 1).tangent == multiple(power(g.value, n), n + 1).product(g.tangent),
    decreases n,
{
    let x = g.value;
    let t = g.tangent;
    let p = power(g, n);
    let v = power(x, n);
    assert(power(g, n + 1) == p.product(g));
    assert(power(x, n + 1) == v.product(x));
    assert(multiple(v, n + 1) == multiple(v, n).sum(v));
    if n == 0 {
        assert(p == Dual::<T>::one_value());
        assert(v == T::one_value());
        assert(multiple(v, 0) == T::zero_value());
        T::product_commutes(T::zero_value(), x);
        T::product_zero(x);
        T::sum_zero(T::one_value().product(t));
        T::sum_zero(T::one_value());
        T::sum_commutes(T::one_value(), T::zero_value());
    } else {
        power_chain_rule(g, (n - 1) as nat);
        let below = power(x, (n - 1) as nat);
        let nb = multiple(below, n);
        assert(v == below.product(x));
        assert(p.value == v);
        assert(p.tangent == nb.product(t));
        // (n below t) x = (n below x) t = (n v) t
        T::product_associates(nb, t, x);
        T::product_commutes(t, x);
        T::product_associates(nb, x, t);
        multiple_of_product(below, n, x);
        assert(p.tangent.product(x) == multiple(v, n).product(t));
        // v t + (n v) t = ((n v) + v) t
        T::product_distributes(v, multiple(v, n), t);
        T::sum_commutes(v, multiple(v, n));
    }
}

/// The power rule: over an exact scalar, the power `n + 1` of the variable at
/// `x` has the value `x^(n+1)` and the tangent `(n + 1) x^n`.
pub proof fn power_rule<T: Exact>(x: T, n: nat)
    ensures
        power(Dual::variable(x), n + 1).value == power(x, n + 1),
        power(Dual::variable(x), n + 1).tangent == multiple(power(x, n), n + 1),
{
    power_chain_rule(Dual::variable(x), n);
    T::product_one(multiple(power(x, n), n + 1));
}

/// The first-order part of a power of a hyper-dual number is the power of its
/// first-order part.
pub proof fn first_order_of_power<T: Scalar>(x: Dual2<T>, n: nat)
    ensures
        power(x, n).first_order() == power(x.first_order(), n),
    decreases n,
{
    if n > 0 {
        first_order_of_power(x, (n - 1) as nat);
        first_order_of_arithmetic(power(x, (n - 1) as nat), x);
    }
}

/// `a y + b y` is `(a + b) y`.
pub proof fn multiple_of_sum<T: Exact>(y: T, a: nat, b: nat)
    ensures
        multiple(y, a).sum(multiple(y, b)) == multiple(y, a + b),
    decreases b,
{
    if b == 0 {
        T::sum_zero(multiple(y, a));
    } else {
        multiple_of_sum(y, a, (b - 1) as nat);
        T::sum_associates(multiple(y, a), multiple(y, (b - 1) as nat), y);
        assert(multiple(y, a + b) == multiple(y, (a + b - 1) as nat).sum(y));
    }
}

/// The second-order power rule follows from the product rule: over an exact
/// scalar, the power `n + 2` of the variable at `x` has the value `x^(n+2)`,
/// the first derivative `(n + 2) x^(n+1)` and the second derivative
/// `(n + 2) (n + 1) x^n`.
pub proof fn second_order_power_rule<T: Exact>(x: T, n: nat)
    ensures
        power(Dual2::variable(x), n + 2).value == power(x, n + 2),
        power(Dual2::variable(x), n + 2).v1 == multiple(power(x, n + 1), n + 2),
        power(Dual2::variable(x), n + 2).v2 == multiple(power(x, n), (n + 2) * (n + 1)),
    decreases n,
{
    let d = Dual2::variable(x);
    let zero = T::zero_value();
    let one = T::one_value();
    first_order_of_power(d, n + 2);
    power_rule(x, n + 1);
    let p = power(d, n + 1);
    assert(power(d, n + 2) == p.product(d));
    first_order_of_power(d, n + 1);
    power_rule(x, n);
    let y = power(x, n);
    // p.v2 * x + (p.v1 * 1 + p.v1 * 1) + p.value * 0
    T::product_one(p.v1);
    T::product_zero(p.value);
    T::sum_zero(p.v2.product(x).sum(p.v1.sum(p.v1)));
    assert(power(d, n + 2).v2 == p.v2.product(x).sum(p.v1.sum(p.v1)));
    assert(p.v1 == multiple(y, n + 1));
    multiple_of_sum(y, n + 1, n + 1);
    if n == 0 {
        assert(power(d, 0) == Dual2::<T>::one_value());
        assert(p == Dual2::<T>::one_value().product(d));
        Dual2::<T>::product_commutes(Dual2::<T>::one_value(), d);
        Dual2::<T>::product_one(d);
        assert(p.v2 == zero);
        T::product_commutes(zero, x);
        T::product_zero(x);
        T::sum_commutes(zero, multiple(y, 2));
        T::sum_zero(multiple(y, 2));
        assert((n + 2) * (n + 1) == 2) by (nonlinear_arith)
            requires
                n == 0,
        ;
    } else {
        let m = (n - 1) as nat;
        second_order_power_rule(x, m);
        let below = power(x, m);
        assert(y == below.product(x));
        assert(p.v2 == multiple(below, (n + 1) * n));
        multiple_of_product(below, (n + 1) * n, x);
        multiple_of_sum(y, (n + 1) * n, (n + 1) + (n + 1));
        assert((n + 1) * n + ((n + 1) + (n + 1)) == (n + 2) * (n + 1)) by (nonlinear_arith);
    }
}

/// The tower over the hyper-dual number `h` whose inner tangents are zero.
pub open spec fn inner_constants<T: Scalar>(h: Dual2<T>) -> Dual2<Dual<T>> {
    Dual2 {
        value: Dual::constant(h.value),
        v1: Dual::constant(h.v1),
        v2: Dual::constant(h.v2),
    }
}

/// A derivative fails wherever the value fails: where a quotient, an
/// elementary function or a power comes out with a failed value, every
/// derivative of the result is a failed value too, over every scalar and at
/// both orders.
pub proof fn failed_value_fails_every_derivative<T: Elementary>(
    a: Dual2<T>,
    b: Dual2<T>,
    f: Function,
    n: T::Base,
)
    ensures
        a.first_order().quotient(b.first_order()) matches Ok(q) ==> (q.value.failed()
            ==> q.tangent.failed()),
        a.quotient(b) matches Ok(q) ==> (q.value.failed() ==> q.v1.failed() && q.v2.failed()),
        a.first_order().image(f) matches Ok(y) ==> (y.value.failed() ==> y.tangent.failed()),
        a.image(f) matches Ok(y) ==> (y.value.failed() ==> y.v1.failed() && y.v2.failed()),
        a.first_order().raised(n) matches Ok(y) ==> (y.value.failed() ==> y.tangent.failed()),
        a.raised(n) matches Ok(y) ==> (y.value.failed() ==> y.v1.failed() && y.v2.failed()),
        a.value.quotient(b.value) matches Ok(v) ==> (v.failed() ==> a.quotient(b) == Ok::<
            Dual2<T>,
            ArithmeticDomainError,
        >(Dual2::failure(v))),
        a.value.image(f) matches Ok(v) ==> (v.failed() ==> a.image(f) == Ok::<
            Dual2<T>,
            ArithmeticDomainError,
        >(Dual2::failure(v))),
        a.value.raised(n) matches Ok(v) ==> (v.failed() ==> a.raised(n) == Ok::<
            Dual2<T>,
            ArithmeticDomainError,
        >(Dual2::failure(v))),
{
}

/// The derivatives of a power with a vanishing factor are zero, and do not
/// fail where the value does not: the first for the exponent zero, the second
/// where `n (n - 1)` is zero.
pub proof fn power_with_vanishing_factor<T: Elementary>(x: T, n: T::Base)
    ensures
        vanishes(n) ==> power_derivative(x, n) == Ok::<T, ArithmeticDomainError>(T::zero_value()),
        vanishes(n.product(one_less(n))) ==> power_second_derivative(x, n) == Ok::<
            T,
            ArithmeticDomainError,
        >(T::zero_value()),
{
}

/// Sum, difference, product, negation and quotient of constants are the
/// constants of the scalar results: the tangent stays zero.
pub proof fn constants_stay_constant<T: Exact>(a: T, b: T)
    ensures
        Dual::constant(a).sum(Dual::constant(b)) == Dual::constant(a.sum(b)),
        Dual::constant(a).difference(Dual::constant(b)) == Dual::constant(a.difference(b)),
        Dual::constant(a).product(Dual::constant(b)) == Dual::constant(a.product(b)),
        Dual::constant(a).negation() == Dual::constant(a.negation()),
        b.invertible() ==> Dual::constant(a).quotient(Dual::constant(b)) == Ok::<
            Dual<T>,
            ArithmeticDomainError,
        >(Dual::constant(a.quotient(b).unwrap())),
{
    let zero = T::zero_value();
    T::sum_zero(zero);
    T::sum_then_difference(zero, zero);
    T::product_zero(a);
    T::product_commutes(zero, b);
    T::product_zero(b);
    T::sum_of_negation(zero, zero);
    T::sum_commutes(zero, zero.negation());
    T::sum_zero(zero.negation());
    if b.invertible() {
        let bb = b.product(b);
        T::quotient_defined(a, b);
        T::never_failed(a.quotient(b).unwrap());
        T::invertible_product(b, b);
        T::product_commutes(zero, bb);
        T::product_zero(bb);
        T::product_then_quotient(zero, bb);
    }
}

/// A tower whose inner tangents are all zero computes what the plain
/// hyper-dual number computes: sum, difference, product and negation of
/// hyper-dual numbers of constants are the hyper-dual numbers of the constants
/// of the plain results.
pub proof fn tower_of_constants<T: Exact>(a: Dual2<T>, b: Dual2<T>)
    ensures
        inner_constants(a).sum(inner_constants(b)) == inner_constants(a.sum(b)),
        inner_constants(a).difference(inner_constants(b)) == inner_constants(a.difference(b)),
        inner_constants(a).product(inner_constants(b)) == inner_constants(a.product(b)),
        inner_constants(a).negation() == inner_constants(a.negation()),
{
    constants_stay_constant(a.value, b.value);
    constants_stay_constant(a.v1, b.v1);
    constants_stay_constant(a.v2, b.v2);
    constants_stay_constant(a.value, b.v1);
    constants_stay_constant(a.v1, b.value);
    constants_stay_constant(a.v2, b.value);
    constants_stay_constant(a.value, b.v2);
    constants_stay_constant(a.value.product(b.v1), a.v1.product(b.value));
    let cross = a.v1.product(b.v1);
    constants_stay_constant(cross, cross);
    constants_stay_constant(a.v2.product(b.value), cross.sum(cross));
    constants_stay_constant(a.v2.product(b.value).sum(cross.sum(cross)), a.value.product(b.v2));
}

/// A tower whose inner tangents are all zero divides as the plain hyper-dual
/// numbers do, wherever the value of the divisor is invertible.
pub proof fn tower_of_constants_quotient<T: Exact>(a: Dual2<T>, b: Dual2<T>)
    requires
        b.value.invertible(),
    ensures
        a.quotient(b) is Ok,
        inner_constants(a).quotient(inner_constants(b)) == Ok::<
            Dual2<Dual<T>>,
            ArithmeticDomainError,
        >(inner_constants(a.quotient(b).unwrap())),
{
    Dual2::<T>::quotient_defined(a, b);
    let q = a.quotient(b).unwrap();
    let bb = b.value.product(b.value);
    T::invertible_product(b.value, b.value);
    T::never_failed(q.value);
    // the value and the first derivative
    constants_stay_constant(a.value, b.value);
    constants_stay_constant(a.v1, b.value);
    constants_stay_constant(a.value, b.v1);
    constants_stay_constant(b.value, b.value);
    let top = a.v1.product(b.value).difference(a.value.product(b.v1));
    constants_stay_constant(a.v1.product(b.value), a.value.product(b.v1));
    constants_stay_constant(top, bb);
    Dual::<T>::never_failed(Dual::constant(q.value));
    Dual::<T>::never_failed(Dual::constant(q.v1));
    // the second derivative
    let step = q.v1.product(b.v1);
    constants_stay_constant(q.v1, b.v1);
    constants_stay_constant(step, step);
    constants_stay_constant(a.v2, step.sum(step));
    constants_stay_constant(q.value, b.v2);
    let rest = a.v2.difference(step.sum(step));
    constants_stay_constant(rest, q.value.product(b.v2));
    constants_stay_constant(rest.difference(q.value.product(b.v2)), b.value);
}

/// An elementary function or a power of a constant is a constant: every
/// derivative of the result is zero, at both orders.
pub proof fn functions_of_constants<T: Elementary + Exact>(x: T, f: Function, n: T::Base)
    ensures
        Dual::constant(x).image(f) matches Ok(y) ==> y == Dual::constant(x.image(f).unwrap()),
        Dual2::constant(x).image(f) matches Ok(y) ==> y == Dual2::constant(x.image(f).unwrap()),
        Dual::constant(x).raised(n) matches Ok(y) ==> y == Dual::constant(x.raised(n).unwrap()),
        Dual2::constant(x).raised(n) matches Ok(y) ==> y == Dual2::constant(
            x.raised(n).unwrap(),
        ),
{
    let zero = T::zero_value();
    T::product_zero(zero);
    T::sum_zero(zero);
    if x.image(f) is Ok {
        T::never_failed(x.image(f).unwrap());
    }
    if x.raised(n) is Ok {
        T::never_failed(x.raised(n).unwrap());
    }
    if derivative(f, x) is Ok {
        T::product_zero(derivative(f, x).unwrap());
    }
    if second_derivative(f, x) is Ok {
        T::product_zero(second_derivative(f, x).unwrap());
    }
    if power_derivative(x, n) is Ok {
        T::product_zero(power_derivative(x, n).unwrap());
    }
    if power_second_derivative(x, n) is Ok {
        T::product_zero(power_second_derivative(x, n).unwrap());
    }
}

/// The product of two variables in a tower: with `x` the variable of the
/// outer, hyper-dual level and `y` the variable of the inner, dual level, the
/// product has the value `x y` with the inner tangent `x`, the first
/// derivative `y` with the inner tangent one, which is the mixed partial, and
/// the second derivative zero.
pub proof fn mixed_partial_of_product<T: Exact>(x: T, y: T)
    ensures
        Dual2::variable(Dual::constant(x)).product(Dual2::constant(Dual::variable(y))) == (Dual2 {
            value: Dual { value: x.product(y), tangent: x },
            v1: Dual { value: y, tangent: T::one_value() },
            v2: Dual::<T>::zero_value(),
        }),
{
    let zero = T::zero_value();
    let one = T::one_value();
    let dz = Dual::<T>::zero_value();
    let cx = Dual::constant(x);
    let vy = Dual::variable(y);
    // value: (x, 0) (y, 1) = (x y, x 1 + 0 y)
    T::product_one(x);
    T::product_commutes(zero, y);
    T::product_zero(y);
    T::sum_zero(x);
    // v1: cx 0 + 1 vy = vy
    Dual::<T>::product_zero(cx);
    Dual::<T>::product_commutes(Dual::<T>::one_value(), vy);
    Dual::<T>::product_one(vy);
    Dual::<T>::sum_commutes(dz, vy);
    Dual::<T>::sum_zero(vy);
    // v2: 0 vy + (1 0 + 1 0) + cx 0 = 0
    Dual::<T>::product_commutes(dz, vy);
    Dual::<T>::product_zero(vy);
    Dual::<T>::product_zero(Dual::<T>::one_value());
    Dual::<T>::sum_zero(dz);
}

/// A quotient of dual or hyper-dual numbers fails wherever the quotient of
/// their values fails.
pub proof fn quotient_fails_with_value<T: Scalar>(a: Dual2<T>, b: Dual2<T>)
    requires
        a.value.quotient(b.value) is Err,
    ensures
        a.first_order().quotient(b.first_order()) is Err,
        a.quotient(b) is Err,
{
}

/// Over an exact scalar a quotient of dual or hyper-dual numbers fails only
/// where the quotient of their values fails.
pub proof fn quotient_fails_only_with_value<T: Exact>(a: Dual2<T>, b: Dual2<T>)
    ensures
        a.first_order().quotient(b.first_order()) is Ok <==> a.value.quotient(b.value) is Ok,
        a.quotient(b) is Ok <==> a.value.quotient(b.value) is Ok,
{
    T::quotient_defined(a.value, b.value);
    T::invertible_product(b.value, b.value);
    T::quotient_defined(
        a.v1.product(b.value).difference(a.value.product(b.v1)),
        b.value.product(b.value),
    );
    first_order_of_exact_quotient(a, b);
}

/// An elementary function of a dual or hyper-dual number fails wherever the
/// function fails at its value.
pub proof fn image_fails_with_value<T: Elementary>(x: Dual2<T>, f: Function)
    requires
        x.value.image(f) is Err,
    ensures
        x.first_order().image(f) is Err,
        x.image(f) is Err,
{
}

/// A power of a dual or hyper-dual number fails wherever the power of its
/// value fails.
pub proof fn power_fails_with_value<T: Elementary>(x: Dual2<T>, n: T::Base)
    requires
        x.value.raised(n) is Err,
    ensures
        x.first_order().raised(n) is Err,
        x.raised(n) is Err,
{
}

/// Equality and order look at the values alone: numbers with the same values
/// compare alike, whatever their derivatives hold.
pub proof fn comparison_ignores_derivatives<T: Scalar>(
    a: Dual2<T>,
    b: Dual2<T>,
    c: Dual2<T>,
    d: Dual2<T>,
)
    requires
        a.value == c.value,
        b.value == d.value,
    ensures
        a.same(b) == c.same(d),
        a.below(b) == c.below(d),
        a.same(b) == a.value.same(b.value),
        a.below(b) == a.value.below(b.value),
        a.first_order().same(b.first_order()) == c.first_order().same(d.first_order()),
        a.first_order().below(b.first_order()) == c.first_order().below(d.first_order()),
{
}

} // verus!
