use dualnum::dual::Dual;
use dualnum::dual2::Dual2;
use dualnum::rules::{
    derivative_at, power_derivative_at, power_second_derivative_at, second_derivative_at,
};
use dualnum::scalar::{powi, ArithmeticDomainError, Elementary, Function, Scalar};

/// Double precision as a scalar: nothing fails, out-of-domain operations give
/// infinities and NaN.
#[derive(Clone, Copy, Debug)]
struct Real(f64);

fn plain(x: f64, f: Function) -> f64 {
    match f {
        Function::Exp => x.exp(),
        Function::Ln => x.ln(),
        Function::Sqrt => x.sqrt(),
        Function::Sin => x.sin(),
        Function::Cos => x.cos(),
        Function::Tan => x.tan(),
        Function::Sinh => x.sinh(),
        Function::Cosh => x.cosh(),
        Function::Tanh => x.tanh(),
        Function::Asin => x.asin(),
        Function::Acos => x.acos(),
        Function::Atan => x.atan(),
    }
}

impl Scalar for Real {
    fn zero_value() -> Self {
        Real(0.0)
    }

    fn one_value() -> Self {
        Real(1.0)
    }

    fn sum(self, rhs: Self) -> Self {
        Real(self.0 + rhs.0)
    }

    fn difference(self, rhs: Self) -> Self {
        Real(self.0 - rhs.0)
    }

    fn product(self, rhs: Self) -> Self {
        Real(self.0 * rhs.0)
    }

    fn negation(self) -> Self {
        Real(-self.0)
    }

    fn quotient(self, rhs: Self) -> Result<Self, ArithmeticDomainError> {
        Ok(Real(self.0 / rhs.0))
    }

    fn same(self, rhs: Self) -> bool {
        self.0 == rhs.0
    }

    fn below(self, rhs: Self) -> bool {
        self.0 < rhs.0
    }

    fn failed(self) -> bool {
        self.0.is_nan()
    }

    fn zero() -> Self {
        Self::zero_value()
    }

    fn one() -> Self {
        Self::one_value()
    }

    fn add(&self, rhs: &Self) -> Self {
        self.sum(*rhs)
    }

    fn sub(&self, rhs: &Self) -> Self {
        self.difference(*rhs)
    }

    fn mul(&self, rhs: &Self) -> Self {
        self.product(*rhs)
    }

    fn neg(&self) -> Self {
        self.negation()
    }

    fn div(&self, rhs: &Self) -> Result<Self, ArithmeticDomainError> {
        self.quotient(*rhs)
    }

    fn equals(&self, rhs: &Self) -> bool {
        self.same(*rhs)
    }

    fn less_than(&self, rhs: &Self) -> bool {
        self.below(*rhs)
    }

    fn is_failed(&self) -> bool {
        self.failed()
    }
}

impl Elementary for Real {
    type Base = Real;

    fn lifted(c: Real) -> Self {
        c
    }

    fn raised(self, n: Real) -> Result<Self, ArithmeticDomainError> {
        Ok(Real(self.0.powf(n.0)))
    }

    fn lift(c: &Real) -> Self {
        *c
    }

    fn powf(&self, n: &Real) -> Result<Self, ArithmeticDomainError> {
        self.raised(*n)
    }

    fn image(self, f: Function) -> Result<Self, ArithmeticDomainError> {
        Ok(Real(plain(self.0, f)))
    }

    fn apply(&self, f: Function) -> Result<Self, ArithmeticDomainError> {
        self.image(f)
    }
}

const ALL: [Function; 12] = [
    Function::Exp,
    Function::Ln,
    Function::Sqrt,
    Function::Sin,
    Function::Cos,
    Function::Tan,
    Function::Sinh,
    Function::Cosh,
    Function::Tanh,
    Function::Asin,
    Function::Acos,
    Function::Atan,
];

const SAMPLES: [f64; 5] = [0.125, 0.3, 0.5, 0.7, 0.9];

fn close(a: f64, b: f64, tolerance: f64) -> bool {
    (a - b).abs() <= tolerance * (1.0 + a.abs().max(b.abs()))
}

/// The closed-form first derivative, written independently of the rule table.
fn closed_first(x: f64, f: Function) -> f64 {
    match f {
        Function::Exp => x.exp(),
        Function::Ln => 1.0 / x,
        Function::Sqrt => 0.5 / x.sqrt(),
        Function::Sin => x.cos(),
        Function::Cos => -x.sin(),
        Function::Tan => 1.0 / (x.cos() * x.cos()),
        Function::Sinh => x.cosh(),
        Function::Cosh => x.sinh(),
        Function::Tanh => 1.0 / (x.cosh() * x.cosh()),
        Function::Asin => 1.0 / (1.0 - x * x).sqrt(),
        Function::Acos => -1.0 / (1.0 - x * x).sqrt(),
        Function::Atan => 1.0 / (1.0 + x * x),
    }
}

/// The closed-form second derivative, written independently of the rule table.
fn closed_second(x: f64, f: Function) -> f64 {
    match f {
        Function::Exp => x.exp(),
        Function::Ln => -1.0 / (x * x),
        Function::Sqrt => -0.25 / (x * x.sqrt()),
        Function::Sin => -x.sin(),
        Function::Cos => -x.cos(),
        Function::Tan => 2.0 * x.sin() / (x.cos() * x.cos() * x.cos()),
        Function::Sinh => x.sinh(),
        Function::Cosh => x.cosh(),
        Function::Tanh => -2.0 * x.tanh() / (x.cosh() * x.cosh()),
        Function::Asin => x / (1.0 - x * x).powf(1.5),
        Function::Acos => -x / (1.0 - x * x).powf(1.5),
        Function::Atan => -2.0 * x / ((1.0 + x * x) * (1.0 + x * x)),
    }
}

#[test]
fn unit_tangent_gives_first_derivative() {
    for f in ALL {
        for x in SAMPLES {
            let y = Dual::from_variable(Real(x)).apply(f).unwrap();
            assert_eq!(y.value().0, plain(x, f));
            assert!(close(y.tangent().0, closed_first(x, f), 1e-12), "{:?} at {}", f, x);
            let h = 1e-6;
            let slope = (plain(x + h, f) - plain(x - h, f)) / (2.0 * h);
            assert!(close(y.tangent().0, slope, 1e-6), "{:?} at {}", f, x);
        }
    }
}

#[test]
fn unit_tangent_gives_second_derivative() {
    for f in ALL {
        for x in SAMPLES {
            let y = Dual2::from_variable(Real(x)).apply(f).unwrap();
            assert_eq!(y.value().0, plain(x, f));
            assert!(close(y.first_derivative().0, closed_first(x, f), 1e-12));
            assert!(close(y.second_derivative().0, closed_second(x, f), 1e-12), "{:?} at {}", f, x);
        }
    }
}

#[test]
fn rule_table_matches_closed_forms() {
    for f in ALL {
        for x in SAMPLES {
            let d1 = derivative_at(f, &Real(x)).unwrap();
            let d2 = second_derivative_at(f, &Real(x)).unwrap();
            assert!(close(d1.0, closed_first(x, f), 1e-12));
            assert!(close(d2.0, closed_second(x, f), 1e-12));
        }
    }
}

#[test]
fn second_order_chain_rule_of_a_composition() {
    // h(x) = exp(sin x): h' = cos x exp(sin x), h'' = (cos² x - sin x) exp(sin x)
    let x = 0.4_f64;
    let inner = Dual2::from_variable(Real(x)).apply(Function::Sin).unwrap();
    let h = inner.apply(Function::Exp).unwrap();
    let e = x.sin().exp();
    assert!(close(h.value().0, e, 1e-14));
    assert!(close(h.first_derivative().0, x.cos() * e, 1e-14));
    assert!(close(h.second_derivative().0, (x.cos() * x.cos() - x.sin()) * e, 1e-14));
}

#[test]
fn hyper_dual_agrees_with_dual_on_first_order() {
    let a = Dual2::new(Real(1.5), Real(-0.75), Real(0.0));
    let b = Dual2::new(Real(0.6), Real(2.0), Real(0.0));
    let (da, db) = (a.to_dual(), b.to_dual());
    let pairs = [
        (a.add(&b), da.add(&db)),
        (a.sub(&b), da.sub(&db)),
        (a.mul(&b), da.mul(&db)),
        (a.div(&b).unwrap(), da.div(&db).unwrap()),
        (a.neg(), da.neg()),
    ];
    for (h, d) in pairs {
        assert_eq!(h.value().0, d.value().0);
        assert_eq!(h.first_derivative().0, d.tangent().0);
    }
    for f in ALL {
        let x = Dual2::new(Real(0.6), Real(2.0), Real(0.0));
        let h = x.apply(f).unwrap();
        let d = x.to_dual().apply(f).unwrap();
        assert_eq!(h.value().0, d.value().0);
        assert_eq!(h.first_derivative().0, d.tangent().0);
    }
}

#[test]
fn product_then_quotient_restores_the_tangent() {
    for a in [-3.0, 0.0, 0.5, 7.0] {
        for b in [-2.0, 0.25, 1.0, 8.0] {
            let x = Dual::new(Real(a), Real(1.0));
            let y = Dual::new(Real(b), Real(1.0));
            let r = x.mul(&y).div(&y).unwrap();
            assert_eq!(r.value().0, a);
            assert!(close(r.tangent().0, 1.0, 1e-14));
        }
    }
}

#[test]
fn quotient_rule_values() {
    // (3 + 2e) / (4 + 5e): value 3/4, tangent (2*4 - 3*5) / 16
    let q = Dual::new(Real(3.0), Real(2.0)).div(&Dual::new(Real(4.0), Real(5.0))).unwrap();
    assert_eq!(q.value().0, 0.75);
    assert_eq!(q.tangent().0, -0.4375);
    // hyper-dual: a = x², b = x at x = 2, so a / b = x with derivatives 1 and 0
    let a = Dual2::new(Real(4.0), Real(4.0), Real(2.0));
    let b = Dual2::new(Real(2.0), Real(1.0), Real(0.0));
    let r = a.div(&b).unwrap();
    assert_eq!(r.value().0, 2.0);
    assert_eq!(r.first_derivative().0, 1.0);
    assert_eq!(r.second_derivative().0, 0.0);
}

#[test]
fn mixed_partial_of_a_nested_tower() {
    // f(x, y) = sin(x y) + x² y: the outer level differentiates in x, the
    // inner one in y.
    let f = |x: Dual2<Dual<Real>>, y: Dual2<Dual<Real>>| {
        x.mul(&y).apply(Function::Sin).unwrap().add(&x.mul(&x).mul(&y))
    };
    let plain_f = |x: f64, y: f64| (x * y).sin() + x * x * y;
    let (x0, y0) = (0.7_f64, 1.3_f64);
    let x = Dual2::from_variable(Dual::from_scalar(Real(x0)));
    let y = Dual2::from_scalar(Dual::from_variable(Real(y0)));
    let r = f(x, y);
    assert!(close(r.value().value().0, plain_f(x0, y0), 1e-14));
    let mixed = r.first_derivative().tangent().0;
    let exact = (x0 * y0).cos() - x0 * y0 * (x0 * y0).sin() + 2.0 * x0;
    assert!(close(mixed, exact, 1e-13));
    let h = 1e-4;
    let finite = (plain_f(x0 + h, y0 + h) - plain_f(x0 + h, y0 - h) - plain_f(x0 - h, y0 + h)
        + plain_f(x0 - h, y0 - h)) / (4.0 * h * h);
    assert!(close(mixed, finite, 1e-6));
    // ∂²f/∂x² and ∂³f/∂x²∂y ride along
    let fxx = -y0 * y0 * (x0 * y0).sin() + 2.0 * y0;
    assert!(close(r.second_derivative().value().0, fxx, 1e-13));
}

#[test]
fn zero_over_zero_is_nan_as_on_the_scalar() {
    let plain_quotient = Real(0.0).div(&Real(0.0)).unwrap();
    assert!(plain_quotient.0.is_nan());
    let q = Dual::new(Real(0.0), Real(1.0)).div(&Dual::new(Real(0.0), Real(1.0))).unwrap();
    assert!(q.value().0.is_nan());
    assert!(q.tangent().0.is_nan());
    let h = Dual2::from_variable(Real(0.0)).div(&Dual2::from_variable(Real(0.0))).unwrap();
    assert!(h.value().0.is_nan());
    assert!(h.first_derivative().0.is_nan());
    assert!(h.second_derivative().0.is_nan());
}

fn all_nan(y: Dual2<Real>) -> bool {
    y.value().0.is_nan() && y.first_derivative().0.is_nan() && y.second_derivative().0.is_nan()
}

#[test]
fn out_of_domain_logarithm_is_nan_in_every_component() {
    let y = Dual2::new(Real(-1.0), Real(1.0), Real(0.0)).apply(Function::Ln).unwrap();
    assert!(y.value().0.is_nan());
    assert!(y.first_derivative().0.is_nan());
    assert!(y.second_derivative().0.is_nan());
    let d = Dual::from_variable(Real(-1.0)).apply(Function::Ln).unwrap();
    assert!(d.value().0.is_nan());
    assert!(d.tangent().0.is_nan());
    let s = Dual::from_variable(Real(-4.0)).apply(Function::Sqrt).unwrap();
    assert!(s.value().0.is_nan());
    assert!(s.tangent().0.is_nan());
}

#[test]
fn a_failed_value_fails_every_derivative() {
    let outside = [
        (Function::Ln, -1.0),
        (Function::Sqrt, -4.0),
        (Function::Asin, 2.0),
        (Function::Acos, -3.0),
        (Function::Sin, f64::INFINITY),
        (Function::Exp, f64::NAN),
        (Function::Atan, f64::NAN),
    ];
    for (f, x) in outside {
        assert!(plain(x, f).is_nan());
        assert!(all_nan(Dual2::from_variable(Real(x)).apply(f).unwrap()), "{:?} at {}", f, x);
        let d = Dual::from_variable(Real(x)).apply(f).unwrap();
        assert!(d.value().0.is_nan() && d.tangent().0.is_nan());
        assert!(d.is_failed());
    }
    // a power outside its domain, and quotients that come out as NaN
    assert!(all_nan(Dual2::from_variable(Real(-8.0)).powf(&Real(0.5)).unwrap()));
    let inf = Dual2::new(Real(f64::INFINITY), Real(0.0), Real(0.0));
    assert!(all_nan(inf.div(&inf).unwrap()));
    let zero = Dual2::new(Real(0.0), Real(0.0), Real(0.0));
    assert!(all_nan(zero.div(&zero).unwrap()));
    // in a tower every slot of every level fails
    let t = Dual2::from_variable(Dual::from_variable(Real(-1.0))).apply(Function::Ln).unwrap();
    for slot in [t.value(), t.first_derivative(), t.second_derivative()] {
        assert!(slot.value().0.is_nan() && slot.tangent().0.is_nan());
    }
    // and where the value is a number, the derivatives are the rule's own
    let fine = Dual2::from_variable(Real(1.0)).apply(Function::Ln).unwrap();
    assert_eq!(
        (fine.value().0, fine.first_derivative().0, fine.second_derivative().0),
        (0.0, 1.0, -1.0)
    );
    assert!(!fine.is_failed());
}

#[test]
fn small_exponents_at_zero() {
    // x^0 at 0 is the constant one
    let y = Dual2::from_variable(Real(0.0)).powf(&Real(0.0)).unwrap();
    assert_eq!((y.value().0, y.first_derivative().0, y.second_derivative().0), (1.0, 0.0, 0.0));
    // x^1 at 0 is x
    let y = Dual2::from_variable(Real(0.0)).powf(&Real(1.0)).unwrap();
    assert_eq!((y.value().0, y.first_derivative().0, y.second_derivative().0), (0.0, 1.0, 0.0));
    // x^2 at 0
    let y = Dual2::from_variable(Real(0.0)).powf(&Real(2.0)).unwrap();
    assert_eq!((y.value().0, y.first_derivative().0, y.second_derivative().0), (0.0, 0.0, 2.0));
    let d = Dual::from_variable(Real(0.0)).powf(&Real(0.0)).unwrap();
    assert_eq!((d.value().0, d.tangent().0), (1.0, 0.0));
    assert_eq!(power_derivative_at(&Real(0.0), &Real(0.0)).unwrap().0, 0.0);
    assert_eq!(power_second_derivative_at(&Real(0.0), &Real(1.0)).unwrap().0, 0.0);
    assert_eq!(power_second_derivative_at(&Real(0.0), &Real(0.0)).unwrap().0, 0.0);
    // away from zero the same exponents agree with the general rule
    let y = Dual2::from_variable(Real(3.0)).powf(&Real(1.0)).unwrap();
    assert_eq!((y.value().0, y.first_derivative().0, y.second_derivative().0), (3.0, 1.0, 0.0));
}

#[test]
fn round_trip_within_tolerance() {
    for a in [-1.0e6_f64, -3.7, -1.0e-3, 0.0, 2.5e-4, 1.0, 123.456, 9.9e7] {
        for b in [-8.1e5_f64, -2.0, -1.0e-4, 3.0e-3, 0.3, 1.0, 17.0, 4.4e6] {
            let scale = 1.0 + (a / b).abs();
            let x = Dual::new(Real(a), Real(1.0));
            let y = Dual::new(Real(b), Real(1.0));
            let r = x.mul(&y).div(&y).unwrap();
            assert!((r.value().0 - a).abs() <= 1e-12 * (1.0 + a.abs()), "{} {}", a, b);
            assert!((r.tangent().0 - 1.0).abs() <= 1e-12 * scale, "{} {}", a, b);
            let hx = Dual2::new(Real(a), Real(1.0), Real(0.0));
            let hy = Dual2::new(Real(b), Real(1.0), Real(0.0));
            let h = hx.mul(&hy).div(&hy).unwrap();
            assert!((h.value().0 - a).abs() <= 1e-12 * (1.0 + a.abs()));
            assert!((h.first_derivative().0 - 1.0).abs() <= 1e-12 * scale);
            assert!(h.second_derivative().0.abs() <= 1e-12 * scale * (1.0 + 1.0 / b.abs()));
        }
    }
}

#[test]
fn product_of_two_variables_in_a_tower() {
    for (x0, y0) in [(2.0, 5.0), (-0.75, 3.5), (0.0, 0.0), (1.0e3, -4.0)] {
        let x = Dual2::new(
            Dual::new(Real(x0), Real(0.0)),
            Dual::new(Real(1.0), Real(0.0)),
            Dual::new(Real(0.0), Real(0.0)),
        );
        let y = Dual2::new(
            Dual::new(Real(y0), Real(1.0)),
            Dual::new(Real(0.0), Real(0.0)),
            Dual::new(Real(0.0), Real(0.0)),
        );
        let r = x.mul(&y);
        assert_eq!((r.value().value().0, r.value().tangent().0), (x0 * y0, x0));
        assert_eq!((r.first_derivative().value().0, r.first_derivative().tangent().0), (y0, 1.0));
        assert_eq!((r.second_derivative().value().0, r.second_derivative().tangent().0), (0.0, 0.0));
    }
}

#[test]
fn tower_with_zero_inner_tangents_is_the_plain_number() {
    let plain_a = Dual2::new(Real(1.5), Real(-2.0), Real(0.25));
    let plain_b = Dual2::new(Real(0.5), Real(4.0), Real(3.0));
    let up = |h: Dual2<Real>| {
        Dual2::new(
            Dual::from_scalar(h.value()),
            Dual::from_scalar(h.first_derivative()),
            Dual::from_scalar(h.second_derivative()),
        )
    };
    let pairs = [
        (up(plain_a).add(&up(plain_b)), plain_a.add(&plain_b)),
        (up(plain_a).sub(&up(plain_b)), plain_a.sub(&plain_b)),
        (up(plain_a).mul(&up(plain_b)), plain_a.mul(&plain_b)),
        (up(plain_a).div(&up(plain_b)).unwrap(), plain_a.div(&plain_b).unwrap()),
        (up(plain_a).apply(Function::Exp).unwrap(), plain_a.apply(Function::Exp).unwrap()),
    ];
    for (tower, plain) in pairs {
        assert_eq!(tower.value().value().0, plain.value().0);
        assert_eq!(tower.first_derivative().value().0, plain.first_derivative().0);
        assert_eq!(tower.second_derivative().value().0, plain.second_derivative().0);
        assert_eq!(tower.value().tangent().0, 0.0);
        assert_eq!(tower.first_derivative().tangent().0, 0.0);
        assert_eq!(tower.second_derivative().tangent().0, 0.0);
    }
}

#[test]
fn cube_at_two() {
    let x = Dual2::new(Real(2.0), Real(1.0), Real(0.0));
    for y in [x.mul(&x).mul(&x), powi(&x, 3)] {
        assert_eq!(y.value().0, 8.0);
        assert_eq!(y.first_derivative().0, 12.0);
        assert_eq!(y.second_derivative().0, 12.0);
    }
    let d = powi(&Dual::new(Real(2.0), Real(1.0)), 3);
    assert_eq!(d.value().0, 8.0);
    assert_eq!(d.tangent().0, 12.0);
}

#[test]
fn sine_at_zero() {
    let y = Dual2::new(Real(0.0), Real(1.0), Real(0.0)).apply(Function::Sin).unwrap();
    assert_eq!(y.value().0, 0.0);
    assert_eq!(y.first_derivative().0, 1.0);
    assert_eq!(y.second_derivative().0, 0.0);
    let d = Dual::new(Real(0.0), Real(1.0)).apply(Function::Sin).unwrap();
    assert_eq!(d.value().0, 0.0);
    assert_eq!(d.tangent().0, 1.0);
}

#[test]
fn comparison_ignores_the_derivatives() {
    let a = Dual::new(Real(1.0), Real(5.0));
    let b = Dual::new(Real(1.0), Real(-3.0));
    let c = Dual::new(Real(2.0), Real(-3.0));
    assert!(a.equals(&b));
    assert!(!a.less_than(&b));
    assert!(a.less_than(&c));
    assert!(!b.equals(&c));
    let p = Dual2::new(Real(1.0), Real(5.0), Real(9.0));
    let q = Dual2::new(Real(1.0), Real(0.0), Real(0.0));
    assert!(p.equals(&q));
    assert!(!p.less_than(&q));
    assert!(Dual2::new(Real(0.5), Real(0.0), Real(0.0)).less_than(&p));
}

#[test]
fn scalar_operands_count_as_constants() {
    let a = Dual::new(Real(3.0), Real(2.0));
    let s = a.add_scalar(&Real(4.0));
    assert_eq!((s.value().0, s.tangent().0), (7.0, 2.0));
    let d = a.sub_scalar(&Real(4.0));
    assert_eq!((d.value().0, d.tangent().0), (-1.0, 2.0));
    let m = a.mul_scalar(&Real(4.0));
    assert_eq!((m.value().0, m.tangent().0), (12.0, 8.0));
    let q = a.div_scalar(&Real(4.0)).unwrap();
    assert_eq!((q.value().0, q.tangent().0), (0.75, 0.5));
    let h = Dual2::new(Real(3.0), Real(2.0), Real(1.0));
    let hm = h.mul_scalar(&Real(4.0));
    assert_eq!((hm.value().0, hm.first_derivative().0, hm.second_derivative().0), (12.0, 8.0, 4.0));
    let hq = h.div_scalar(&Real(4.0)).unwrap();
    assert_eq!((hq.value().0, hq.first_derivative().0, hq.second_derivative().0), (0.75, 0.5, 0.25));
    let hs = h.add_scalar(&Real(1.0)).sub_scalar(&Real(2.0));
    assert_eq!((hs.value().0, hs.first_derivative().0, hs.second_derivative().0), (2.0, 2.0, 1.0));
}

#[test]
fn real_powers() {
    let x = Dual2::from_variable(Real(2.0));
    let cube = x.powf(&Real(3.0)).unwrap();
    assert_eq!(cube.value().0, 8.0);
    assert_eq!(cube.first_derivative().0, 12.0);
    assert_eq!(cube.second_derivative().0, 12.0);
    for n in [-1.5, 0.5, 2.5] {
        for x in SAMPLES {
            let y = Dual2::from_variable(Real(x)).powf(&Real(n)).unwrap();
            assert_eq!(y.value().0, x.powf(n));
            assert!(close(y.first_derivative().0, n * x.powf(n - 1.0), 1e-13));
            assert!(close(y.second_derivative().0, n * (n - 1.0) * x.powf(n - 2.0), 1e-13));
            let d = Dual::from_variable(Real(x)).powf(&Real(n)).unwrap();
            assert_eq!(d.value().0, y.value().0);
            assert_eq!(d.tangent().0, y.first_derivative().0);
            assert_eq!(power_derivative_at(&Real(x), &Real(n)).unwrap().0, d.tangent().0);
            assert_eq!(
                power_second_derivative_at(&Real(x), &Real(n)).unwrap().0,
                y.second_derivative().0
            );
        }
    }
    // the chain rule through an inner function: (3x)^2 at x = 1 is 9, 18, 18
    let inner = Dual2::from_variable(Real(1.0)).mul_scalar(&Real(3.0));
    let y = inner.powf(&Real(2.0)).unwrap();
    assert_eq!((y.value().0, y.first_derivative().0, y.second_derivative().0), (9.0, 18.0, 18.0));
}

#[test]
fn constants_lift_through_a_tower() {
    let c: Dual2<Dual<Real>> = Elementary::lift(&Real(2.5));
    assert_eq!(c.value().value().0, 2.5);
    assert_eq!(c.value().tangent().0, 0.0);
    assert_eq!(c.first_derivative().value().0, 0.0);
    assert_eq!(c.second_derivative().value().0, 0.0);
    // x^3 y with the power in a tower: fxy = 3 x² at (2, 5)
    let x = Dual2::from_variable(Dual::from_scalar(Real(2.0)));
    let y = Dual2::from_scalar(Dual::from_variable(Real(5.0)));
    let f = x.powf(&Real(3.0)).unwrap().mul(&y);
    assert_eq!(f.value().value().0, 40.0);
    assert_eq!(f.first_derivative().tangent().0, 12.0);
    assert_eq!(f.second_derivative().value().0, 60.0);
}
