use dualnum::dual::Dual;
use dualnum::dual2::Dual2;
use dualnum::residue::Residue;
use dualnum::scalar::{powi, ArithmeticDomainError, Scalar};

fn r(n: i64) -> Residue {
    Residue::from_signed(n)
}

#[test]
fn residues_wrap_around() {
    assert_eq!(r(-1), Residue::new(u64::MAX));
    assert_eq!(r(-1).rep(), u64::MAX);
    assert_eq!(r(i64::MIN).rep(), 1u64 << 63);
    assert_eq!(Residue::new(u64::MAX).add(&r(1)), r(0));
    assert_eq!(r(3).sub(&r(5)), r(-2));
    assert_eq!(r(-4).mul(&r(-6)), r(24));
    assert_eq!(Residue::new(1 << 63).mul(&r(2)), r(0));
    assert_eq!(r(7).neg(), r(-7));
    assert_eq!(r(0).neg(), r(0));
    assert_eq!(Residue::zero(), r(0));
    assert_eq!(Residue::one(), r(1));
    assert!(r(2).equals(&r(2)));
    assert!(r(2).less_than(&r(-1)));
    assert!(!r(-1).less_than(&r(2)));
}

#[test]
fn odd_residues_have_reciprocals() {
    assert_eq!(r(1).invert(), Ok(r(1)));
    assert_eq!(r(-1).invert(), Ok(r(-1)));
    assert_eq!(r(3).invert(), Ok(Residue::new(0xaaaa_aaaa_aaaa_aaab)));
    for b in [3u64, 5, 7, 12345, 0xdead_beef_0000_0001, u64::MAX - 2] {
        let inverse = Residue::new(b).invert().unwrap();
        assert_ne!(inverse, Residue::new(b));
        assert_eq!(Residue::new(b).mul(&inverse), r(1));
        assert_eq!(r(42).mul(&Residue::new(b)).div(&Residue::new(b)), Ok(r(42)));
    }
    assert_eq!(r(15).div(&r(5)), Ok(r(3)));
    assert_eq!(r(-15).div(&r(5)), Ok(r(-3)));
}

#[test]
fn even_divisors_are_domain_errors() {
    assert_eq!(r(0).invert(), Err(ArithmeticDomainError));
    assert_eq!(r(2).invert(), Err(ArithmeticDomainError));
    assert_eq!(r(1).div(&r(0)), Err(ArithmeticDomainError));
    assert_eq!(r(8).div(&r(4)), Err(ArithmeticDomainError));
}

#[test]
fn division_by_zero_fails_at_every_order() {
    assert!(r(0).div(&r(0)).is_err());
    assert!(Dual::new(r(0), r(1)).div(&Dual::new(r(0), r(1))).is_err());
    assert!(Dual2::new(r(0), r(1), r(0)).div(&Dual2::new(r(0), r(1), r(0))).is_err());
    let tower = Dual2::from_variable(Dual::from_variable(r(0)));
    assert!(tower.div(&tower).is_err());
}

#[test]
fn exact_cube_at_two() {
    let y = powi(&Dual2::new(r(2), r(1), r(0)), 3);
    assert_eq!((y.value(), y.first_derivative(), y.second_derivative()), (r(8), r(12), r(12)));
    let d = powi(&Dual::new(r(2), r(1)), 3);
    assert_eq!((d.value(), d.tangent()), (r(8), r(12)));
    assert_eq!(powi(&r(2), 0), r(1));
    assert_eq!(powi(&r(2), 64), r(0));
    assert_eq!(powi(&r(-3), 3), r(-27));
}

#[test]
fn exact_product_rule() {
    // (3 + 2e)(5 + 7e) = 15 + (3*7 + 2*5)e
    let p = Dual::new(r(3), r(2)).mul(&Dual::new(r(5), r(7)));
    assert_eq!((p.value(), p.tangent()), (r(15), r(31)));
    // second order: a = (3, 2, 4), b = (5, 7, 6): v2 = 4*5 + 2*2*7 + 3*6
    let h = Dual2::new(r(3), r(2), r(4)).mul(&Dual2::new(r(5), r(7), r(6)));
    assert_eq!((h.value(), h.first_derivative(), h.second_derivative()), (r(15), r(31), r(66)));
    let s = Dual2::new(r(3), r(2), r(4)).add(&Dual2::new(r(5), r(7), r(6)));
    assert_eq!((s.value(), s.first_derivative(), s.second_derivative()), (r(8), r(9), r(10)));
    let d = Dual2::new(r(3), r(2), r(4)).sub(&Dual2::new(r(5), r(7), r(6)));
    assert_eq!((d.value(), d.first_derivative(), d.second_derivative()), (r(-2), r(-5), r(-2)));
    let n = Dual2::new(r(3), r(2), r(4)).neg();
    assert_eq!((n.value(), n.first_derivative(), n.second_derivative()), (r(-3), r(-2), r(-4)));
}

#[test]
fn exact_quotient_rule() {
    // x³ / x at x = 3 is x²: 9, 6, 2
    let x = Dual2::from_variable(r(3));
    let q = powi(&x, 3).div(&x).unwrap();
    assert_eq!((q.value(), q.first_derivative(), q.second_derivative()), (r(9), r(6), r(2)));
    // (6 + 5e) / (3 + e): value 2, tangent (5*3 - 6*1) / 9 = 1
    let d = Dual::new(r(6), r(5)).div(&Dual::new(r(3), r(1))).unwrap();
    assert_eq!((d.value(), d.tangent()), (r(2), r(1)));
}

#[test]
fn exact_round_trip_restores_the_variable() {
    for a in [-9i64, 0, 4, 1 << 40] {
        for b in [-7i64, 1, 3, 99] {
            let x = Dual::from_variable(r(a));
            let y = Dual::from_variable(r(b));
            let back = x.mul(&y).div(&y).unwrap();
            assert_eq!((back.value(), back.tangent()), (r(a), r(1)));
        }
    }
}

#[test]
fn exact_mixed_partial() {
    // f(x, y) = x² y³ at (3, 2): f = 72, fx = 48, fy = 108, fxy = 72, fxx = 16, fxxy = 24
    let x = Dual2::from_variable(Dual::from_scalar(r(3)));
    let y = Dual2::from_scalar(Dual::from_variable(r(2)));
    let f = powi(&x, 2).mul(&powi(&y, 3));
    assert_eq!(f.value().value(), r(72));
    assert_eq!(f.value().tangent(), r(108));
    assert_eq!(f.first_derivative().value(), r(48));
    assert_eq!(f.first_derivative().tangent(), r(72));
    assert_eq!(f.second_derivative().value(), r(16));
    assert_eq!(f.second_derivative().tangent(), r(24));
}

#[test]
fn chain_rule_from_given_derivatives() {
    // f0 = 10, f1 = 3, f2 = 5 at a number with v1 = 2, v2 = 7
    let x = Dual2::new(r(1), r(2), r(7));
    let y = x.chain_rule(r(10), r(3), r(5));
    assert_eq!((y.value(), y.first_derivative(), y.second_derivative()), (r(10), r(6), r(41)));
    let d = x.to_dual().chain_rule(r(10), r(3));
    assert_eq!((d.value(), d.tangent()), (r(10), r(6)));
}

#[test]
fn exact_round_trip_at_every_order() {
    let a = Dual2::new(r(11), r(-4), r(6));
    for b in [Dual2::new(r(3), r(8), r(-5)), Dual2::new(r(-1), r(0), r(2))] {
        let back = a.mul(&b).div(&b).unwrap();
        assert_eq!(
            (back.value(), back.first_derivative(), back.second_derivative()),
            (r(11), r(-4), r(6))
        );
    }
    // the same in a tower
    let x = Dual2::new(Dual::new(r(2), r(3)), Dual::new(r(5), r(7)), Dual::new(r(-1), r(4)));
    let y = Dual2::new(Dual::new(r(9), r(1)), Dual::new(r(0), r(6)), Dual::new(r(8), r(-2)));
    let back = x.mul(&y).div(&y).unwrap();
    assert_eq!((back.value().value(), back.value().tangent()), (r(2), r(3)));
    assert_eq!(
        (back.first_derivative().value(), back.first_derivative().tangent()),
        (r(5), r(7))
    );
    assert_eq!(
        (back.second_derivative().value(), back.second_derivative().tangent()),
        (r(-1), r(4))
    );
    // an even value divides nothing, whatever the derivatives hold
    assert!(a.div(&Dual2::new(r(6), r(1), r(1))).is_err());
}

#[test]
fn exact_products_associate_and_distribute() {
    let a = Dual2::new(r(2), r(-3), r(5));
    let b = Dual2::new(r(7), r(11), r(-13));
    let c = Dual2::new(r(-17), r(19), r(23));
    let parts = |x: Dual2<Residue>| (x.value(), x.first_derivative(), x.second_derivative());
    assert_eq!(parts(a.mul(&b).mul(&c)), parts(a.mul(&b.mul(&c))));
    assert_eq!(parts(a.mul(&b)), parts(b.mul(&a)));
    assert_eq!(parts(a.add(&b).mul(&c)), parts(a.mul(&c).add(&b.mul(&c))));
    assert_eq!(parts(a.mul(&Dual2::one())), parts(a));
    assert_eq!(parts(a.mul(&Dual2::zero())), parts(Dual2::zero()));
    assert_eq!(parts(a.add(&b).sub(&b)), parts(a));
    assert_eq!(parts(a.add(&b.neg())), parts(a.sub(&b)));
    assert_eq!(parts(a.add(&a.neg())), parts(Dual2::zero()));
}

#[test]
fn exact_power_rule() {
    // x⁵ at 3: 243, 5 * 81, 5 * 4 * 27
    let y = powi(&Dual2::from_variable(r(3)), 5);
    assert_eq!((y.value(), y.first_derivative(), y.second_derivative()), (r(243), r(405), r(540)));
    let d = powi(&Dual::from_variable(r(-2)), 4);
    assert_eq!((d.value(), d.tangent()), (r(16), r(-32)));
    // the chain rule through an inner tangent: g = 3 + 2e, g⁴ has the tangent 4 * 27 * 2
    let g = powi(&Dual::new(r(3), r(2)), 4);
    assert_eq!((g.value(), g.tangent()), (r(81), r(216)));
    let one = powi(&Dual2::from_variable(r(7)), 0);
    assert_eq!((one.value(), one.first_derivative(), one.second_derivative()), (r(1), r(0), r(0)));
    let same = powi(&Dual2::from_variable(r(7)), 1);
    assert_eq!((same.value(), same.first_derivative(), same.second_derivative()), (r(7), r(1), r(0)));
}

#[test]
fn no_residue_is_a_failed_value() {
    assert!(!r(0).is_failed());
    assert!(!r(-1).is_failed());
    assert!(!Dual::new(r(0), r(1)).is_failed());
    assert!(!Dual2::new(r(0), r(1), r(2)).is_failed());
}

#[test]
fn exact_product_of_two_variables_in_a_tower() {
    for (x0, y0) in [(2i64, 5i64), (-7, 3), (0, 0)] {
        let x = Dual2::from_variable(Dual::from_scalar(r(x0)));
        let y = Dual2::from_scalar(Dual::from_variable(r(y0)));
        let p = x.mul(&y);
        assert_eq!((p.value().value(), p.value().tangent()), (r(x0 * y0), r(x0)));
        assert_eq!((p.first_derivative().value(), p.first_derivative().tangent()), (r(y0), r(1)));
        assert_eq!((p.second_derivative().value(), p.second_derivative().tangent()), (r(0), r(0)));
    }
}
