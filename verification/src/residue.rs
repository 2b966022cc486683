//! The integers modulo 2^64: an exact scalar on machine words.

use vstd::prelude::*;
use vstd::arithmetic::div_mod::{
    lemma_add_mod_noop,
    lemma_mod_mod,
    lemma_mod_multiples_vanish,
    lemma_mul_mod_noop_general,
};
use vstd::arithmetic::mul::{lemma_mul_is_associative, lemma_mul_is_distributive_add_other_way};
use crate::scalar::{ArithmeticDomainError, Exact, Outcome, Scalar};

verus! {

/// 2^64.
pub const MODULUS: u128 = 0x1_0000_0000_0000_0000;

/// An integer modulo 2^64, held as its least non-negative representative.
///
/// Sum, difference, product and negation never fail and obey the laws of a
/// commutative ring. The divisors are the odd residues: each has exactly one
/// reciprocal, and dividing by an even residue is a domain error.
#[derive(Clone, Copy, Debug, PartialEq, Eq, Structural)]
pub struct Residue(pub u64);

impl View for Residue {
    type V = int;

    open spec fn view(&self) -> int {
        self.0 as int
    }
}

/// The residue of an integer.
pub open spec fn reduce(n: int) -> Residue {
    Residue((n % (MODULUS as int)) as u64)
}

impl Residue {
    /// The residue whose product with `self` is one, where there is one.
    pub open spec fn reciprocal(self) -> Residue {
        choose|x: Residue| self.product(x) == Residue(1)
    }

    pub fn new(rep: u64) -> (r: Self)
        ensures
            r == Residue(rep),
    {
        Residue(rep)
    }

    /// The residue of a signed integer.
    pub fn from_signed(n: i64) -> (r: Self)
        ensures
            r == reduce(n as int),
    {
        if n >= 0 {
            Residue(n as u64)
        } else {
            Residue((MODULUS - ((-(n as i128)) as u128)) as u64)
        }
    }

    /// The least non-negative representative.
    pub fn rep(&self) -> (r: u64)
        ensures
            r == self.0,
    {
        self.0
    }

    /// The reciprocal of an odd residue; a domain error for an even one.
    pub fn invert(&self) -> (r: Outcome<Self>)
        ensures
            r == Residue(1).quotient(*self),
    {
        if self.0 % 2 == 1 {
            let two = Residue(2);
            let x1 = self.mul(&two.sub(&self.mul(self)));
            let x2 = x1.mul(&two.sub(&self.mul(&x1)));
            let x3 = x2.mul(&two.sub(&self.mul(&x2)));
            let x4 = x3.mul(&two.sub(&self.mul(&x3)));
            let x5 = x4.mul(&two.sub(&self.mul(&x4)));
            proof {
                lemma_newton_reciprocal(*self);
                lemma_reciprocal_is(*self, x5);
                assert(Residue(1).product(x5) == x5);
            }
            Ok(x5)
        } else {
            Err(ArithmeticDomainError)
        }
    }
}

/// One step of Newton's iteration for the reciprocal of `b`:
/// `x * (2 - b * x)`.
pub open spec fn newton(b: Residue, x: Residue) -> Residue {
    x.product(Residue(2).difference(b.product(x)))
}

/// Five steps of Newton's iteration, started at `b` itself.
pub open spec fn newton_reciprocal(b: Residue) -> Residue {
    newton(b, newton(b, newton(b, newton(b, newton(b, b)))))
}

/// Newton's iteration doubles the number of low bits on which the product
/// with `b` is one: 3 for an odd `b` itself, then 6, 12, 24, 48 and all 64.
pub proof fn lemma_newton_reciprocal(b: Residue)
    requires
        b@ % 2 == 1,
    ensures
        b.product(newton_reciprocal(b)) == Residue(1),
{
    let x1 = newton(b, b);
    let x2 = newton(b, x1);
    let x3 = newton(b, x2);
    let x4 = newton(b, x3);
    let x5 = newton(b, x4);
    lemma_square_of_odd(b@);
    lemma_newton_step(b@, b@, 8, 64, x1@);
    lemma_newton_step(b@, x1@, 64, 4096, x2@);
    lemma_newton_step(b@, x2@, 4096, 0x100_0000, x3@);
    lemma_newton_step(b@, x3@, 0x100_0000, 0x1_0000_0000_0000, x4@);
    lemma_newton_step(b@, x4@, 0x1_0000_0000_0000, MODULUS as int, x5@);
}

/// The square of an odd integer is one modulo eight.
proof fn lemma_square_of_odd(b: int)
    requires
        b % 2 == 1,
    ensures
        (b * b) % 8 == 1,
{
    let r = b % 8;
    lemma_mul_mod_noop_general(b, b, 8);
    assert(r == 1 || r == 3 || r == 5 || r == 7);
    assert((r * r) % 8 == 1) by {
        if r == 1 {
            assert(r * r == 1);
        } else if r == 3 {
            assert(r * r == 9);
        } else if r == 5 {
            assert(r * r == 25);
        } else {
            assert(r * r == 49);
        }
    }
}

/// One step of Newton's iteration for the reciprocal: where `x` inverts `b`
/// modulo `p`, `x * (2 - b * x)` inverts `b` modulo every `q` that divides
/// both `p * p` and the modulus.
proof fn lemma_newton_step(b: int, x: int, p: int, q: int, y: int)
    requires
        p > 0,
        q > 1,
        (MODULUS as int) % q == 0,
        (p * p) % q == 0,
        (b * x) % p == 1,
        y == (x * ((2 - (b * x) % (MODULUS as int)) % (MODULUS as int))) % (MODULUS as int),
    ensures
        (b * y) % q == 1,
{
    let m = MODULUS as int;
    let s = b * x;
    let e = s / p;
    let k1 = s / m;
    let t = s % m;
    let k2 = (2 - t) / m;
    let u = (2 - t) % m;
    let k3 = (x * u) / m;
    let c1 = (p * p) / q;
    let c2 = m / q;
    assert(s == p * e + 1) by {
        vstd::arithmetic::div_mod::lemma_fundamental_div_mod(s, p);
    }
    assert(t == s - m * k1) by {
        vstd::arithmetic::div_mod::lemma_fundamental_div_mod(s, m);
    }
    assert(u == 2 - t - m * k2) by {
        vstd::arithmetic::div_mod::lemma_fundamental_div_mod(2 - t, m);
    }
    assert(y == x * u - m * k3) by {
        vstd::arithmetic::div_mod::lemma_fundamental_div_mod(x * u, m);
    }
    assert(p * p == q * c1) by {
        vstd::arithmetic::div_mod::lemma_fundamental_div_mod(p * p, q);
    }
    assert(m == q * c2) by {
        vstd::arithmetic::div_mod::lemma_fundamental_div_mod(m, q);
    }
    let w = k1 - k2;
    assert(u == 2 - s + m * w) by (nonlinear_arith)
        requires
            u == 2 - t - m * k2,
            t == s - m * k1,
            w == k1 - k2,
    ;
    assert(s * (2 - s) == 1 - (p * p) * (e * e)) by (nonlinear_arith)
        requires
            s == p * e + 1,
    ;
    assert(s * u == s * (2 - s) + m * (s * w)) by (nonlinear_arith)
        requires
            u == 2 - s + m * w,
    ;
    assert(b * y == s * u - m * (b * k3)) by (nonlinear_arith)
        requires
            y == x * u - m * k3,
            s == b * x,
    ;
    let ee = e * e;
    let sw = s * w;
    let bk = b * k3;
    assert((p * p) * ee == q * (c1 * ee)) by (nonlinear_arith)
        requires
            p * p == q * c1,
    ;
    assert(m * sw == q * (c2 * sw)) by (nonlinear_arith)
        requires
            m == q * c2,
    ;
    assert(m * bk == q * (c2 * bk)) by (nonlinear_arith)
        requires
            m == q * c2,
    ;
    let z = c2 * sw - c2 * bk - c1 * ee;
    assert(q * z == q * (c2 * sw) - q * (c2 * bk) - q * (c1 * ee)) by (nonlinear_arith)
        requires
            z == c2 * sw - c2 * bk - c1 * ee,
    ;
    assert(b * y == q * z + 1);
    lemma_mod_multiples_vanish(z, 1, q);
    vstd::arithmetic::div_mod::lemma_small_mod(1, q as nat);
}

/// `(a * b) * c` and `a * (b * c)` have the same residue, also where the
/// inner products are reduced first.
proof fn lemma_product_associates(a: int, b: int, c: int)
    ensures
        reduce(reduce(a * b)@ * c) == reduce(a * reduce(b * c)@),
{
    let m = MODULUS as int;
    lemma_mul_mod_noop_general(a * b, c, m);
    lemma_mul_mod_noop_general(a, b * c, m);
    lemma_mul_is_associative(a, b, c);
}

/// A residue has at most one reciprocal.
pub proof fn lemma_reciprocal_unique(b: Residue, x: Residue, y: Residue)
    requires
        b.product(x) == Residue(1),
        b.product(y) == Residue(1),
    ensures
        x == y,
{
    assert(x@ * b@ == b@ * x@) by (nonlinear_arith);
    lemma_product_associates(x@, b@, y@);
    assert(reduce(1 * y@) == y);
    assert(reduce(x@ * 1) == x);
}

/// Whatever inverts `b` is its reciprocal.
pub proof fn lemma_reciprocal_is(b: Residue, x: Residue)
    requires
        b.product(x) == Residue(1),
    ensures
        b.reciprocal() == x,
{
    lemma_reciprocal_unique(b, x, b.reciprocal());
}

impl Scalar for Residue {
    open spec fn zero_value() -> Self {
        Residue(0)
    }

    open spec fn one_value() -> Self {
        Residue(1)
    }

    open spec fn sum(self, rhs: Self) -> Self {
        reduce(self@ + rhs@)
    }

    open spec fn difference(self, rhs: Self) -> Self {
        reduce(self@ - rhs@)
    }

    open spec fn product(self, rhs: Self) -> Self {
        reduce(self@ * rhs@)
    }

    open spec fn negation(self) -> Self {
        reduce(-self@)
    }

    /// The product with the reciprocal of an odd divisor; no even residue
    /// divides.
    open spec fn quotient(self, rhs: Self) -> Outcome<Self> {
        if rhs@ % 2 == 1 {
            Ok(self.product(rhs.reciprocal()))
        } else {
            Err(ArithmeticDomainError)
        }
    }

    open spec fn same(self, rhs: Self) -> bool {
        self@ == rhs@
    }

    /// The order of the least non-negative representatives.
    open spec fn below(self, rhs: Self) -> bool {
        self@ < rhs@
    }

    /// Every residue is a number.
    open spec fn failed(self) -> bool {
        false
    }

    fn zero() -> (r: Self) {
        Residue(0)
    }

    fn one() -> (r: Self) {
        Residue(1)
    }

    fn add(&self, rhs: &Self) -> (r: Self) {
        Residue(((self.0 as u128 + rhs.0 as u128) % MODULUS) as u64)
    }

    fn sub(&self, rhs: &Self) -> (r: Self) {
        Residue(((self.0 as u128 + MODULUS - rhs.0 as u128) % MODULUS) as u64)
    }

    fn mul(&self, rhs: &Self) -> (r: Self) {
        assert(self.0 as u128 * rhs.0 as u128 <= 0xffff_ffff_ffff_ffff * 0xffff_ffff_ffff_ffff)
            by (nonlinear_arith)
            requires
                self.0 as u128 <= 0xffff_ffff_ffff_ffff,
                rhs.0 as u128 <= 0xffff_ffff_ffff_ffff,
        ;
        Residue(((self.0 as u128 * rhs.0 as u128) % MODULUS) as u64)
    }

    fn neg(&self) -> (r: Self) {
        Residue(((MODULUS - self.0 as u128) % MODULUS) as u64)
    }

    fn div(&self, rhs: &Self) -> (r: Outcome<Self>) {
        let inverse = rhs.invert()?;
        proof {
            assert(Residue(1).product(rhs.reciprocal()) == rhs.reciprocal());
        }
        Ok(self.mul(&inverse))
    }

    fn equals(&self, rhs: &Self) -> (r: bool) {
        self.0 == rhs.0
    }

    fn less_than(&self, rhs: &Self) -> (r: bool) {
        self.0 < rhs.0
    }

    fn is_failed(&self) -> (r: bool) {
        false
    }
}

impl Exact for Residue {
    /// The odd residues.
    open spec fn invertible(self) -> bool {
        self@ % 2 == 1
    }

    proof fn never_failed(a: Self) {
    }

    proof fn sum_commutes(a: Self, b: Self) {
    }

    proof fn sum_associates(a: Self, b: Self, c: Self) {
    }

    proof fn sum_zero(a: Self) {
    }

    proof fn sum_then_difference(a: Self, b: Self) {
    }

    proof fn sum_of_negation(a: Self, b: Self) {
    }

    proof fn product_commutes(a: Self, b: Self) {
        assert(a@ * b@ == b@ * a@) by (nonlinear_arith);
    }

    proof fn product_associates(a: Self, b: Self, c: Self) {
        lemma_product_associates(a@, b@, c@);
    }

    proof fn product_one(a: Self) {
        assert(a@ * 1 == a@);
    }

    proof fn product_zero(a: Self) {
        assert(a@ * 0 == 0);
    }

    proof fn product_distributes(a: Self, b: Self, c: Self) {
        let m = MODULUS as int;
        lemma_mul_mod_noop_general(a@ + b@, c@, m);
        lemma_mul_is_distributive_add_other_way(c@, a@, b@);
        lemma_add_mod_noop(a@ * c@, b@ * c@, m);
    }

    proof fn quotient_defined(a: Self, b: Self) {
    }

    proof fn product_then_quotient(a: Self, b: Self) {
        let i = b.reciprocal();
        lemma_has_reciprocal(b);
        lemma_product_associates(a@, b@, i@);
        assert(reduce(a@ * 1) == a);
    }

    proof fn invertible_product(a: Self, b: Self) {
        let m = MODULUS as int;
        lemma_mod_mod(a@ * b@, 2, 0x8000_0000_0000_0000);
        lemma_mul_mod_noop_general(a@, b@, 2);
        let ra = a@ % 2;
        let rb = b@ % 2;
        assert(ra * rb == if ra == 1 && rb == 1 { 1int } else { 0int }) by (nonlinear_arith)
            requires
                ra == 0 || ra == 1,
                rb == 0 || rb == 1,
        ;
    }
}

/// Every odd residue has a reciprocal.
pub proof fn lemma_has_reciprocal(b: Residue)
    requires
        b.invertible(),
    ensures
        b.product(b.reciprocal()) == Residue(1),
{
    lemma_newton_reciprocal(b);
    lemma_reciprocal_is(b, newton_reciprocal(b));
}

/// No even residue has a reciprocal.
pub proof fn lemma_even_has_no_reciprocal(b: Residue, x: Residue)
    requires
        !b.invertible(),
    ensures
        b.product(x) != Residue(1),
{
    Residue::invertible_product(b, x);
}

} // verus!
