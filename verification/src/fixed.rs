//! Fixed-point scalar arithmetic: a value is a signed count of millionths.
//!
//! Every executable operation is specified exactly against `trunc_div`
//! (round-toward-zero division), the rounding that the operations below
//! implement on magnitudes.

use vstd::arithmetic::div_mod::{
    lemma_div_is_ordered, lemma_div_multiples_vanish, lemma_div_pos_is_pos,
};
use vstd::prelude::*;

verus! {

/// Number of raw ticks in one unit: values carry six decimal places.
pub const SCALE: i64 = 1_000_000;

/// Largest magnitude accepted by `Fx::mul`: products of two such raws,
/// rescaled, still fit in an `i64`.
pub const FX_LIM: i64 = 3_000_000_000_000;

/// Largest numerator magnitude accepted by `Fx::div`: such a raw times the
/// scale still fits in an `i64`.
pub const FX_DIV_LIM: i64 = 9_000_000_000_000;

/// Division of `p` by positive `d`, rounded toward zero (as the executable
/// operations below behave on signed values).
pub open spec fn trunc_div(p: int, d: int) -> int {
    if p >= 0 {
        p / d
    } else {
        -((-p) / d)
    }
}

/// Raw result of multiplying two fixed-point raws and rescaling.
pub open spec fn fx_mul_raw(a: int, b: int) -> int {
    trunc_div(a * b, SCALE as int)
}

/// Raw result of dividing one fixed-point raw by another.
pub open spec fn fx_div_raw(a: int, b: int) -> int {
    if b >= 0 {
        trunc_div(a * (SCALE as int), b)
    } else {
        trunc_div(-(a * (SCALE as int)), -b)
    }
}

/// Integer square root, rounded down; recursive form used by specifications.
pub open spec fn sqrt_floor(n: nat) -> nat
    decreases n,
{
    if n == 0 {
        0
    } else {
        let s = sqrt_floor((n - 1) as nat);
        if (s + 1) * (s + 1) <= n {
            s + 1
        } else {
            s
        }
    }
}

/// `sqrt_floor(n)` is the largest integer whose square is at most `n`.
pub proof fn lemma_sqrt_floor_bounds(n: nat)
    ensures
        sqrt_floor(n) * sqrt_floor(n) <= n,
        n < (sqrt_floor(n) + 1) * (sqrt_floor(n) + 1),
    decreases n,
{
    if n == 0 {
        assert(sqrt_floor(0) == 0);
        assert(n < (sqrt_floor(n) + 1) * (sqrt_floor(n) + 1)) by (nonlinear_arith)
            requires
                n == 0,
                sqrt_floor(n) == 0,
        ;
    } else {
        lemma_sqrt_floor_bounds((n - 1) as nat);
        let s = sqrt_floor((n - 1) as nat);
        assert(s * s <= n - 1);
        assert(n - 1 < (s + 1) * (s + 1));
        if (s + 1) * (s + 1) <= n {
            assert(sqrt_floor(n) == s + 1);
            assert((s + 1) * (s + 1) < (s + 2) * (s + 2)) by (nonlinear_arith)
                requires
                    s >= 0,
            ;
            assert(sqrt_floor(n) * sqrt_floor(n) <= n);
            assert(n < (sqrt_floor(n) + 1) * (sqrt_floor(n) + 1));
        } else {
            assert(sqrt_floor(n) == s);
            assert(sqrt_floor(n) * sqrt_floor(n) <= n);
            assert(n < (sqrt_floor(n) + 1) * (sqrt_floor(n) + 1));
        }
    }
}

/// The integer-root bounds determine the root.
pub proof fn lemma_sqrt_floor_unique(n: nat, r: nat)
    requires
        r * r <= n,
        n < (r + 1) * (r + 1),
    ensures
        sqrt_floor(n) == r,
{
    lemma_sqrt_floor_bounds(n);
    let s = sqrt_floor(n);
    if s < r {
        assert((s + 1) * (s + 1) <= r * r) by (nonlinear_arith)
            requires
                s + 1 <= r,
        ;
        assert(false);
    }
    if s > r {
        assert((r + 1) * (r + 1) <= s * s) by (nonlinear_arith)
            requires
                r + 1 <= s,
        ;
        assert(false);
    }
}

/// The root of an exact square.
pub proof fn lemma_sqrt_floor_square(x: nat)
    ensures
        sqrt_floor(x * x) == x,
{
    assert(x * x < (x + 1) * (x + 1)) by (nonlinear_arith);
    lemma_sqrt_floor_unique(x * x, x);
}

/// The integer square root is monotone.
pub proof fn lemma_sqrt_floor_mono(m: nat, n: nat)
    requires
        m <= n,
    ensures
        sqrt_floor(m) <= sqrt_floor(n),
{
    lemma_sqrt_floor_bounds(m);
    lemma_sqrt_floor_bounds(n);
    let sm = sqrt_floor(m);
    let sn = sqrt_floor(n);
    if sm > sn {
        assert((sn + 1) * (sn + 1) <= sm * sm) by (nonlinear_arith)
            requires
                sn + 1 <= sm,
        ;
        assert(false);
    }
}

/// Binary-search integer square root over the full `u128` range.
pub fn isqrt_u128(n: u128) -> (r: u64)
    ensures
        r as nat == sqrt_floor(n as nat),
{
    let mut lo: u128 = 0;
    let mut hi: u128 = 0x1_0000_0000_0000_0000;
    proof {
        assert((hi as int) * (hi as int) > n as int) by (nonlinear_arith)
            requires
                hi == 0x1_0000_0000_0000_0000u128,
                n <= u128::MAX,
        ;
    }
    while lo + 1 < hi
        invariant
            lo < hi <= 0x1_0000_0000_0000_0000u128,
            (lo as int) * (lo as int) <= n as int,
            (n as int) < (hi as int) * (hi as int),
        decreases hi - lo,
    {
        let mid: u128 = lo + (hi - lo) / 2;
        proof {
            assert((mid as int) * (mid as int) <= 0xffff_ffff_ffff_ffffu128 as int
                * (0xffff_ffff_ffff_ffffu128 as int)) by (nonlinear_arith)
                requires
                    0 <= mid <= 0xffff_ffff_ffff_ffffu128,
            ;
        }
        if mid * mid <= n {
            lo = mid;
        } else {
            hi = mid;
        }
    }
    proof {
        lemma_sqrt_floor_unique(n as nat, lo as nat);
    }
    lo as u64
}

/// A fixed-point scalar; the value it stands for is `raw / SCALE`.
#[derive(Clone, Copy, PartialEq, Eq, Structural, Debug)]
pub struct Fx {
    pub raw: i64,
}

/// Truncating division is bounded by the bound of its dividend.
pub proof fn lemma_trunc_div_range(p: int, d: int, b: int)
    requires
        d >= 1,
        b >= 0,
        -b <= p <= b,
    ensures
        -(b / d) <= trunc_div(p, d) <= b / d,
{
    if p >= 0 {
        lemma_div_is_ordered(p, b, d);
        lemma_div_pos_is_pos(p, d);
    } else {
        lemma_div_is_ordered(-p, b, d);
        lemma_div_pos_is_pos(-p, d);
    }
}

/// Truncating division of an exact multiple recovers the factor.
pub proof fn lemma_trunc_div_exact(k: int, d: int)
    requires
        d >= 1,
    ensures
        trunc_div(k * d, d) == k,
{
    if k >= 0 {
        assert(k * d == d * k && k * d >= 0) by (nonlinear_arith)
            requires
                k >= 0,
                d >= 1,
        ;
        lemma_div_multiples_vanish(k, d);
    } else {
        assert(k * d < 0 && -(k * d) == d * (-k)) by (nonlinear_arith)
            requires
                k < 0,
                d >= 1,
        ;
        lemma_div_multiples_vanish(-k, d);
    }
}

/// Multiplying by one (the raw `SCALE`) or by zero is exact.
pub proof fn lemma_fx_mul_unit(a: int)
    ensures
        fx_mul_raw(a, SCALE as int) == a,
        fx_mul_raw(SCALE as int, a) == a,
        fx_mul_raw(a, 0) == 0,
        fx_mul_raw(0, a) == 0,
{
    lemma_trunc_div_exact(a, SCALE as int);
    assert(a * (SCALE as int) == (SCALE as int) * a) by (nonlinear_arith);
    assert(a * 0 == 0) by (nonlinear_arith);
    assert(0 * a == 0) by (nonlinear_arith);
    assert(trunc_div(0, SCALE as int) == 0) by {
        lemma_div_multiples_vanish(0, SCALE as int);
    };
}

/// Rescaled multiplication is odd in its first factor: truncation rounds
/// toward zero, so negating an operand negates the product exactly.
pub proof fn lemma_fx_mul_neg_left(a: int, b: int)
    ensures
        fx_mul_raw(-a, b) == -fx_mul_raw(a, b),
{
    assert((-a) * b == -(a * b)) by (nonlinear_arith);
}

/// A bound on the numerator bounds the rescaled quotient: dividing by a
/// non-zero raw can scale a magnitude up by at most `SCALE`.
pub proof fn lemma_fx_div_bound(a: int, b: int, la: int)
    requires
        0 <= la,
        -la <= a <= la,
        b != 0,
    ensures
        -la * (SCALE as int) <= fx_div_raw(a, b) <= la * (SCALE as int),
{
    let s = SCALE as int;
    let d = if b >= 0 { b } else { -b };
    let p = if b >= 0 { a * s } else { -(a * s) };
    lemma_trunc_div_range(p, d, la * s);
    vstd::arithmetic::div_mod::lemma_div_nonincreasing(la * s, d);
}

/// A bound on each factor bounds the rescaled product.
pub proof fn lemma_fx_mul_bound(a: int, b: int, la: int, lb: int)
    requires
        0 <= la,
        0 <= lb,
        -la <= a <= la,
        -lb <= b <= lb,
    ensures
        -(la * lb / (SCALE as int)) <= fx_mul_raw(a, b) <= la * lb / (SCALE as int),
{
    assert(-(la * lb) <= a * b <= la * lb) by (nonlinear_arith)
        requires
            0 <= la,
            0 <= lb,
            -la <= a <= la,
            -lb <= b <= lb,
    ;
    assert(la * lb >= 0) by (nonlinear_arith)
        requires
            0 <= la,
            0 <= lb,
    ;
    lemma_trunc_div_range(a * b, SCALE as int, la * lb);
}

impl Fx {
    /// The raws of both operands stay within `lim`.
    pub open spec fn wf_pair(self, other: Fx, lim: int) -> bool {
        -lim <= self.raw <= lim && -lim <= other.raw <= lim
    }

    /// Wraps a raw tick count.
    pub fn new(raw: i64) -> (r: Fx)
        ensures
            r.raw == raw,
    {
        Fx { raw }
    }

    /// The zero scalar.
    pub fn zero() -> (r: Fx)
        ensures
            r.raw == 0,
    {
        Fx { raw: 0 }
    }

    /// The scalar one.
    pub fn one() -> (r: Fx)
        ensures
            r.raw == SCALE as int,
    {
        Fx { raw: SCALE }
    }

    /// Exact sum.
    pub fn add(self, other: Fx) -> (r: Fx)
        requires
            i64::MIN <= self.raw + other.raw <= i64::MAX,
        ensures
            r.raw == self.raw + other.raw,
    {
        Fx { raw: self.raw + other.raw }
    }

    /// Exact difference.
    pub fn sub(self, other: Fx) -> (r: Fx)
        requires
            i64::MIN <= self.raw - other.raw <= i64::MAX,
        ensures
            r.raw == self.raw - other.raw,
    {
        Fx { raw: self.raw - other.raw }
    }

    /// Exact negation.
    pub fn neg(self) -> (r: Fx)
        requires
            self.raw != i64::MIN,
        ensures
            r.raw == -self.raw,
    {
        Fx { raw: -self.raw }
    }

    /// Rescaled product, rounded toward zero.
    pub fn mul(self, other: Fx) -> (r: Fx)
        requires
            self.wf_pair(other, FX_LIM as int),
        ensures
            r.raw == fx_mul_raw(self.raw as int, other.raw as int),
    {
        let neg: bool = (self.raw < 0) != (other.raw < 0);
        let am: u64 = if self.raw < 0 {
            (-self.raw) as u64
        } else {
            self.raw as u64
        };
        let bm: u64 = if other.raw < 0 {
            (-other.raw) as u64
        } else {
            other.raw as u64
        };
        proof {
            assert((am as int) * (bm as int) <= (FX_LIM as int) * (FX_LIM as int))
                by (nonlinear_arith)
                requires
                    0 <= am <= FX_LIM as int,
                    0 <= bm <= FX_LIM as int,
            ;
        }
        let p: u128 = (am as u128) * (bm as u128);
        let q: u128 = p / (SCALE as u128);
        proof {
            let a = self.raw as int;
            let b = other.raw as int;
            assert(am * bm == if a * b >= 0 { a * b } else { -(a * b) }) by (nonlinear_arith)
                requires
                    am == if a < 0 { -a } else { a },
                    bm == if b < 0 { -b } else { b },
            ;
            assert(((a < 0) != (b < 0) ==> a * b <= 0) && ((a < 0) == (b < 0) ==> a * b >= 0))
                by (nonlinear_arith);
            assert(am * bm <= (FX_LIM as int) * (FX_LIM as int)) by (nonlinear_arith)
                requires
                    0 <= am <= FX_LIM as int,
                    0 <= bm <= FX_LIM as int,
            ;
            lemma_div_is_ordered(
                p as int,
                (FX_LIM as int) * (FX_LIM as int),
                SCALE as int,
            );
            lemma_div_pos_is_pos(p as int, SCALE as int);
        }
        if neg {
            Fx { raw: -(q as i64) }
        } else {
            Fx { raw: q as i64 }
        }
    }

    /// Quotient of two scalars, rounded toward zero.
    pub fn div(self, other: Fx) -> (r: Fx)
        requires
            -FX_DIV_LIM <= self.raw <= FX_DIV_LIM,
            other.raw != 0,
            other.raw > i64::MIN,
        ensures
            r.raw == fx_div_raw(self.raw as int, other.raw as int),
    {
        let neg: bool = (self.raw < 0) != (other.raw < 0);
        let am: u64 = if self.raw < 0 {
            (-self.raw) as u64
        } else {
            self.raw as u64
        };
        let bm: u64 = if other.raw < 0 {
            (-other.raw) as u64
        } else {
            other.raw as u64
        };
        let num: u128 = (am as u128) * (SCALE as u128);
        let q: u128 = num / (bm as u128);
        proof {
            vstd::arithmetic::div_mod::lemma_div_nonincreasing(num as int, bm as int);
            lemma_div_pos_is_pos(num as int, bm as int);
        }
        if neg {
            Fx { raw: -(q as i64) }
        } else {
            Fx { raw: q as i64 }
        }
    }

    /// Division by a small positive integer count, rounded toward zero.
    pub fn divn(self, n: u64) -> (r: Fx)
        requires
            1 <= n,
            self.raw != i64::MIN,
        ensures
            r.raw == trunc_div(self.raw as int, n as int),
    {
        let neg: bool = self.raw < 0;
        let am: u64 = if self.raw < 0 {
            (-self.raw) as u64
        } else {
            self.raw as u64
        };
        let q: u64 = am / n;
        proof {
            lemma_div_is_ordered(q as int, am as int, 1);
            vstd::arithmetic::div_mod::lemma_div_nonincreasing(am as int, n as int);
        }
        if neg {
            Fx { raw: -(q as i64) }
        } else {
            Fx { raw: q as i64 }
        }
    }
}

} // verus!
