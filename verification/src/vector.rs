//! Three-component fixed-point vectors and the shared vector-math helpers:
//! add, subtract, scale, cross product, dot product and normalization.

use crate::fixed::{
    fx_mul_raw, isqrt_u128, lemma_sqrt_floor_bounds, lemma_sqrt_floor_mono,
    lemma_sqrt_floor_square, sqrt_floor, trunc_div, Fx, FX_LIM, SCALE,
};
use vstd::arithmetic::div_mod::{lemma_div_is_ordered, lemma_div_multiples_vanish,
    lemma_div_pos_is_pos};
use vstd::prelude::*;

verus! {

/// Largest raw magnitude a vector component may have when fed to the
/// vector helpers; differences of two such components still fit `Fx::mul`.
pub const VEC_LIM: i64 = 1_500_000_000_000;

/// Mathematical model of a vector: three unbounded raw tick counts.
pub ghost struct V3i {
    pub x: int,
    pub y: int,
    pub z: int,
}

/// A vector of three fixed-point scalars.
#[derive(Clone, Copy, PartialEq, Eq, Structural, Debug)]
pub struct V3 {
    pub x: Fx,
    pub y: Fx,
    pub z: Fx,
}

impl View for V3 {
    type V = V3i;

    open spec fn view(&self) -> V3i {
        V3i { x: self.x.raw as int, y: self.y.raw as int, z: self.z.raw as int }
    }
}

/// All three raw components stay within `lim`.
pub open spec fn v3_wf(v: V3i, lim: int) -> bool {
    &&& -lim <= v.x <= lim
    &&& -lim <= v.y <= lim
    &&& -lim <= v.z <= lim
}

pub open spec fn v3_is_zero(v: V3i) -> bool {
    v.x == 0 && v.y == 0 && v.z == 0
}

pub open spec fn v3_add(a: V3i, b: V3i) -> V3i {
    V3i { x: a.x + b.x, y: a.y + b.y, z: a.z + b.z }
}

pub open spec fn v3_sub(a: V3i, b: V3i) -> V3i {
    V3i { x: a.x - b.x, y: a.y - b.y, z: a.z - b.z }
}

/// Each component rescaled by the fixed-point scalar `k`.
pub open spec fn v3_scale(v: V3i, k: int) -> V3i {
    V3i { x: fx_mul_raw(v.x, k), y: fx_mul_raw(v.y, k), z: fx_mul_raw(v.z, k) }
}

/// Cross product as the executable code computes it (rescaled products).
pub open spec fn v3_cross(a: V3i, b: V3i) -> V3i {
    V3i {
        x: fx_mul_raw(a.y, b.z) - fx_mul_raw(a.z, b.y),
        y: fx_mul_raw(a.z, b.x) - fx_mul_raw(a.x, b.z),
        z: fx_mul_raw(a.x, b.y) - fx_mul_raw(a.y, b.x),
    }
}

/// Dot product as the executable code computes it (rescaled products).
pub open spec fn v3_dot(a: V3i, b: V3i) -> int {
    fx_mul_raw(a.x, b.x) + fx_mul_raw(a.y, b.y) + fx_mul_raw(a.z, b.z)
}

/// Cross product at full precision, without the fixed-point rescaling;
/// its components carry twice the usual scale.
pub open spec fn v3_cross_exact(a: V3i, b: V3i) -> V3i {
    V3i {
        x: a.y * b.z - a.z * b.y,
        y: a.z * b.x - a.x * b.z,
        z: a.x * b.y - a.y * b.x,
    }
}

/// Dot product at full precision.
pub open spec fn v3_dot_exact(a: V3i, b: V3i) -> int {
    a.x * b.x + a.y * b.y + a.z * b.z
}

/// Squared length at full precision (scale is twice the usual one).
pub open spec fn v3_sq_len(v: V3i) -> int {
    v.x * v.x + v.y * v.y + v.z * v.z
}

/// Length of a vector in raw ticks: the rounded-down square root of the
/// full-precision squared length.
pub open spec fn v3_len(v: V3i) -> int {
    sqrt_floor(v3_sq_len(v) as nat) as int
}

/// Normalization as the executable code computes it: each component is
/// rescaled by the reciprocal length, rounded toward zero. The zero vector
/// is mapped to itself (executable callers rule it out).
pub open spec fn v3_normalize(v: V3i) -> V3i {
    let l = v3_len(v);
    if l <= 0 {
        V3i { x: 0, y: 0, z: 0 }
    } else {
        V3i {
            x: trunc_div(v.x * (SCALE as int), l),
            y: trunc_div(v.y * (SCALE as int), l),
            z: trunc_div(v.z * (SCALE as int), l),
        }
    }
}

/// The exact cross product of two vectors is orthogonal to both factors.
/// This is the precision-independent core of the orthogonality of the
/// view-matrix basis rows; the executable basis adds only rounding.
pub proof fn lemma_cross_exact_orthogonal(a: V3i, b: V3i)
    ensures
        v3_dot_exact(v3_cross_exact(a, b), a) == 0,
        v3_dot_exact(v3_cross_exact(a, b), b) == 0,
{
    assert((a.y * b.z - a.z * b.y) * a.x + (a.z * b.x - a.x * b.z) * a.y + (a.x * b.y - a.y
        * b.x) * a.z == 0) by (nonlinear_arith);
    assert((a.y * b.z - a.z * b.y) * b.x + (a.z * b.x - a.x * b.z) * b.y + (a.x * b.y - a.y
        * b.x) * b.z == 0) by (nonlinear_arith);
}

impl V3 {
    /// Builds a vector from three raw tick counts.
    pub fn from_raw(x: i64, y: i64, z: i64) -> (r: V3)
        ensures
            r@ == (V3i { x: x as int, y: y as int, z: z as int }),
    {
        V3 { x: Fx { raw: x }, y: Fx { raw: y }, z: Fx { raw: z } }
    }

    /// The zero vector.
    pub fn zero() -> (r: V3)
        ensures
            r@ == (V3i { x: 0, y: 0, z: 0 }),
    {
        V3::from_raw(0, 0, 0)
    }

    /// True when all three components are zero.
    pub fn is_zero(&self) -> (r: bool)
        ensures
            r == v3_is_zero(self@),
    {
        self.x.raw == 0 && self.y.raw == 0 && self.z.raw == 0
    }
}

/// Componentwise vector sum.
pub fn add_vectors(a: &V3, b: &V3) -> (r: V3)
    requires
        v3_wf(a@, VEC_LIM as int),
        v3_wf(b@, VEC_LIM as int),
    ensures
        r@ == v3_add(a@, b@),
{
    V3 { x: a.x.add(b.x), y: a.y.add(b.y), z: a.z.add(b.z) }
}

/// Componentwise vector difference.
pub fn sub_vectors(a: &V3, b: &V3) -> (r: V3)
    requires
        v3_wf(a@, VEC_LIM as int),
        v3_wf(b@, VEC_LIM as int),
    ensures
        r@ == v3_sub(a@, b@),
{
    V3 { x: a.x.sub(b.x), y: a.y.sub(b.y), z: a.z.sub(b.z) }
}

/// Vector rescaled by a fixed-point scalar.
pub fn vec_scal_mul(v: &V3, scalar: Fx) -> (r: V3)
    requires
        v3_wf(v@, FX_LIM as int),
        -FX_LIM <= scalar.raw <= FX_LIM,
    ensures
        r@ == v3_scale(v@, scalar.raw as int),
{
    V3 { x: v.x.mul(scalar), y: v.y.mul(scalar), z: v.z.mul(scalar) }
}

/// Cross product of a short (near-unit) vector with a world-sized vector,
/// with fixed-point rescaling of each partial product.
pub fn cross_product(a: &V3, b: &V3) -> (r: V3)
    requires
        v3_wf(a@, 8_000_000),
        v3_wf(b@, VEC_LIM as int),
    ensures
        r@ == v3_cross(a@, b@),
{
    proof {
        crate::fixed::lemma_fx_mul_bound(a@.y, b@.z, 8_000_000, VEC_LIM as int);
        crate::fixed::lemma_fx_mul_bound(a@.z, b@.y, 8_000_000, VEC_LIM as int);
        crate::fixed::lemma_fx_mul_bound(a@.z, b@.x, 8_000_000, VEC_LIM as int);
        crate::fixed::lemma_fx_mul_bound(a@.x, b@.z, 8_000_000, VEC_LIM as int);
        crate::fixed::lemma_fx_mul_bound(a@.x, b@.y, 8_000_000, VEC_LIM as int);
        crate::fixed::lemma_fx_mul_bound(a@.y, b@.x, 8_000_000, VEC_LIM as int);
    }
    V3 {
        x: a.y.mul(b.z).sub(a.z.mul(b.y)),
        y: a.z.mul(b.x).sub(a.x.mul(b.z)),
        z: a.x.mul(b.y).sub(a.y.mul(b.x)),
    }
}

/// Dot product of a short (near-unit) vector with a world-sized vector.
pub fn dot_product(a: &V3, b: &V3) -> (r: Fx)
    requires
        v3_wf(a@, 8_000_000),
        v3_wf(b@, VEC_LIM as int),
    ensures
        r.raw == v3_dot(a@, b@),
{
    proof {
        crate::fixed::lemma_fx_mul_bound(a@.x, b@.x, 8_000_000, VEC_LIM as int);
        crate::fixed::lemma_fx_mul_bound(a@.y, b@.y, 8_000_000, VEC_LIM as int);
        crate::fixed::lemma_fx_mul_bound(a@.z, b@.z, 8_000_000, VEC_LIM as int);
    }
    a.x.mul(b.x).add(a.y.mul(b.y)).add(a.z.mul(b.z))
}

/// Scales one component of a vector by `SCALE / len`, rounding toward zero.
fn component_over_len(x: Fx, len: u64) -> (r: Fx)
    requires
        1 <= len,
        x.raw != i64::MIN,
        -(len as int) <= x.raw <= len as int,
    ensures
        r.raw == trunc_div(x.raw * (SCALE as int), len as int),
        -SCALE <= r.raw <= SCALE,
{
    let neg: bool = x.raw < 0;
    let am: u64 = if x.raw < 0 {
        (-x.raw) as u64
    } else {
        x.raw as u64
    };
    let num: u128 = (am as u128) * (SCALE as u128);
    let q: u128 = num / (len as u128);
    proof {
        lemma_div_pos_is_pos(num as int, len as int);
        lemma_div_is_ordered(num as int, (len as int) * (SCALE as int), len as int);
        lemma_div_multiples_vanish(SCALE as int, len as int);
    }
    if neg {
        Fx { raw: -(q as i64) }
    } else {
        Fx { raw: q as i64 }
    }
}

/// Squares a bounded raw component into the wide unsigned range.
fn square_component(x: Fx) -> (r: u128)
    requires
        -VEC_LIM <= x.raw <= VEC_LIM,
    ensures
        r as int == (x.raw as int) * (x.raw as int),
        r <= (VEC_LIM as int) * (VEC_LIM as int),
{
    let am: u64 = if x.raw < 0 {
        (-x.raw) as u64
    } else {
        x.raw as u64
    };
    proof {
        let xi = x.raw as int;
        assert((am as int) * (am as int) == xi * xi && (am as int) * (am as int) <= (VEC_LIM
            as int) * (VEC_LIM as int)) by (nonlinear_arith)
            requires
                am == if xi < 0 { -xi } else { xi },
                0 <= am <= VEC_LIM as int,
        ;
    }
    (am as u128) * (am as u128)
}

/// Normalizes a non-zero vector to (approximately) unit length: each
/// resulting raw component lies within `SCALE`.
pub fn normalize_vector(v: &V3) -> (r: V3)
    requires
        v3_wf(v@, VEC_LIM as int),
        !v3_is_zero(v@),
    ensures
        r@ == v3_normalize(v@),
        v3_wf(r@, SCALE as int),
{
    let sx: u128 = square_component(v.x);
    let sy: u128 = square_component(v.y);
    let sz: u128 = square_component(v.z);
    let sq: u128 = sx + sy + sz;
    let len: u64 = isqrt_u128(sq);
    proof {
        assert(sq as int == v3_sq_len(v@));
        lemma_sqrt_floor_bounds(sq as nat);
        assert(sq >= 1) by (nonlinear_arith)
            requires
                !v3_is_zero(v@),
                sx as int == v@.x * v@.x,
                sy as int == v@.y * v@.y,
                sz as int == v@.z * v@.z,
                sq == sx + sy + sz,
        ;
        assert(len as nat == sqrt_floor(sq as nat));
        assert(len >= 1) by (nonlinear_arith)
            requires
                sq >= 1,
                (len as int) * (len as int) <= sq as int,
                (sq as int) < ((len as int) + 1) * ((len as int) + 1),
        ;
        lemma_component_le_len(v@.x, sq as int);
        lemma_component_le_len(v@.y, sq as int);
        lemma_component_le_len(v@.z, sq as int);
    }
    V3 {
        x: component_over_len(v.x, len),
        y: component_over_len(v.y, len),
        z: component_over_len(v.z, len),
    }
}

/// Each component's magnitude is at most the vector's length.
proof fn lemma_component_le_len(c: int, sq: int)
    requires
        c * c <= sq,
    ensures
        -(sqrt_floor(sq as nat) as int) <= c <= sqrt_floor(sq as nat) as int,
{
    let a = if c < 0 { -c } else { c };
    assert(a * a == c * c && a >= 0) by (nonlinear_arith)
        requires
            a == if c < 0 { -c } else { c },
    ;
    lemma_sqrt_floor_square(a as nat);
    lemma_sqrt_floor_mono((a * a) as nat, sq as nat);
}

} // verus!
