//! 4x4 fixed-point matrices in column-major layout (`cN` is the N-th
//! column, as a graphics API expects its uniform matrices), with
//! multiplication and application to homogeneous points.

use crate::fixed::{fx_mul_raw, lemma_fx_mul_bound, Fx, SCALE};
use crate::vector::VEC_LIM;
use vstd::prelude::*;

verus! {

/// Mathematical model of a homogeneous 4-vector: unbounded raw ticks.
pub ghost struct V4i {
    pub x: int,
    pub y: int,
    pub z: int,
    pub w: int,
}

/// Mathematical model of a 4x4 matrix: four columns.
pub ghost struct M4i {
    pub c0: V4i,
    pub c1: V4i,
    pub c2: V4i,
    pub c3: V4i,
}

/// A homogeneous 4-vector of fixed-point scalars.
#[derive(Clone, Copy, PartialEq, Eq, Structural, Debug)]
pub struct V4 {
    pub x: Fx,
    pub y: Fx,
    pub z: Fx,
    pub w: Fx,
}

/// A 4x4 matrix of fixed-point scalars, stored by columns.
#[derive(Clone, Copy, PartialEq, Eq, Structural, Debug)]
pub struct Mat4 {
    pub c0: V4,
    pub c1: V4,
    pub c2: V4,
    pub c3: V4,
}

impl View for V4 {
    type V = V4i;

    open spec fn view(&self) -> V4i {
        V4i {
            x: self.x.raw as int,
            y: self.y.raw as int,
            z: self.z.raw as int,
            w: self.w.raw as int,
        }
    }
}

impl View for Mat4 {
    type V = M4i;

    open spec fn view(&self) -> M4i {
        M4i { c0: self.c0@, c1: self.c1@, c2: self.c2@, c3: self.c3@ }
    }
}

/// All four raw components stay within `lim`.
pub open spec fn v4_wf(v: V4i, lim: int) -> bool {
    &&& -lim <= v.x <= lim
    &&& -lim <= v.y <= lim
    &&& -lim <= v.z <= lim
    &&& -lim <= v.w <= lim
}

/// All sixteen raw entries stay within `lim`.
pub open spec fn m4_wf(m: M4i, lim: int) -> bool {
    v4_wf(m.c0, lim) && v4_wf(m.c1, lim) && v4_wf(m.c2, lim) && v4_wf(m.c3, lim)
}

/// The identity matrix (ones are the raw `SCALE`).
pub open spec fn m4_identity() -> M4i {
    M4i {
        c0: V4i { x: SCALE as int, y: 0, z: 0, w: 0 },
        c1: V4i { x: 0, y: SCALE as int, z: 0, w: 0 },
        c2: V4i { x: 0, y: 0, z: SCALE as int, w: 0 },
        c3: V4i { x: 0, y: 0, z: 0, w: SCALE as int },
    }
}

/// Rescaled four-term dot product of a matrix row with a column.
pub open spec fn row_dot(a0: int, a1: int, a2: int, a3: int, b0: int, b1: int, b2: int,
    b3: int) -> int {
    fx_mul_raw(a0, b0) + fx_mul_raw(a1, b1) + fx_mul_raw(a2, b2) + fx_mul_raw(a3, b3)
}

/// One column of the product `a * b`: `a` applied to `b`'s column `c`.
pub open spec fn m4_mul_col(a: M4i, c: V4i) -> V4i {
    V4i {
        x: row_dot(a.c0.x, a.c1.x, a.c2.x, a.c3.x, c.x, c.y, c.z, c.w),
        y: row_dot(a.c0.y, a.c1.y, a.c2.y, a.c3.y, c.x, c.y, c.z, c.w),
        z: row_dot(a.c0.z, a.c1.z, a.c2.z, a.c3.z, c.x, c.y, c.z, c.w),
        w: row_dot(a.c0.w, a.c1.w, a.c2.w, a.c3.w, c.x, c.y, c.z, c.w),
    }
}

/// Matrix product, column by column.
pub open spec fn m4_mul(a: M4i, b: M4i) -> M4i {
    M4i {
        c0: m4_mul_col(a, b.c0),
        c1: m4_mul_col(a, b.c1),
        c2: m4_mul_col(a, b.c2),
        c3: m4_mul_col(a, b.c3),
    }
}

/// A matrix applied to a homogeneous point.
pub open spec fn m4_apply(m: M4i, p: V4i) -> V4i {
    m4_mul_col(m, p)
}

/// The identity matrix leaves a column unchanged.
proof fn lemma_identity_mul_col(c: V4i)
    ensures
        m4_mul_col(m4_identity(), c) == c,
{
    crate::fixed::lemma_fx_mul_unit(c.x);
    crate::fixed::lemma_fx_mul_unit(c.y);
    crate::fixed::lemma_fx_mul_unit(c.z);
    crate::fixed::lemma_fx_mul_unit(c.w);
}

/// The identity matrix is a left unit of matrix multiplication.
pub proof fn lemma_m4_identity_left(m: M4i)
    ensures
        m4_mul(m4_identity(), m) == m,
{
    lemma_identity_mul_col(m.c0);
    lemma_identity_mul_col(m.c1);
    lemma_identity_mul_col(m.c2);
    lemma_identity_mul_col(m.c3);
}

/// A bound on a row and a column bounds their rescaled dot product.
pub proof fn lemma_row_dot_bound(a0: int, a1: int, a2: int, a3: int, b0: int, b1: int,
    b2: int, b3: int, la: int, lb: int)
    requires
        0 <= la,
        0 <= lb,
        -la <= a0 <= la,
        -la <= a1 <= la,
        -la <= a2 <= la,
        -la <= a3 <= la,
        -lb <= b0 <= lb,
        -lb <= b1 <= lb,
        -lb <= b2 <= lb,
        -lb <= b3 <= lb,
    ensures
        -4 * (la * lb / (SCALE as int)) <= row_dot(a0, a1, a2, a3, b0, b1, b2, b3) <= 4 * (la
            * lb / (SCALE as int)),
{
    lemma_fx_mul_bound(a0, b0, la, lb);
    lemma_fx_mul_bound(a1, b1, la, lb);
    lemma_fx_mul_bound(a2, b2, la, lb);
    lemma_fx_mul_bound(a3, b3, la, lb);
}

/// A bound on both factors bounds every entry of their product.
pub proof fn lemma_m4_mul_bound(a: M4i, b: M4i, la: int, lb: int)
    requires
        0 <= la,
        0 <= lb,
        m4_wf(a, la),
        m4_wf(b, lb),
    ensures
        m4_wf(m4_mul(a, b), 4 * (la * lb / (SCALE as int))),
{
    lemma_m4_mul_col_bound(a, b.c0, la, lb);
    lemma_m4_mul_col_bound(a, b.c1, la, lb);
    lemma_m4_mul_col_bound(a, b.c2, la, lb);
    lemma_m4_mul_col_bound(a, b.c3, la, lb);
}

/// A bound on a matrix and a column bounds the transformed column.
pub proof fn lemma_m4_mul_col_bound(a: M4i, c: V4i, la: int, lb: int)
    requires
        0 <= la,
        0 <= lb,
        m4_wf(a, la),
        v4_wf(c, lb),
    ensures
        v4_wf(m4_mul_col(a, c), 4 * (la * lb / (SCALE as int))),
{
    lemma_row_dot_bound(a.c0.x, a.c1.x, a.c2.x, a.c3.x, c.x, c.y, c.z, c.w, la, lb);
    lemma_row_dot_bound(a.c0.y, a.c1.y, a.c2.y, a.c3.y, c.x, c.y, c.z, c.w, la, lb);
    lemma_row_dot_bound(a.c0.z, a.c1.z, a.c2.z, a.c3.z, c.x, c.y, c.z, c.w, la, lb);
    lemma_row_dot_bound(a.c0.w, a.c1.w, a.c2.w, a.c3.w, c.x, c.y, c.z, c.w, la, lb);
}

/// Executable rescaled four-term dot product.
fn dot4(a0: Fx, a1: Fx, a2: Fx, a3: Fx, b0: Fx, b1: Fx, b2: Fx, b3: Fx) -> (r: Fx)
    requires
        a0.wf_pair(b0, VEC_LIM as int),
        a1.wf_pair(b1, VEC_LIM as int),
        a2.wf_pair(b2, VEC_LIM as int),
        a3.wf_pair(b3, VEC_LIM as int),
    ensures
        r.raw == row_dot(a0.raw as int, a1.raw as int, a2.raw as int, a3.raw as int,
            b0.raw as int, b1.raw as int, b2.raw as int, b3.raw as int),
{
    proof {
        lemma_fx_mul_bound(a0.raw as int, b0.raw as int, VEC_LIM as int, VEC_LIM as int);
        lemma_fx_mul_bound(a1.raw as int, b1.raw as int, VEC_LIM as int, VEC_LIM as int);
        lemma_fx_mul_bound(a2.raw as int, b2.raw as int, VEC_LIM as int, VEC_LIM as int);
        lemma_fx_mul_bound(a3.raw as int, b3.raw as int, VEC_LIM as int, VEC_LIM as int);
    }
    a0.mul(b0).add(a1.mul(b1)).add(a2.mul(b2)).add(a3.mul(b3))
}

impl V4 {
    /// Builds a homogeneous vector from four raw tick counts.
    pub fn from_raw(x: i64, y: i64, z: i64, w: i64) -> (r: V4)
        ensures
            r@ == (V4i { x: x as int, y: y as int, z: z as int, w: w as int }),
    {
        V4 { x: Fx { raw: x }, y: Fx { raw: y }, z: Fx { raw: z }, w: Fx { raw: w } }
    }
}

impl Mat4 {
    /// The identity matrix.
    pub fn identity() -> (r: Mat4)
        ensures
            r@ == m4_identity(),
    {
        Mat4 {
            c0: V4::from_raw(SCALE, 0, 0, 0),
            c1: V4::from_raw(0, SCALE, 0, 0),
            c2: V4::from_raw(0, 0, SCALE, 0),
            c3: V4::from_raw(0, 0, 0, SCALE),
        }
    }
}

/// One column of an executable matrix product.
fn mul_col(a: &Mat4, c: &V4) -> (r: V4)
    requires
        m4_wf(a@, VEC_LIM as int),
        v4_wf(c@, VEC_LIM as int),
    ensures
        r@ == m4_mul_col(a@, c@),
{
    V4 {
        x: dot4(a.c0.x, a.c1.x, a.c2.x, a.c3.x, c.x, c.y, c.z, c.w),
        y: dot4(a.c0.y, a.c1.y, a.c2.y, a.c3.y, c.x, c.y, c.z, c.w),
        z: dot4(a.c0.z, a.c1.z, a.c2.z, a.c3.z, c.x, c.y, c.z, c.w),
        w: dot4(a.c0.w, a.c1.w, a.c2.w, a.c3.w, c.x, c.y, c.z, c.w),
    }
}

/// Matrix product.
pub fn mat4_mul(a: &Mat4, b: &Mat4) -> (r: Mat4)
    requires
        m4_wf(a@, VEC_LIM as int),
        m4_wf(b@, VEC_LIM as int),
    ensures
        r@ == m4_mul(a@, b@),
{
    Mat4 {
        c0: mul_col(a, &b.c0),
        c1: mul_col(a, &b.c1),
        c2: mul_col(a, &b.c2),
        c3: mul_col(a, &b.c3),
    }
}

/// A matrix applied to a homogeneous point.
pub fn transform_point(m: &Mat4, p: &V4) -> (r: V4)
    requires
        m4_wf(m@, VEC_LIM as int),
        v4_wf(p@, VEC_LIM as int),
    ensures
        r@ == m4_apply(m@, p@),
{
    mul_col(m, p)
}

} // verus!
