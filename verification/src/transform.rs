//! The transform builder: pure constructions of the 4x4 matrices a draw
//! call needs — translation, Euler rotation (composed as Rz * Ry * Rx),
//! uniform scale, look-at view basis and symmetric perspective projection.
//!
//! Convention held throughout the crate: the second view vector is a
//! look-at point in world space (the camera faces
//! `normalize(direction - position)`), and matrices are column-major.

use crate::angle::{fx_cos, fx_cos_raw, fx_sin, fx_sin_raw, SIN_COS_BOUND};
use crate::fixed::{
    fx_div_raw, fx_mul_raw, lemma_fx_mul_unit, lemma_trunc_div_exact, trunc_div, Fx, SCALE,
};
use crate::matrix::{
    lemma_m4_mul_bound, m4_apply, m4_identity, m4_mul, m4_wf, mat4_mul, M4i, Mat4, V4,
    V4i,
};
use crate::vector::{
    cross_product, dot_product, normalize_vector, sub_vectors, v3_cross, v3_is_zero,
    v3_normalize, v3_sub, v3_wf, V3i, V3, VEC_LIM,
};
use vstd::prelude::*;

verus! {

/// Largest raw magnitude accepted for a world coordinate handed to the
/// builders: differences of two such coordinates still fit the vector
/// helpers' limit.
pub const WORLD_LIM: i64 = 750_000_000_000;

/// Largest raw magnitude accepted for the projection depth planes, so that
/// their product stays a valid multiplication operand.
pub const DEPTH_LIM: i64 = 1_000_000_000;

/// Largest viewport side length accepted by the projection builder.
pub const DIM_LIM: u32 = 1_000_000;

/// Model of the translation matrix: identity with the offset as the
/// fourth column.
pub open spec fn translation_mat_spec(t: V3i) -> M4i {
    M4i {
        c0: V4i { x: SCALE as int, y: 0, z: 0, w: 0 },
        c1: V4i { x: 0, y: SCALE as int, z: 0, w: 0 },
        c2: V4i { x: 0, y: 0, z: SCALE as int, w: 0 },
        c3: V4i { x: t.x, y: t.y, z: t.z, w: SCALE as int },
    }
}

/// Model of the uniform scale matrix: `s` on the spatial diagonal.
pub open spec fn scale_mat_spec(s: int) -> M4i {
    M4i {
        c0: V4i { x: s, y: 0, z: 0, w: 0 },
        c1: V4i { x: 0, y: s, z: 0, w: 0 },
        c2: V4i { x: 0, y: 0, z: s, w: 0 },
        c3: V4i { x: 0, y: 0, z: 0, w: SCALE as int },
    }
}

/// Model of the rotation about the x axis by `a` raw radians.
pub open spec fn rot_x_mat_spec(a: int) -> M4i {
    let c = fx_cos_raw(a);
    let s = fx_sin_raw(a);
    M4i {
        c0: V4i { x: SCALE as int, y: 0, z: 0, w: 0 },
        c1: V4i { x: 0, y: c, z: s, w: 0 },
        c2: V4i { x: 0, y: -s, z: c, w: 0 },
        c3: V4i { x: 0, y: 0, z: 0, w: SCALE as int },
    }
}

/// Model of the rotation about the y axis by `a` raw radians.
pub open spec fn rot_y_mat_spec(a: int) -> M4i {
    let c = fx_cos_raw(a);
    let s = fx_sin_raw(a);
    M4i {
        c0: V4i { x: c, y: 0, z: -s, w: 0 },
        c1: V4i { x: 0, y: SCALE as int, z: 0, w: 0 },
        c2: V4i { x: s, y: 0, z: c, w: 0 },
        c3: V4i { x: 0, y: 0, z: 0, w: SCALE as int },
    }
}

/// Model of the rotation about the z axis by `a` raw radians.
pub open spec fn rot_z_mat_spec(a: int) -> M4i {
    let c = fx_cos_raw(a);
    let s = fx_sin_raw(a);
    M4i {
        c0: V4i { x: c, y: s, z: 0, w: 0 },
        c1: V4i { x: -s, y: c, z: 0, w: 0 },
        c2: V4i { x: 0, y: 0, z: SCALE as int, w: 0 },
        c3: V4i { x: 0, y: 0, z: 0, w: SCALE as int },
    }
}

/// Model of the Euler rotation matrix, composed as Rz * Ry * Rx.
pub open spec fn rotation_mat_spec(r: V3i) -> M4i {
    m4_mul(m4_mul(rot_z_mat_spec(r.z), rot_y_mat_spec(r.y)), rot_x_mat_spec(r.x))
}

/// The view basis is defined: the eye does not sit on the look-at point,
/// and the facing direction is not parallel to the given up vector.
pub open spec fn view_defined(position: V3i, target: V3i, up: V3i) -> bool {
    let fwd = v3_normalize(v3_sub(target, position));
    &&& !v3_is_zero(v3_sub(target, position))
    &&& !v3_is_zero(v3_cross(fwd, up))
}

/// Model of the look-at view matrix: rows are the orthogonal camera basis
/// [right, true-up, -forward], and the fourth column moves the eye to the
/// origin.
pub open spec fn view_mat_spec(position: V3i, target: V3i, up: V3i) -> M4i {
    let fwd = v3_normalize(v3_sub(target, position));
    let right = v3_normalize(v3_cross(fwd, up));
    let tu = v3_cross(right, fwd);
    M4i {
        c0: V4i { x: right.x, y: tu.x, z: -fwd.x, w: 0 },
        c1: V4i { x: right.y, y: tu.y, z: -fwd.y, w: 0 },
        c2: V4i { x: right.z, y: tu.z, z: -fwd.z, w: 0 },
        c3: V4i {
            x: -crate::vector::v3_dot(right, position),
            y: -crate::vector::v3_dot(tu, position),
            z: crate::vector::v3_dot(fwd, position),
            w: SCALE as int,
        },
    }
}

/// The projection denominators are usable: the half-angle sine is not zero
/// and the depth planes differ.
pub open spec fn perspective_defined(fov: int, znear: int, zfar: int) -> bool {
    &&& fx_sin_raw(trunc_div(fov, 2)) != 0
    &&& zfar != znear
}

/// Model of the symmetric perspective matrix for a `w` by `h` viewport:
/// aspect = w / h, f = cos(fov/2) / sin(fov/2); x and y are scaled by
/// f / aspect and f, and depth is mapped by the two standard plane terms.
pub open spec fn perspective_mat_spec(w: int, h: int, fov: int, znear: int, zfar: int) -> M4i {
    let aspect = fx_div_raw(w * (SCALE as int), h * (SCALE as int));
    let half = trunc_div(fov, 2);
    let f = fx_div_raw(fx_cos_raw(half), fx_sin_raw(half));
    let m00 = fx_div_raw(f, aspect);
    let m22 = fx_div_raw(zfar + znear, zfar - znear);
    let m32 = fx_div_raw(-(2 * fx_mul_raw(zfar, znear)), zfar - znear);
    M4i {
        c0: V4i { x: m00, y: 0, z: 0, w: 0 },
        c1: V4i { x: 0, y: f, z: 0, w: 0 },
        c2: V4i { x: 0, y: 0, z: m22, w: SCALE as int },
        c3: V4i { x: 0, y: 0, z: m32, w: 0 },
    }
}

/// Standard affine translation matrix.
pub fn translation_matrix(t: &V3) -> (r: Mat4)
    requires
        v3_wf(t@, VEC_LIM as int),
    ensures
        r@ == translation_mat_spec(t@),
{
    Mat4 {
        c0: V4::from_raw(SCALE, 0, 0, 0),
        c1: V4::from_raw(0, SCALE, 0, 0),
        c2: V4::from_raw(0, 0, SCALE, 0),
        c3: V4 { x: t.x, y: t.y, z: t.z, w: Fx { raw: SCALE } },
    }
}

/// Uniform scale matrix.
pub fn scale_matrix(s: Fx) -> (r: Mat4)
    ensures
        r@ == scale_mat_spec(s.raw as int),
{
    Mat4 {
        c0: V4 { x: s, y: Fx { raw: 0 }, z: Fx { raw: 0 }, w: Fx { raw: 0 } },
        c1: V4 { x: Fx { raw: 0 }, y: s, z: Fx { raw: 0 }, w: Fx { raw: 0 } },
        c2: V4 { x: Fx { raw: 0 }, y: Fx { raw: 0 }, z: s, w: Fx { raw: 0 } },
        c3: V4::from_raw(0, 0, 0, SCALE),
    }
}

/// Rotation about the x axis.
pub fn rot_x_matrix(a: Fx) -> (r: Mat4)
    requires
        a.raw > i64::MIN,
    ensures
        r@ == rot_x_mat_spec(a.raw as int),
        m4_wf(r@, SIN_COS_BOUND as int),
{
    let c = fx_cos(a);
    let s = fx_sin(a);
    Mat4 {
        c0: V4::from_raw(SCALE, 0, 0, 0),
        c1: V4 { x: Fx { raw: 0 }, y: c, z: s, w: Fx { raw: 0 } },
        c2: V4 { x: Fx { raw: 0 }, y: s.neg(), z: c, w: Fx { raw: 0 } },
        c3: V4::from_raw(0, 0, 0, SCALE),
    }
}

/// Rotation about the y axis.
pub fn rot_y_matrix(a: Fx) -> (r: Mat4)
    requires
        a.raw > i64::MIN,
    ensures
        r@ == rot_y_mat_spec(a.raw as int),
        m4_wf(r@, SIN_COS_BOUND as int),
{
    let c = fx_cos(a);
    let s = fx_sin(a);
    Mat4 {
        c0: V4 { x: c, y: Fx { raw: 0 }, z: s.neg(), w: Fx { raw: 0 } },
        c1: V4::from_raw(0, SCALE, 0, 0),
        c2: V4 { x: s, y: Fx { raw: 0 }, z: c, w: Fx { raw: 0 } },
        c3: V4::from_raw(0, 0, 0, SCALE),
    }
}

/// Rotation about the z axis.
pub fn rot_z_matrix(a: Fx) -> (r: Mat4)
    requires
        a.raw > i64::MIN,
    ensures
        r@ == rot_z_mat_spec(a.raw as int),
        m4_wf(r@, SIN_COS_BOUND as int),
{
    let c = fx_cos(a);
    let s = fx_sin(a);
    Mat4 {
        c0: V4 { x: c, y: s, z: Fx { raw: 0 }, w: Fx { raw: 0 } },
        c1: V4 { x: s.neg(), y: c, z: Fx { raw: 0 }, w: Fx { raw: 0 } },
        c2: V4::from_raw(0, 0, SCALE, 0),
        c3: V4::from_raw(0, 0, 0, SCALE),
    }
}

/// Euler rotation matrix, composed as Rz * Ry * Rx.
pub fn rotation_matrix(r: &V3) -> (m: Mat4)
    requires
        r.x.raw > i64::MIN,
        r.y.raw > i64::MIN,
        r.z.raw > i64::MIN,
    ensures
        m@ == rotation_mat_spec(r@),
{
    let rz = rot_z_matrix(r.z);
    let ry = rot_y_matrix(r.y);
    let rx = rot_x_matrix(r.x);
    proof {
        lemma_m4_mul_bound(rz@, ry@, SIN_COS_BOUND as int, SIN_COS_BOUND as int);
    }
    let zy = mat4_mul(&rz, &ry);
    mat4_mul(&zy, &rx)
}

/// Same composition as `rotation_matrix`, supplied as a separate uniform so
/// a shader can spin an object about its own axes before world placement.
pub fn self_rotation_matrix(r: &V3) -> (m: Mat4)
    requires
        r.x.raw > i64::MIN,
        r.y.raw > i64::MIN,
        r.z.raw > i64::MIN,
    ensures
        m@ == rotation_mat_spec(r@),
{
    rotation_matrix(r)
}

/// Look-at view matrix. The basis is right = normalize(cross(forward, up)),
/// true-up = cross(right, forward), forward = normalize(target - position);
/// degenerate inputs are ruled out by precondition, as the design treats
/// them as caller errors rather than runtime checks.
pub fn view_matrix(position: &V3, target: &V3, up: &V3) -> (m: Mat4)
    requires
        v3_wf(position@, WORLD_LIM as int),
        v3_wf(target@, WORLD_LIM as int),
        v3_wf(up@, WORLD_LIM as int),
        view_defined(position@, target@, up@),
    ensures
        m@ == view_mat_spec(position@, target@, up@),
{
    let diff = sub_vectors(target, position);
    let fwd = normalize_vector(&diff);
    let cr = cross_product(&fwd, up);
    proof {
        crate::fixed::lemma_fx_mul_bound(fwd@.y, up@.z, SCALE as int, WORLD_LIM as int);
        crate::fixed::lemma_fx_mul_bound(fwd@.z, up@.y, SCALE as int, WORLD_LIM as int);
        crate::fixed::lemma_fx_mul_bound(fwd@.z, up@.x, SCALE as int, WORLD_LIM as int);
        crate::fixed::lemma_fx_mul_bound(fwd@.x, up@.z, SCALE as int, WORLD_LIM as int);
        crate::fixed::lemma_fx_mul_bound(fwd@.x, up@.y, SCALE as int, WORLD_LIM as int);
        crate::fixed::lemma_fx_mul_bound(fwd@.y, up@.x, SCALE as int, WORLD_LIM as int);
    }
    let right = normalize_vector(&cr);
    let tu = cross_product(&right, &fwd);
    proof {
        crate::fixed::lemma_fx_mul_bound(right@.y, fwd@.z, SCALE as int, SCALE as int);
        crate::fixed::lemma_fx_mul_bound(right@.z, fwd@.y, SCALE as int, SCALE as int);
        crate::fixed::lemma_fx_mul_bound(right@.z, fwd@.x, SCALE as int, SCALE as int);
        crate::fixed::lemma_fx_mul_bound(right@.x, fwd@.z, SCALE as int, SCALE as int);
        crate::fixed::lemma_fx_mul_bound(right@.x, fwd@.y, SCALE as int, SCALE as int);
        crate::fixed::lemma_fx_mul_bound(right@.y, fwd@.x, SCALE as int, SCALE as int);
    }
    let dr = dot_product(&right, position);
    let dt = dot_product(&tu, position);
    let df = dot_product(&fwd, position);
    proof {
        crate::fixed::lemma_fx_mul_bound(right@.x, position@.x, SCALE as int,
            WORLD_LIM as int);
        crate::fixed::lemma_fx_mul_bound(right@.y, position@.y, SCALE as int,
            WORLD_LIM as int);
        crate::fixed::lemma_fx_mul_bound(right@.z, position@.z, SCALE as int,
            WORLD_LIM as int);
        crate::fixed::lemma_fx_mul_bound(tu@.x, position@.x, 8_000_000, WORLD_LIM as int);
        crate::fixed::lemma_fx_mul_bound(tu@.y, position@.y, 8_000_000, WORLD_LIM as int);
        crate::fixed::lemma_fx_mul_bound(tu@.z, position@.z, 8_000_000, WORLD_LIM as int);
        crate::fixed::lemma_fx_mul_bound(fwd@.x, position@.x, SCALE as int,
            WORLD_LIM as int);
        crate::fixed::lemma_fx_mul_bound(fwd@.y, position@.y, SCALE as int,
            WORLD_LIM as int);
        crate::fixed::lemma_fx_mul_bound(fwd@.z, position@.z, SCALE as int,
            WORLD_LIM as int);
    }
    Mat4 {
        c0: V4 { x: right.x, y: tu.x, z: fwd.x.neg(), w: Fx { raw: 0 } },
        c1: V4 { x: right.y, y: tu.y, z: fwd.y.neg(), w: Fx { raw: 0 } },
        c2: V4 { x: right.z, y: tu.z, z: fwd.z.neg(), w: Fx { raw: 0 } },
        c3: V4 { x: dr.neg(), y: dt.neg(), z: df, w: Fx { raw: SCALE } },
    }
}

/// Symmetric perspective projection, or the identity when no viewport size
/// is known — the deliberate "no projection" fallback, not an error.
pub fn perspective_matrix(frame_dimensions: Option<(u32, u32)>, fov: Fx, znear: Fx,
    zfar: Fx) -> (m: Mat4)
    requires
        -WORLD_LIM <= fov.raw <= WORLD_LIM,
        -DEPTH_LIM <= znear.raw <= DEPTH_LIM,
        -DEPTH_LIM <= zfar.raw <= DEPTH_LIM,
        (match frame_dimensions {
            Some(dim) => 1 <= dim.0 <= DIM_LIM && 1 <= dim.1 <= DIM_LIM
                && perspective_defined(fov.raw as int, znear.raw as int, zfar.raw as int),
            None => true,
        }),
    ensures
        m@ == (match frame_dimensions {
            Some(dim) => perspective_mat_spec(dim.0 as int, dim.1 as int, fov.raw as int,
                znear.raw as int, zfar.raw as int),
            None => m4_identity(),
        }),
{
    match frame_dimensions {
        None => Mat4::identity(),
        Some((w, h)) => {
            let w_fx = Fx { raw: (w as i64) * SCALE };
            let h_fx = Fx { raw: (h as i64) * SCALE };
            let aspect = w_fx.div(h_fx);
            proof {
                lemma_aspect_at_least_one(w_fx.raw as int, h_fx.raw as int);
            }
            let half = fov.divn(2);
            let s = fx_sin(half);
            let c = fx_cos(half);
            let f = c.div(s);
            proof {
                crate::fixed::lemma_fx_div_bound(c.raw as int, s.raw as int,
                    SIN_COS_BOUND as int);
            }
            let m00 = f.div(aspect);
            let dz = zfar.sub(znear);
            let sum = zfar.add(znear);
            let m22 = sum.div(dz);
            let prod = zfar.mul(znear);
            proof {
                crate::fixed::lemma_fx_mul_bound(zfar.raw as int, znear.raw as int,
                    DEPTH_LIM as int, DEPTH_LIM as int);
            }
            let m32 = prod.add(prod).neg().div(dz);
            Mat4 {
                c0: V4 { x: m00, y: Fx { raw: 0 }, z: Fx { raw: 0 }, w: Fx { raw: 0 } },
                c1: V4 { x: Fx { raw: 0 }, y: f, z: Fx { raw: 0 }, w: Fx { raw: 0 } },
                c2: V4 { x: Fx { raw: 0 }, y: Fx { raw: 0 }, z: m22, w: Fx { raw: SCALE } },
                c3: V4 { x: Fx { raw: 0 }, y: Fx { raw: 0 }, z: m32, w: Fx { raw: 0 } },
            }
        },
    }
}

/// For a positive numerator raw at least the denominator raw, the
/// fixed-point aspect quotient is at least one tick.
proof fn lemma_aspect_at_least_one(a: int, b: int)
    requires
        1 <= b <= a * (SCALE as int),
    ensures
        1 <= fx_div_raw(a, b),
        fx_div_raw(a, b) > i64::MIN,
{
    vstd::arithmetic::div_mod::lemma_div_is_ordered(b, a * (SCALE as int), b);
    vstd::arithmetic::div_mod::lemma_div_multiples_vanish(1, b);
}

/// The camera-basis inputs of a transform: eye position, look-at point and
/// up hint.
#[derive(Clone, Copy, PartialEq, Eq, Structural, Debug)]
pub struct ViewParams {
    /// Eye position in world space.
    pub position: V3,
    /// Look-at point in world space (not a direction vector).
    pub direction: V3,
    /// Up hint; must not be parallel to the facing direction.
    pub up: V3,
}

/// The per-object placement parameters a draw call snapshots each frame.
#[derive(Clone, Copy)]
pub struct Transform {
    /// World-space offset.
    pub translation: V3,
    /// Orbit rotation Euler angles, radians.
    pub rotation: V3,
    /// Self-spin Euler angles, radians.
    pub rotate_self: V3,
    /// Uniform scale factor.
    pub scale: Fx,
    /// Camera basis inputs.
    pub view: ViewParams,
    /// Viewport size; `None` renders un-projected (identity projection).
    pub frame_dimensions: Option<(u32, u32)>,
    /// Far depth plane.
    pub zfar: Fx,
    /// Near depth plane.
    pub znear: Fx,
    /// Vertical field of view, radians.
    pub fov: Fx,
}

/// All numeric fields of a transform stay inside the builders' limits.
pub open spec fn transform_wf(t: Transform) -> bool {
    &&& v3_wf(t.translation@, VEC_LIM as int)
    &&& v3_wf(t.rotation@, VEC_LIM as int)
    &&& v3_wf(t.rotate_self@, VEC_LIM as int)
    &&& v3_wf(t.view.position@, WORLD_LIM as int)
    &&& v3_wf(t.view.direction@, WORLD_LIM as int)
    &&& v3_wf(t.view.up@, WORLD_LIM as int)
    &&& -WORLD_LIM <= t.fov.raw <= WORLD_LIM
    &&& -DEPTH_LIM <= t.znear.raw <= DEPTH_LIM
    &&& -DEPTH_LIM <= t.zfar.raw <= DEPTH_LIM
    &&& (match t.frame_dimensions {
        Some(dim) => 1 <= dim.0 <= DIM_LIM && 1 <= dim.1 <= DIM_LIM,
        None => true,
    })
}

impl Default for Transform {
    /// The startup defaults: no placement, quarter scale, a placeholder
    /// view (degenerate, so `get_view` cannot be called on it), no
    /// viewport, far 30, near 0.1, field of view pi/3.
    fn default() -> (r: Self)
        ensures
            r.translation@ == (V3i { x: 0, y: 0, z: 0 }),
            r.rotation@ == (V3i { x: 0, y: 0, z: 0 }),
            r.rotate_self@ == (V3i { x: 0, y: 0, z: 0 }),
            r.scale.raw == 250_000,
            r.view.position@ == (V3i { x: SCALE as int, y: 0, z: 0 }),
            r.view.direction@ == (V3i { x: SCALE as int, y: 0, z: 0 }),
            r.view.up@ == (V3i { x: 0, y: SCALE as int, z: 0 }),
            r.frame_dimensions is None,
            r.zfar.raw == 30 * SCALE,
            r.znear.raw == 100_000,
            r.fov.raw == 1_047_198,
            transform_wf(r),
    {
        Transform {
            translation: V3::zero(),
            rotation: V3::zero(),
            rotate_self: V3::zero(),
            scale: Fx { raw: 250_000 },
            view: ViewParams {
                position: V3::from_raw(SCALE, 0, 0),
                direction: V3::from_raw(SCALE, 0, 0),
                up: V3::from_raw(0, SCALE, 0),
            },
            frame_dimensions: None,
            zfar: Fx { raw: 30 * SCALE },
            znear: Fx { raw: 100_000 },
            fov: Fx { raw: 1_047_198 },
        }
    }
}

impl Transform {
    /// Translation matrix for this object's world offset.
    pub fn get_translation(&self) -> (r: Mat4)
        requires
            v3_wf(self.translation@, VEC_LIM as int),
        ensures
            r@ == translation_mat_spec(self.translation@),
    {
        translation_matrix(&self.translation)
    }

    /// Orbit rotation matrix (Rz * Ry * Rx of the orbit Euler angles).
    pub fn get_rotation(&self) -> (r: Mat4)
        requires
            v3_wf(self.rotation@, VEC_LIM as int),
        ensures
            r@ == rotation_mat_spec(self.rotation@),
    {
        rotation_matrix(&self.rotation)
    }

    /// Uniform scale matrix.
    pub fn get_scaling(&self) -> (r: Mat4)
        ensures
            r@ == scale_mat_spec(self.scale.raw as int),
    {
        scale_matrix(self.scale)
    }

    /// Self-spin rotation matrix (same composition, separate uniform).
    pub fn get_self_rotation(&self) -> (r: Mat4)
        requires
            v3_wf(self.rotate_self@, VEC_LIM as int),
        ensures
            r@ == rotation_mat_spec(self.rotate_self@),
    {
        self_rotation_matrix(&self.rotate_self)
    }

    /// View matrix built from the camera basis inputs.
    pub fn get_view(&self) -> (r: Mat4)
        requires
            v3_wf(self.view.position@, WORLD_LIM as int),
            v3_wf(self.view.direction@, WORLD_LIM as int),
            v3_wf(self.view.up@, WORLD_LIM as int),
            view_defined(self.view.position@, self.view.direction@, self.view.up@),
        ensures
            r@ == view_mat_spec(self.view.position@, self.view.direction@, self.view.up@),
    {
        view_matrix(&self.view.position, &self.view.direction, &self.view.up)
    }

    /// Projection matrix, or the identity when no viewport size is known.
    pub fn get_perspective(&self) -> (r: Mat4)
        requires
            -WORLD_LIM <= self.fov.raw <= WORLD_LIM,
            -DEPTH_LIM <= self.znear.raw <= DEPTH_LIM,
            -DEPTH_LIM <= self.zfar.raw <= DEPTH_LIM,
            (match self.frame_dimensions {
                Some(dim) => 1 <= dim.0 <= DIM_LIM && 1 <= dim.1 <= DIM_LIM
                    && perspective_defined(self.fov.raw as int, self.znear.raw as int,
                    self.zfar.raw as int),
                None => true,
            }),
        ensures
            r@ == (match self.frame_dimensions {
                Some(dim) => perspective_mat_spec(dim.0 as int, dim.1 as int,
                    self.fov.raw as int, self.znear.raw as int, self.zfar.raw as int),
                None => m4_identity(),
            }),
    {
        perspective_matrix(self.frame_dimensions, self.fov, self.znear, self.zfar)
    }

    /// Runtime check for `get_view`'s precondition, for callers that cannot
    /// establish it statically.
    pub fn view_params_defined(&self) -> (r: bool)
        requires
            v3_wf(self.view.position@, WORLD_LIM as int),
            v3_wf(self.view.direction@, WORLD_LIM as int),
            v3_wf(self.view.up@, WORLD_LIM as int),
        ensures
            r == view_defined(self.view.position@, self.view.direction@, self.view.up@),
    {
        let diff = sub_vectors(&self.view.direction, &self.view.position);
        if diff.is_zero() {
            return false;
        }
        let fwd = normalize_vector(&diff);
        let cr = cross_product(&fwd, &self.view.up);
        proof {
            crate::fixed::lemma_fx_mul_bound(fwd@.y, self.view.up@.z, SCALE as int,
                WORLD_LIM as int);
            crate::fixed::lemma_fx_mul_bound(fwd@.z, self.view.up@.y, SCALE as int,
                WORLD_LIM as int);
            crate::fixed::lemma_fx_mul_bound(fwd@.z, self.view.up@.x, SCALE as int,
                WORLD_LIM as int);
            crate::fixed::lemma_fx_mul_bound(fwd@.x, self.view.up@.z, SCALE as int,
                WORLD_LIM as int);
            crate::fixed::lemma_fx_mul_bound(fwd@.x, self.view.up@.y, SCALE as int,
                WORLD_LIM as int);
            crate::fixed::lemma_fx_mul_bound(fwd@.y, self.view.up@.x, SCALE as int,
                WORLD_LIM as int);
        }
        !cr.is_zero()
    }

    /// Runtime check for `get_perspective`'s denominator precondition.
    pub fn perspective_params_defined(&self) -> (r: bool)
        requires
            self.fov.raw > i64::MIN,
        ensures
            r == perspective_defined(self.fov.raw as int, self.znear.raw as int,
                self.zfar.raw as int),
    {
        let s = fx_sin(self.fov.divn(2));
        s.raw != 0 && self.zfar.raw != self.znear.raw
    }
}

/// Law: the translation matrix carries the homogeneous origin exactly to
/// its offset vector.
pub proof fn lemma_translation_moves_origin(t: V3i)
    ensures
        m4_apply(translation_mat_spec(t), V4i { x: 0, y: 0, z: 0, w: SCALE as int })
            == (V4i { x: t.x, y: t.y, z: t.z, w: SCALE as int }),
{
    lemma_fx_mul_unit(0);
    lemma_fx_mul_unit(SCALE as int);
    lemma_fx_mul_unit(t.x);
    lemma_fx_mul_unit(t.y);
    lemma_fx_mul_unit(t.z);
}

/// Law: zero Euler angles give the identity rotation, and unit scale gives
/// the identity scale matrix.
pub proof fn lemma_identity_transforms()
    ensures
        rotation_mat_spec(V3i { x: 0, y: 0, z: 0 }) == m4_identity(),
        scale_mat_spec(SCALE as int) == m4_identity(),
{
    crate::angle::lemma_trig_at_zero();
    assert(rot_x_mat_spec(0) == m4_identity());
    assert(rot_y_mat_spec(0) == m4_identity());
    assert(rot_z_mat_spec(0) == m4_identity());
    crate::matrix::lemma_m4_identity_left(m4_identity());
}

/// Law: the view matrix carries the eye itself exactly to the camera-space
/// origin — the fourth column is the negated basis-times-eye, built from
/// the very same rounded products, so the cancellation is exact.
pub proof fn lemma_view_matrix_centers_eye(position: V3i, target: V3i, up: V3i)
    ensures
        m4_apply(view_mat_spec(position, target, up), V4i {
            x: position.x,
            y: position.y,
            z: position.z,
            w: SCALE as int,
        }) == (V4i { x: 0, y: 0, z: 0, w: SCALE as int }),
{
    let fwd = v3_normalize(v3_sub(target, position));
    let right = v3_normalize(v3_cross(fwd, up));
    let tu = v3_cross(right, fwd);
    lemma_fx_mul_unit(0);
    lemma_fx_mul_unit(SCALE as int);
    lemma_fx_mul_unit(-crate::vector::v3_dot(right, position));
    lemma_fx_mul_unit(-crate::vector::v3_dot(tu, position));
    lemma_fx_mul_unit(crate::vector::v3_dot(fwd, position));
    crate::fixed::lemma_fx_mul_neg_left(fwd.x, position.x);
    crate::fixed::lemma_fx_mul_neg_left(fwd.y, position.y);
    crate::fixed::lemma_fx_mul_neg_left(fwd.z, position.z);
}

/// Law: with no viewport the projection is the identity, and on a square
/// viewport the two spatial diagonal terms agree for any field of view.
pub proof fn lemma_perspective_square_viewport(w: int, fov: int, znear: int, zfar: int)
    requires
        1 <= w,
    ensures
        perspective_mat_spec(w, w, fov, znear, zfar).c0.x == perspective_mat_spec(w, w, fov,
            znear, zfar).c1.y,
{
    let s = SCALE as int;
    let a = w * s;
    let half = trunc_div(fov, 2);
    let f = fx_div_raw(fx_cos_raw(half), fx_sin_raw(half));
    lemma_trunc_div_exact(s, a);
    assert(fx_div_raw(a, a) == s);
    lemma_trunc_div_exact(f, s);
    assert(fx_div_raw(f, s) == f);
}

} // verus!
