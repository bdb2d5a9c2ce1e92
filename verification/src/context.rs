//! The render context: an explicitly owned object holding the state the
//! draw path shares across every draw call — the light vector and the
//! light rotation angle. Created once by the surrounding loop and passed
//! by reference into the draw path; this module is its sole writer.

use crate::fixed::Fx;
use crate::transform::{rot_x_mat_spec, rot_x_matrix};
use crate::matrix::Mat4;
use crate::vector::{V3, V3i};
use vstd::prelude::*;

verus! {

/// Per-frame lighting state shared by every draw call.
pub struct RenderContext {
    /// Directional light vector handed to the shader.
    pub light: V3,
    /// Current light rotation angle, radians.
    pub light_rotation: Fx,
}

impl RenderContext {
    /// A context with the given light and a zero rotation angle.
    pub fn new(light: V3) -> (r: Self)
        ensures
            r.light@ == light@,
            r.light_rotation.raw == 0,
    {
        RenderContext { light, light_rotation: Fx { raw: 0 } }
    }

    /// Replaces the light vector.
    pub fn set_light(&mut self, light: V3)
        ensures
            final(self).light@ == light@,
            final(self).light_rotation == old(self).light_rotation,
    {
        self.light = light;
    }

    /// Reads the light vector.
    pub fn get_light(&self) -> (r: V3)
        ensures
            r@ == self.light@,
    {
        self.light
    }

    /// Replaces the light rotation angle.
    pub fn set_light_rotation(&mut self, light_rotation: Fx)
        ensures
            final(self).light_rotation == light_rotation,
            final(self).light@ == old(self).light@,
    {
        self.light_rotation = light_rotation;
    }

    /// Reads the light rotation angle.
    pub fn get_light_rotation(&self) -> (r: Fx)
        ensures
            r == self.light_rotation,
    {
        self.light_rotation
    }

    /// The light rotation as a matrix: a rotation about the x axis by the
    /// current angle.
    pub fn get_light_rotation_matrix(&self) -> (r: Mat4)
        requires
            self.light_rotation.raw > i64::MIN,
        ensures
            r@ == rot_x_mat_spec(self.light_rotation.raw as int),
    {
        rot_x_matrix(self.light_rotation)
    }
}

} // verus!
