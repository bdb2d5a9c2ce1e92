//! The camera controller: a state machine over the camera snapshot whose
//! one transition applies a discrete input event. Key dispatch is
//! data-driven (key -> tagged effect); translations move eye and look-at
//! point together, yaw re-aims the look-at point by an exact planar
//! rotation about the vertical axis through the eye (same horizontal
//! radius, angle advanced by the step), pitch adds the camera-up basis
//! vector, and auxiliary parameters are nudged by fixed steps. After every
//! key event — whatever the key — `grow` and `tilt` are clamped.

use crate::angle::{fx_cos, fx_cos_raw, fx_sin, fx_sin_raw, SIN_COS_BOUND};
use crate::fixed::{fx_mul_raw, lemma_fx_mul_bound, Fx, SCALE};
use crate::transform::WORLD_LIM;
use crate::vector::{
    add_vectors, cross_product, normalize_vector, sub_vectors, v3_add, v3_cross, v3_is_zero,
    v3_normalize, v3_scale, v3_sub, v3_wf, vec_scal_mul, V3i, V3, VEC_LIM,
};
use vstd::prelude::*;

verus! {

/// World-unit step applied by one translation key press.
pub const STEP_RAW: i64 = 50_000;

/// Angle step, in raw radians, applied by one yaw key press.
pub const YAW_STEP_RAW: i64 = 50_000;

/// Step applied to `spin` per key press.
pub const SPIN_STEP_RAW: i64 = 50_000;

/// Step applied to the far plane per key press.
pub const ZFAR_STEP_RAW: i64 = 400_000;

/// Step applied to the near plane per key press.
pub const ZNEAR_STEP_RAW: i64 = 100_000;

/// Step applied to the field of view per key press.
pub const FOV_STEP_RAW: i64 = 10_000;

/// `grow` values below `GROW_SNAP_RAW` snap to this lower bound.
pub const GROW_MIN_RAW: i64 = 10_000;

/// Snap threshold for `grow`.
pub const GROW_SNAP_RAW: i64 = 20_000;

/// Horizontal world-boundary box half-width (x and z).
pub const BOUND_XZ_RAW: i64 = 2_200_000;

/// Lower world-boundary bound on y.
pub const BOUND_Y_MIN_RAW: i64 = 100_000;

/// Upper world-boundary bound on y.
pub const BOUND_Y_MAX_RAW: i64 = 2_200_000;

/// The keys the controller reacts to.
#[derive(Clone, Copy, PartialEq, Eq, Structural, Debug)]
pub enum Key {
    W,
    A,
    S,
    D,
    J,
    K,
    ArrowLeft,
    ArrowRight,
    ArrowUp,
    ArrowDown,
    F1,
    F2,
    F3,
    F4,
    F5,
    F6,
    /// Any key the dispatch table does not bind: a no-op, not an error.
    Unbound,
}

/// The tagged effect a bound key applies.
#[derive(Clone, Copy, PartialEq, Eq, Structural, Debug)]
pub enum Effect {
    MoveForward,
    MoveBackward,
    StrafeLeft,
    StrafeRight,
    YawLeft,
    YawRight,
    PitchUp,
    PitchDown,
    SpinInc,
    SpinDec,
    FarInc,
    FarDec,
    NearInc,
    NearDec,
    FovInc,
    FovDec,
}

/// A discrete event handed to the controller by the event pump.
#[derive(Clone, Copy, PartialEq, Eq, Structural, Debug)]
pub enum CameraEvent {
    /// A keyboard transition; effects apply on the pressed edge only.
    KeyInput { key: Key, pressed: bool },
    /// The window was asked to close: pure pass-through to the loop.
    CloseRequested,
    /// Timer or startup tick used by the loop to schedule frames: a no-op.
    Timer,
}

/// What the surrounding event loop should do after an event.
#[derive(Clone, Copy, PartialEq, Eq, Structural, Debug)]
pub enum LoopSignal {
    Proceed,
    Exit,
}

/// The dispatch table from key to tagged effect.
pub open spec fn key_effect_spec(key: Key) -> Option<Effect> {
    match key {
        Key::W => Some(Effect::MoveForward),
        Key::S => Some(Effect::MoveBackward),
        Key::A => Some(Effect::StrafeLeft),
        Key::D => Some(Effect::StrafeRight),
        Key::J => Some(Effect::SpinInc),
        Key::K => Some(Effect::SpinDec),
        Key::ArrowLeft => Some(Effect::YawLeft),
        Key::ArrowRight => Some(Effect::YawRight),
        Key::ArrowUp => Some(Effect::PitchUp),
        Key::ArrowDown => Some(Effect::PitchDown),
        Key::F1 => Some(Effect::FarInc),
        Key::F2 => Some(Effect::FarDec),
        Key::F3 => Some(Effect::NearInc),
        Key::F4 => Some(Effect::NearDec),
        Key::F5 => Some(Effect::FovInc),
        Key::F6 => Some(Effect::FovDec),
        Key::Unbound => None,
    }
}

/// Executable dispatch table.
pub fn key_effect(key: Key) -> (r: Option<Effect>)
    ensures
        r == key_effect_spec(key),
{
    match key {
        Key::W => Some(Effect::MoveForward),
        Key::S => Some(Effect::MoveBackward),
        Key::A => Some(Effect::StrafeLeft),
        Key::D => Some(Effect::StrafeRight),
        Key::J => Some(Effect::SpinInc),
        Key::K => Some(Effect::SpinDec),
        Key::ArrowLeft => Some(Effect::YawLeft),
        Key::ArrowRight => Some(Effect::YawRight),
        Key::ArrowUp => Some(Effect::PitchUp),
        Key::ArrowDown => Some(Effect::PitchDown),
        Key::F1 => Some(Effect::FarInc),
        Key::F2 => Some(Effect::FarDec),
        Key::F3 => Some(Effect::NearInc),
        Key::F4 => Some(Effect::NearDec),
        Key::F5 => Some(Effect::FovInc),
        Key::F6 => Some(Effect::FovDec),
        Key::Unbound => None,
    }
}

/// Mathematical model of the camera state.
pub ghost struct CamView {
    pub grow: int,
    pub tilt: int,
    pub spin: int,
    pub translate_x: int,
    pub translate_y: int,
    pub zfar: int,
    pub znear: int,
    pub fov: int,
    pub direction: V3i,
    pub position: V3i,
    pub up: V3i,
    pub bounded: bool,
}

/// The camera state: the view basis (`direction` is the look-at point),
/// UI parameters, projection parameters and the boundary-check switch.
pub struct EventHandler {
    pub grow: Fx,
    pub tilt: Fx,
    pub spin: Fx,
    pub translate_x: Fx,
    pub translate_y: Fx,
    pub zfar: Fx,
    pub znear: Fx,
    pub fov: Fx,
    pub direction: V3,
    pub position: V3,
    pub up: V3,
    /// When set, translations that would leave the world box are rejected.
    pub bounded: bool,
}

impl View for EventHandler {
    type V = CamView;

    open spec fn view(&self) -> CamView {
        CamView {
            grow: self.grow.raw as int,
            tilt: self.tilt.raw as int,
            spin: self.spin.raw as int,
            translate_x: self.translate_x.raw as int,
            translate_y: self.translate_y.raw as int,
            zfar: self.zfar.raw as int,
            znear: self.znear.raw as int,
            fov: self.fov.raw as int,
            direction: self.direction@,
            position: self.position@,
            up: self.up@,
            bounded: self.bounded,
        }
    }
}

/// All camera scalars and coordinates stay inside the world limit, so one
/// more step cannot overflow the arithmetic.
pub open spec fn cam_wf(s: CamView) -> bool {
    &&& -WORLD_LIM <= s.grow <= WORLD_LIM
    &&& -WORLD_LIM <= s.tilt <= WORLD_LIM
    &&& -WORLD_LIM <= s.spin <= WORLD_LIM
    &&& -WORLD_LIM <= s.translate_x <= WORLD_LIM
    &&& -WORLD_LIM <= s.translate_y <= WORLD_LIM
    &&& -WORLD_LIM <= s.zfar <= WORLD_LIM
    &&& -WORLD_LIM <= s.znear <= WORLD_LIM
    &&& -WORLD_LIM <= s.fov <= WORLD_LIM
    &&& v3_wf(s.direction, WORLD_LIM as int)
    &&& v3_wf(s.position, WORLD_LIM as int)
    &&& v3_wf(s.up, WORLD_LIM as int)
}

/// The camera's facing direction: from the eye toward the look-at point.
pub open spec fn cam_facing(s: CamView) -> V3i {
    v3_normalize(v3_sub(s.direction, s.position))
}

/// The camera's sideways basis vector.
pub open spec fn cam_orth(s: CamView) -> V3i {
    v3_normalize(v3_cross(cam_facing(s), s.up))
}

/// The camera's up basis vector.
pub open spec fn cam_vert(s: CamView) -> V3i {
    v3_normalize(v3_cross(cam_orth(s), cam_facing(s)))
}

/// The camera basis exists: the eye is off the look-at point, the up hint
/// is not parallel to the facing, and the derived pair is non-degenerate.
pub open spec fn basis_defined(s: CamView) -> bool {
    &&& !v3_is_zero(v3_sub(s.direction, s.position))
    &&& !v3_is_zero(v3_cross(cam_facing(s), s.up))
    &&& !v3_is_zero(v3_cross(cam_orth(s), cam_facing(s)))
}

/// The world-boundary box of the bounds-checked variant.
pub open spec fn in_bounds_spec(p: V3i) -> bool {
    &&& -BOUND_XZ_RAW <= p.x <= BOUND_XZ_RAW
    &&& BOUND_Y_MIN_RAW <= p.y <= BOUND_Y_MAX_RAW
    &&& -BOUND_XZ_RAW <= p.z <= BOUND_XZ_RAW
}

/// Clamp applied to `grow` after every key event: values under the snap
/// threshold collapse to the minimum (never to zero), values over one cap.
pub open spec fn clamp_grow(g: int) -> int {
    if g < GROW_SNAP_RAW {
        GROW_MIN_RAW as int
    } else if g > SCALE {
        SCALE as int
    } else {
        g
    }
}

/// Clamp applied to `tilt` after every key event.
pub open spec fn clamp_tilt(t: int) -> int {
    if t > SCALE {
        SCALE as int
    } else if t < -SCALE {
        -SCALE as int
    } else {
        t
    }
}

/// The unconditional end-of-event clamp.
pub open spec fn ui_clamp(s: CamView) -> CamView {
    CamView { grow: clamp_grow(s.grow), tilt: clamp_tilt(s.tilt), ..s }
}

/// Whether an effect recomputes the camera basis before acting.
pub open spec fn effect_needs_basis(e: Effect) -> bool {
    match e {
        Effect::MoveForward | Effect::MoveBackward | Effect::StrafeLeft
            | Effect::StrafeRight | Effect::PitchUp | Effect::PitchDown => true,
        _ => false,
    }
}

/// Whether an effect is one of the four camera translations.
pub open spec fn effect_is_move(e: Effect) -> bool {
    match e {
        Effect::MoveForward | Effect::MoveBackward | Effect::StrafeLeft
            | Effect::StrafeRight => true,
        _ => false,
    }
}

/// The basis axis along which a translation effect moves.
pub open spec fn move_axis(s: CamView, e: Effect) -> V3i {
    match e {
        Effect::MoveForward | Effect::MoveBackward => cam_facing(s),
        _ => cam_orth(s),
    }
}

/// Whether a translation effect adds (rather than subtracts) its axis.
pub open spec fn move_positive(e: Effect) -> bool {
    match e {
        Effect::MoveForward | Effect::StrafeLeft => true,
        _ => false,
    }
}

/// The candidate eye position a translation effect proposes.
pub open spec fn move_candidate(s: CamView, e: Effect) -> V3i {
    let delta = v3_scale(move_axis(s, e), STEP_RAW as int);
    if move_positive(e) {
        v3_add(s.position, delta)
    } else {
        v3_sub(s.position, delta)
    }
}

/// A translation: eye and look-at point move by the same step vector, so
/// the facing offset is preserved; in the bounds-checked variant a
/// candidate outside the world box is rejected outright.
pub open spec fn moved(s: CamView, e: Effect) -> CamView {
    let delta = v3_scale(move_axis(s, e), STEP_RAW as int);
    let np = move_candidate(s, e);
    let nd = if move_positive(e) {
        v3_add(s.direction, delta)
    } else {
        v3_sub(s.direction, delta)
    };
    if !s.bounded || in_bounds_spec(np) {
        CamView { position: np, direction: nd, ..s }
    } else {
        s
    }
}

/// A yaw: the look-at offset is rotated about the vertical axis through
/// the eye by the angle step (advancing the horizontal angle at the same
/// radius); the offset height and the eye are untouched.
pub open spec fn yawed(s: CamView, right: bool) -> CamView {
    let off = v3_sub(s.direction, s.position);
    let sn = fx_sin_raw(YAW_STEP_RAW as int);
    let cs = fx_cos_raw(YAW_STEP_RAW as int);
    let nx = if right {
        fx_mul_raw(off.x, cs) + fx_mul_raw(off.z, sn)
    } else {
        fx_mul_raw(off.x, cs) - fx_mul_raw(off.z, sn)
    };
    let nz = if right {
        fx_mul_raw(off.z, cs) - fx_mul_raw(off.x, sn)
    } else {
        fx_mul_raw(off.z, cs) + fx_mul_raw(off.x, sn)
    };
    CamView {
        direction: V3i { x: s.position.x + nx, y: s.direction.y, z: s.position.z + nz },
        ..s
    }
}

/// A pitch: the camera-up basis vector is added to (or subtracted from)
/// the look-at point; the eye is untouched. This is the simple
/// vector-additive look change, an approximation rather than a true
/// rotation about the eye; yaw uses the angle-based policy instead.
pub open spec fn pitched(s: CamView, up_dir: bool) -> CamView {
    let v = cam_vert(s);
    CamView {
        direction: if up_dir {
            v3_add(s.direction, v)
        } else {
            v3_sub(s.direction, v)
        },
        ..s
    }
}

/// The effect of one bound key, before the end-of-event clamp.
pub open spec fn apply_effect(s: CamView, e: Effect) -> CamView {
    match e {
        Effect::MoveForward | Effect::MoveBackward | Effect::StrafeLeft
            | Effect::StrafeRight => moved(s, e),
        Effect::YawRight => yawed(s, true),
        Effect::YawLeft => yawed(s, false),
        Effect::PitchUp => pitched(s, true),
        Effect::PitchDown => pitched(s, false),
        Effect::SpinInc => CamView { spin: s.spin + SPIN_STEP_RAW, ..s },
        Effect::SpinDec => CamView { spin: s.spin - SPIN_STEP_RAW, ..s },
        Effect::FarInc => CamView { zfar: s.zfar + ZFAR_STEP_RAW, ..s },
        Effect::FarDec => CamView { zfar: s.zfar - ZFAR_STEP_RAW, ..s },
        Effect::NearInc => CamView { znear: s.znear + ZNEAR_STEP_RAW, ..s },
        Effect::NearDec => CamView { znear: s.znear - ZNEAR_STEP_RAW, ..s },
        Effect::FovInc => CamView { fov: s.fov + FOV_STEP_RAW, ..s },
        Effect::FovDec => CamView { fov: s.fov - FOV_STEP_RAW, ..s },
    }
}

/// One key event: the bound effect applies on the pressed edge only, and
/// the UI clamp runs whatever the key and whatever the edge.
pub open spec fn key_step(s: CamView, key: Key, pressed: bool) -> CamView {
    let applied = if pressed {
        match key_effect_spec(key) {
            Some(e) => apply_effect(s, e),
            None => s,
        }
    } else {
        s
    };
    ui_clamp(applied)
}

/// The full transition function of the controller: key events step the
/// state, every other event leaves it untouched.
pub open spec fn camera_step(s: CamView, ev: CameraEvent) -> CamView {
    match ev {
        CameraEvent::KeyInput { key, pressed } => key_step(s, key, pressed),
        _ => s,
    }
}

/// The precondition an event must meet: a pressed key whose effect reads
/// the camera basis needs that basis to exist (degenerate bases are caller
/// errors by design, not runtime checks).
pub open spec fn event_ready(s: CamView, ev: CameraEvent) -> bool {
    match ev {
        CameraEvent::KeyInput { key, pressed } => {
            if pressed {
                match key_effect_spec(key) {
                    Some(e) => effect_needs_basis(e) ==> basis_defined(s),
                    None => true,
                }
            } else {
                true
            }
        },
        _ => true,
    }
}

/// The world-boundary test of the bounds-checked variant.
pub fn is_inbounds(position: &V3) -> (r: bool)
    ensures
        r == in_bounds_spec(position@),
{
    position.x.raw >= -BOUND_XZ_RAW && position.x.raw <= BOUND_XZ_RAW
        && position.y.raw >= BOUND_Y_MIN_RAW && position.y.raw <= BOUND_Y_MAX_RAW
        && position.z.raw >= -BOUND_XZ_RAW && position.z.raw <= BOUND_XZ_RAW
}

impl EventHandler {
    /// Builds a camera with every field given; the boundary check starts
    /// enabled.
    pub fn new(grow: Fx, tilt: Fx, spin: Fx, translate_x: Fx, translate_y: Fx, zfar: Fx,
        znear: Fx, fov: Fx, direction: V3, position: V3, up: V3) -> (r: Self)
        ensures
            r@ == (CamView {
                grow: grow.raw as int,
                tilt: tilt.raw as int,
                spin: spin.raw as int,
                translate_x: translate_x.raw as int,
                translate_y: translate_y.raw as int,
                zfar: zfar.raw as int,
                znear: znear.raw as int,
                fov: fov.raw as int,
                direction: direction@,
                position: position@,
                up: up@,
                bounded: true,
            }),
    {
        EventHandler {
            grow,
            tilt,
            spin,
            translate_x,
            translate_y,
            zfar,
            znear,
            fov,
            direction,
            position,
            up,
            bounded: true,
        }
    }

    /// Runtime check for the basis part of `handle_event`'s precondition.
    pub fn basis_ready(&self) -> (r: bool)
        requires
            cam_wf(self@),
        ensures
            r == basis_defined(self@),
    {
        let diff = sub_vectors(&self.direction, &self.position);
        if diff.is_zero() {
            return false;
        }
        let f = normalize_vector(&diff);
        let c1 = cross_product(&f, &self.up);
        proof {
            lemma_cross_small_world(f@, self.up@);
        }
        if c1.is_zero() {
            return false;
        }
        let o = normalize_vector(&c1);
        let c2 = cross_product(&o, &f);
        !c2.is_zero()
    }

    /// The camera's facing direction.
    fn facing(&self) -> (r: V3)
        requires
            cam_wf(self@),
            !v3_is_zero(v3_sub(self@.direction, self@.position)),
        ensures
            r@ == cam_facing(self@),
            v3_wf(r@, SCALE as int),
    {
        let diff = sub_vectors(&self.direction, &self.position);
        normalize_vector(&diff)
    }

    /// The camera's sideways basis vector.
    fn orth(&self) -> (r: V3)
        requires
            cam_wf(self@),
            !v3_is_zero(v3_sub(self@.direction, self@.position)),
            !v3_is_zero(v3_cross(cam_facing(self@), self@.up)),
        ensures
            r@ == cam_orth(self@),
            v3_wf(r@, SCALE as int),
    {
        let f = self.facing();
        let c = cross_product(&f, &self.up);
        proof {
            lemma_cross_small_world(f@, self.up@);
        }
        normalize_vector(&c)
    }

    /// The camera's up basis vector.
    fn vert(&self) -> (r: V3)
        requires
            cam_wf(self@),
            basis_defined(self@),
        ensures
            r@ == cam_vert(self@),
            v3_wf(r@, SCALE as int),
    {
        let f = self.facing();
        let o = self.orth();
        let c = cross_product(&o, &f);
        proof {
            lemma_cross_small_world(o@, f@);
        }
        normalize_vector(&c)
    }

    /// Applies one translation effect.
    fn translate_by(&mut self, axis: &V3, e: Effect)
        requires
            cam_wf(old(self)@),
            effect_is_move(e),
            v3_wf(axis@, SCALE as int),
            axis@ == move_axis(old(self)@, e),
        ensures
            final(self)@ == moved(old(self)@, e),
    {
        let delta = vec_scal_mul(axis, Fx { raw: STEP_RAW });
        proof {
            lemma_fx_mul_bound(axis@.x, STEP_RAW as int, SCALE as int, STEP_RAW as int);
            lemma_fx_mul_bound(axis@.y, STEP_RAW as int, SCALE as int, STEP_RAW as int);
            lemma_fx_mul_bound(axis@.z, STEP_RAW as int, SCALE as int, STEP_RAW as int);
        }
        let positive = key_move_positive(e);
        let np = if positive {
            add_vectors(&self.position, &delta)
        } else {
            sub_vectors(&self.position, &delta)
        };
        if !self.bounded || is_inbounds(&np) {
            let nd = if positive {
                add_vectors(&self.direction, &delta)
            } else {
                sub_vectors(&self.direction, &delta)
            };
            self.position = np;
            self.direction = nd;
        }
    }

    /// Applies one yaw effect.
    fn yaw(&mut self, right: bool)
        requires
            cam_wf(old(self)@),
        ensures
            final(self)@ == yawed(old(self)@, right),
    {
        let off = sub_vectors(&self.direction, &self.position);
        let step = Fx { raw: YAW_STEP_RAW };
        let sn = fx_sin(step);
        let cs = fx_cos(step);
        proof {
            lemma_fx_mul_bound(off@.x, cs.raw as int, VEC_LIM as int, SIN_COS_BOUND as int);
            lemma_fx_mul_bound(off@.z, sn.raw as int, VEC_LIM as int, SIN_COS_BOUND as int);
            lemma_fx_mul_bound(off@.z, cs.raw as int, VEC_LIM as int, SIN_COS_BOUND as int);
            lemma_fx_mul_bound(off@.x, sn.raw as int, VEC_LIM as int, SIN_COS_BOUND as int);
        }
        let xc = off.x.mul(cs);
        let zs = off.z.mul(sn);
        let zc = off.z.mul(cs);
        let xs = off.x.mul(sn);
        let nx = if right {
            xc.add(zs)
        } else {
            xc.sub(zs)
        };
        let nz = if right {
            zc.sub(xs)
        } else {
            zc.add(xs)
        };
        self.direction = V3 {
            x: self.position.x.add(nx),
            y: self.direction.y,
            z: self.position.z.add(nz),
        };
    }

    /// Applies one pitch effect.
    fn pitch(&mut self, up_dir: bool)
        requires
            cam_wf(old(self)@),
            basis_defined(old(self)@),
        ensures
            final(self)@ == pitched(old(self)@, up_dir),
    {
        let v = self.vert();
        self.direction = if up_dir {
            add_vectors(&self.direction, &v)
        } else {
            sub_vectors(&self.direction, &v)
        };
    }

    /// Runs the unconditional end-of-event clamp on `grow` and `tilt`.
    fn clamp_ui(&mut self)
        ensures
            final(self)@ == ui_clamp(old(self)@),
    {
        if self.grow.raw < GROW_SNAP_RAW {
            self.grow = Fx { raw: GROW_MIN_RAW };
        } else if self.grow.raw > SCALE {
            self.grow = Fx { raw: SCALE };
        }
        if self.tilt.raw > SCALE {
            self.tilt = Fx { raw: SCALE };
        } else if self.tilt.raw < -SCALE {
            self.tilt = Fx { raw: -SCALE };
        }
    }

    /// Handles one discrete input event: the sole transition of the camera
    /// state machine. The returned signal tells the surrounding loop
    /// whether to keep running.
    pub fn handle_event(&mut self, ev: CameraEvent) -> (sig: LoopSignal)
        requires
            cam_wf(old(self)@),
            event_ready(old(self)@, ev),
        ensures
            final(self)@ == camera_step(old(self)@, ev),
            sig == (if ev is CloseRequested {
                LoopSignal::Exit
            } else {
                LoopSignal::Proceed
            }),
    {
        match ev {
            CameraEvent::CloseRequested => LoopSignal::Exit,
            CameraEvent::Timer => LoopSignal::Proceed,
            CameraEvent::KeyInput { key, pressed } => {
                if pressed {
                    match key_effect(key) {
                        None => {},
                        Some(e) => {
                            match e {
                                Effect::MoveForward | Effect::MoveBackward => {
                                    let f = self.facing();
                                    self.translate_by(&f, e);
                                },
                                Effect::StrafeLeft | Effect::StrafeRight => {
                                    let o = self.orth();
                                    self.translate_by(&o, e);
                                },
                                Effect::YawRight => self.yaw(true),
                                Effect::YawLeft => self.yaw(false),
                                Effect::PitchUp => self.pitch(true),
                                Effect::PitchDown => self.pitch(false),
                                Effect::SpinInc => {
                                    self.spin = self.spin.add(Fx { raw: SPIN_STEP_RAW });
                                },
                                Effect::SpinDec => {
                                    self.spin = self.spin.sub(Fx { raw: SPIN_STEP_RAW });
                                },
                                Effect::FarInc => {
                                    self.zfar = self.zfar.add(Fx { raw: ZFAR_STEP_RAW });
                                },
                                Effect::FarDec => {
                                    self.zfar = self.zfar.sub(Fx { raw: ZFAR_STEP_RAW });
                                },
                                Effect::NearInc => {
                                    self.znear = self.znear.add(Fx { raw: ZNEAR_STEP_RAW });
                                },
                                Effect::NearDec => {
                                    self.znear = self.znear.sub(Fx { raw: ZNEAR_STEP_RAW });
                                },
                                Effect::FovInc => {
                                    self.fov = self.fov.add(Fx { raw: FOV_STEP_RAW });
                                },
                                Effect::FovDec => {
                                    self.fov = self.fov.sub(Fx { raw: FOV_STEP_RAW });
                                },
                            }
                        },
                    }
                }
                self.clamp_ui();
                LoopSignal::Proceed
            },
        }
    }
}

/// Executable twin of `move_positive`.
fn key_move_positive(e: Effect) -> (r: bool)
    ensures
        r == move_positive(e),
{
    match e {
        Effect::MoveForward | Effect::StrafeLeft => true,
        _ => false,
    }
}

impl Default for EventHandler {
    /// The startup camera: full `grow`, level look along +z
    /// from just above the floor, world up, far 30, near 0.1, field of
    /// view pi/3, boundary check enabled.
    fn default() -> (r: Self)
        ensures
            r@ == (CamView {
                grow: SCALE as int,
                tilt: 0,
                spin: 0,
                translate_x: 0,
                translate_y: 0,
                zfar: 30 * SCALE,
                znear: 100_000,
                fov: 1_047_198,
                direction: V3i { x: 0, y: 0, z: SCALE as int },
                position: V3i { x: 0, y: 100_000, z: 0 },
                up: V3i { x: 0, y: SCALE as int, z: 0 },
                bounded: true,
            }),
            cam_wf(r@),
    {
        EventHandler {
            grow: Fx { raw: SCALE },
            tilt: Fx { raw: 0 },
            spin: Fx { raw: 0 },
            translate_x: Fx { raw: 0 },
            translate_y: Fx { raw: 0 },
            zfar: Fx { raw: 30 * SCALE },
            znear: Fx { raw: 100_000 },
            fov: Fx { raw: 1_047_198 },
            direction: V3::from_raw(0, 0, SCALE),
            position: V3::from_raw(0, 100_000, 0),
            up: V3::from_raw(0, SCALE, 0),
            bounded: true,
        }
    }
}

/// Law: a translation key never changes the offset from eye to look-at
/// point — whether the move is applied or rejected, the camera keeps
/// facing the same way.
pub proof fn lemma_move_preserves_facing(s: CamView, key: Key, pressed: bool, e: Effect)
    requires
        key_effect_spec(key) == Some(e),
        effect_is_move(e),
    ensures
        ({
            let s2 = camera_step(s, CameraEvent::KeyInput { key, pressed });
            v3_sub(s2.direction, s2.position) == v3_sub(s.direction, s.position)
        }),
{
}

/// Law: a translation that is applied moves the eye and the look-at point
/// by exactly the same step vector: the step-scaled basis axis.
pub proof fn lemma_move_applies_step(s: CamView, key: Key, e: Effect)
    requires
        key_effect_spec(key) == Some(e),
        effect_is_move(e),
        !s.bounded || in_bounds_spec(move_candidate(s, e)),
    ensures
        ({
            let s2 = camera_step(s, CameraEvent::KeyInput { key, pressed: true });
            let delta = v3_scale(move_axis(s, e), STEP_RAW as int);
            &&& s2.position == (if move_positive(e) {
                v3_add(s.position, delta)
            } else {
                v3_sub(s.position, delta)
            })
            &&& s2.direction == (if move_positive(e) {
                v3_add(s.direction, delta)
            } else {
                v3_sub(s.direction, delta)
            })
        }),
{
}

/// Law: in the bounds-checked variant, a translation whose candidate
/// position leaves the world box is rejected whole: neither the eye nor
/// the look-at point changes.
pub proof fn lemma_bounded_move_rejected(s: CamView, key: Key, e: Effect)
    requires
        key_effect_spec(key) == Some(e),
        effect_is_move(e),
        s.bounded,
        !in_bounds_spec(move_candidate(s, e)),
    ensures
        camera_step(s, CameraEvent::KeyInput { key, pressed: true }).position == s.position,
        camera_step(s, CameraEvent::KeyInput { key, pressed: true }).direction == s.direction,
{
}

/// Law: after any key event — any key, either edge, from any starting
/// value — `grow` lies in [0.01, 1] (snapped, never zero) and `tilt` in
/// [-1, 1].
pub proof fn lemma_key_event_clamps(s: CamView, key: Key, pressed: bool)
    ensures
        ({
            let s2 = camera_step(s, CameraEvent::KeyInput { key, pressed });
            GROW_MIN_RAW <= s2.grow <= SCALE && -SCALE <= s2.tilt <= SCALE
        }),
{
}

/// The state after a whole event sequence, first event first.
pub open spec fn run_events(s: CamView, evs: Seq<CameraEvent>) -> CamView
    decreases evs.len(),
{
    if evs.len() == 0 {
        s
    } else {
        camera_step(run_events(s, evs.drop_last()), evs.last())
    }
}

/// Whether a sequence contains at least one keyboard event.
pub open spec fn has_key_event(evs: Seq<CameraEvent>) -> bool {
    exists|i: int| 0 <= i < evs.len() && evs[i] is KeyInput
}

/// Law: after any sequence of events holding at least one key event,
/// `grow` and `tilt` are observably clamped — even starting out of range —
/// because the last key event clamps and later non-key events change
/// nothing.
pub proof fn lemma_grow_tilt_clamped_after_events(s: CamView, evs: Seq<CameraEvent>)
    requires
        has_key_event(evs),
    ensures
        ({
            let s2 = run_events(s, evs);
            GROW_MIN_RAW <= s2.grow <= SCALE && -SCALE <= s2.tilt <= SCALE
        }),
    decreases evs.len(),
{
    let i = choose|i: int| 0 <= i < evs.len() && evs[i] is KeyInput;
    match evs.last() {
        CameraEvent::KeyInput { key, pressed } => {
            lemma_key_event_clamps(run_events(s, evs.drop_last()), key, pressed);
        },
        _ => {
            assert(i < evs.len() - 1);
            assert(evs.drop_last()[i] is KeyInput);
            lemma_grow_tilt_clamped_after_events(s, evs.drop_last());
        },
    }
}

/// Bounds needed to cross a near-unit vector with a world-sized vector.
proof fn lemma_cross_small_world(a: V3i, b: V3i)
    requires
        v3_wf(a, SCALE as int),
        v3_wf(b, WORLD_LIM as int),
    ensures
        v3_wf(v3_cross(a, b), VEC_LIM as int),
{
    lemma_fx_mul_bound(a.y, b.z, SCALE as int, WORLD_LIM as int);
    lemma_fx_mul_bound(a.z, b.y, SCALE as int, WORLD_LIM as int);
    lemma_fx_mul_bound(a.z, b.x, SCALE as int, WORLD_LIM as int);
    lemma_fx_mul_bound(a.x, b.z, SCALE as int, WORLD_LIM as int);
    lemma_fx_mul_bound(a.x, b.y, SCALE as int, WORLD_LIM as int);
    lemma_fx_mul_bound(a.y, b.x, SCALE as int, WORLD_LIM as int);
}

} // verus!
