//! Tests for the camera controller: translation, yaw, pitch, auxiliary
//! nudges, the unconditional clamp, the bounds-checked variant and the
//! event pass-throughs.

use rendermath::camera::{CameraEvent, EventHandler, Key, LoopSignal};
use rendermath::context::RenderContext;
use rendermath::fixed::{Fx, SCALE};
use rendermath::vector::V3;

fn fx(raw: i64) -> Fx {
    Fx { raw }
}

fn to_f64(raw: i64) -> f64 {
    raw as f64 / SCALE as f64
}

fn press(key: Key) -> CameraEvent {
    CameraEvent::KeyInput { key, pressed: true }
}

/// Camera at the origin looking along +z, with the boundary check off.
fn free_camera() -> EventHandler {
    let mut cam = EventHandler::new(
        fx(SCALE),
        fx(0),
        fx(0),
        fx(0),
        fx(0),
        fx(30 * SCALE),
        fx(100_000),
        fx(1_047_198),
        V3::from_raw(0, 0, SCALE),
        V3::from_raw(0, 0, 0),
        V3::from_raw(0, SCALE, 0),
    );
    cam.bounded = false;
    cam
}

#[test]
fn new_keeps_fields_and_enables_bounds() {
    let cam = EventHandler::new(
        fx(1),
        fx(2),
        fx(3),
        fx(4),
        fx(5),
        fx(6),
        fx(7),
        fx(8),
        V3::from_raw(9, 10, 11),
        V3::from_raw(12, 13, 14),
        V3::from_raw(15, 16, 17),
    );
    assert_eq!(cam.grow.raw, 1);
    assert_eq!(cam.tilt.raw, 2);
    assert_eq!(cam.spin.raw, 3);
    assert_eq!(cam.translate_x.raw, 4);
    assert_eq!(cam.translate_y.raw, 5);
    assert_eq!(cam.zfar.raw, 6);
    assert_eq!(cam.znear.raw, 7);
    assert_eq!(cam.fov.raw, 8);
    assert_eq!(cam.direction.z.raw, 11);
    assert_eq!(cam.position.x.raw, 12);
    assert_eq!(cam.up.y.raw, 16);
    assert!(cam.bounded);
}

#[test]
fn default_camera_values() {
    let cam = EventHandler::default();
    assert_eq!(cam.grow.raw, SCALE);
    assert_eq!(cam.tilt.raw, 0);
    assert_eq!(cam.spin.raw, 0);
    assert_eq!(cam.zfar.raw, 30 * SCALE);
    assert_eq!(cam.znear.raw, 100_000);
    assert_eq!(cam.fov.raw, 1_047_198);
    assert_eq!(
        (cam.direction.x.raw, cam.direction.y.raw, cam.direction.z.raw),
        (0, 0, SCALE)
    );
    assert_eq!(
        (cam.position.x.raw, cam.position.y.raw, cam.position.z.raw),
        (0, 100_000, 0)
    );
    assert_eq!((cam.up.x.raw, cam.up.y.raw, cam.up.z.raw), (0, SCALE, 0));
    assert!(cam.bounded);
    assert!(cam.basis_ready());
}

#[test]
fn strafe_moves_eye_and_look_point_together() {
    // From position (0,0,0), direction (0,0,1), up (0,1,0), one strafe key
    // moves position along normalize(cross(direction - position, up)) * 0.05
    // and direction by the identical vector.
    let mut cam = free_camera();
    let sig = cam.handle_event(press(Key::A));
    assert_eq!(sig, LoopSignal::Proceed);
    // cross((0,0,1), (0,1,0)) = (-1, 0, 0).
    assert_eq!(
        (cam.position.x.raw, cam.position.y.raw, cam.position.z.raw),
        (-50_000, 0, 0)
    );
    assert_eq!(
        (cam.direction.x.raw, cam.direction.y.raw, cam.direction.z.raw),
        (-50_000, 0, SCALE)
    );
    // The opposite strafe key returns to the start.
    cam.handle_event(press(Key::D));
    assert_eq!(
        (cam.position.x.raw, cam.position.y.raw, cam.position.z.raw),
        (0, 0, 0)
    );
}

#[test]
fn forward_step_has_exact_length_and_preserves_facing() {
    let mut cam = EventHandler::default();
    // Look level along +z so the forward step stays inside the world box.
    cam.direction = V3::from_raw(0, 100_000, SCALE);
    let before_offset = (
        cam.direction.x.raw - cam.position.x.raw,
        cam.direction.y.raw - cam.position.y.raw,
        cam.direction.z.raw - cam.position.z.raw,
    );
    cam.handle_event(press(Key::W));
    assert_eq!(
        (cam.position.x.raw, cam.position.y.raw, cam.position.z.raw),
        (0, 100_000, 50_000)
    );
    let dx = to_f64(cam.position.x.raw);
    let dy = to_f64(cam.position.y.raw - 100_000);
    let dz = to_f64(cam.position.z.raw);
    let dist = (dx * dx + dy * dy + dz * dz).sqrt();
    assert!((dist - 0.05).abs() < 1e-4, "moved {dist}");
    let after_offset = (
        cam.direction.x.raw - cam.position.x.raw,
        cam.direction.y.raw - cam.position.y.raw,
        cam.direction.z.raw - cam.position.z.raw,
    );
    assert_eq!(before_offset, after_offset);
}

#[test]
fn backward_key_undoes_forward_key() {
    let mut cam = EventHandler::default();
    cam.direction = V3::from_raw(0, 100_000, SCALE);
    cam.handle_event(press(Key::W));
    cam.handle_event(press(Key::S));
    assert_eq!(
        (cam.position.x.raw, cam.position.y.raw, cam.position.z.raw),
        (0, 100_000, 0)
    );
    assert_eq!(
        (cam.direction.x.raw, cam.direction.y.raw, cam.direction.z.raw),
        (0, 100_000, SCALE)
    );
}

#[test]
fn yaw_right_matches_angle_step() {
    // From direction (0,0,1) relative to position (0,0,0) (angle zero), one
    // yaw-right event with step 0.05 gives direction close to
    // (sin 0.05, 0, cos 0.05) at the starting radius.
    let mut cam = free_camera();
    cam.handle_event(press(Key::ArrowRight));
    let want_x = (0.05f64.sin() * SCALE as f64).round() as i64;
    let want_z = (0.05f64.cos() * SCALE as f64).round() as i64;
    assert!(
        (cam.direction.x.raw - want_x).abs() <= 60,
        "x = {}, want {want_x}",
        cam.direction.x.raw
    );
    assert_eq!(cam.direction.y.raw, 0);
    assert!(
        (cam.direction.z.raw - want_z).abs() <= 60,
        "z = {}, want {want_z}",
        cam.direction.z.raw
    );
    assert_eq!(
        (cam.position.x.raw, cam.position.y.raw, cam.position.z.raw),
        (0, 0, 0)
    );
}

#[test]
fn yaw_preserves_radius_and_height() {
    let mut cam = free_camera();
    cam.position = V3::from_raw(100_000, 200_000, 300_000);
    cam.direction = V3::from_raw(400_000, 450_000, 1_100_000);
    let (ox, oz) = (
        to_f64(cam.direction.x.raw - cam.position.x.raw),
        to_f64(cam.direction.z.raw - cam.position.z.raw),
    );
    let radius_before = (ox * ox + oz * oz).sqrt();
    let y_before = cam.direction.y.raw;
    cam.handle_event(press(Key::ArrowLeft));
    let (nx, nz) = (
        to_f64(cam.direction.x.raw - cam.position.x.raw),
        to_f64(cam.direction.z.raw - cam.position.z.raw),
    );
    let radius_after = (nx * nx + nz * nz).sqrt();
    assert!(
        (radius_before - radius_after).abs() < 1e-4,
        "radius {radius_before} -> {radius_after}"
    );
    assert_eq!(cam.direction.y.raw, y_before);
    // The horizontal angle moved by about the step.
    let before = ox.atan2(oz);
    let after = nx.atan2(nz);
    assert!(((before - after) - 0.05).abs() < 1e-3, "turned {}", before - after);
}

#[test]
fn pitch_up_raises_look_point() {
    let mut cam = free_camera();
    cam.handle_event(press(Key::ArrowUp));
    // The camera-up basis vector is added whole to the look-at point.
    assert_eq!(
        (cam.direction.x.raw, cam.direction.y.raw, cam.direction.z.raw),
        (0, SCALE, SCALE)
    );
    // The eye does not move on a pitch.
    assert_eq!(
        (cam.position.x.raw, cam.position.y.raw, cam.position.z.raw),
        (0, 0, 0)
    );
}

#[test]
fn auxiliary_nudges_apply_fixed_steps() {
    let mut cam = free_camera();
    cam.handle_event(press(Key::J));
    assert_eq!(cam.spin.raw, 50_000);
    cam.handle_event(press(Key::K));
    cam.handle_event(press(Key::K));
    assert_eq!(cam.spin.raw, -50_000);
    cam.handle_event(press(Key::F1));
    assert_eq!(cam.zfar.raw, 30 * SCALE + 400_000);
    cam.handle_event(press(Key::F2));
    assert_eq!(cam.zfar.raw, 30 * SCALE);
    cam.handle_event(press(Key::F3));
    assert_eq!(cam.znear.raw, 200_000);
    cam.handle_event(press(Key::F4));
    assert_eq!(cam.znear.raw, 100_000);
    cam.handle_event(press(Key::F5));
    assert_eq!(cam.fov.raw, 1_057_198);
    cam.handle_event(press(Key::F6));
    assert_eq!(cam.fov.raw, 1_047_198);
}

#[test]
fn grow_and_tilt_clamp_after_every_key_event() {
    // Starting out of range, any key event clamps, even an unbound key or a
    // release.
    let mut cam = free_camera();
    cam.grow = fx(5 * SCALE);
    cam.tilt = fx(2 * SCALE);
    cam.handle_event(press(Key::Unbound));
    assert_eq!(cam.grow.raw, SCALE);
    assert_eq!(cam.tilt.raw, SCALE);
    // An unbound key is otherwise a no-op, not an error.
    assert_eq!(
        (cam.position.x.raw, cam.position.y.raw, cam.position.z.raw),
        (0, 0, 0)
    );
    assert_eq!(cam.spin.raw, 0);

    cam.grow = fx(15_000); // 0.015: below the snap threshold.
    cam.tilt = fx(-3 * SCALE);
    cam.handle_event(CameraEvent::KeyInput { key: Key::W, pressed: false });
    assert_eq!(cam.grow.raw, 10_000);
    assert_eq!(cam.tilt.raw, -SCALE);

    cam.grow = fx(20_000); // exactly the threshold stays.
    cam.handle_event(press(Key::J));
    assert_eq!(cam.grow.raw, 20_000);

    cam.grow = fx(500_000);
    cam.tilt = fx(-999_999);
    cam.handle_event(press(Key::K));
    assert_eq!(cam.grow.raw, 500_000);
    assert_eq!(cam.tilt.raw, -999_999);
}

#[test]
fn grow_never_observable_out_of_range() {
    let mut cam = free_camera();
    cam.grow = fx(-7 * SCALE);
    let events = [
        press(Key::W),
        CameraEvent::Timer,
        press(Key::F1),
        CameraEvent::KeyInput { key: Key::D, pressed: false },
        press(Key::ArrowRight),
    ];
    for ev in events {
        cam.handle_event(ev);
        assert!(
            cam.grow.raw >= 10_000 && cam.grow.raw <= SCALE,
            "grow = {}",
            cam.grow.raw
        );
    }
}

#[test]
fn bounded_forward_outside_box_is_fully_rejected() {
    // A forward step that would cross the far wall leaves position AND
    // direction untouched.
    let mut cam = EventHandler::default();
    cam.position = V3::from_raw(0, 100_000, 2_200_000);
    cam.direction = V3::from_raw(0, 100_000, 3_200_000);
    assert!(cam.bounded);
    cam.handle_event(press(Key::W));
    assert_eq!(
        (cam.position.x.raw, cam.position.y.raw, cam.position.z.raw),
        (0, 100_000, 2_200_000)
    );
    assert_eq!(
        (cam.direction.x.raw, cam.direction.y.raw, cam.direction.z.raw),
        (0, 100_000, 3_200_000)
    );
    // Stepping back inward is still allowed.
    cam.handle_event(press(Key::S));
    assert_eq!(cam.position.z.raw, 2_150_000);
}

#[test]
fn unbounded_camera_ignores_the_box() {
    let mut cam = free_camera();
    cam.position = V3::from_raw(0, 0, 2_200_000);
    cam.direction = V3::from_raw(0, 0, 3_200_000);
    cam.handle_event(press(Key::W));
    assert_eq!(cam.position.z.raw, 2_250_000);
}

#[test]
fn close_and_timer_events() {
    let mut cam = free_camera();
    let before = (cam.position.x.raw, cam.direction.z.raw, cam.grow.raw);
    assert_eq!(cam.handle_event(CameraEvent::CloseRequested), LoopSignal::Exit);
    assert_eq!(cam.handle_event(CameraEvent::Timer), LoopSignal::Proceed);
    let after = (cam.position.x.raw, cam.direction.z.raw, cam.grow.raw);
    assert_eq!(before, after);
}

#[test]
fn released_key_applies_no_effect() {
    let mut cam = free_camera();
    cam.handle_event(CameraEvent::KeyInput { key: Key::W, pressed: false });
    assert_eq!(
        (cam.position.x.raw, cam.position.y.raw, cam.position.z.raw),
        (0, 0, 0)
    );
    cam.handle_event(CameraEvent::KeyInput { key: Key::J, pressed: false });
    assert_eq!(cam.spin.raw, 0);
}

#[test]
fn degenerate_basis_is_reported() {
    let mut cam = free_camera();
    assert!(cam.basis_ready());
    // Eye on the look-at point: no facing direction.
    cam.direction = cam.position;
    assert!(!cam.basis_ready());
    // Up parallel to facing: no sideways direction.
    cam.direction = V3::from_raw(0, SCALE, 0);
    cam.position = V3::from_raw(0, 0, 0);
    assert!(!cam.basis_ready());
}

#[test]
fn render_context_holds_light_state() {
    let mut ctx = RenderContext::new(V3::from_raw(SCALE, SCALE, SCALE));
    assert_eq!(ctx.get_light_rotation().raw, 0);
    ctx.set_light_rotation(fx(20_000));
    assert_eq!(ctx.get_light_rotation().raw, 20_000);
    ctx.set_light(V3::from_raw(0, SCALE, 0));
    let l = ctx.get_light();
    assert_eq!((l.x.raw, l.y.raw, l.z.raw), (0, SCALE, 0));
    // The light rotation matrix is a rotation about x by the angle.
    let m = ctx.get_light_rotation_matrix();
    let want_c = (0.02f64.cos() * SCALE as f64).round() as i64;
    let want_s = (0.02f64.sin() * SCALE as f64).round() as i64;
    assert_eq!(m.c0.x.raw, SCALE);
    assert!((m.c1.y.raw - want_c).abs() <= 60);
    assert!((m.c1.z.raw - want_s).abs() <= 60);
    assert!((m.c2.y.raw + want_s).abs() <= 60);
}
