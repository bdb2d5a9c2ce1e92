//! Tests for the transform builder: translation, rotation, scale, view and
//! perspective matrices, against exact expectations and `f64` references.

use rendermath::fixed::{Fx, SCALE};
use rendermath::matrix::{mat4_mul, transform_point, Mat4, V4};
use rendermath::transform::{
    perspective_matrix, rotation_matrix, scale_matrix, self_rotation_matrix,
    translation_matrix, view_matrix, Transform,
};
use rendermath::skybox::skybox_atlas_layout;
use rendermath::vector::V3;

fn fx(raw: i64) -> Fx {
    Fx { raw }
}

fn to_f64(raw: i64) -> f64 {
    raw as f64 / SCALE as f64
}

fn entries(m: &Mat4) -> [[i64; 4]; 4] {
    [
        [m.c0.x.raw, m.c0.y.raw, m.c0.z.raw, m.c0.w.raw],
        [m.c1.x.raw, m.c1.y.raw, m.c1.z.raw, m.c1.w.raw],
        [m.c2.x.raw, m.c2.y.raw, m.c2.z.raw, m.c2.w.raw],
        [m.c3.x.raw, m.c3.y.raw, m.c3.z.raw, m.c3.w.raw],
    ]
}

fn identity_entries() -> [[i64; 4]; 4] {
    [
        [SCALE, 0, 0, 0],
        [0, SCALE, 0, 0],
        [0, 0, SCALE, 0],
        [0, 0, 0, SCALE],
    ]
}

#[test]
fn translation_applied_to_origin_yields_offset() {
    // The homogeneous origin lands exactly on the translation vector.
    let t = V3::from_raw(1_500_000, -2_250_000, 125_000);
    let m = translation_matrix(&t);
    let origin = V4::from_raw(0, 0, 0, SCALE);
    let p = transform_point(&m, &origin);
    assert_eq!(
        (p.x.raw, p.y.raw, p.z.raw, p.w.raw),
        (1_500_000, -2_250_000, 125_000, SCALE)
    );
}

#[test]
fn zero_rotation_and_unit_scale_are_identity() {
    let zero = V3::from_raw(0, 0, 0);
    assert_eq!(entries(&rotation_matrix(&zero)), identity_entries());
    assert_eq!(entries(&self_rotation_matrix(&zero)), identity_entries());
    assert_eq!(entries(&scale_matrix(fx(SCALE))), identity_entries());
}

#[test]
fn scale_matrix_puts_factor_on_diagonal() {
    let m = scale_matrix(fx(2_500_000));
    assert_eq!(m.c0.x.raw, 2_500_000);
    assert_eq!(m.c1.y.raw, 2_500_000);
    assert_eq!(m.c2.z.raw, 2_500_000);
    assert_eq!(m.c3.w.raw, SCALE);
    assert_eq!(m.c1.x.raw, 0);
}

#[test]
fn rotation_quarter_turn_about_z() {
    // Rz(pi/2) maps x to y: first column close to (0, 1, 0, 0).
    let m = rotation_matrix(&V3::from_raw(0, 0, 1_570_796));
    let tol = 200;
    assert!(m.c0.x.raw.abs() <= tol);
    assert!((m.c0.y.raw - SCALE).abs() <= tol);
    assert!(m.c0.z.raw.abs() <= tol);
    assert!((m.c1.x.raw + SCALE).abs() <= tol);
    assert!(m.c1.y.raw.abs() <= tol);
}

#[test]
fn rotation_composition_matches_reference() {
    // Generic Euler angles, checked entrywise against f64 Rz * Ry * Rx.
    let (ax, ay, az) = (300_000i64, -500_000i64, 1_100_000i64);
    let m = rotation_matrix(&V3::from_raw(ax, ay, az));
    let (sx, cx) = (to_f64(ax).sin(), to_f64(ax).cos());
    let (sy, cy) = (to_f64(ay).sin(), to_f64(ay).cos());
    let (sz, cz) = (to_f64(az).sin(), to_f64(az).cos());
    // Column-major reference of Rz * Ry * Rx.
    let want = [
        [cz * cy, sz * cy, -sy],
        [cz * sy * sx - sz * cx, sz * sy * sx + cz * cx, cy * sx],
        [cz * sy * cx + sz * sx, sz * sy * cx - cz * sx, cy * cx],
    ];
    let got = entries(&m);
    for c in 0..3 {
        for r in 0..3 {
            let g = to_f64(got[c][r]);
            assert!(
                (g - want[c][r]).abs() < 1e-3,
                "entry ({c},{r}): got {g}, want {}",
                want[c][r]
            );
        }
    }
    assert_eq!(got[3], [0, 0, 0, SCALE]);
}

#[test]
fn view_matrix_axis_aligned() {
    let position = V3::from_raw(0, 0, 0);
    let target = V3::from_raw(0, 0, 2_000_000);
    let up = V3::from_raw(0, SCALE, 0);
    let m = view_matrix(&position, &target, &up);
    // right = (-1, 0, 0), true-up = (0, 1, 0), forward = (0, 0, 1).
    assert_eq!((m.c0.x.raw, m.c1.x.raw, m.c2.x.raw), (-SCALE, 0, 0));
    assert_eq!((m.c0.y.raw, m.c1.y.raw, m.c2.y.raw), (0, SCALE, 0));
    assert_eq!((m.c0.z.raw, m.c1.z.raw, m.c2.z.raw), (0, 0, -SCALE));
    assert_eq!((m.c3.x.raw, m.c3.y.raw, m.c3.z.raw, m.c3.w.raw), (0, 0, 0, SCALE));
}

#[test]
fn view_matrix_rows_orthonormal_within_tolerance() {
    let position = V3::from_raw(300_000, 400_000, 500_000);
    let target = V3::from_raw(1_200_000, 900_000, -300_000);
    let up = V3::from_raw(0, SCALE, 0);
    let m = view_matrix(&position, &target, &up);
    let rows = [
        [to_f64(m.c0.x.raw), to_f64(m.c1.x.raw), to_f64(m.c2.x.raw)],
        [to_f64(m.c0.y.raw), to_f64(m.c1.y.raw), to_f64(m.c2.y.raw)],
        [to_f64(m.c0.z.raw), to_f64(m.c1.z.raw), to_f64(m.c2.z.raw)],
    ];
    for i in 0..3 {
        let norm = (rows[i][0].powi(2) + rows[i][1].powi(2) + rows[i][2].powi(2)).sqrt();
        assert!((norm - 1.0).abs() < 1e-2, "row {i} norm {norm}");
        for j in 0..3 {
            if i != j {
                let dot: f64 = (0..3).map(|k| rows[i][k] * rows[j][k]).sum();
                assert!(dot.abs() < 1e-3, "rows {i},{j} dot {dot}");
            }
        }
    }
}

#[test]
fn view_matrix_translation_moves_eye_to_origin() {
    // Applying the view matrix to the eye itself gives the origin.
    let position = V3::from_raw(300_000, 400_000, 500_000);
    let target = V3::from_raw(1_200_000, 900_000, -300_000);
    let up = V3::from_raw(0, SCALE, 0);
    let m = view_matrix(&position, &target, &up);
    let eye = V4 {
        x: fx(300_000),
        y: fx(400_000),
        z: fx(500_000),
        w: fx(SCALE),
    };
    let p = transform_point(&m, &eye);
    // Exact: the fourth column is built from the same rounded products.
    assert_eq!((p.x.raw, p.y.raw, p.z.raw, p.w.raw), (0, 0, 0, SCALE));
}

#[test]
fn perspective_without_dimensions_is_identity() {
    let m = perspective_matrix(None, fx(1_047_198), fx(100_000), fx(30_000_000));
    assert_eq!(entries(&m), identity_entries());
}

#[test]
fn perspective_square_viewport_has_equal_diagonals() {
    let m = perspective_matrix(Some((800, 800)), fx(1_047_198), fx(100_000), fx(30_000_000));
    assert_eq!(m.c0.x.raw, m.c1.y.raw);
    // f = 1 / tan(pi/6) = sqrt(3).
    let want = (1.0 / (to_f64(1_047_198) / 2.0).tan() * SCALE as f64).round() as i64;
    assert!((m.c1.y.raw - want).abs() <= 300, "f = {}, want {want}", m.c1.y.raw);
}

#[test]
fn perspective_values_match_reference() {
    let (w, h) = (800u32, 600u32);
    let (fov, znear, zfar) = (1_047_198i64, 100_000i64, 30_000_000i64);
    let m = perspective_matrix(Some((w, h)), fx(fov), fx(znear), fx(zfar));
    let f = 1.0 / (to_f64(fov) / 2.0).tan();
    let aspect = w as f64 / h as f64;
    let (zn, zf) = (to_f64(znear), to_f64(zfar));
    assert!((to_f64(m.c0.x.raw) - f / aspect).abs() < 1e-3);
    assert!((to_f64(m.c1.y.raw) - f).abs() < 1e-3);
    assert!((to_f64(m.c2.z.raw) - (zf + zn) / (zf - zn)).abs() < 1e-3);
    assert!((to_f64(m.c3.z.raw) - (-2.0 * zf * zn / (zf - zn))).abs() < 1e-3);
    assert_eq!(m.c2.w.raw, SCALE);
    assert_eq!(m.c3.w.raw, 0);
    assert_eq!(m.c0.y.raw, 0);
}

#[test]
fn matrix_product_composes_translations() {
    let a = translation_matrix(&V3::from_raw(1_000_000, 2_000_000, -500_000));
    let b = translation_matrix(&V3::from_raw(-250_000, 750_000, 125_000));
    let ab = mat4_mul(&a, &b);
    assert_eq!(
        (ab.c3.x.raw, ab.c3.y.raw, ab.c3.z.raw, ab.c3.w.raw),
        (750_000, 2_750_000, -375_000, SCALE)
    );
    assert_eq!(ab.c0.x.raw, SCALE);
    assert_eq!(ab.c1.y.raw, SCALE);
}

#[test]
fn transform_defaults_and_getters() {
    let t = Transform::default();
    assert_eq!(t.scale.raw, 250_000);
    assert_eq!(t.zfar.raw, 30 * SCALE);
    assert_eq!(t.znear.raw, 100_000);
    assert_eq!(t.fov.raw, 1_047_198);
    assert!(t.frame_dimensions.is_none());
    let s = t.get_scaling();
    assert_eq!(s.c0.x.raw, 250_000);
    // No viewport: projection degenerates to the identity on purpose.
    assert_eq!(entries(&t.get_perspective()), identity_entries());
    // The placeholder default view is degenerate, and reported as such.
    assert!(!t.view_params_defined());
    assert!(t.perspective_params_defined());
}

#[test]
fn transform_getters_match_free_builders() {
    let mut t = Transform::default();
    t.translation = V3::from_raw(10_000, 20_000, 30_000);
    t.rotation = V3::from_raw(100_000, 200_000, 300_000);
    t.rotate_self = V3::from_raw(-100_000, 0, 50_000);
    t.frame_dimensions = Some((640, 480));
    assert_eq!(
        entries(&t.get_translation()),
        entries(&translation_matrix(&t.translation))
    );
    assert_eq!(entries(&t.get_rotation()), entries(&rotation_matrix(&t.rotation)));
    assert_eq!(
        entries(&t.get_self_rotation()),
        entries(&self_rotation_matrix(&t.rotate_self))
    );
    assert_eq!(
        entries(&t.get_perspective()),
        entries(&perspective_matrix(t.frame_dimensions, t.fov, t.znear, t.zfar))
    );
}

#[test]
fn skybox_atlas_layout_positions() {
    let l = skybox_atlas_layout(4096, 3072);
    // Cells are 1024 x 1024; the middle row holds left, front, right, back.
    assert_eq!((l.left.left, l.left.bottom), (0, 1024));
    assert_eq!((l.front.left, l.front.bottom), (1024, 1024));
    assert_eq!((l.right.left, l.right.bottom), (2048, 1024));
    assert_eq!((l.back.left, l.back.bottom), (3072, 1024));
    assert_eq!((l.bottom.left, l.bottom.bottom), (1024, 0));
    assert_eq!((l.top.left, l.top.bottom), (1024, 2048));
    assert_eq!((l.front.width, l.front.height), (1024, 1024));
    // Sizes that do not divide evenly round down.
    let odd = skybox_atlas_layout(1023, 301);
    assert_eq!((odd.front.width, odd.front.height), (255, 100));
    assert_eq!(odd.back.left, 765);
}
