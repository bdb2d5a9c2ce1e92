//! Tests for the fixed-point scalar, square root, trigonometry and vector
//! helpers, including tolerance checks against `f64` references.

use rendermath::angle::{fx_cos, fx_sin};
use rendermath::fixed::{isqrt_u128, Fx, SCALE};
use rendermath::vector::{
    add_vectors, cross_product, dot_product, normalize_vector, sub_vectors, vec_scal_mul, V3,
};

fn fx(raw: i64) -> Fx {
    Fx { raw }
}

fn to_f64(raw: i64) -> f64 {
    raw as f64 / SCALE as f64
}

#[test]
fn mul_rounds_toward_zero() {
    // -3 ticks times one half is -1.5 ticks: truncation gives -1, not -2.
    assert_eq!(fx(-3).mul(fx(500_000)).raw, -1);
    assert_eq!(fx(3).mul(fx(500_000)).raw, 1);
    assert_eq!(fx(2_000_000).mul(fx(250_000)).raw, 500_000);
    assert_eq!(fx(-2_000_000).mul(fx(250_000)).raw, -500_000);
}

#[test]
fn mul_by_one_and_zero_is_exact() {
    assert_eq!(fx(123_456_789).mul(fx(SCALE)).raw, 123_456_789);
    assert_eq!(fx(-123_456_789).mul(fx(SCALE)).raw, -123_456_789);
    assert_eq!(fx(987_654).mul(fx(0)).raw, 0);
}

#[test]
fn div_rounds_toward_zero() {
    // -1 / 3 = -0.333...: raw -333_333, truncated toward zero.
    assert_eq!(fx(-1_000_000).div(fx(3_000_000)).raw, -333_333);
    assert_eq!(fx(1_000_000).div(fx(3_000_000)).raw, 333_333);
    assert_eq!(fx(5_000_000).div(fx(-2_000_000)).raw, -2_500_000);
}

#[test]
fn divn_truncates() {
    assert_eq!(fx(-7).divn(2).raw, -3);
    assert_eq!(fx(7).divn(2).raw, 3);
}

#[test]
fn isqrt_exact_and_floor() {
    assert_eq!(isqrt_u128(0), 0);
    assert_eq!(isqrt_u128(1), 1);
    assert_eq!(isqrt_u128(99), 9);
    assert_eq!(isqrt_u128(100), 10);
    assert_eq!(isqrt_u128(1_000_000_000_000), 1_000_000);
    assert_eq!(isqrt_u128(u128::MAX), u64::MAX);
}

#[test]
fn sine_matches_reference() {
    for &(angle, tol) in &[
        (50_000i64, 30i64),      // 0.05
        (1_570_796, 60),         // pi / 2
        (3_141_593, 60),         // pi
        (-785_398, 60),          // -pi / 4
        (2_000_000, 60),         // 2.0 (second quadrant)
        (10_000_000, 120),       // 10.0 (wraps a full turn)
    ] {
        let got = fx_sin(fx(angle)).raw;
        let want = (to_f64(angle).sin() * SCALE as f64).round() as i64;
        assert!(
            (got - want).abs() <= tol,
            "sin({angle}): got {got}, want {want}"
        );
    }
}

#[test]
fn cosine_matches_reference() {
    for &(angle, tol) in &[
        (0i64, 2i64),
        (50_000, 30),
        (1_047_198, 60),         // pi / 3 -> 0.5
        (3_141_593, 60),         // pi -> -1
        (-2_500_000, 60),
        (7_000_000, 120),
    ] {
        let got = fx_cos(fx(angle)).raw;
        let want = (to_f64(angle).cos() * SCALE as f64).round() as i64;
        assert!(
            (got - want).abs() <= tol,
            "cos({angle}): got {got}, want {want}"
        );
    }
}

#[test]
fn sine_of_zero_is_exactly_zero() {
    assert_eq!(fx_sin(fx(0)).raw, 0);
    assert_eq!(fx_cos(fx(0)).raw, SCALE);
}

#[test]
fn vector_add_sub_scale_exact() {
    let a = V3::from_raw(1_000_000, -2_000_000, 3_000_000);
    let b = V3::from_raw(500_000, 500_000, -500_000);
    let s = add_vectors(&a, &b);
    assert_eq!((s.x.raw, s.y.raw, s.z.raw), (1_500_000, -1_500_000, 2_500_000));
    let d = sub_vectors(&a, &b);
    assert_eq!((d.x.raw, d.y.raw, d.z.raw), (500_000, -2_500_000, 3_500_000));
    let m = vec_scal_mul(&a, fx(250_000));
    assert_eq!((m.x.raw, m.y.raw, m.z.raw), (250_000, -500_000, 750_000));
}

#[test]
fn cross_product_axes() {
    // x cross y = z at unit scale.
    let x = V3::from_raw(SCALE, 0, 0);
    let y = V3::from_raw(0, SCALE, 0);
    let c = cross_product(&x, &y);
    assert_eq!((c.x.raw, c.y.raw, c.z.raw), (0, 0, SCALE));
}

#[test]
fn cross_product_orthogonal_within_tolerance() {
    let a = V3::from_raw(300_000, -700_000, 1_100_000);
    let b = V3::from_raw(-500_000, 200_000, 900_000);
    let c = cross_product(&a, &b);
    let dot_ca = dot_product(&c, &a).raw;
    let dot_cb = dot_product(&c, &b).raw;
    // Each rescaled product rounds by at most one tick.
    assert!(dot_ca.abs() <= 5, "c.a = {dot_ca}");
    assert!(dot_cb.abs() <= 5, "c.b = {dot_cb}");
}

#[test]
fn normalize_gives_unit_length() {
    let v = V3::from_raw(3_000_000, 4_000_000, 0);
    let n = normalize_vector(&v);
    assert_eq!((n.x.raw, n.y.raw, n.z.raw), (600_000, 800_000, 0));
    let w = V3::from_raw(123_456, -654_321, 999_999);
    let u = normalize_vector(&w);
    let len = (to_f64(u.x.raw).powi(2) + to_f64(u.y.raw).powi(2) + to_f64(u.z.raw).powi(2))
        .sqrt();
    assert!((len - 1.0).abs() < 1e-4, "len = {len}");
}

#[test]
fn dot_product_exact_small_case() {
    let a = V3::from_raw(2_000_000, 0, 1_000_000);
    let b = V3::from_raw(1_500_000, 7_000_000, -1_000_000);
    // 2 * 1.5 + 0 * 7 + 1 * -1 = 2.
    assert_eq!(dot_product(&a, &b).raw, 2_000_000);
}
