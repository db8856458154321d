use simple_raytracing::fixed::{fx_add, fx_div, fx_max0, fx_mul, fx_pow, fx_sqrt, ONE};
use simple_raytracing::render::{to_normal_rgb, to_rgb, Rgb};
use simple_raytracing::trig::{fx_acos, fx_atan2, FX_HALF_PI, FX_PI, FX_QUARTER_PI};
use simple_raytracing::vec3::Vec3;

#[test]
fn fx_add_is_exact_and_saturates() {
    assert_eq!(fx_add(ONE, 2 * ONE), 3 * ONE);
    assert_eq!(fx_add(i64::MAX, 1), i64::MAX);
    assert_eq!(fx_add(i64::MIN, -1), i64::MIN);
}

#[test]
fn fx_mul_is_exact_on_whole_products() {
    assert_eq!(fx_mul(3 * ONE, 2 * ONE), 6 * ONE);
    assert_eq!(fx_mul(-3 * ONE, 2 * ONE), -6 * ONE);
    assert_eq!(fx_mul(ONE / 2, ONE / 2), ONE / 4);
    assert_eq!(fx_mul(7 * ONE, 0), 0);
}

#[test]
fn fx_mul_truncates_toward_zero() {
    assert_eq!(fx_mul(1, 1), 0);
    assert_eq!(fx_mul(-1, 1), 0);
}

#[test]
fn fx_div_is_exact_and_total() {
    assert_eq!(fx_div(6 * ONE, 2 * ONE), 3 * ONE);
    assert_eq!(fx_div(-6 * ONE, 2 * ONE), -3 * ONE);
    assert_eq!(fx_div(ONE, 4 * ONE), ONE / 4);
    assert_eq!(fx_div(5 * ONE, 0), 0);
}

#[test]
fn fx_sqrt_is_exact_on_squares() {
    assert_eq!(fx_sqrt(0), 0);
    assert_eq!(fx_sqrt(-5 * ONE), 0);
    assert_eq!(fx_sqrt(ONE), ONE);
    assert_eq!(fx_sqrt(4 * ONE), 2 * ONE);
    assert_eq!(fx_sqrt(25 * ONE), 5 * ONE);
}

#[test]
fn fx_pow_matches_repeated_multiplication() {
    assert_eq!(fx_pow(2 * ONE, 10), 1024 * ONE);
    assert_eq!(fx_pow(3 * ONE, 0), ONE);
    assert_eq!(fx_pow(ONE, 1425), ONE);
    assert_eq!(fx_pow(ONE / 2, 2), ONE / 4);
}

#[test]
fn fx_max0_cuts_negatives() {
    assert_eq!(fx_max0(-7), 0);
    assert_eq!(fx_max0(7), 7);
}

#[test]
fn vector_norm_and_dot() {
    let v = Vec3::new(3 * ONE, 4 * ONE, 0);
    assert_eq!(v.norm(), 5 * ONE);
    let x = Vec3::new(ONE, 0, 0);
    let y = Vec3::new(0, ONE, 0);
    assert_eq!(x.dot(&y), 0);
    assert_eq!(x.dot(&x), ONE);
}

#[test]
fn vector_normalize_scales_onto_unit_length() {
    let v = Vec3::new(3 * ONE, 4 * ONE, 0);
    let n = v.normalize();
    // 3/5 and 4/5, truncated toward zero in fixed point.
    assert_eq!(n.x, 3 * ONE * ONE / (5 * ONE));
    assert_eq!(n.y, 4 * ONE * ONE / (5 * ONE));
    assert_eq!(n.z, 0);
    let zero = Vec3::new(0, 0, 0);
    assert_eq!(zero.normalize(), zero);
}

#[test]
fn atan2_is_exact_on_the_axes() {
    assert_eq!(fx_atan2(0, ONE), 0);
    assert_eq!(fx_atan2(0, 0), 0);
    assert_eq!(fx_atan2(ONE, 0), FX_HALF_PI);
    assert_eq!(fx_atan2(-ONE, 0), -FX_HALF_PI);
    assert_eq!(fx_atan2(0, -ONE), FX_PI);
    assert_eq!(fx_atan2(ONE, ONE), FX_QUARTER_PI);
}

#[test]
fn acos_is_exact_at_the_endpoints_and_center() {
    assert_eq!(fx_acos(ONE), 0);
    assert_eq!(fx_acos(2 * ONE), 0);
    assert_eq!(fx_acos(-ONE), FX_PI);
    assert_eq!(fx_acos(-2 * ONE), FX_PI);
    assert_eq!(fx_acos(0), FX_HALF_PI);
}

#[test]
fn to_rgb_truncates_and_clamps_into_bytes() {
    let c = to_rgb(&Vec3::new(ONE, 0, -ONE));
    assert_eq!(c, Rgb { r: 255, g: 0, b: 0 });
    let over = to_rgb(&Vec3::new(2 * ONE, ONE / 2, ONE / 4));
    assert_eq!(over, Rgb { r: 255, g: 127, b: 63 });
}

#[test]
fn to_normal_rgb_scales_bytes_onto_unit_channels() {
    let v = to_normal_rgb(255, 0, 128);
    assert_eq!(v.x, ONE);
    assert_eq!(v.y, 0);
    // Ceiling division: the smallest fixed-point value that scales back
    // onto byte 128.
    assert_eq!(v.z, (128 * ONE + 254) / 255);
}

#[test]
fn byte_channels_round_trip_through_fixed_point() {
    for p in 0..=255u8 {
        let v = to_normal_rgb(p, p, p);
        assert_eq!(to_rgb(&v), Rgb { r: p, g: p, b: p });
    }
}
