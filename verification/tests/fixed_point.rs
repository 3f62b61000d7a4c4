use blackhole_ray_marching::fixed::{
    fx_abs, fx_add, fx_div, fx_div_int, fx_mul, fx_neg, fx_sqrt, fx_sub, isqrt, FX_ONE,
};
use blackhole_ray_marching::ppm::cast_pixel;
use blackhole_ray_marching::Vector;

#[test]
fn products_are_exact_on_whole_values() {
    assert_eq!(fx_mul(2 * FX_ONE, 3 * FX_ONE), 6 * FX_ONE);
    assert_eq!(fx_mul(-2 * FX_ONE, 3 * FX_ONE), -6 * FX_ONE);
    assert_eq!(fx_mul(FX_ONE / 2, FX_ONE / 2), FX_ONE / 4);
}

#[test]
fn products_truncate_toward_zero() {
    assert_eq!(fx_mul(1, 1), 0);
    assert_eq!(fx_mul(-1, 1), 0);
    assert_eq!(fx_mul(-65535, 1), 0);
}

#[test]
fn sums_saturate_at_the_ends() {
    assert_eq!(fx_add(i64::MAX, 1), i64::MAX);
    assert_eq!(fx_sub(i64::MIN, 1), i64::MIN);
    assert_eq!(fx_add(3 * FX_ONE, 4 * FX_ONE), 7 * FX_ONE);
    assert_eq!(fx_neg(i64::MIN), i64::MAX);
    assert_eq!(fx_neg(5), -5);
    assert_eq!(fx_abs(-7 * FX_ONE), 7 * FX_ONE);
}

#[test]
fn quotients_are_exact_on_whole_values() {
    assert_eq!(fx_div(FX_ONE, 2 * FX_ONE), FX_ONE / 2);
    assert_eq!(fx_div(-FX_ONE, 2 * FX_ONE), -FX_ONE / 2);
    assert_eq!(fx_div_int(10 * FX_ONE, 4), FX_ONE * 10 / 4);
}

#[test]
fn integer_square_roots_round_down() {
    assert_eq!(isqrt(0), 0);
    assert_eq!(isqrt(1), 1);
    assert_eq!(isqrt(10), 3);
    assert_eq!(isqrt(16), 4);
    assert_eq!(isqrt(u128::MAX), (1u128 << 64) - 1);
    assert_eq!(fx_sqrt(4 * FX_ONE), 2 * FX_ONE);
    assert_eq!(fx_sqrt(FX_ONE / 4), FX_ONE / 2);
}

#[test]
fn channel_quantization_matches_the_gamma_two_formula() {
    assert_eq!(cast_pixel(-5), 0);
    assert_eq!(cast_pixel(2 * FX_ONE), 255);
    // at full intensity: 65536 * 255999 / 65536000 rounds down to 255
    assert_eq!(cast_pixel(FX_ONE), 255);
    // at a quarter: sqrt is one half, 32768 * 255999 / 65536000 is 127
    assert_eq!(cast_pixel(FX_ONE / 4), 127);
    assert_eq!(cast_pixel(0), 0);
}

#[test]
fn elementwise_power_with_whole_exponent() {
    let v = Vector::new(2 * FX_ONE, -2 * FX_ONE, FX_ONE / 2);
    let p = v.powf(2);
    assert_eq!(p.x(), 4 * FX_ONE);
    assert_eq!(p.y(), 4 * FX_ONE);
    assert_eq!(p.z(), FX_ONE / 4);
    let p0 = v.powf(0);
    assert_eq!(p0.x(), FX_ONE);
}
