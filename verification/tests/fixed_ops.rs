use asteroids::fixed::HALF_TURN;
use asteroids::fixed::QUARTER;
use asteroids::fixed::SCALE;
use asteroids::fixed::TURN;
use asteroids::fixed::cos_fp;
use asteroids::fixed::fdiv;
use asteroids::fixed::fmul;
use asteroids::fixed::isqrt;
use asteroids::fixed::sat_add;
use asteroids::fixed::sat_add_u64;
use asteroids::fixed::sat_sub;
use asteroids::fixed::sin_fp;
use asteroids::fixed::wrap_mod;

#[test]
fn fmul_exact_products() {
    // 2.5 * 2.0 == 5.0
    assert_eq!(fmul(2_500_000, 2_000_000), 5_000_000);
    // 1.0 is the multiplicative unit
    assert_eq!(fmul(123_456_789, SCALE), 123_456_789);
    assert_eq!(fmul(0, 987), 0);
}

#[test]
fn fmul_truncates_toward_zero() {
    // 3 micro-units * 0.5 == 1.5 micro-units, truncated to 1
    assert_eq!(fmul(3, 500_000), 1);
    assert_eq!(fmul(-3, 500_000), -1);
}

#[test]
fn fmul_saturates() {
    assert_eq!(fmul(i64::MAX, i64::MAX), i64::MAX);
    assert_eq!(fmul(i64::MAX, i64::MIN), i64::MIN);
}

#[test]
fn fdiv_values() {
    // 1.0 / 3.0 == 0.333333
    assert_eq!(fdiv(1_000_000, 3_000_000), 333_333);
    assert_eq!(fdiv(-1_000_000, 3_000_000), -333_333);
    // division by zero yields zero, totally
    assert_eq!(fdiv(5, 0), 0);
}

#[test]
fn saturating_add_sub() {
    assert_eq!(sat_add(i64::MAX, 1), i64::MAX);
    assert_eq!(sat_add(1, 2), 3);
    assert_eq!(sat_sub(i64::MIN, 1), i64::MIN);
    assert_eq!(sat_sub(5, 7), -2);
    assert_eq!(sat_add_u64(u64::MAX, 1), u64::MAX);
    assert_eq!(sat_add_u64(40, 2), 42);
}

#[test]
fn isqrt_values() {
    assert_eq!(isqrt(0), 0);
    assert_eq!(isqrt(1), 1);
    assert_eq!(isqrt(2), 1);
    assert_eq!(isqrt(143), 11);
    assert_eq!(isqrt(144), 12);
    assert_eq!(isqrt(u128::MAX), u64::MAX);
}

#[test]
fn wrap_mod_is_euclidean() {
    assert_eq!(wrap_mod(25, 10), 5);
    assert_eq!(wrap_mod(-1, 10), 9);
    assert_eq!(wrap_mod(-20, 10), 0);
    assert_eq!(wrap_mod(0, 7), 0);
}

#[test]
fn trig_quadrant_values() {
    assert_eq!(sin_fp(0), 0);
    assert_eq!(cos_fp(0), SCALE);
    assert_eq!(sin_fp(QUARTER), SCALE);
    assert_eq!(sin_fp(HALF_TURN), 0);
    assert_eq!(cos_fp(HALF_TURN), -SCALE);
    assert_eq!(sin_fp(-QUARTER), -SCALE);
    // sin(pi/6) == 0.5, up to polynomial truncation
    assert_eq!(sin_fp(HALF_TURN / 6), 499_999);
    // periodic in full turns
    assert_eq!(sin_fp(QUARTER + TURN), SCALE);
    assert_eq!(sin_fp(QUARTER - TURN), SCALE);
}

#[test]
fn trig_stays_in_unit_range() {
    let mut a: i64 = -10_000_000;
    while a <= 10_000_000 {
        let s = sin_fp(a);
        let c = cos_fp(a);
        assert!(-SCALE <= s && s <= SCALE);
        assert!(-SCALE <= c && c <= SCALE);
        a += 37_219;
    }
}
