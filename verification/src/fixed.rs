//! Saturating fixed-point scalar arithmetic.
//!
//! A scalar is an `i64` counting micro-units: `SCALE` (one million)
//! stands for the real value 1.0. Angles count microradians, with
//! `QUARTER` a quarter turn and `TURN` a full turn. Every operation is
//! total: where the mathematical result would leave the `i64` range it
//! saturates, and a division by zero yields zero.

use vstd::prelude::*;

verus! {

/// Number of micro-units in 1.0.
pub const SCALE: i64 = 1_000_000;

/// A quarter turn in microradians (pi/2, truncated to micro-units).
pub const QUARTER: i64 = 1_570_796;

/// Half a turn in microradians.
pub const HALF_TURN: i64 = 3_141_592;

/// A full turn in microradians. `TURN == 4 * QUARTER` exactly, so
/// quadrant arithmetic on normalized angles is exact.
pub const TURN: i64 = 6_283_184;

/// Clamp a mathematical integer into the `i64` range.
pub open spec fn sat_i64(x: int) -> i64 {
    if x > i64::MAX {
        i64::MAX
    } else if x < i64::MIN {
        i64::MIN
    } else {
        x as i64
    }
}

/// Magnitude of a mathematical integer.
pub open spec fn abs_int(x: int) -> int {
    if x < 0 {
        -x
    } else {
        x
    }
}

/// Truncating division (rounds toward zero), total: zero when `d == 0`.
pub open spec fn tdiv(n: int, d: int) -> int {
    if d == 0 {
        0
    } else if (n < 0) != (d < 0) {
        -(abs_int(n) / abs_int(d))
    } else {
        abs_int(n) / abs_int(d)
    }
}

/// Fixed-point product: `a * b / SCALE`, truncated toward zero,
/// saturated into `i64`.
pub open spec fn spec_fmul(a: i64, b: i64) -> i64 {
    sat_i64(tdiv(a * b, SCALE as int))
}

/// Fixed-point quotient: `a * SCALE / b`, truncated toward zero,
/// saturated into `i64`; zero when `b == 0`.
pub open spec fn spec_fdiv(a: i64, b: i64) -> i64 {
    sat_i64(tdiv(a * SCALE, b as int))
}

/// Saturating sum of two scalars.
pub open spec fn spec_add(a: i64, b: i64) -> i64 {
    sat_i64(a + b)
}

/// Saturating difference of two scalars.
pub open spec fn spec_sub(a: i64, b: i64) -> i64 {
    sat_i64(a - b)
}

/// Magnitude of an `i128`, as a `u128` (total, also at `i128::MIN`).
fn abs_u128(x: i128) -> (r: u128)
    ensures
        r == abs_int(x as int),
{
    if x >= 0 {
        x as u128
    } else if x == i128::MIN {
        170_141_183_460_469_231_731_687_303_715_884_105_728u128
    } else {
        (-x) as u128
    }
}

/// Clamp a `u128` magnitude with a sign into the `i64` range.
fn sat_i64_of_sign_mag(neg: bool, mag: u128) -> (r: i64)
    ensures
        neg ==> r == sat_i64(-(mag as int)),
        !neg ==> r == sat_i64(mag as int),
{
    if neg {
        if mag >= 9_223_372_036_854_775_808u128 {
            i64::MIN
        } else {
            -((mag as i64))
        }
    } else {
        if mag > i64::MAX as u128 {
            i64::MAX
        } else {
            mag as i64
        }
    }
}

/// Truncating division on `i128`, total (zero when `d == 0`),
/// saturated into `i64`.
fn tdiv_sat(n: i128, d: i128) -> (r: i64)
    ensures
        r == sat_i64(tdiv(n as int, d as int)),
{
    if d == 0 {
        return 0;
    }
    let nn = abs_u128(n);
    let dd = abs_u128(d);
    let q = nn / dd;
    let neg = (n < 0) != (d < 0);
    sat_i64_of_sign_mag(neg, q)
}

/// The product of two `i64` values always fits in an `i128`.
pub(crate) proof fn lemma_i64_prod_in_i128(a: int, b: int)
    requires
        -9_223_372_036_854_775_808 <= a <= 9_223_372_036_854_775_807,
        -9_223_372_036_854_775_808 <= b <= 9_223_372_036_854_775_807,
    ensures
        -85_070_591_730_234_615_865_843_651_857_942_052_864 <= a * b,
        a * b <= 85_070_591_730_234_615_865_843_651_857_942_052_864,
{
    assert(-85_070_591_730_234_615_865_843_651_857_942_052_864 <= a * b
        && a * b <= 85_070_591_730_234_615_865_843_651_857_942_052_864) by (nonlinear_arith)
        requires
            -9_223_372_036_854_775_808 <= a <= 9_223_372_036_854_775_807,
            -9_223_372_036_854_775_808 <= b <= 9_223_372_036_854_775_807,
    ;
}

/// Saturating addition.
pub fn sat_add(a: i64, b: i64) -> (r: i64)
    ensures
        r == spec_add(a, b),
{
    match a.checked_add(b) {
        Some(v) => v,
        None => {
            if a > 0 {
                i64::MAX
            } else {
                i64::MIN
            }
        },
    }
}

/// Saturating subtraction.
pub fn sat_sub(a: i64, b: i64) -> (r: i64)
    ensures
        r == spec_sub(a, b),
{
    match a.checked_sub(b) {
        Some(v) => v,
        None => {
            if b < 0 {
                i64::MAX
            } else {
                i64::MIN
            }
        },
    }
}

/// Fixed-point multiplication.
pub fn fmul(a: i64, b: i64) -> (r: i64)
    ensures
        r == spec_fmul(a, b),
{
    proof {
        lemma_i64_prod_in_i128(a as int, b as int);
    }
    let p = (a as i128) * (b as i128);
    tdiv_sat(p, SCALE as i128)
}

/// Fixed-point division.
pub fn fdiv(a: i64, b: i64) -> (r: i64)
    ensures
        r == spec_fdiv(a, b),
{
    proof {
        lemma_i64_prod_in_i128(a as int, SCALE as int);
    }
    let p = (a as i128) * (SCALE as i128);
    tdiv_sat(p, b as i128)
}

/// Clamp a mathematical integer into the `u64` range.
pub open spec fn sat_u64(x: int) -> u64 {
    if x > u64::MAX {
        u64::MAX
    } else if x < 0 {
        0
    } else {
        x as u64
    }
}

/// Saturating `u64` addition.
pub fn sat_add_u64(a: u64, b: u64) -> (r: u64)
    ensures
        r == sat_u64(a + b),
{
    match a.checked_add(b) {
        Some(v) => v,
        None => u64::MAX,
    }
}

/// Clamp a mathematical integer into the `i128` range.
pub open spec fn sat_i128(x: int) -> i128 {
    if x > i128::MAX {
        i128::MAX
    } else if x < i128::MIN {
        i128::MIN
    } else {
        x as i128
    }
}

/// Saturating `i128` addition.
pub fn add_i128(a: i128, b: i128) -> (r: i128)
    ensures
        r == sat_i128(a + b),
{
    match a.checked_add(b) {
        Some(v) => v,
        None => {
            if a > 0 {
                i128::MAX
            } else {
                i128::MIN
            }
        },
    }
}

/// Saturating `i128` subtraction.
pub fn sub_i128(a: i128, b: i128) -> (r: i128)
    ensures
        r == sat_i128(a - b),
{
    match a.checked_sub(b) {
        Some(v) => v,
        None => {
            if b < 0 {
                i128::MAX
            } else {
                i128::MIN
            }
        },
    }
}

/// Saturating `i128` multiplication.
pub fn mul_i128(a: i128, b: i128) -> (r: i128)
    ensures
        r == sat_i128(a * b),
{
    match a.checked_mul(b) {
        Some(v) => v,
        None => {
            proof {
                if a * b <= i128::MAX && a * b >= i128::MIN {
                    assert(false);
                }
                assert((a * b > i128::MAX) == ((a > 0) == (b > 0))) by (nonlinear_arith)
                    requires
                        a * b > i128::MAX || a * b < i128::MIN,
                ;
            }
            if (a > 0) == (b > 0) {
                i128::MAX
            } else {
                i128::MIN
            }
        },
    }
}

/// Saturating truncating `i128` division, zero when `d == 0`.
pub fn div_i128(n: i128, d: i128) -> (r: i128)
    ensures
        r == sat_i128(tdiv(n as int, d as int)),
{
    if d == 0 {
        return 0;
    }
    let nn = abs_u128(n);
    let dd = abs_u128(d);
    let q = nn / dd;
    if (n < 0) != (d < 0) {
        if q >= 170_141_183_460_469_231_731_687_303_715_884_105_728u128 {
            i128::MIN
        } else {
            -(q as i128)
        }
    } else {
        if q > i128::MAX as u128 {
            i128::MAX
        } else {
            q as i128
        }
    }
}

/// When a product is an exact multiple of `SCALE`, the fixed-point
/// product is that multiple.
pub proof fn lemma_fmul_exact(a: i64, b: i64, q: i64)
    requires
        (a as int) * (b as int) == (q as int) * (SCALE as int),
    ensures
        spec_fmul(a, b) == q,
{
    let n = (a as int) * (b as int);
    let s = SCALE as int;
    let qi = q as int;
    if qi >= 0 {
        assert(n == qi * s && n >= 0) by (nonlinear_arith)
            requires
                n == qi * s,
                qi >= 0,
                s == 1_000_000,
        ;
        vstd::arithmetic::div_mod::lemma_fundamental_div_mod_converse_div(n, s, qi, 0);
    } else {
        assert(n == qi * s && n < 0 && -n == (-qi) * s) by (nonlinear_arith)
            requires
                n == qi * s,
                qi < 0,
                s == 1_000_000,
        ;
        vstd::arithmetic::div_mod::lemma_fundamental_div_mod_converse_div(-n, s, -qi, 0);
        assert(abs_int(n) == -n);
        assert(tdiv(n, s) == -((-n) / s));
    }
}

/// Euclidean remainder: wraps `x` into `[0, w)`.
pub fn wrap_mod(x: i64, w: i64) -> (r: i64)
    requires
        w > 0,
    ensures
        r == (x as int) % (w as int),
        0 <= r < w,
{
    let wu = w as u128;
    if x >= 0 {
        let m = (x as u128) % wu;
        m as i64
    } else {
        let a = abs_u128(x as i128);
        let k = a % wu;
        proof {
            let xi = x as int;
            let wi = w as int;
            let ai = a as int;
            vstd::arithmetic::div_mod::lemma_fundamental_div_mod(ai, wi);
            let q = ai / wi;
            assert(ai == wi * q + (k as int));
            if k == 0 {
                assert(xi == (-q) * wi + 0) by (nonlinear_arith)
                    requires
                        ai == wi * q,
                        xi == -ai,
                ;
                vstd::arithmetic::div_mod::lemma_fundamental_div_mod_converse_mod(
                    xi,
                    wi,
                    -q,
                    0,
                );
            } else {
                assert(xi == (-q - 1) * wi + (wi - (k as int))) by (nonlinear_arith)
                    requires
                        ai == wi * q + (k as int),
                        xi == -ai,
                ;
                vstd::arithmetic::div_mod::lemma_fundamental_div_mod_converse_mod(
                    xi,
                    wi,
                    -q - 1,
                    wi - (k as int),
                );
            }
        }
        if k == 0 {
            0
        } else {
            (wu - k) as i64
        }
    }
}

/// Integer square root of a `u128`, rounded down.
pub fn isqrt(n: u128) -> (r: u64)
    ensures
        (r as int) * (r as int) <= n as int,
        ((r as int) + 1) * ((r as int) + 1) > n as int,
{
    let mut lo: u128 = 0;
    let mut hi: u128 = 18_446_744_073_709_551_616u128;
    proof {
        assert(18_446_744_073_709_551_616int * 18_446_744_073_709_551_616int > u128::MAX as int);
    }
    while lo + 1 < hi
        invariant
            0 <= lo < hi <= 18_446_744_073_709_551_616u128,
            (lo as int) * (lo as int) <= n as int,
            (hi as int) * (hi as int) > n as int,
        decreases hi - lo,
    {
        let mid = lo + (hi - lo) / 2;
        proof {
            assert((mid as int) * (mid as int)
                <= 18_446_744_073_709_551_615int * 18_446_744_073_709_551_615int)
                by (nonlinear_arith)
                requires
                    0 <= mid <= 18_446_744_073_709_551_615int,
            ;
        }
        if mid * mid <= n {
            lo = mid;
        } else {
            hi = mid;
        }
    }
    lo as u64
}

/// Quarter-wave sine: the Taylor polynomial
/// `x - x^3/6 + x^5/120 - x^7/5040` in micro-units, clamped into
/// `[0, SCALE]`. Interprets `x` as a microradian angle in the first
/// quadrant; the quadrant endpoint is pinned to exactly 1, so rotations
/// by whole quarter turns are exact.
pub open spec fn spec_sin_quarter(x: i64) -> i64 {
    if x == QUARTER {
        SCALE
    } else {
        spec_sin_taylor(x)
    }
}

/// The truncated Taylor polynomial behind the quarter-wave sine.
pub open spec fn spec_sin_taylor(x: i64) -> i64 {
    let u = x as int;
    let u2 = (u * u) / SCALE as int;
    let u3 = (u2 * u) / SCALE as int;
    let u5 = (u3 * u2) / SCALE as int;
    let u7 = (u5 * u2) / SCALE as int;
    let up = u + u5 / 120;
    let down = u3 / 6 + u7 / 5040;
    if up <= down {
        0
    } else if up - down > SCALE {
        SCALE
    } else {
        (up - down) as i64
    }
}

/// Quarter-wave sine, executable.
fn sin_quarter(x: i64) -> (r: i64)
    requires
        0 <= x <= QUARTER,
    ensures
        r == spec_sin_quarter(x),
        0 <= r <= SCALE,
{
    if x == QUARTER {
        return SCALE;
    }
    let u = x as u64;
    let s = SCALE as u64;
    proof {
        assert((u as int) * (u as int) <= 1_570_796 * 1_570_796) by (nonlinear_arith)
            requires
                0 <= u <= 1_570_796,
        ;
    }
    let u2 = (u * u) / s;
    proof {
        assert((u2 as int) * (u as int) <= 2_467_400 * 1_570_796) by (nonlinear_arith)
            requires
                0 <= u2 <= 2_467_400 && 0 <= u <= 1_570_796,
        ;
    }
    let u3 = (u2 * u) / s;
    proof {
        assert((u3 as int) * (u2 as int) <= 3_875_785 * 2_467_400) by (nonlinear_arith)
            requires
                0 <= u3 <= 3_875_785 && 0 <= u2 <= 2_467_400,
        ;
    }
    let u5 = (u3 * u2) / s;
    proof {
        assert((u5 as int) * (u2 as int) <= 9_563_200 * 2_467_400) by (nonlinear_arith)
            requires
                0 <= u5 <= 9_563_200 && 0 <= u2 <= 2_467_400,
        ;
    }
    let u7 = (u5 * u2) / s;
    let up = u + u5 / 120;
    let down = u3 / 6 + u7 / 5040;
    if up <= down {
        0
    } else if up - down > s {
        SCALE
    } else {
        (up - down) as i64
    }
}

/// Normalize a microradian angle into `[0, TURN)`.
pub open spec fn spec_angle_norm(a: i64) -> i64 {
    ((a as int) % (TURN as int)) as i64
}

/// Normalize a microradian angle into `[0, TURN)`, executable.
pub fn angle_norm(a: i64) -> (r: i64)
    ensures
        r == spec_angle_norm(a),
        0 <= r < TURN,
{
    wrap_mod(a, TURN)
}

/// Sine of a normalized angle, by quadrant folding of the quarter wave.
pub open spec fn spec_sin_norm(m: i64) -> i64 {
    if m < QUARTER {
        spec_sin_quarter(m)
    } else if m < HALF_TURN {
        spec_sin_quarter((HALF_TURN - m) as i64)
    } else if m < HALF_TURN + QUARTER {
        sat_i64(-spec_sin_quarter((m - HALF_TURN) as i64))
    } else {
        sat_i64(-spec_sin_quarter((TURN - m) as i64))
    }
}

fn sin_norm(m: i64) -> (r: i64)
    requires
        0 <= m < TURN,
    ensures
        r == spec_sin_norm(m),
        -SCALE <= r <= SCALE,
{
    if m < QUARTER {
        sin_quarter(m)
    } else if m < HALF_TURN {
        sin_quarter(HALF_TURN - m)
    } else if m < HALF_TURN + QUARTER {
        -sin_quarter(m - HALF_TURN)
    } else {
        -sin_quarter(TURN - m)
    }
}

/// Sine of a microradian angle, in micro-units.
pub open spec fn spec_sin(a: i64) -> i64 {
    spec_sin_norm(spec_angle_norm(a))
}

/// Cosine of a microradian angle, in micro-units: the sine shifted by a
/// quarter turn.
pub open spec fn spec_cos(a: i64) -> i64 {
    let m = spec_angle_norm(a) + QUARTER;
    if m >= TURN {
        spec_sin_norm((m - TURN) as i64)
    } else {
        spec_sin_norm(m as i64)
    }
}

/// Sine of a microradian angle.
pub fn sin_fp(a: i64) -> (r: i64)
    ensures
        r == spec_sin(a),
        -SCALE <= r <= SCALE,
{
    sin_norm(angle_norm(a))
}

/// Cosine of a microradian angle.
pub fn cos_fp(a: i64) -> (r: i64)
    ensures
        r == spec_cos(a),
        -SCALE <= r <= SCALE,
{
    let m = angle_norm(a) + QUARTER;
    if m >= TURN {
        sin_norm(m - TURN)
    } else {
        sin_norm(m)
    }
}

} // verus!
