//! Angle normalization and fixed-point trigonometry.
//!
//! Angles are in microdegrees. [`normalize_degrees`] reduces any angle into
//! `[0, 360)` degrees with a true (Euclidean) modulo, and
//! [`normalize_signed_degrees`] into `[-180, 180)`.
//!
//! The sine is evaluated on a millidegree grid: the angle is reduced to the
//! first quadrant by symmetry and the ninth-order series
//! `sin x = x (1 - x^2/6 (1 - x^2/20 (1 - x^2/42 (1 - x^2/72))))` is
//! evaluated in parts-per-million fixed point, with the argument converted
//! to radians by the scaled constant `pi / 180000 ~= 17_453_293 / 1e12` per
//! millidegree. The result is clamped to the unit ratio, which also makes it
//! exact at every quarter turn; elsewhere the absolute error stays below
//! `2e-5`, far inside what a display-grade ephemeris needs. All intermediate
//! products are proved to fit in 64 bits.

use crate::num::{div_euclid_i64, lemma_div_range, rem_euclid_i64};
use vstd::arithmetic::div_mod::{
    lemma_div_is_ordered, lemma_div_pos_is_pos, lemma_fundamental_div_mod_converse,
};
use vstd::prelude::*;

verus! {

/// Microdegrees in a full turn.
pub const FULL_TURN_MICRODEG: i64 = 360_000_000;

/// Microdegrees in a half turn.
pub const HALF_TURN_MICRODEG: i64 = 180_000_000;

/// Microdegrees in a quarter turn.
pub const QUARTER_TURN_MICRODEG: i64 = 90_000_000;

/// The angle `x` reduced into `[0, 360_000_000)` by a true modulo.
pub open spec fn spec_normalize_degrees(x: int) -> int {
    x % (FULL_TURN_MICRODEG as int)
}

/// The angle `x` reduced into `[-180_000_000, 180_000_000)`.
pub open spec fn spec_normalize_signed_degrees(x: int) -> int {
    (x + HALF_TURN_MICRODEG) % (FULL_TURN_MICRODEG as int) - HALF_TURN_MICRODEG
}

/// The first-quadrant sine on a millidegree argument `u` in `[0, 90_000]`,
/// as a ratio in parts per million: the ninth-order series in nested form,
/// evaluated in fixed point on the radian conversion of `u`, clamped to the
/// unit ratio (the series overshoots one by a few millionths near the
/// quarter turn, so the clamp makes the quarter turn exact).
pub open spec fn spec_quarter_sine_ppm(u: int) -> int {
    let x: int = (u * 17_453_293) / 1_000_000;
    let x2: int = (x * x) / 1_000_000;
    let t4: int = 1_000_000 - x2 / 72;
    let t3: int = 1_000_000 - (x2 * t4) / 42_000_000;
    let t2: int = 1_000_000 - (x2 * t3) / 20_000_000;
    let t1: int = 1_000_000 - (x2 * t2) / 6_000_000;
    let s: int = (x * t1) / 1_000_000;
    if s >= 1_000_000 {
        1_000_000
    } else {
        s
    }
}

/// The half-turn sine on a millidegree argument `u` in `[0, 180_000]`:
/// the first-quadrant series, reflected about the quarter turn.
pub open spec fn spec_half_sine_ppm(u: int) -> int {
    if u <= 90_000 {
        spec_quarter_sine_ppm(u)
    } else {
        spec_quarter_sine_ppm(180_000 - u)
    }
}

/// The sine of the microdegree angle `x`, as a ratio in parts per million:
/// the angle is reduced into one turn, evaluated on the millidegree grid on
/// the first half turn, and extended by odd symmetry on the second.
pub open spec fn spec_sine_ppm(x: int) -> int {
    let n: int = spec_normalize_degrees(x);
    if n < HALF_TURN_MICRODEG {
        spec_half_sine_ppm(n / 1000)
    } else {
        -spec_half_sine_ppm((n - HALF_TURN_MICRODEG) / 1000)
    }
}

/// The cosine of the microdegree angle `x`: the sine a quarter turn ahead.
pub open spec fn spec_cosine_ppm(x: int) -> int {
    spec_sine_ppm(x + QUARTER_TURN_MICRODEG)
}

/// The first-quadrant series stays within the unit ratio on its domain, and
/// is exact at zero and at the quarter turn.
pub proof fn lemma_quarter_sine_bounds(u: int)
    requires
        0 <= u <= 90_000,
    ensures
        0 <= spec_quarter_sine_ppm(u) <= 1_000_000,
        u == 0 ==> spec_quarter_sine_ppm(u) == 0,
        u == 90_000 ==> spec_quarter_sine_ppm(u) == 1_000_000,
{
    let x: int = (u * 17_453_293) / 1_000_000;
    lemma_div_range(u * 17_453_293, 1_000_000, 0, 1_570_797);
    let x2: int = (x * x) / 1_000_000;
    assert(0 <= x * x <= 2_467_400_073_616) by (nonlinear_arith)
        requires
            0 <= x <= 1_570_796,
    ;
    lemma_div_range(x * x, 1_000_000, 0, 2_467_401);
    let t4: int = 1_000_000 - x2 / 72;
    lemma_div_range(x2, 72, 0, 34_270);
    let t3: int = 1_000_000 - (x2 * t4) / 42_000_000;
    assert(0 <= x2 * t4 <= 2_467_400_000_000) by (nonlinear_arith)
        requires
            0 <= x2 <= 2_467_400,
            0 <= t4 <= 1_000_000,
    ;
    lemma_div_range(x2 * t4, 42_000_000, 0, 58_748);
    let t2: int = 1_000_000 - (x2 * t3) / 20_000_000;
    assert(0 <= x2 * t3 <= 2_467_400_000_000) by (nonlinear_arith)
        requires
            0 <= x2 <= 2_467_400,
            0 <= t3 <= 1_000_000,
    ;
    lemma_div_range(x2 * t3, 20_000_000, 0, 123_371);
    let t1: int = 1_000_000 - (x2 * t2) / 6_000_000;
    assert(0 <= x2 * t2 <= 2_467_400_000_000) by (nonlinear_arith)
        requires
            0 <= x2 <= 2_467_400,
            0 <= t2 <= 1_000_000,
    ;
    lemma_div_range(x2 * t2, 6_000_000, 0, 411_234);
    assert(0 <= x * t1 <= 1_570_796_000_000) by (nonlinear_arith)
        requires
            0 <= x <= 1_570_796,
            0 <= t1 <= 1_000_000,
    ;
    lemma_div_range(x * t1, 1_000_000, 0, 1_570_798);
    if u == 0 {
        assert(x == 0);
        assert(x * t1 == 0) by (nonlinear_arith)
            requires
                x == 0,
        ;
    }
    if u == 90_000 {
        assert(x == 1_570_796);
        assert(x2 == 2_467_400) by (nonlinear_arith)
            requires
                x == 1_570_796,
                x2 == (x * x) / 1_000_000,
        ;
        assert(t4 == 965_731);
        assert(t3 == 943_266) by (nonlinear_arith)
            requires
                x2 == 2_467_400,
                t4 == 965_731,
                t3 == 1_000_000 - (x2 * t4) / 42_000_000,
        ;
        assert(t2 == 883_630) by (nonlinear_arith)
            requires
                x2 == 2_467_400,
                t3 == 943_266,
                t2 == 1_000_000 - (x2 * t3) / 20_000_000,
        ;
        assert(t1 == 636_622) by (nonlinear_arith)
            requires
                x2 == 2_467_400,
                t2 == 883_630,
                t1 == 1_000_000 - (x2 * t2) / 6_000_000,
        ;
        assert((x * t1) / 1_000_000 == 1_000_003) by (nonlinear_arith)
            requires
                x == 1_570_796,
                t1 == 636_622,
        ;
    }
}

/// The half-turn sine stays within the unit ratio on its domain, and is
/// exact at zero, at the quarter turn, and at the half turn.
pub proof fn lemma_half_sine_bounds(u: int)
    requires
        0 <= u <= 180_000,
    ensures
        0 <= spec_half_sine_ppm(u) <= 1_000_000,
        u == 0 ==> spec_half_sine_ppm(u) == 0,
        u == 90_000 ==> spec_half_sine_ppm(u) == 1_000_000,
        u == 180_000 ==> spec_half_sine_ppm(u) == 0,
{
    if u <= 90_000 {
        lemma_quarter_sine_bounds(u);
    } else {
        lemma_quarter_sine_bounds(180_000 - u);
    }
}

/// The sine ratio of any angle lies in `[-1_000_000, 1_000_000]`.
pub proof fn lemma_sine_ppm_bounds(x: int)
    ensures
        -1_000_000 <= spec_sine_ppm(x) <= 1_000_000,
{
    let n: int = spec_normalize_degrees(x);
    vstd::arithmetic::div_mod::lemma_mod_bound(x, FULL_TURN_MICRODEG as int);
    if n < HALF_TURN_MICRODEG {
        lemma_div_is_ordered(n, 179_999_999, 1000);
        lemma_div_pos_is_pos(n, 1000);
        lemma_fundamental_div_mod_converse(179_999_999, 1000, 179_999, 999);
        lemma_half_sine_bounds(n / 1000);
    } else {
        let m: int = n - HALF_TURN_MICRODEG;
        lemma_div_is_ordered(m, 179_999_999, 1000);
        lemma_div_pos_is_pos(m, 1000);
        lemma_fundamental_div_mod_converse(179_999_999, 1000, 179_999, 999);
        lemma_half_sine_bounds(m / 1000);
    }
}

/// Reduces an angle in microdegrees into `[0, 360)` degrees.
pub fn normalize_degrees(x: i64) -> (r: i64)
    requires
        x > i64::MIN,
    ensures
        r == spec_normalize_degrees(x as int),
        0 <= r < FULL_TURN_MICRODEG,
{
    rem_euclid_i64(x, FULL_TURN_MICRODEG)
}

/// Reduces an angle in microdegrees into `[-180, 180)` degrees.
pub fn normalize_signed_degrees(x: i64) -> (r: i64)
    requires
        i64::MIN + HALF_TURN_MICRODEG < x <= i64::MAX - HALF_TURN_MICRODEG,
    ensures
        r == spec_normalize_signed_degrees(x as int),
        -HALF_TURN_MICRODEG <= r < HALF_TURN_MICRODEG,
{
    rem_euclid_i64(x + HALF_TURN_MICRODEG, FULL_TURN_MICRODEG) - HALF_TURN_MICRODEG
}

/// The first-quadrant series on a millidegree argument.
fn quarter_sine_ppm(u: i64) -> (r: i64)
    requires
        0 <= u <= 90_000,
    ensures
        r == spec_quarter_sine_ppm(u as int),
        0 <= r <= 1_000_000,
{
    let x: i64 = (u * 17_453_293) / 1_000_000;
    proof {
        lemma_div_range(u as int * 17_453_293, 1_000_000, 0, 1_570_797);
    }
    proof {
        assert(0 <= x as int * x as int <= 2_467_400_073_616) by (nonlinear_arith)
            requires
                0 <= x <= 1_570_796,
        ;
        lemma_div_range(x as int * x as int, 1_000_000, 0, 2_467_401);
    }
    let x2: i64 = (x * x) / 1_000_000;
    proof {
        lemma_div_range(x2 as int, 72, 0, 34_270);
    }
    let t4: i64 = 1_000_000 - x2 / 72;
    proof {
        assert(0 <= x2 as int * t4 as int <= 2_467_400_000_000) by (nonlinear_arith)
            requires
                0 <= x2 <= 2_467_400,
                0 <= t4 <= 1_000_000,
        ;
        lemma_div_range(x2 as int * t4 as int, 42_000_000, 0, 58_748);
    }
    let t3: i64 = 1_000_000 - (x2 * t4) / 42_000_000;
    proof {
        assert(0 <= x2 as int * t3 as int <= 2_467_400_000_000) by (nonlinear_arith)
            requires
                0 <= x2 <= 2_467_400,
                0 <= t3 <= 1_000_000,
        ;
        lemma_div_range(x2 as int * t3 as int, 20_000_000, 0, 123_371);
    }
    let t2: i64 = 1_000_000 - (x2 * t3) / 20_000_000;
    proof {
        assert(0 <= x2 as int * t2 as int <= 2_467_400_000_000) by (nonlinear_arith)
            requires
                0 <= x2 <= 2_467_400,
                0 <= t2 <= 1_000_000,
        ;
        lemma_div_range(x2 as int * t2 as int, 6_000_000, 0, 411_234);
    }
    let t1: i64 = 1_000_000 - (x2 * t2) / 6_000_000;
    proof {
        assert(0 <= x as int * t1 as int <= 1_570_796_000_000) by (nonlinear_arith)
            requires
                0 <= x <= 1_570_796,
                0 <= t1 <= 1_000_000,
        ;
        lemma_div_range(x as int * t1 as int, 1_000_000, 0, 1_570_798);
    }
    let s: i64 = (x * t1) / 1_000_000;
    if s >= 1_000_000 {
        1_000_000
    } else {
        s
    }
}

/// The half-turn sine on a millidegree argument.
fn half_sine_ppm(u: i64) -> (r: i64)
    requires
        0 <= u <= 180_000,
    ensures
        r == spec_half_sine_ppm(u as int),
        0 <= r <= 1_000_000,
{
    if u <= 90_000 {
        quarter_sine_ppm(u)
    } else {
        quarter_sine_ppm(180_000 - u)
    }
}

/// The sine of an angle in microdegrees, as a ratio in parts per million.
pub fn sine_ppm(x: i64) -> (r: i64)
    requires
        x > i64::MIN,
    ensures
        r == spec_sine_ppm(x as int),
        -1_000_000 <= r <= 1_000_000,
{
    let n: i64 = normalize_degrees(x);
    proof {
        lemma_sine_ppm_bounds(x as int);
        lemma_div_pos_is_pos(n as int, 1000);
        lemma_div_is_ordered(n as int, 359_999_999, 1000);
        lemma_fundamental_div_mod_converse(359_999_999, 1000, 359_999, 999);
    }
    if n < HALF_TURN_MICRODEG {
        half_sine_ppm(n / 1000)
    } else {
        let m: i64 = n - HALF_TURN_MICRODEG;
        proof {
            lemma_div_pos_is_pos(m as int, 1000);
            lemma_div_is_ordered(m as int, 179_999_999, 1000);
            lemma_fundamental_div_mod_converse(179_999_999, 1000, 179_999, 999);
        }
        -half_sine_ppm(m / 1000)
    }
}

/// The cosine of an angle in microdegrees, as a ratio in parts per million.
pub fn cosine_ppm(x: i64) -> (r: i64)
    requires
        i64::MIN < x <= i64::MAX - QUARTER_TURN_MICRODEG,
    ensures
        r == spec_cosine_ppm(x as int),
        -1_000_000 <= r <= 1_000_000,
{
    sine_ppm(x + QUARTER_TURN_MICRODEG)
}

} // verus!
