//! The solar sub-model: declination, hour angle, ecliptic longitude, and the
//! low-precision distance and position extension.
//!
//! One internally consistent formula set is used, with degrees in and out:
//! - declination is the equinox-anchored sinusoid
//!   `delta = -23.44 deg * cos(360/365 * (N + 10) deg)` for day-of-year `N`,
//!   which peaks near `+23.44 deg` at the June solstice;
//! - the hour angle is `(solar_time - 12h) * 15 deg/h + longitude`, left
//!   unnormalized as callers may want either canonical range;
//! - the ecliptic longitude is the linear approximation
//!   `280.46 deg + 360/365.25 deg/day * (N - 80)`, reduced into `[0, 360)`
//!   with a true modulo so the range holds for inputs of any magnitude;
//! - distance and the 3-component position come from the reduced-accuracy
//!   solar ephemeris (mean anomaly, equation of center, true longitude),
//!   reported in millionths of an astronomical unit.
//!
//! Day counts are in millidays, angles in microdegrees, times of day in
//! microseconds.

use crate::angle::{
    cosine_ppm, normalize_degrees, sine_ppm, spec_cosine_ppm, spec_normalize_degrees,
    spec_sine_ppm, FULL_TURN_MICRODEG,
};
use crate::num::{div_euclid_i64, lemma_div_range};
use crate::timestamp::{
    calculate_julian_day, spec_day_of_year, spec_julian_day_micros, spec_time_of_day_micros,
    Timestamp, MICROS_PER_DAY, MICROS_PER_MILLIDAY,
};
use vstd::prelude::*;

verus! {

/// Earth's axial tilt, in microdegrees.
pub const AXIAL_TILT_MICRODEG: i64 = 23_440_000;

/// The Julian day of the reference epoch 2451545.0, in microseconds.
pub const J2000_MICROS: i64 = 211_813_488_000_000_000;

/// Solar declination in microdegrees for a day of year in millidays.
pub open spec fn spec_solar_declination(day_of_year_millis: int) -> int {
    let phase: int = ((day_of_year_millis + 10_000) * 72_000) / 73;
    (-23_440_000 * spec_cosine_ppm(phase)) / 1_000_000
}

/// Solar hour angle in microdegrees for a time of day in microseconds and a
/// longitude in microdegrees: `(t - 12h) * 15 deg/h + longitude`.
pub open spec fn spec_solar_hour_angle(time_of_day_micros: int, longitude_microdeg: int) -> int {
    (time_of_day_micros - 43_200_000_000) / 240 + longitude_microdeg
}

/// Solar ecliptic longitude in microdegrees, reduced into `[0, 360)` degrees,
/// for a day of year in millidays: `280.46 deg + 360/365.25 * (N - 80)`.
pub open spec fn spec_solar_ecliptic_position(day_of_year_millis: int) -> int {
    spec_normalize_degrees(280_460_000 + ((day_of_year_millis - 80_000) * 1_440_000) / 1461)
}

/// Whole millidays from the reference epoch 2451545.0 to `jd_micros`.
pub open spec fn spec_days_since_j2000_millis(jd_micros: int) -> int {
    (jd_micros - J2000_MICROS) / (MICROS_PER_MILLIDAY as int)
}

/// Solar mean anomaly in microdegrees: `357.529 + 0.98560028 deg/day * n`.
pub open spec fn spec_solar_mean_anomaly(n_millidays: int) -> int {
    357_529_000 + (n_millidays * 98_560_028) / 100_000
}

/// Solar mean longitude in microdegrees: `280.459 + 0.98564736 deg/day * n`.
pub open spec fn spec_solar_mean_longitude(n_millidays: int) -> int {
    280_459_000 + (n_millidays * 98_564_736) / 100_000
}

/// Earth-Sun distance in micro-astronomical-units:
/// `1.00014 - 0.01671 cos g - 0.00014 cos 2g` for mean anomaly `g`.
pub open spec fn spec_distance_to_sun(jd_micros: int) -> int {
    let g: int = spec_solar_mean_anomaly(spec_days_since_j2000_millis(jd_micros));
    1_000_140 - (16_710 * spec_cosine_ppm(g)) / 1_000_000 - (140 * spec_cosine_ppm(2 * g))
        / 1_000_000
}

/// Solar true ecliptic longitude in microdegrees, reduced into `[0, 360)`:
/// mean longitude plus the equation of center
/// `1.915 sin g + 0.020 sin 2g`.
pub open spec fn spec_solar_true_longitude(jd_micros: int) -> int {
    let n: int = spec_days_since_j2000_millis(jd_micros);
    let g: int = spec_solar_mean_anomaly(n);
    spec_normalize_degrees(
        spec_solar_mean_longitude(n) + (1_915_000 * spec_sine_ppm(g)) / 1_000_000 + (20_000
            * spec_sine_ppm(2 * g)) / 1_000_000,
    )
}

/// Apparent solar position in equatorial coordinates, each component in
/// micro-astronomical-units: the ecliptic position `(R cos L, R sin L, 0)`
/// rotated by the axial tilt.
pub open spec fn spec_solar_position(jd_micros: int) -> (int, int, int) {
    let r: int = spec_distance_to_sun(jd_micros);
    let lam: int = spec_solar_true_longitude(jd_micros);
    let in_plane: int = (r * spec_sine_ppm(lam)) / 1_000_000;
    (
        (r * spec_cosine_ppm(lam)) / 1_000_000,
        (in_plane * spec_cosine_ppm(AXIAL_TILT_MICRODEG as int)) / 1_000_000,
        (in_plane * spec_sine_ppm(AXIAL_TILT_MICRODEG as int)) / 1_000_000,
    )
}

/// Solar declination in microdegrees for a day of year in millidays.
///
/// Accepts any finite day count, also outside [1, 366]: the sinusoid is
/// defined everywhere. The result stays within plus or minus the axial tilt.
pub fn solar_declination(day_of_year_millis: i64) -> (r: i64)
    requires
        -100_000_000_000_000 <= day_of_year_millis <= 100_000_000_000_000,
    ensures
        r == spec_solar_declination(day_of_year_millis as int),
        -AXIAL_TILT_MICRODEG <= r <= AXIAL_TILT_MICRODEG,
{
    let num: i64 = (day_of_year_millis + 10_000) * 72_000;
    let phase: i64 = div_euclid_i64(num, 73);
    proof {
        lemma_div_range(num as int, 73, -100_000_000_000_000_000, 100_000_000_000_000_000);
    }
    let c: i64 = cosine_ppm(phase);
    proof {
        assert(-23_440_000_000_000 <= -23_440_000 * (c as int) <= 23_440_000_000_000)
            by (nonlinear_arith)
            requires
                -1_000_000 <= c <= 1_000_000,
        ;
    }
    let p: i64 = -23_440_000 * c;
    let r: i64 = div_euclid_i64(p, 1_000_000);
    proof {
        lemma_div_range(p as int, 1_000_000, -23_440_000, 23_440_001);
    }
    r
}

/// Solar hour angle in microdegrees: `(t - 12h) * 15 deg/h + longitude`.
///
/// Takes a time of day in microseconds and a longitude in microdegrees. The
/// result is not reduced into a canonical range; use the normalization
/// helpers of [`crate::angle`] where one is needed.
pub fn solar_hour_angle(time_of_day_micros: i64, longitude_microdeg: i64) -> (r: i64)
    requires
        0 <= time_of_day_micros < MICROS_PER_DAY,
        -180_000_000 <= longitude_microdeg <= 180_000_000,
    ensures
        r == spec_solar_hour_angle(time_of_day_micros as int, longitude_microdeg as int),
        -FULL_TURN_MICRODEG <= r < FULL_TURN_MICRODEG,
{
    let h: i64 = div_euclid_i64(time_of_day_micros - 43_200_000_000, 240);
    proof {
        lemma_div_range(
            time_of_day_micros as int - 43_200_000_000,
            240,
            -180_000_000,
            180_000_000,
        );
    }
    h + longitude_microdeg
}

/// Solar ecliptic longitude in microdegrees, reduced into `[0, 360)` degrees
/// by a true modulo, so the range holds for day counts of any magnitude.
pub fn solar_ecliptic_position(day_of_year_millis: i64) -> (r: i64)
    requires
        -4_000_000_000_000 <= day_of_year_millis <= 4_000_000_000_000,
    ensures
        r == spec_solar_ecliptic_position(day_of_year_millis as int),
        0 <= r < FULL_TURN_MICRODEG,
{
    let num: i64 = (day_of_year_millis - 80_000) * 1_440_000;
    let t: i64 = div_euclid_i64(num, 1461);
    proof {
        lemma_div_range(num as int, 1461, -4_000_000_000_000_000, 4_000_000_000_000_000);
    }
    normalize_degrees(280_460_000 + t)
}

/// Whole millidays from the reference epoch 2451545.0 to `jd_micros`.
pub fn days_since_j2000_millis(jd_micros: i64) -> (n: i64)
    requires
        0 <= jd_micros < 500_000_000_000_000_000,
    ensures
        n == spec_days_since_j2000_millis(jd_micros as int),
        -2_452_000_000 <= n <= 3_336_000_000,
{
    proof {
        lemma_div_range(
            jd_micros as int - J2000_MICROS,
            MICROS_PER_MILLIDAY as int,
            -2_452_000_000,
            3_336_000_001,
        );
    }
    div_euclid_i64(jd_micros - J2000_MICROS, MICROS_PER_MILLIDAY)
}

/// Solar mean anomaly in microdegrees for millidays since 2451545.0.
fn solar_mean_anomaly(n_millidays: i64) -> (g: i64)
    requires
        -2_452_000_000 <= n_millidays <= 3_336_000_000,
    ensures
        g == spec_solar_mean_anomaly(n_millidays as int),
        -4_000_000_000_000 <= g <= 4_000_000_000_000,
{
    let p: i64 = n_millidays * 98_560_028;
    proof {
        lemma_div_range(p as int, 100_000, -3_000_000_000_000, 3_300_000_000_000);
    }
    357_529_000 + div_euclid_i64(p, 100_000)
}

/// Solar mean longitude in microdegrees for millidays since 2451545.0.
fn solar_mean_longitude(n_millidays: i64) -> (q: i64)
    requires
        -2_452_000_000 <= n_millidays <= 3_336_000_000,
    ensures
        q == spec_solar_mean_longitude(n_millidays as int),
        -4_000_000_000_000 <= q <= 4_000_000_000_000,
{
    let p: i64 = n_millidays * 98_564_736;
    proof {
        lemma_div_range(p as int, 100_000, -3_000_000_000_000, 3_300_000_000_000);
    }
    280_459_000 + div_euclid_i64(p, 100_000)
}

/// Earth-Sun distance in micro-astronomical-units, from the reduced-accuracy
/// formula `1.00014 - 0.01671 cos g - 0.00014 cos 2g`.
pub fn distance_to_sun(jd_micros: i64) -> (r: i64)
    requires
        0 <= jd_micros < 500_000_000_000_000_000,
    ensures
        r == spec_distance_to_sun(jd_micros as int),
        983_000 <= r <= 1_017_000,
{
    let n: i64 = days_since_j2000_millis(jd_micros);
    let g: i64 = solar_mean_anomaly(n);
    let c1: i64 = cosine_ppm(g);
    let c2: i64 = cosine_ppm(2 * g);
    let t1: i64 = div_euclid_i64(16_710 * c1, 1_000_000);
    let t2: i64 = div_euclid_i64(140 * c2, 1_000_000);
    proof {
        lemma_div_range(16_710 * c1 as int, 1_000_000, -16_710, 16_711);
        lemma_div_range(140 * c2 as int, 1_000_000, -140, 141);
    }
    1_000_140 - t1 - t2
}

/// Solar true ecliptic longitude in microdegrees, reduced into `[0, 360)`.
fn solar_true_longitude(jd_micros: i64) -> (lam: i64)
    requires
        0 <= jd_micros < 500_000_000_000_000_000,
    ensures
        lam == spec_solar_true_longitude(jd_micros as int),
        0 <= lam < FULL_TURN_MICRODEG,
{
    let n: i64 = days_since_j2000_millis(jd_micros);
    let g: i64 = solar_mean_anomaly(n);
    let q: i64 = solar_mean_longitude(n);
    let s1: i64 = sine_ppm(g);
    let s2: i64 = sine_ppm(2 * g);
    let e1: i64 = div_euclid_i64(1_915_000 * s1, 1_000_000);
    let e2: i64 = div_euclid_i64(20_000 * s2, 1_000_000);
    proof {
        lemma_div_range(1_915_000 * s1 as int, 1_000_000, -1_915_000, 1_915_001);
        lemma_div_range(20_000 * s2 as int, 1_000_000, -20_000, 20_001);
    }
    normalize_degrees(q + e1 + e2)
}

/// Scales `a` by a ratio in parts per million, rounding toward negative
/// infinity.
fn scale_by_ratio(a: i64, ppm: i64) -> (r: i64)
    requires
        -1_020_000 <= a <= 1_020_000,
        -1_000_000 <= ppm <= 1_000_000,
    ensures
        r == (a * ppm) / 1_000_000,
        -1_020_000 <= r <= 1_020_000,
{
    proof {
        assert(-1_020_000_000_000 <= a * ppm <= 1_020_000_000_000) by (nonlinear_arith)
            requires
                -1_020_000 <= a <= 1_020_000,
                -1_000_000 <= ppm <= 1_000_000,
        ;
        lemma_div_range(a as int * ppm as int, 1_000_000, -1_020_000, 1_020_001);
    }
    div_euclid_i64(a * ppm, 1_000_000)
}

/// Apparent solar position in equatorial coordinates, each component in
/// micro-astronomical-units.
pub fn solar_position(jd_micros: i64) -> (p: (i64, i64, i64))
    requires
        0 <= jd_micros < 500_000_000_000_000_000,
    ensures
        (p.0 as int, p.1 as int, p.2 as int) == spec_solar_position(jd_micros as int),
        -1_020_000 <= p.0 <= 1_020_000,
        -1_020_000 <= p.1 <= 1_020_000,
        -1_020_000 <= p.2 <= 1_020_000,
{
    let r: i64 = distance_to_sun(jd_micros);
    let lam: i64 = solar_true_longitude(jd_micros);
    let x: i64 = scale_by_ratio(r, cosine_ppm(lam));
    let in_plane: i64 = scale_by_ratio(r, sine_ppm(lam));
    let y: i64 = scale_by_ratio(in_plane, cosine_ppm(AXIAL_TILT_MICRODEG));
    let z: i64 = scale_by_ratio(in_plane, sine_ppm(AXIAL_TILT_MICRODEG));
    (x, y, z)
}

/// The full solar state derived from a timestamp and a longitude.
#[derive(Clone, Copy, Debug, PartialEq, Eq, Structural)]
pub struct SolarState {
    /// Declination, microdegrees.
    pub declination: i64,
    /// Hour angle, microdegrees, unnormalized.
    pub hour_angle: i64,
    /// Ecliptic longitude, microdegrees in `[0, 360)` degrees.
    pub ecliptic_longitude: i64,
    /// Earth-Sun distance, micro-astronomical-units.
    pub distance: i64,
    /// Apparent position, x component, micro-astronomical-units.
    pub x: i64,
    /// Apparent position, y component, micro-astronomical-units.
    pub y: i64,
    /// Apparent position, z component, micro-astronomical-units.
    pub z: i64,
}

/// The solar state that a timestamp and a longitude determine: every field
/// is a pure function of the two inputs.
pub open spec fn spec_solar_state(ts: Timestamp, longitude_microdeg: int) -> SolarState {
    let jd: int = spec_julian_day_micros(ts);
    let doy: int = spec_day_of_year(ts) * 1000;
    let pos: (int, int, int) = spec_solar_position(jd);
    SolarState {
        declination: spec_solar_declination(doy) as i64,
        hour_angle: spec_solar_hour_angle(spec_time_of_day_micros(ts), longitude_microdeg) as i64,
        ecliptic_longitude: spec_solar_ecliptic_position(doy) as i64,
        distance: spec_distance_to_sun(jd) as i64,
        x: pos.0 as i64,
        y: pos.1 as i64,
        z: pos.2 as i64,
    }
}

/// Derives the Julian day once from the timestamp and threads it through the
/// solar formulas.
pub fn solar_state(ts: &Timestamp, longitude_microdeg: i64) -> (s: SolarState)
    requires
        ts.valid(),
        -180_000_000 <= longitude_microdeg <= 180_000_000,
    ensures
        s == spec_solar_state(*ts, longitude_microdeg as int),
{
    let jd: i64 = calculate_julian_day(ts);
    let doy: i64 = (ts.day_of_year() as i64) * 1000;
    let pos: (i64, i64, i64) = solar_position(jd);
    SolarState {
        declination: solar_declination(doy),
        hour_angle: solar_hour_angle(ts.time_of_day_micros(), longitude_microdeg),
        ecliptic_longitude: solar_ecliptic_position(doy),
        distance: distance_to_sun(jd),
        x: pos.0,
        y: pos.1,
        z: pos.2,
    }
}

/// Determinism of the solar sub-model: two solar states computed from
/// identical inputs are identical, since every field is a pure function of
/// the timestamp and the longitude.
pub proof fn lemma_solar_state_deterministic(
    ts: Timestamp,
    longitude_microdeg: int,
    s1: SolarState,
    s2: SolarState,
)
    requires
        s1 == spec_solar_state(ts, longitude_microdeg),
        s2 == spec_solar_state(ts, longitude_microdeg),
    ensures
        s1 == s2,
{
}

} // verus!
