//! The lunar sub-model: ecliptic position, phase fraction, illuminated
//! fraction, phase label, and the signed offset to the nearest full moon.
//!
//! The phase fraction is `frac((JD - 2451550.1) / 29.53058867 days)`,
//! computed with a true (Euclidean) modulo so it is never negative, also for
//! dates before the reference new moon. In microseconds both constants are
//! exact integers: see [`REF_NEW_MOON_MICROS`] and [`SYNODIC_MONTH_MICROS`].
//!
//! The next-full-moon estimate `29.53058867 days * (0.5 - phase)` is kept as
//! a signed offset: past the midpoint of the cycle it is negative and counts
//! days since the last full moon rather than days until the next one.
//!
//! Day counts are in millidays, angles in microdegrees, the phase fraction
//! in millionths of a cycle, illumination in millionths of a percent.

use crate::angle::{cosine_ppm, sine_ppm, spec_cosine_ppm, spec_sine_ppm};
use crate::num::{div_euclid_i64, lemma_div_range, rem_euclid_i64};
use crate::timestamp::MICROS_PER_DAY;
use vstd::arithmetic::div_mod::{
    lemma_div_is_ordered, lemma_fundamental_div_mod_converse, lemma_small_mod,
};
use vstd::prelude::*;

verus! {

/// The Julian day 2451550.1 of the reference new moon, in microseconds.
pub const REF_NEW_MOON_MICROS: i64 = 211_813_928_640_000_000;

/// The mean synodic month of 29.53058867 days, in microseconds.
pub const SYNODIC_MONTH_MICROS: i64 = 2_551_442_861_088;

/// Half a mean synodic month, in microseconds.
pub const HALF_SYNODIC_MICROS: i64 = 1_275_721_430_544;

/// The eight canonical phase names, in waxing-to-waning order.
#[derive(Clone, Copy, Debug, PartialEq, Eq, Structural)]
pub enum MoonPhase {
    New,
    WaxingCrescent,
    FirstQuarter,
    WaxingGibbous,
    Full,
    WaningGibbous,
    LastQuarter,
    WaningCrescent,
}

/// Mean lunar longitude in microdegrees: `218.316 + 13.176396 deg/day * n`.
pub open spec fn spec_moon_mean_longitude(n_millidays: int) -> int {
    218_316_000 + (n_millidays * 13_176_396) / 1000
}

/// Mean lunar anomaly in microdegrees: `134.963 + 13.064993 deg/day * n`.
pub open spec fn spec_moon_mean_anomaly(n_millidays: int) -> int {
    134_963_000 + (n_millidays * 13_064_993) / 1000
}

/// Mean lunar argument of latitude in microdegrees:
/// `93.272 + 13.229350 deg/day * n`.
pub open spec fn spec_moon_mean_latitude_arg(n_millidays: int) -> int {
    93_272_000 + (n_millidays * 13_229_350) / 1000
}

/// Lunar ecliptic longitude in microdegrees, unnormalized:
/// `L + 6.289 sin M`.
pub open spec fn spec_moon_longitude(n_millidays: int) -> int {
    spec_moon_mean_longitude(n_millidays) + (6_289_000 * spec_sine_ppm(
        spec_moon_mean_anomaly(n_millidays),
    )) / 1_000_000
}

/// Lunar ecliptic latitude in microdegrees: `5.128 sin F`.
pub open spec fn spec_moon_latitude(n_millidays: int) -> int {
    (5_128_000 * spec_sine_ppm(spec_moon_mean_latitude_arg(n_millidays))) / 1_000_000
}

/// Lunar phase fraction in millionths of a synodic cycle, always in
/// `[0, 1_000_000)`.
pub open spec fn spec_moon_phase_ppm(jd_micros: int) -> int {
    ((jd_micros - REF_NEW_MOON_MICROS) % (SYNODIC_MONTH_MICROS as int)) * 1_000_000
        / (SYNODIC_MONTH_MICROS as int)
}

/// Illuminated fraction in millionths of a percent:
/// `50 * (1 - cos(2 pi * phase))`.
pub open spec fn spec_illumination_micropercent(phase_ppm: int) -> int {
    50 * (1_000_000 - spec_cosine_ppm(phase_ppm * 360))
}

/// The phase label of a phase fraction, by fixed thresholds with inclusive
/// lower and exclusive upper bounds.
pub open spec fn spec_phase_label(phase_ppm: int) -> MoonPhase {
    if phase_ppm < 30_000 {
        MoonPhase::New
    } else if phase_ppm < 250_000 {
        MoonPhase::WaxingCrescent
    } else if phase_ppm < 270_000 {
        MoonPhase::FirstQuarter
    } else if phase_ppm < 500_000 {
        MoonPhase::WaxingGibbous
    } else if phase_ppm < 530_000 {
        MoonPhase::Full
    } else if phase_ppm < 750_000 {
        MoonPhase::WaningGibbous
    } else if phase_ppm < 770_000 {
        MoonPhase::LastQuarter
    } else {
        MoonPhase::WaningCrescent
    }
}

/// The canonical name of a phase label.
pub open spec fn spec_phase_name(label: MoonPhase) -> Seq<char> {
    match label {
        MoonPhase::New => "New Moon"@,
        MoonPhase::WaxingCrescent => "Waxing Crescent"@,
        MoonPhase::FirstQuarter => "First Quarter"@,
        MoonPhase::WaxingGibbous => "Waxing Gibbous"@,
        MoonPhase::Full => "Full Moon"@,
        MoonPhase::WaningGibbous => "Waning Gibbous"@,
        MoonPhase::LastQuarter => "Last Quarter"@,
        MoonPhase::WaningCrescent => "Waning Crescent"@,
    }
}

/// Signed whole-day offset to the nearest full-moon midpoint:
/// `29.53058867 days * (0.5 - phase)`, rounded toward negative infinity.
pub open spec fn spec_next_full_moon_days(jd_micros: int) -> int {
    (HALF_SYNODIC_MICROS - (jd_micros - REF_NEW_MOON_MICROS) % (SYNODIC_MONTH_MICROS as int))
        / (MICROS_PER_DAY as int)
}

/// Lunar ecliptic longitude and latitude in microdegrees for millidays since
/// the civil epoch (`JD - 1721013.5`). The longitude is left unnormalized;
/// the latitude stays within `+-5.128` degrees.
pub fn moon_position(n_millidays: i64) -> (p: (i64, i64))
    requires
        -300_000_000_000 <= n_millidays <= 300_000_000_000,
    ensures
        p.0 == spec_moon_longitude(n_millidays as int),
        p.1 == spec_moon_latitude(n_millidays as int),
        -5_128_000 <= p.1 <= 5_128_000,
{
    let nl: i64 = n_millidays * 13_176_396;
    let nm: i64 = n_millidays * 13_064_993;
    let nf: i64 = n_millidays * 13_229_350;
    proof {
        lemma_div_range(nl as int, 1000, -4_000_000_000_000_000, 4_000_000_000_000_000);
        lemma_div_range(nm as int, 1000, -4_000_000_000_000_000, 4_000_000_000_000_000);
        lemma_div_range(nf as int, 1000, -4_000_000_000_000_000, 4_000_000_000_000_000);
    }
    let mean_longitude: i64 = 218_316_000 + div_euclid_i64(nl, 1000);
    let mean_anomaly: i64 = 134_963_000 + div_euclid_i64(nm, 1000);
    let latitude_arg: i64 = 93_272_000 + div_euclid_i64(nf, 1000);
    let sm: i64 = sine_ppm(mean_anomaly);
    let sf: i64 = sine_ppm(latitude_arg);
    proof {
        lemma_div_range(6_289_000 * sm as int, 1_000_000, -6_289_000, 6_289_001);
        lemma_div_range(5_128_000 * sf as int, 1_000_000, -5_128_000, 5_128_001);
    }
    let longitude: i64 = mean_longitude + div_euclid_i64(6_289_000 * sm, 1_000_000);
    let latitude: i64 = div_euclid_i64(5_128_000 * sf, 1_000_000);
    (longitude, latitude)
}

/// Lunar phase fraction in millionths of a synodic cycle.
///
/// The Euclidean modulo keeps the result in `[0, 1_000_000)` for every
/// Julian day, also before the reference new moon.
pub fn moon_phase(jd_micros: i64) -> (p: i64)
    requires
        -4_000_000_000_000_000_000 <= jd_micros <= 4_000_000_000_000_000_000,
    ensures
        p == spec_moon_phase_ppm(jd_micros as int),
        0 <= p < 1_000_000,
{
    let rem: i64 = rem_euclid_i64(jd_micros - REF_NEW_MOON_MICROS, SYNODIC_MONTH_MICROS);
    proof {
        lemma_div_range(rem as int * 1_000_000, SYNODIC_MONTH_MICROS as int, 0, 1_000_000);
    }
    div_euclid_i64(rem * 1_000_000, SYNODIC_MONTH_MICROS)
}

/// Illuminated fraction in millionths of a percent, 0 at new moon and
/// 100 percent at full moon.
pub fn illumination(phase_ppm: i64) -> (r: i64)
    requires
        0 <= phase_ppm < 1_000_000,
    ensures
        r == spec_illumination_micropercent(phase_ppm as int),
        0 <= r <= 100_000_000,
{
    let c: i64 = cosine_ppm(phase_ppm * 360);
    50 * (1_000_000 - c)
}

/// The illumination formula is exact at the cycle's endpoints: a new moon is
/// fully dark and a full moon is fully lit.
pub proof fn lemma_illumination_endpoints()
    ensures
        spec_illumination_micropercent(0) == 0,
        spec_illumination_micropercent(500_000) == 100_000_000,
{
    lemma_small_mod(90_000_000nat, 360_000_000nat);
    lemma_small_mod(270_000_000nat, 360_000_000nat);
    assert(90_000_000int / 1000 == 90_000) by {
        lemma_fundamental_div_mod_converse(90_000_000, 1000, 90_000, 0);
    };
    crate::angle::lemma_half_sine_bounds(90_000);
}

/// The phase label of a phase fraction.
pub fn phase_label(phase_ppm: i64) -> (label: MoonPhase)
    requires
        0 <= phase_ppm < 1_000_000,
    ensures
        label == spec_phase_label(phase_ppm as int),
{
    if phase_ppm < 30_000 {
        MoonPhase::New
    } else if phase_ppm < 250_000 {
        MoonPhase::WaxingCrescent
    } else if phase_ppm < 270_000 {
        MoonPhase::FirstQuarter
    } else if phase_ppm < 500_000 {
        MoonPhase::WaxingGibbous
    } else if phase_ppm < 530_000 {
        MoonPhase::Full
    } else if phase_ppm < 750_000 {
        MoonPhase::WaningGibbous
    } else if phase_ppm < 770_000 {
        MoonPhase::LastQuarter
    } else {
        MoonPhase::WaningCrescent
    }
}

impl MoonPhase {
    /// The canonical name of the phase.
    pub fn as_str(&self) -> (s: &'static str)
        ensures
            s@ == spec_phase_name(*self),
    {
        match self {
            MoonPhase::New => "New Moon",
            MoonPhase::WaxingCrescent => "Waxing Crescent",
            MoonPhase::FirstQuarter => "First Quarter",
            MoonPhase::WaxingGibbous => "Waxing Gibbous",
            MoonPhase::Full => "Full Moon",
            MoonPhase::WaningGibbous => "Waning Gibbous",
            MoonPhase::LastQuarter => "Last Quarter",
            MoonPhase::WaningCrescent => "Waning Crescent",
        }
    }
}

/// The canonical name of the phase of the given Julian day.
pub fn moon_phase_as_str(jd_micros: i64) -> (s: &'static str)
    requires
        -4_000_000_000_000_000_000 <= jd_micros <= 4_000_000_000_000_000_000,
    ensures
        s@ == spec_phase_name(spec_phase_label(spec_moon_phase_ppm(jd_micros as int))),
{
    let p: i64 = moon_phase(jd_micros);
    let label: MoonPhase = phase_label(p);
    label.as_str()
}

/// Signed whole-day offset to the nearest full-moon midpoint.
///
/// Nonnegative while the phase is at or below one half (the full moon is
/// ahead); negative past the midpoint, counting days since the last full
/// moon. Within one cycle the offset stays in `[-15, 14]` days.
pub fn next_full_moon(jd_micros: i64) -> (d: i64)
    requires
        -4_000_000_000_000_000_000 <= jd_micros <= 4_000_000_000_000_000_000,
    ensures
        d == spec_next_full_moon_days(jd_micros as int),
        -15 <= d <= 14,
        spec_moon_phase_ppm(jd_micros as int) < 500_000 ==> d >= 0,
        spec_moon_phase_ppm(jd_micros as int) > 500_000 ==> d < 0,
{
    let rem: i64 = rem_euclid_i64(jd_micros - REF_NEW_MOON_MICROS, SYNODIC_MONTH_MICROS);
    let offset: i64 = HALF_SYNODIC_MICROS - rem;
    proof {
        let remi = rem as int;
        let syn = SYNODIC_MONTH_MICROS as int;
        // Relate the phase fraction to the remainder on each side of the
        // midpoint.
        if remi >= HALF_SYNODIC_MICROS {
            lemma_div_is_ordered(HALF_SYNODIC_MICROS as int * 1_000_000, remi * 1_000_000, syn);
            lemma_fundamental_div_mod_converse(
                HALF_SYNODIC_MICROS as int * 1_000_000,
                syn,
                500_000,
                0,
            );
        }
        if remi <= HALF_SYNODIC_MICROS {
            lemma_div_is_ordered(remi * 1_000_000, HALF_SYNODIC_MICROS as int * 1_000_000, syn);
            lemma_fundamental_div_mod_converse(
                HALF_SYNODIC_MICROS as int * 1_000_000,
                syn,
                500_000,
                0,
            );
        }
        if offset >= 0 {
            lemma_div_range(offset as int, MICROS_PER_DAY as int, 0, 15);
        }
        if offset < 0 {
            lemma_div_range(offset as int, MICROS_PER_DAY as int, -15, 0);
        }
    }
    div_euclid_i64(offset, MICROS_PER_DAY)
}

/// The full lunar state derived from a Julian day.
#[derive(Clone, Copy, Debug, PartialEq, Eq, Structural)]
pub struct LunarState {
    /// Ecliptic longitude, microdegrees, unnormalized.
    pub longitude: i64,
    /// Ecliptic latitude, microdegrees.
    pub latitude: i64,
    /// Phase fraction, millionths of a synodic cycle.
    pub phase_ppm: i64,
    /// Illuminated fraction, millionths of a percent.
    pub illumination_micropercent: i64,
    /// The discrete phase label.
    pub label: MoonPhase,
}

/// The lunar state that a Julian day determines: every field is a pure
/// function of the one input.
pub open spec fn spec_lunar_state(jd_micros: int) -> LunarState {
    let n: int = crate::timestamp::spec_days_since_epoch_millis(jd_micros);
    let phase: int = spec_moon_phase_ppm(jd_micros);
    LunarState {
        longitude: spec_moon_longitude(n) as i64,
        latitude: spec_moon_latitude(n) as i64,
        phase_ppm: phase as i64,
        illumination_micropercent: spec_illumination_micropercent(phase) as i64,
        label: spec_phase_label(phase),
    }
}

/// Derives the day count and phase once from the Julian day and threads them
/// through the lunar formulas.
pub fn lunar_state(jd_micros: i64) -> (s: LunarState)
    requires
        0 <= jd_micros < 500_000_000_000_000_000,
    ensures
        s == spec_lunar_state(jd_micros as int),
{
    let n: i64 = crate::timestamp::days_since_epoch_millis(jd_micros);
    proof {
        lemma_div_range(
            jd_micros as int - crate::timestamp::EPOCH_OFFSET_MICROS,
            crate::timestamp::MICROS_PER_MILLIDAY as int,
            -2_000_000_000,
            5_000_000_000,
        );
    }
    let pos: (i64, i64) = moon_position(n);
    let phase: i64 = moon_phase(jd_micros);
    LunarState {
        longitude: pos.0,
        latitude: pos.1,
        phase_ppm: phase,
        illumination_micropercent: illumination(phase),
        label: phase_label(phase),
    }
}

/// Determinism of the lunar sub-model: two lunar states computed from the
/// same Julian day are identical, since every field is a pure function of
/// the one input.
pub proof fn lemma_lunar_state_deterministic(jd_micros: int, s1: LunarState, s2: LunarState)
    requires
        s1 == spec_lunar_state(jd_micros),
        s2 == spec_lunar_state(jd_micros),
    ensures
        s1 == s2,
{
}

} // verus!
