use ephemeris::lunar::{
    illumination, lunar_state, moon_phase, moon_phase_as_str, moon_position, next_full_moon,
    phase_label, MoonPhase, REF_NEW_MOON_MICROS, SYNODIC_MONTH_MICROS,
};
use ephemeris::timestamp::{calculate_julian_day, days_since_epoch_millis, Timestamp,
    MICROS_PER_DAY};

#[test]
fn phase_zero_at_reference_new_moon() {
    // JD 2451550.1, reachable exactly as 2000-01-06T14:24:00 UTC.
    let t = Timestamp::new(2000, 1, 6, 14, 24, 0, 0).unwrap();
    let jd = calculate_julian_day(&t);
    assert_eq!(jd, REF_NEW_MOON_MICROS);
    assert_eq!(moon_phase(jd), 0);
    assert_eq!(moon_phase_as_str(jd), "New Moon");
    assert_eq!(illumination(moon_phase(jd)), 0);
}

#[test]
fn phase_near_new_moon_at_epoch_midnight() {
    // 2000-01-06T00:00:00 UTC is 0.6 days before the reference new moon:
    // the fraction sits within one day of the cycle boundary (a day is
    // about 33_863 millionths of a cycle), on the wrapping side.
    let t = Timestamp::new(2000, 1, 6, 0, 0, 0, 0).unwrap();
    let jd = calculate_julian_day(&t);
    let p = moon_phase(jd);
    assert!(0 <= p && p < 1_000_000);
    assert!(1_000_000 - p < 33_863, "phase {p} not within a day of new moon");
    assert_eq!(moon_phase_as_str(jd), "Waning Crescent");
}

#[test]
fn phase_nonnegative_before_reference_epoch() {
    // Forty days before the reference new moon the true modulo keeps the
    // fraction in range: -40 days wraps to about 0.645 of a cycle.
    let jd = REF_NEW_MOON_MICROS - 40 * MICROS_PER_DAY;
    let p = moon_phase(jd);
    assert!(0 <= p && p < 1_000_000, "phase {p} out of range");
    assert!(640_000 < p && p < 650_000, "phase {p} not near 0.645");
}

#[test]
fn phase_always_in_range() {
    let samples = [
        0i64,
        REF_NEW_MOON_MICROS,
        REF_NEW_MOON_MICROS - 1,
        REF_NEW_MOON_MICROS + 1,
        REF_NEW_MOON_MICROS - 1000 * MICROS_PER_DAY,
        REF_NEW_MOON_MICROS + SYNODIC_MONTH_MICROS,
        -4_000_000_000_000_000_000,
        4_000_000_000_000_000_000,
    ];
    for &jd in &samples {
        let p = moon_phase(jd);
        assert!(0 <= p && p < 1_000_000, "phase {p} out of range at {jd}");
    }
}

#[test]
fn illumination_endpoints() {
    // New moon fully dark, full moon fully lit, exactly in fixed point.
    assert_eq!(illumination(0), 0);
    assert_eq!(illumination(500_000), 100_000_000);
}

#[test]
fn illumination_quarters() {
    // The quarter phases are half lit, exactly.
    assert_eq!(illumination(250_000), 50_000_000);
    assert_eq!(illumination(750_000), 50_000_000);
}

#[test]
fn illumination_monotone_waxing() {
    let mut previous = illumination(0);
    for step in 1..=10i64 {
        let current = illumination(step * 50_000);
        assert!(current >= previous, "illumination decreased while waxing");
        previous = current;
    }
}

#[test]
fn phase_label_buckets() {
    assert_eq!(phase_label(0), MoonPhase::New);
    assert_eq!(phase_label(29_999), MoonPhase::New);
    assert_eq!(phase_label(30_000), MoonPhase::WaxingCrescent);
    assert_eq!(phase_label(249_999), MoonPhase::WaxingCrescent);
    assert_eq!(phase_label(250_000), MoonPhase::FirstQuarter);
    assert_eq!(phase_label(269_999), MoonPhase::FirstQuarter);
    assert_eq!(phase_label(270_000), MoonPhase::WaxingGibbous);
    assert_eq!(phase_label(499_999), MoonPhase::WaxingGibbous);
    assert_eq!(phase_label(500_000), MoonPhase::Full);
    assert_eq!(phase_label(529_999), MoonPhase::Full);
    assert_eq!(phase_label(530_000), MoonPhase::WaningGibbous);
    assert_eq!(phase_label(749_999), MoonPhase::WaningGibbous);
    assert_eq!(phase_label(750_000), MoonPhase::LastQuarter);
    assert_eq!(phase_label(769_999), MoonPhase::LastQuarter);
    assert_eq!(phase_label(770_000), MoonPhase::WaningCrescent);
    assert_eq!(phase_label(999_999), MoonPhase::WaningCrescent);
}

#[test]
fn phase_label_names() {
    assert_eq!(MoonPhase::New.as_str(), "New Moon");
    assert_eq!(MoonPhase::WaxingCrescent.as_str(), "Waxing Crescent");
    assert_eq!(MoonPhase::FirstQuarter.as_str(), "First Quarter");
    assert_eq!(MoonPhase::WaxingGibbous.as_str(), "Waxing Gibbous");
    assert_eq!(MoonPhase::Full.as_str(), "Full Moon");
    assert_eq!(MoonPhase::WaningGibbous.as_str(), "Waning Gibbous");
    assert_eq!(MoonPhase::LastQuarter.as_str(), "Last Quarter");
    assert_eq!(MoonPhase::WaningCrescent.as_str(), "Waning Crescent");
}

#[test]
fn moon_position_against_reference_formula() {
    // Compare the fixed-point evaluation with a floating-point evaluation of
    // the same mean-angle formulas.
    let t = Timestamp::new(2000, 1, 6, 0, 0, 0, 0).unwrap();
    let jd = calculate_julian_day(&t);
    let n_millidays = days_since_epoch_millis(jd);
    let (lon, lat) = moon_position(n_millidays);
    let n = n_millidays as f64 / 1000.0;
    let mean_longitude = 218.316 + 13.176396 * n;
    let mean_anomaly = 134.963 + 13.064993 * n;
    let latitude_arg = 93.272 + 13.229350 * n;
    let expected_lon = mean_longitude + 6.289 * mean_anomaly.to_radians().sin();
    let expected_lat = 5.128 * latitude_arg.to_radians().sin();
    assert!((lon as f64 / 1.0e6 - expected_lon).abs() < 0.2);
    assert!((lat as f64 / 1.0e6 - expected_lat).abs() < 0.05);
}

#[test]
fn moon_position_at_epoch() {
    // At a day count of zero the mean angles are the epoch constants:
    // longitude 218.316 + 6.289 * sin(134.963 deg) ~= 222.7659 deg and
    // latitude 5.128 * sin(93.272 deg) ~= 5.1196 deg, each within 1e-3 deg.
    let (lon, lat) = moon_position(0);
    assert!(
        (lon as f64 / 1.0e6 - 222.7659).abs() <= 1.0e-3,
        "epoch longitude {lon} off"
    );
    assert!(
        (lat as f64 / 1.0e6 - 5.1196).abs() <= 1.0e-3,
        "epoch latitude {lat} off"
    );
}

#[test]
fn moon_latitude_stays_bounded() {
    for &n in &[0i64, 1_000_000, 730_536_000, -730_536_000, 299_999_999_999] {
        let (_, lat) = moon_position(n);
        assert!(-5_128_000 <= lat && lat <= 5_128_000);
    }
}

#[test]
fn next_full_moon_ahead_of_midpoint() {
    // Five days past the new moon the full moon is about 9.77 days ahead;
    // the whole-day offset is 9.
    let jd = REF_NEW_MOON_MICROS + 5 * MICROS_PER_DAY;
    assert!(moon_phase(jd) < 500_000);
    assert_eq!(next_full_moon(jd), 9);
}

#[test]
fn next_full_moon_behind_midpoint() {
    // Twenty days past the new moon the phase is past one half: the signed
    // offset is negative, counting days since the last full moon.
    let jd = REF_NEW_MOON_MICROS + 20 * MICROS_PER_DAY;
    assert!(moon_phase(jd) > 500_000);
    let d = next_full_moon(jd);
    assert!(d < 0, "offset {d} should be negative past the midpoint");
    assert_eq!(d, -6);
}

#[test]
fn next_full_moon_at_full_moon() {
    let jd = REF_NEW_MOON_MICROS + SYNODIC_MONTH_MICROS / 2;
    assert_eq!(next_full_moon(jd), 0);
}

#[test]
fn lunar_state_matches_parts() {
    let t = Timestamp::new(2024, 6, 20, 15, 0, 0, 0).unwrap();
    let jd = calculate_julian_day(&t);
    let s = lunar_state(jd);
    let n = days_since_epoch_millis(jd);
    let (lon, lat) = moon_position(n);
    let p = moon_phase(jd);
    assert_eq!(s.longitude, lon);
    assert_eq!(s.latitude, lat);
    assert_eq!(s.phase_ppm, p);
    assert_eq!(s.illumination_micropercent, illumination(p));
    assert_eq!(s.label, phase_label(p));
}

#[test]
fn lunar_functions_deterministic() {
    let jd = REF_NEW_MOON_MICROS + 11 * MICROS_PER_DAY;
    assert_eq!(moon_phase(jd), moon_phase(jd));
    assert_eq!(moon_position(730_536_000), moon_position(730_536_000));
    assert_eq!(next_full_moon(jd), next_full_moon(jd));
    assert_eq!(lunar_state(jd), lunar_state(jd));
}
