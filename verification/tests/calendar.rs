use ephemeris::error::EphemerisError;
use ephemeris::timestamp::{
    calculate_julian_day, days_since_epoch_millis, is_leap_year, Timestamp, EPOCH_OFFSET_MICROS,
    MICROS_PER_DAY,
};

fn ts(year: u16, month: u8, day: u8, hour: u8, minute: u8, second: u8, ms: u16) -> Timestamp {
    Timestamp::new(year, month, day, hour, minute, second, ms).unwrap()
}

#[test]
fn julian_day_reference_epoch() {
    // 2000-01-01T12:00:00 UTC is the canonical anchor JD 2451545.0.
    let jd = calculate_julian_day(&ts(2000, 1, 1, 12, 0, 0, 0));
    assert_eq!(jd, 211_813_488_000_000_000);
    assert_eq!(jd as f64 / MICROS_PER_DAY as f64, 2451545.0);
}

#[test]
fn julian_day_new_moon_day() {
    // Midnight before the reference new moon: JD 2451549.5.
    let jd = calculate_julian_day(&ts(2000, 1, 6, 0, 0, 0, 0));
    assert_eq!(jd as f64 / MICROS_PER_DAY as f64, 2451549.5);
}

#[test]
fn julian_day_time_of_day_fraction() {
    let midnight = calculate_julian_day(&ts(2024, 3, 1, 0, 0, 0, 0));
    let noon = calculate_julian_day(&ts(2024, 3, 1, 12, 0, 0, 0));
    assert_eq!(noon - midnight, MICROS_PER_DAY / 2);
    let with_ms = calculate_julian_day(&ts(2024, 3, 1, 0, 0, 0, 250));
    assert_eq!(with_ms - midnight, 250_000);
}

#[test]
fn julian_day_monotonic_over_boundaries() {
    let samples = [
        ts(1899, 12, 31, 23, 59, 59, 999),
        ts(1900, 1, 1, 0, 0, 0, 0),
        ts(1900, 2, 28, 12, 0, 0, 0),
        ts(1900, 3, 1, 0, 0, 0, 0),
        ts(1999, 12, 31, 23, 59, 59, 999),
        ts(2000, 1, 1, 0, 0, 0, 0),
        ts(2000, 2, 28, 23, 59, 59, 999),
        ts(2000, 2, 29, 0, 0, 0, 0),
        ts(2000, 3, 1, 0, 0, 0, 0),
        ts(2024, 2, 29, 23, 59, 59, 999),
        ts(2024, 3, 1, 0, 0, 0, 0),
        ts(2024, 3, 1, 0, 0, 1, 0),
        ts(9999, 12, 31, 23, 59, 59, 999),
    ];
    let mut previous = calculate_julian_day(&samples[0]);
    for sample in &samples[1..] {
        let jd = calculate_julian_day(sample);
        assert!(jd > previous, "julian day went backward");
        previous = jd;
    }
}

#[test]
fn timestamp_validation() {
    assert_eq!(
        Timestamp::new(2024, 13, 1, 0, 0, 0, 0),
        Err(EphemerisError::InvalidTimestamp)
    );
    assert_eq!(
        Timestamp::new(2024, 0, 1, 0, 0, 0, 0),
        Err(EphemerisError::InvalidTimestamp)
    );
    assert_eq!(
        Timestamp::new(2024, 2, 30, 0, 0, 0, 0),
        Err(EphemerisError::InvalidTimestamp)
    );
    assert_eq!(
        Timestamp::new(2023, 2, 29, 0, 0, 0, 0),
        Err(EphemerisError::InvalidTimestamp)
    );
    assert!(Timestamp::new(2024, 2, 29, 0, 0, 0, 0).is_ok());
    assert!(Timestamp::new(2000, 2, 29, 0, 0, 0, 0).is_ok());
    assert_eq!(
        Timestamp::new(1900, 2, 29, 0, 0, 0, 0),
        Err(EphemerisError::InvalidTimestamp)
    );
    assert_eq!(
        Timestamp::new(2024, 6, 1, 24, 0, 0, 0),
        Err(EphemerisError::InvalidTimestamp)
    );
    assert_eq!(
        Timestamp::new(2024, 6, 1, 0, 60, 0, 0),
        Err(EphemerisError::InvalidTimestamp)
    );
    assert_eq!(
        Timestamp::new(2024, 6, 1, 0, 0, 60, 0),
        Err(EphemerisError::InvalidTimestamp)
    );
    assert_eq!(
        Timestamp::new(2024, 6, 1, 0, 0, 0, 1000),
        Err(EphemerisError::InvalidTimestamp)
    );
    assert_eq!(
        Timestamp::new(0, 1, 1, 0, 0, 0, 0),
        Err(EphemerisError::InvalidTimestamp)
    );
    assert_eq!(EphemerisError::InvalidTimestamp.as_str(), "invalid timestamp");
}

#[test]
fn leap_year_rule() {
    assert!(is_leap_year(2000));
    assert!(is_leap_year(2024));
    assert!(!is_leap_year(1900));
    assert!(!is_leap_year(2023));
    assert!(is_leap_year(2400));
    assert!(!is_leap_year(2100));
}

#[test]
fn day_of_year_ordinals() {
    assert_eq!(ts(2000, 1, 1, 0, 0, 0, 0).day_of_year(), 1);
    assert_eq!(ts(2000, 12, 31, 0, 0, 0, 0).day_of_year(), 366);
    assert_eq!(ts(2023, 12, 31, 0, 0, 0, 0).day_of_year(), 365);
    assert_eq!(ts(2023, 3, 1, 0, 0, 0, 0).day_of_year(), 60);
    assert_eq!(ts(2024, 3, 1, 0, 0, 0, 0).day_of_year(), 61);
    // June 20 of a leap year is day 172, near the June solstice.
    assert_eq!(ts(2024, 6, 20, 0, 0, 0, 0).day_of_year(), 172);
}

#[test]
fn time_of_day_micros_exact() {
    let t = ts(2024, 1, 1, 12, 34, 56, 789);
    let expected = 12i64 * 3_600_000_000 + 34 * 60_000_000 + 56 * 1_000_000 + 789_000;
    assert_eq!(t.time_of_day_micros(), expected);
}

#[test]
fn days_since_epoch_at_anchor() {
    // JD 2451545.0 is 730531.5 days past the civil epoch offset 1721013.5.
    let jd = calculate_julian_day(&ts(2000, 1, 1, 12, 0, 0, 0));
    assert_eq!(days_since_epoch_millis(jd), 730_531_500);
    assert_eq!(days_since_epoch_millis(EPOCH_OFFSET_MICROS), 0);
}

#[test]
fn julian_day_deterministic() {
    let a = ts(2024, 7, 15, 6, 30, 0, 0);
    assert_eq!(calculate_julian_day(&a), calculate_julian_day(&a));
}
