use ephemeris::coord::{parse_decimal_micro, GeoCoordinate};
use ephemeris::error::EphemerisError;

#[test]
fn parse_plain_integers() {
    assert_eq!(parse_decimal_micro(b"52"), Ok(52_000_000));
    assert_eq!(parse_decimal_micro(b"0"), Ok(0));
    assert_eq!(parse_decimal_micro(b"-7"), Ok(-7_000_000));
    assert_eq!(parse_decimal_micro(b"+3"), Ok(3_000_000));
    assert_eq!(parse_decimal_micro(b"999999999"), Ok(999_999_999_000_000));
}

#[test]
fn parse_fractions() {
    assert_eq!(parse_decimal_micro(b"52.2297"), Ok(52_229_700));
    assert_eq!(parse_decimal_micro(b"-21.01"), Ok(-21_010_000));
    assert_eq!(parse_decimal_micro(b"+0.5"), Ok(500_000));
    assert_eq!(parse_decimal_micro(b"0.000001"), Ok(1));
    assert_eq!(parse_decimal_micro(b"-0.000001"), Ok(-1));
    assert_eq!(parse_decimal_micro(b"180.000000"), Ok(180_000_000));
}

#[test]
fn parse_truncates_extra_fraction_digits() {
    assert_eq!(parse_decimal_micro(b"12.3456789"), Ok(12_345_678));
    assert_eq!(parse_decimal_micro(b"0.99999999999"), Ok(999_999));
}

#[test]
fn parse_rejects_bad_strings() {
    let bad: [&[u8]; 14] = [
        b"", b"+", b"-", b".", b"5.", b".5", b"1.2.3", b"12a", b"1e5", b" 1", b"1 ", b"--1",
        b"1234567890", b"12.",
    ];
    for s in bad {
        assert_eq!(
            parse_decimal_micro(s),
            Err(EphemerisError::InvalidCoordinate),
            "accepted {:?}",
            s
        );
    }
}

#[test]
fn coordinate_ranges() {
    assert!(GeoCoordinate::new(90_000_000, 180_000_000).is_ok());
    assert!(GeoCoordinate::new(-90_000_000, -180_000_000).is_ok());
    assert_eq!(
        GeoCoordinate::new(90_000_001, 0),
        Err(EphemerisError::InvalidCoordinate)
    );
    assert_eq!(
        GeoCoordinate::new(0, -180_000_001),
        Err(EphemerisError::InvalidCoordinate)
    );
    assert_eq!(EphemerisError::InvalidCoordinate.as_str(), "invalid coordinate");
}

#[test]
fn coordinates_from_strings() {
    let c = GeoCoordinate::from_strings("52.2297", "21.0122").unwrap();
    assert_eq!(c.latitude_microdeg, 52_229_700);
    assert_eq!(c.longitude_microdeg, 21_012_200);
    let d = GeoCoordinate::from_strings("-33.8688", "151.2093").unwrap();
    assert_eq!(d.latitude_microdeg, -33_868_800);
    assert_eq!(d.longitude_microdeg, 151_209_300);
    assert_eq!(
        GeoCoordinate::from_strings("91", "0"),
        Err(EphemerisError::InvalidCoordinate)
    );
    assert_eq!(
        GeoCoordinate::from_strings("0", "180.5"),
        Err(EphemerisError::InvalidCoordinate)
    );
    assert_eq!(
        GeoCoordinate::from_strings("abc", "0"),
        Err(EphemerisError::InvalidCoordinate)
    );
}
