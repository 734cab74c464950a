use ephemeris::angle::{cosine_ppm, normalize_degrees, normalize_signed_degrees, sine_ppm};

#[test]
fn normalization_into_full_turn() {
    assert_eq!(normalize_degrees(370_000_000), 10_000_000);
    assert_eq!(normalize_degrees(-10_000_000), 350_000_000);
    assert_eq!(normalize_degrees(720_000_000), 0);
    assert_eq!(normalize_degrees(-720_000_000), 0);
    assert_eq!(normalize_degrees(123_456), 123_456);
    assert_eq!(normalize_degrees(36_000_000_000_000 + 5), 5);
}

#[test]
fn normalization_into_signed_half_turn() {
    assert_eq!(normalize_signed_degrees(190_000_000), -170_000_000);
    assert_eq!(normalize_signed_degrees(-190_000_000), 170_000_000);
    assert_eq!(normalize_signed_degrees(180_000_000), -180_000_000);
    assert_eq!(normalize_signed_degrees(-180_000_000), -180_000_000);
    assert_eq!(normalize_signed_degrees(45_000_000), 45_000_000);
}

#[test]
fn sine_exact_at_quarter_turns() {
    assert_eq!(sine_ppm(0), 0);
    assert_eq!(sine_ppm(90_000_000), 1_000_000);
    assert_eq!(sine_ppm(180_000_000), 0);
    assert_eq!(sine_ppm(270_000_000), -1_000_000);
    assert_eq!(sine_ppm(360_000_000), 0);
    assert_eq!(cosine_ppm(0), 1_000_000);
    assert_eq!(cosine_ppm(180_000_000), -1_000_000);
    assert_eq!(cosine_ppm(90_000_000), 0);
}

#[test]
fn sine_close_to_reference() {
    // The ninth-order series on the millidegree grid stays within 1e-4 of
    // the true sine over the whole circle, including angles far outside one
    // turn (the observed worst case is below 2e-5).
    let mut angle: i64 = -800_000_000;
    while angle <= 800_000_000 {
        let approx = sine_ppm(angle) as f64 / 1.0e6;
        let exact = (angle as f64 / 1.0e6).to_radians().sin();
        assert!(
            (approx - exact).abs() < 1.0e-4,
            "sine off by {} at {angle}",
            (approx - exact).abs()
        );
        angle += 1_234_567;
    }
}

#[test]
fn sine_odd_symmetry_within_turn() {
    for &a in &[10_000_000i64, 45_000_000, 77_000_000, 120_000_000, 179_000_000] {
        assert_eq!(sine_ppm(a), -sine_ppm(a + 180_000_000));
    }
}
