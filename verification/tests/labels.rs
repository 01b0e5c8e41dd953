use runarium::utils::labels::{distance_text, heart_rate_text, pace_text, stride_text};

#[test]
fn pace_caption() {
    assert_eq!(pace_text("5:30"), "Pace: 5:30 min/km");
    assert_eq!(pace_text(""), "Pace:  min/km");
}

#[test]
fn distance_caption_has_two_places() {
    assert_eq!(distance_text(0), "Dist: 0.00 km");
    assert_eq!(distance_text(12_345_000), "Dist: 12.35 km");
    assert_eq!(distance_text(1_000_000), "Dist: 1.00 km");
    assert_eq!(distance_text(1_050_000), "Dist: 1.05 km");
    assert_eq!(distance_text(42_195_000), "Dist: 42.20 km");
    assert_eq!(distance_text(999_994_999), "Dist: 999.99 km");
    assert_eq!(distance_text(999_995_000), "Dist: 1000.00 km");
}

#[test]
fn distance_caption_rounds_halves_up() {
    assert_eq!(distance_text(4_999), "Dist: 0.00 km");
    assert_eq!(distance_text(5_000), "Dist: 0.01 km");
    assert_eq!(distance_text(5_004_999), "Dist: 5.00 km");
    assert_eq!(distance_text(5_005_000), "Dist: 5.01 km");
    assert_eq!(distance_text(-5_005_000), "Dist: -5.01 km");
    assert_eq!(distance_text(-1), "Dist: -0.00 km");
    assert_eq!(distance_text(i64::MAX), "Dist: 9223372036854.78 km");
    assert_eq!(distance_text(i64::MIN), "Dist: -9223372036854.78 km");
}

#[test]
fn heart_rate_caption() {
    assert_eq!(heart_rate_text(0), "0");
    assert_eq!(heart_rate_text(98), "98");
    assert_eq!(heart_rate_text(255), "255");
}

#[test]
fn stride_caption_has_the_places_it_needs() {
    assert_eq!(stride_text(1_050_000), "105");
    assert_eq!(stride_text(1_052_000), "105.2");
    assert_eq!(stride_text(1_052_300), "105.23");
    assert_eq!(stride_text(1_052_340), "105.234");
    assert_eq!(stride_text(1_052_345), "105.2345");
    assert_eq!(stride_text(1_050_005), "105.0005");
    assert_eq!(stride_text(1_050_300), "105.03");
    assert_eq!(stride_text(0), "0");
    assert_eq!(stride_text(5), "0.0005");
    assert_eq!(stride_text(10_000), "1");
    assert_eq!(stride_text(-1_052_300), "-105.23");
    assert_eq!(stride_text(i64::MIN), "-922337203685477.5808");
}
