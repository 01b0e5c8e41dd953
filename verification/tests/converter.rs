use runarium::utils::converter::{
    convert_pace_to_sec, count_digits_iterative, get_bounds, pace_percentage,
    semicircles_to_degrees, speed_to_pace, string_space, DEGREE,
};

/// One degree in the unit of coordinates, the semicircle, to the nearest.
const DEG: i32 = 11_930_465;

#[test]
fn test_speed_to_pace_valid() {
    // 3.33 m/s is about 5:00 min/km
    assert_eq!(speed_to_pace(3330), "5:00");

    // 2.77 m/s is about 6:00 min/km
    assert_eq!(speed_to_pace(2770), "6:01");

    // 5.0 m/s is 3:20 min/km
    assert_eq!(speed_to_pace(5000), "3:20");
}

#[test]
fn test_speed_to_pace_zero_and_negative() {
    assert_eq!(speed_to_pace(0), "0:00");
    assert_eq!(speed_to_pace(-1000), "0:00");
}

#[test]
fn test_semicircles_to_degrees() {
    // 0 semicircles = 0 degrees
    assert_eq!(semicircles_to_degrees(0), 0);

    // i32::MAX semicircles is just below 180 degrees
    let max_degrees: i64 = semicircles_to_degrees(i32::MAX);
    assert!(10 * max_degrees > 1799 * DEGREE && max_degrees < 180 * DEGREE);

    // Half of i32::MAX is just below 90 degrees
    let half_max: i64 = semicircles_to_degrees(i32::MAX / 2);
    assert!(10 * half_max > 899 * DEGREE && half_max < 90 * DEGREE);

    // Negative values
    let neg_degrees: i64 = semicircles_to_degrees(-i32::MAX);
    assert!(10 * neg_degrees < -1799 * DEGREE && neg_degrees > -180 * DEGREE);
}

#[test]
fn test_get_bounds() {
    let points = vec![
        (10 * DEG, 20 * DEG),
        (5 * DEG, 25 * DEG),
        (15 * DEG, 15 * DEG),
        (8 * DEG, 30 * DEG),
    ];

    let ((lat_min, lat_max), (lon_min, lon_max)) = get_bounds(&points).unwrap();

    assert_eq!(lat_min, 5 * DEG);
    assert_eq!(lat_max, 15 * DEG);
    assert_eq!(lon_min, 15 * DEG);
    assert_eq!(lon_max, 30 * DEG);
}

#[test]
fn test_get_bounds_single_point() {
    let points = vec![(10 * DEG, 20 * DEG)];
    let ((lat_min, lat_max), (lon_min, lon_max)) = get_bounds(&points).unwrap();

    assert_eq!(lat_min, 10 * DEG);
    assert_eq!(lat_max, 10 * DEG);
    assert_eq!(lon_min, 20 * DEG);
    assert_eq!(lon_max, 20 * DEG);
}

#[test]
fn test_string_space() {
    // size=100 (3 digits): padding = 3 - digits(index) + 3
    assert_eq!(string_space(100, 1, "5:00"), "1     5:00");
    assert_eq!(string_space(100, 10, "5:30"), "10    5:30");
    assert_eq!(string_space(100, 100, "6:00"), "100   6:00");

    // size=10 (2 digits)
    assert_eq!(string_space(10, 1, "4:30"), "1    4:30");
    assert_eq!(string_space(10, 5, "5:00"), "5    5:00");
}

#[test]
fn test_convert_pace_to_sec() {
    assert_eq!(convert_pace_to_sec("5:00"), 300);
    assert_eq!(convert_pace_to_sec("6:30"), 390);
    assert_eq!(convert_pace_to_sec("3:20"), 200);
    assert_eq!(convert_pace_to_sec("0:45"), 45);
}

#[test]
fn test_count_digits_iterative() {
    assert_eq!(count_digits_iterative(0), 1);
    assert_eq!(count_digits_iterative(1), 1);
    assert_eq!(count_digits_iterative(9), 1);
    assert_eq!(count_digits_iterative(10), 2);
    assert_eq!(count_digits_iterative(99), 2);
    assert_eq!(count_digits_iterative(100), 3);
    assert_eq!(count_digits_iterative(999), 3);
    assert_eq!(count_digits_iterative(1000), 4);
}

#[test]
fn test_pace_percentage() {
    assert_eq!(pace_percentage(50, 100), Some(500_000));
    assert_eq!(pace_percentage(25, 100), Some(250_000));
    assert_eq!(pace_percentage(100, 100), Some(1_000_000));
    assert_eq!(pace_percentage(75, 50), Some(1_500_000));
}

#[test]
fn test_pace_percentage_zero() {
    assert_eq!(pace_percentage(0, 100), Some(0));
    // Division by zero has no finite value
    assert!(pace_percentage(100, 0).is_none());
}
