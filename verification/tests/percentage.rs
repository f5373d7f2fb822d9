use coverage_badge::color::coverage_color;
use coverage_badge::percentage::{format_percentage, Percentage};

#[test]
fn test_format_whole_number() {
    assert_eq!(format_percentage(&Percentage::from_whole(85)), "85%");
    assert_eq!(format_percentage(&Percentage::from_whole(0)), "0%");
    assert_eq!(format_percentage(&Percentage::from_whole(100)), "100%");
}

#[test]
fn test_format_decimal() {
    assert_eq!(format_percentage(&Percentage::from_tenths(855)), "85.5%");
    assert_eq!(format_percentage(&Percentage::from_tenths(5)), "0.5%");
}

#[test]
fn test_format_decimal_keeps_zero_tenth() {
    // A value that rounds to a whole number of percent but was not whole
    // keeps its single decimal digit.
    assert_eq!(format_percentage(&Percentage::from_tenths(850)), "85.0%");
}

#[test]
fn test_format_negative() {
    assert_eq!(format_percentage(&Percentage::from_whole(-12)), "-12%");
    assert_eq!(format_percentage(&Percentage::from_tenths(-855)), "-85.5%");
}

#[test]
fn test_format_extreme_tenths() {
    assert_eq!(
        format_percentage(&Percentage::from_tenths(i64::MIN)),
        "-922337203685477580.8%"
    );
    assert_eq!(
        format_percentage(&Percentage::from_tenths(i64::MAX)),
        "922337203685477580.7%"
    );
}

#[test]
fn test_color_thresholds() {
    assert_eq!(coverage_color(&Percentage::from_whole(100)), "#4c1");
    assert_eq!(coverage_color(&Percentage::from_whole(85)), "#4c1");
    assert_eq!(coverage_color(&Percentage::from_tenths(849)), "#97ca00");
    assert_eq!(coverage_color(&Percentage::from_whole(70)), "#97ca00");
    assert_eq!(coverage_color(&Percentage::from_tenths(699)), "#dfb317");
    assert_eq!(coverage_color(&Percentage::from_whole(55)), "#dfb317");
    assert_eq!(coverage_color(&Percentage::from_tenths(549)), "#fe7d37");
    assert_eq!(coverage_color(&Percentage::from_whole(40)), "#fe7d37");
    assert_eq!(coverage_color(&Percentage::from_tenths(399)), "#e05d44");
    assert_eq!(coverage_color(&Percentage::from_whole(30)), "#e05d44");
    assert_eq!(coverage_color(&Percentage::from_whole(0)), "#e05d44");
    assert_eq!(coverage_color(&Percentage::from_whole(-5)), "#e05d44");
}
