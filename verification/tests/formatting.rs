use rustcharts::summary::{
    dec_str, format_with_commas, dollar_label, percent_str, percent_from_high_bp, round_units,
    round_price_label,
};

#[test]
fn decimal_digits() {
    assert_eq!(dec_str(0), "0");
    assert_eq!(dec_str(7), "7");
    assert_eq!(dec_str(105), "105");
}

#[test]
fn commas_group_from_the_right() {
    assert_eq!(format_with_commas(0), "0");
    assert_eq!(format_with_commas(999), "999");
    assert_eq!(format_with_commas(1000), "1,000");
    assert_eq!(format_with_commas(1234567), "1,234,567");
    assert_eq!(format_with_commas(1000000), "1,000,000");
}

#[test]
fn dollar_labels() {
    assert_eq!(dollar_label(52000), "$52,000");
    assert_eq!(dollar_label(0), "$0");
}

#[test]
fn percent_formatting() {
    assert_eq!(percent_str(2000), "20.00%");
    assert_eq!(percent_str(-5), "-0.05%");
    assert_eq!(percent_str(12345), "123.45%");
    assert_eq!(percent_str(0), "0.00%");
}

#[test]
fn percent_from_high_values() {
    assert_eq!(percent_from_high_bp(50, 50), 0);
    assert_eq!(percent_from_high_bp(40, 50), 2000);
    assert_eq!(percent_from_high_bp(60, 50), -2000);
    // the divide-by-zero guard
    assert_eq!(percent_from_high_bp(5, 0), 0);
}

#[test]
fn rounding_to_whole_units() {
    assert_eq!(round_units(1_499_999), 1);
    assert_eq!(round_units(1_500_000), 2);
    assert_eq!(round_units(0), 0);
    assert_eq!(round_units(52_000_000_000), 52_000);
}

#[test]
fn axis_label_rounding_by_magnitude() {
    assert_eq!(round_price_label(123_456), 123_500);
    assert_eq!(round_price_label(12_345), 12_300);
    assert_eq!(round_price_label(1_234), 1_250);
    assert_eq!(round_price_label(123), 120);
}
