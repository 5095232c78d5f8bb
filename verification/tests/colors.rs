use rustcharts::color::{pick_from_hex, black, mid_gray, Rgb};

#[test]
fn parses_well_formed_hex() {
    assert_eq!(pick_from_hex("#1A2B3C", black()), Rgb { r: 26, g: 43, b: 60 });
}

#[test]
fn parses_hex_without_hash() {
    assert_eq!(pick_from_hex("1A2B3C", black()), Rgb { r: 26, g: 43, b: 60 });
}

#[test]
fn parses_lower_case_hex() {
    assert_eq!(pick_from_hex("#ab12cd", black()), Rgb { r: 171, g: 18, b: 205 });
}

#[test]
fn parses_extreme_hex_values() {
    assert_eq!(pick_from_hex("#000000", mid_gray()), Rgb { r: 0, g: 0, b: 0 });
    assert_eq!(pick_from_hex("#FFFFFF", black()), Rgb { r: 255, g: 255, b: 255 });
}

#[test]
fn wrong_length_falls_back_to_default() {
    assert_eq!(pick_from_hex("#1A2B3", black()), black());
    assert_eq!(pick_from_hex("#1A2B3C4", mid_gray()), mid_gray());
    assert_eq!(pick_from_hex("", black()), black());
    assert_eq!(pick_from_hex("#", black()), black());
}

#[test]
fn non_hex_character_falls_back_to_default() {
    assert_eq!(pick_from_hex("#1A2B3G", black()), black());
    assert_eq!(pick_from_hex("#zzzzzz", mid_gray()), mid_gray());
}

#[test]
fn every_leading_hash_is_stripped() {
    assert_eq!(pick_from_hex("##1A2B3C", black()), Rgb { r: 26, g: 43, b: 60 });
    assert_eq!(pick_from_hex("####FFFFFF", black()), Rgb { r: 255, g: 255, b: 255 });
    // prefixing another '#' never changes the parsed color
    assert_eq!(
        pick_from_hex("##1A2B3C", black()),
        pick_from_hex("#1A2B3C", black())
    );
    // a string of hashes alone is still malformed
    assert_eq!(pick_from_hex("######", mid_gray()), mid_gray());
}
