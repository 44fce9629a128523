use defren::color::{from_hex, parse_hex_color, Rgb8};

#[test]
fn parses_cornflower_sky_color() {
    let c = parse_hex_color("#6495ED").unwrap();
    assert_eq!(c, Rgb8 { r: 0x64, g: 0x95, b: 0xed });
    assert_eq!(c.r, 100);
    assert_eq!(c.g, 149);
    assert_eq!(c.b, 237);
}

#[test]
fn parses_lowercase_digits() {
    let c = parse_hex_color("#a0b1c2").unwrap();
    assert_eq!(c, Rgb8 { r: 0xa0, g: 0xb1, b: 0xc2 });
}

#[test]
fn parses_black_and_white() {
    assert_eq!(parse_hex_color("#000000").unwrap(), Rgb8 { r: 0, g: 0, b: 0 });
    assert_eq!(parse_hex_color("#FFFFFF").unwrap(), Rgb8 { r: 255, g: 255, b: 255 });
}

#[test]
fn rejects_missing_hash() {
    assert!(parse_hex_color("6495ED0").is_none());
}

#[test]
fn rejects_wrong_length() {
    assert!(parse_hex_color("#6495E").is_none());
    assert!(parse_hex_color("#6495EDA").is_none());
    assert!(parse_hex_color("").is_none());
}

#[test]
fn rejects_non_hex_digit() {
    assert!(parse_hex_color("#64Z5ED").is_none());
    assert!(parse_hex_color("#-495ED").is_none());
}

#[test]
fn from_hex_matches_parse() {
    let c = from_hex("#6495ED");
    assert_eq!(c, parse_hex_color("#6495ED").unwrap());
}
