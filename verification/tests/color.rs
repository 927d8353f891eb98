use std::str::FromStr;

use lomen::color::{Color, ColorParseError, ZoneColors};

#[test]
fn test_color_fmt() {
    assert_eq!(Color::new(0xAA, 0xBB, 0xCC).to_hex_string(), "#AABBCC");
}

#[test]
fn test_zone_colors_fmt() {
    let z = ZoneColors {
        right: Color::from_str("#AA0000").ok(),
        center: Color::from_str("#BB0000").ok(),
        left: Color::from_str("#CC0000").ok(),
        game: Color::from_str("#DD0000").ok(),
    };
    assert_eq!(
        z.to_display_string(),
        "R: #AA0000, C: #BB0000, L: #CC0000, G: #DD0000"
    );
}

#[test]
fn test_into() {
    let c: u64 = Color::new(0xAA, 0xBB, 0xCC).into();
    assert_eq!(c, 0x00AABBCC);
}

#[test]
fn test_from() {
    let c: Color = Color::from(0x00AABBCC);
    assert_eq!(c, Color::new(0xAA, 0xBB, 0xCC));
}

#[test]
fn test_from_str() {
    assert_eq!(
        Color::new(0xAA, 0xBB, 0xCC),
        Color::from_str("#AABBCC").unwrap()
    );
    assert_eq!(
        Color::new(0xAA, 0xBB, 0xCC),
        Color::from_str("AABBCC").unwrap()
    );
}

#[test]
fn color_test_color_fmt() {
    assert_eq!(Color::new(0xAA, 0xBB, 0xCC).to_hex_string(), "#AABBCC");
}

#[test]
fn color_test_zone_colors_fmt() {
    let z = ZoneColors {
        right: Some(Color::from(0xAA0000)),
        center: Some(Color::from(0xBB0000)),
        left: Some(Color::from(0xCC0000)),
        game: Some(Color::from(0xDD0000)),
    };
    assert_eq!(
        z.to_display_string(),
        "R: #AA0000, C: #BB0000, L: #CC0000, G: #DD0000"
    );
}

#[test]
fn test_parse_is_case_insensitive() {
    assert_eq!(Color::parse("#a1b2c3").unwrap(), Color::new(0xA1, 0xB2, 0xC3));
    assert_eq!(Color::parse("A1B2c3").unwrap(), Color::new(0xA1, 0xB2, 0xC3));
}

#[test]
fn test_parse_format_round_trip() {
    // Parsing then formatting yields the canonical upper-case form.
    assert_eq!(Color::parse("#a1b2c3").unwrap().to_hex_string(), "#A1B2C3");
    assert_eq!(Color::parse("00ff7f").unwrap().to_hex_string(), "#00FF7F");
    assert_eq!(Color::parse("#ABCDEF").unwrap().to_hex_string(), "#ABCDEF");
}

#[test]
fn test_parse_rejects_wrong_length() {
    assert_eq!(Color::parse(""), Err(ColorParseError::BadLength));
    assert_eq!(Color::parse("#"), Err(ColorParseError::BadLength));
    assert_eq!(Color::parse("12345"), Err(ColorParseError::BadLength));
    assert_eq!(Color::parse("1234567"), Err(ColorParseError::BadLength));
    assert_eq!(Color::parse("#12345"), Err(ColorParseError::BadLength));
    assert_eq!(Color::parse("#1234567"), Err(ColorParseError::BadLength));
}

#[test]
fn test_parse_rejects_bad_digits() {
    assert_eq!(Color::parse("12345G"), Err(ColorParseError::BadDigit));
    assert_eq!(Color::parse("#zzzzzz"), Err(ColorParseError::BadDigit));
    assert_eq!(Color::parse("12 456"), Err(ColorParseError::BadDigit));
}

#[test]
fn test_parse_hash_is_optional_once() {
    // Only one leading `#` is stripped; a second one is a bad digit.
    assert_eq!(Color::parse("##12345"), Err(ColorParseError::BadDigit));
}

#[test]
fn test_default_is_black() {
    assert_eq!(Color::default(), Color::new(0, 0, 0));
    assert_eq!(Color::default().to_hex_string(), "#000000");
}

#[test]
fn test_display_with_absent_zones() {
    let z = ZoneColors {
        right: Some(Color::new(0xFF, 0x00, 0xFF)),
        center: None,
        left: None,
        game: None,
    };
    assert_eq!(
        z.to_display_string(),
        "R: #FF00FF, C: #000000, L: #000000, G: #000000"
    );
}
