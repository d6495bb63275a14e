use battery_report::error::BatteryError;
use battery_report::text::{parse_u8, starts_with, trim_str, u8_to_string};

#[test]
fn parses_levels_in_range() {
    assert_eq!(parse_u8("0"), Ok(0));
    assert_eq!(parse_u8("42"), Ok(42));
    assert_eq!(parse_u8("255"), Ok(255));
    assert_eq!(parse_u8("+17"), Ok(17));
    assert_eq!(parse_u8("0007"), Ok(7));
}

#[test]
fn rejects_levels_out_of_range_or_malformed() {
    assert_eq!(parse_u8("256"), Err(BatteryError::BadLevel("256".to_string())));
    assert_eq!(
        parse_u8("999999999999"),
        Err(BatteryError::BadLevel("999999999999".to_string()))
    );
    assert_eq!(parse_u8(""), Err(BatteryError::BadLevel("".to_string())));
    assert_eq!(parse_u8("+"), Err(BatteryError::BadLevel("+".to_string())));
    assert_eq!(parse_u8("abc"), Err(BatteryError::BadLevel("abc".to_string())));
    assert_eq!(parse_u8("12a"), Err(BatteryError::BadLevel("12a".to_string())));
    assert_eq!(parse_u8("-1"), Err(BatteryError::BadLevel("-1".to_string())));
    assert_eq!(parse_u8("4 2"), Err(BatteryError::BadLevel("4 2".to_string())));
}

#[test]
fn renders_levels_in_decimal() {
    assert_eq!(u8_to_string(0), "0");
    assert_eq!(u8_to_string(9), "9");
    assert_eq!(u8_to_string(10), "10");
    assert_eq!(u8_to_string(42), "42");
    assert_eq!(u8_to_string(99), "99");
    assert_eq!(u8_to_string(100), "100");
    assert_eq!(u8_to_string(255), "255");
}

#[test]
fn trims_surrounding_whitespace() {
    assert_eq!(trim_str("  50\t"), "50");
    assert_eq!(trim_str("50"), "50");
    assert_eq!(trim_str("  \t "), "");
    assert_eq!(trim_str(""), "");
    assert_eq!(trim_str("a b"), "a b");
    assert_eq!(trim_str("\u{00A0}x\u{2003}"), "x");
}

#[test]
fn prefix_test() {
    assert!(starts_with("/dev/ttyACM0", "/dev/tty"));
    assert!(!starts_with("/dev/cu.usb", "/dev/tty"));
    assert!(!starts_with("/dev", "/dev/tty"));
    assert!(starts_with("anything", ""));
}
