use huecycle::parse::{parse_bool_or, parse_u32_or};

#[test]
fn parses_plain_numerals() {
    assert_eq!(parse_u32_or("60", 0), 60);
    assert_eq!(parse_u32_or("7", 0), 7);
    assert_eq!(parse_u32_or("0", 9), 0);
    assert_eq!(parse_u32_or("800", 0), 800);
}

#[test]
fn parses_signed_and_padded_numerals() {
    assert_eq!(parse_u32_or("+5", 0), 5);
    assert_eq!(parse_u32_or("007", 0), 7);
    assert_eq!(parse_u32_or("+007", 0), 7);
}

#[test]
fn parses_limit_values() {
    assert_eq!(parse_u32_or("4294967295", 0), u32::MAX);
    // one past the 32-bit limit falls back
    assert_eq!(parse_u32_or("4294967296", 17), 17);
    assert_eq!(parse_u32_or("99999999999999999999", 17), 17);
}

#[test]
fn malformed_numerals_fall_back() {
    assert_eq!(parse_u32_or("", 60), 60);
    assert_eq!(parse_u32_or("+", 60), 60);
    assert_eq!(parse_u32_or("abc", 60), 60);
    assert_eq!(parse_u32_or("-3", 60), 60);
    assert_eq!(parse_u32_or("6x", 60), 60);
    assert_eq!(parse_u32_or("6 ", 60), 60);
    assert_eq!(parse_u32_or(" 6", 60), 60);
    assert_eq!(parse_u32_or("1.5", 60), 60);
}

#[test]
fn parses_booleans() {
    assert_eq!(parse_bool_or("true", false), true);
    assert_eq!(parse_bool_or("false", true), false);
}

#[test]
fn malformed_booleans_fall_back() {
    assert_eq!(parse_bool_or("", true), true);
    assert_eq!(parse_bool_or("", false), false);
    assert_eq!(parse_bool_or("TRUE", false), false);
    assert_eq!(parse_bool_or("True", false), false);
    assert_eq!(parse_bool_or("1", false), false);
    assert_eq!(parse_bool_or("yes", false), false);
    assert_eq!(parse_bool_or("truex", false), false);
    assert_eq!(parse_bool_or("fals", true), true);
}

#[test]
fn agrees_with_standard_parser() {
    for s in ["60", "+5", "007", "4294967295", "4294967296", "", "+", "abc", "-3", "1.5"] {
        assert_eq!(parse_u32_or(s, 123), s.parse::<u32>().unwrap_or(123));
    }
    for s in ["true", "false", "TRUE", "1", "", "yes"] {
        assert_eq!(parse_bool_or(s, true), s.parse::<bool>().unwrap_or(true));
        assert_eq!(parse_bool_or(s, false), s.parse::<bool>().unwrap_or(false));
    }
}
