use zbd_discord_bot::decimal::{i32_to_string, parse_i32};
use zbd_discord_bot::text::{str_eq, trim_char};

#[test]
fn parse_plain_and_signed_numbers() {
    assert_eq!(parse_i32("42"), Some(42));
    assert_eq!(parse_i32("-42"), Some(-42));
    assert_eq!(parse_i32("+7"), Some(7));
    assert_eq!(parse_i32("007"), Some(7));
    assert_eq!(parse_i32("-0"), Some(0));
}

#[test]
fn parse_rejects_what_str_parse_rejects() {
    for s in ["", "-", "+", "abc", "4 2", " 42", "42 ", "+-1", "--1", "1.5", "١"] {
        assert_eq!(parse_i32(s), None, "{:?}", s);
        assert!(s.parse::<i32>().is_err());
    }
}

#[test]
fn parse_range_edges() {
    assert_eq!(parse_i32("2147483647"), Some(i32::MAX));
    assert_eq!(parse_i32("-2147483648"), Some(i32::MIN));
    assert_eq!(parse_i32("2147483648"), None);
    assert_eq!(parse_i32("-2147483649"), None);
    assert_eq!(parse_i32("99999999999999999999999"), None);
}

#[test]
fn parse_agrees_with_std_on_samples() {
    for s in ["0", "12", "-12", "+12", "2147483647", "-2147483648", "x1", "1x", "0000123"] {
        assert_eq!(parse_i32(s), s.parse::<i32>().ok(), "{:?}", s);
    }
}

#[test]
fn decimal_text_matches_std() {
    for n in [0, 1, 9, 10, 1000, -1, -1000, 123456, i32::MAX, i32::MIN] {
        assert_eq!(i32_to_string(n), n.to_string());
    }
}

#[test]
fn decimal_round_trip_law() {
    for n in [0, 7, -7, 5000, -5000, i32::MAX, i32::MIN, 2147483, -2147483] {
        assert_eq!(parse_i32(&i32_to_string(n)), Some(n));
    }
}

#[test]
fn trim_removes_runs_at_both_ends() {
    assert_eq!(trim_char("\"\"ab\"", '"'), "ab");
    assert_eq!(trim_char("a\"b", '"'), "a\"b");
    assert_eq!(trim_char("\"\"\"", '"'), "");
    assert_eq!(trim_char("", '"'), "");
    assert_eq!(trim_char("xyx", 'x'), "y");
    assert_eq!(trim_char("\"a\\\"b\"", '"'), "\"a\\\"b\"".trim_matches('"'));
}

#[test]
fn string_equality() {
    assert!(str_eq("completed", "completed"));
    assert!(!str_eq("completed", "complete"));
    assert!(!str_eq("é", "e"));
    assert!(str_eq("", ""));
}
