use redo_env::decimal::{format_i64, parse_i64};

#[test]
fn parses_plain_numbers() {
    assert_eq!(parse_i64("0"), Some(0));
    assert_eq!(parse_i64("7"), Some(7));
    assert_eq!(parse_i64("42"), Some(42));
    assert_eq!(parse_i64("1234567890"), Some(1234567890));
}

#[test]
fn parses_signs() {
    assert_eq!(parse_i64("-12"), Some(-12));
    assert_eq!(parse_i64("+12"), Some(12));
    assert_eq!(parse_i64("-0"), Some(0));
    assert_eq!(parse_i64("+0"), Some(0));
}

#[test]
fn parses_leading_zeros() {
    assert_eq!(parse_i64("007"), Some(7));
    assert_eq!(parse_i64("-000000000000000000000000000000001"), Some(-1));
}

#[test]
fn rejects_text_without_digits() {
    assert_eq!(parse_i64(""), None);
    assert_eq!(parse_i64("-"), None);
    assert_eq!(parse_i64("+"), None);
    assert_eq!(parse_i64("+-1"), None);
    assert_eq!(parse_i64("--1"), None);
}

#[test]
fn rejects_other_characters() {
    assert_eq!(parse_i64("12a"), None);
    assert_eq!(parse_i64("a12"), None);
    assert_eq!(parse_i64(" 1"), None);
    assert_eq!(parse_i64("1 "), None);
    assert_eq!(parse_i64("1_000"), None);
    assert_eq!(parse_i64("1.5"), None);
    assert_eq!(parse_i64("1-"), None);
    assert_eq!(parse_i64("\u{0661}"), None);
    assert_eq!(parse_i64("1\u{00e9}"), None);
}

#[test]
fn parses_up_to_the_limits() {
    assert_eq!(parse_i64("9223372036854775807"), Some(i64::MAX));
    assert_eq!(parse_i64("-9223372036854775808"), Some(i64::MIN));
    assert_eq!(parse_i64("-9223372036854775807"), Some(i64::MIN + 1));
}

#[test]
fn rejects_what_does_not_fit() {
    assert_eq!(parse_i64("9223372036854775808"), None);
    assert_eq!(parse_i64("-9223372036854775809"), None);
    assert_eq!(parse_i64("9223372036854775810"), None);
    assert_eq!(parse_i64("92233720368547758070"), None);
    assert_eq!(parse_i64("99999999999999999999999999999999"), None);
}

#[test]
fn parses_as_the_standard_library_does() {
    let samples = [
        "", "0", "-0", "+0", "1", "-1", "+1", "10", "0010", "-", "+", "++1", "1+", "0x10", "١",
        "9223372036854775807", "9223372036854775808", "-9223372036854775808",
        "-9223372036854775809", "18446744073709551616", " 5", "5\n", "٣", "1e3",
    ];
    for s in samples {
        assert_eq!(parse_i64(s), s.parse::<i64>().ok(), "{:?}", s);
    }
}

#[test]
fn formats_numbers() {
    assert_eq!(format_i64(0), "0");
    assert_eq!(format_i64(7), "7");
    assert_eq!(format_i64(10), "10");
    assert_eq!(format_i64(-1), "-1");
    assert_eq!(format_i64(1234567890), "1234567890");
    assert_eq!(format_i64(i64::MAX), "9223372036854775807");
    assert_eq!(format_i64(i64::MIN), "-9223372036854775808");
}

#[test]
fn what_is_formatted_parses_back() {
    let samples = [0, 1, -1, 9, 10, 99, 100, -100, 4294967296, i64::MAX, i64::MIN, i64::MIN + 1];
    for v in samples {
        assert_eq!(parse_i64(&format_i64(v)), Some(v));
        assert_eq!(format_i64(v), v.to_string());
    }
}
