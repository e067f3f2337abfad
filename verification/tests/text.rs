use clevis::text::{decimal_text, parse_i32, push_decimal};

#[test]
fn decimal_text_of_numbers() {
    assert_eq!(decimal_text(0), "0");
    assert_eq!(decimal_text(7), "7");
    assert_eq!(decimal_text(10), "10");
    assert_eq!(decimal_text(-1), "-1");
    assert_eq!(decimal_text(1234567890), "1234567890");
    assert_eq!(decimal_text(i32::MAX), "2147483647");
    assert_eq!(decimal_text(i32::MIN), "-2147483648");
}

#[test]
fn decimal_text_is_what_std_writes() {
    let values: Vec<i32> = vec![0, 1, -1, 9, 10, 99, 100, -100, 65535, i32::MAX, i32::MIN];
    for value in values {
        assert_eq!(decimal_text(value), format!("{}", value));
    }
}

#[test]
fn push_decimal_appends() {
    let mut text = "x = ".to_string();
    push_decimal(&mut text, -42);
    assert_eq!(text, "x = -42");
}

#[test]
fn parse_i32_reads_signed_numbers() {
    assert_eq!(parse_i32("0"), Some(0));
    assert_eq!(parse_i32("5"), Some(5));
    assert_eq!(parse_i32("+5"), Some(5));
    assert_eq!(parse_i32("-5"), Some(-5));
    assert_eq!(parse_i32("-0"), Some(0));
    assert_eq!(parse_i32("007"), Some(7));
    assert_eq!(parse_i32("2147483647"), Some(i32::MAX));
    assert_eq!(parse_i32("-2147483648"), Some(i32::MIN));
    assert_eq!(parse_i32("+0000000002147483647"), Some(i32::MAX));
}

#[test]
fn parse_i32_rejects_what_is_no_number_in_range() {
    assert_eq!(parse_i32(""), None);
    assert_eq!(parse_i32("+"), None);
    assert_eq!(parse_i32("-"), None);
    assert_eq!(parse_i32("--1"), None);
    assert_eq!(parse_i32("1-"), None);
    assert_eq!(parse_i32("12a"), None);
    assert_eq!(parse_i32(" 12"), None);
    assert_eq!(parse_i32("1 2"), None);
    assert_eq!(parse_i32("2147483648"), None);
    assert_eq!(parse_i32("-2147483649"), None);
    assert_eq!(parse_i32("99999999999999999999999999"), None);
    assert_eq!(parse_i32("-99999999999999999999999999"), None);
    assert_eq!(parse_i32("\u{0661}\u{0662}"), None);
}

#[test]
fn parse_i32_agrees_with_std() {
    let texts = vec![
        "0", "-0", "+0", "12", "-12", "+12", "2147483647", "2147483648", "-2147483648",
        "-2147483649", "", "+", "-", "1x", "x1", "00000000000000000001",
    ];
    for text in texts {
        assert_eq!(parse_i32(text), text.parse::<i32>().ok());
    }
}

#[test]
fn parse_i32_reads_back_decimal_text() {
    let values: Vec<i32> = vec![0, 1, -1, 10, -10, 123456, i32::MAX, i32::MIN];
    for value in values {
        assert_eq!(parse_i32(&decimal_text(value)), Some(value));
    }
}
