use rxcanvas::decimal::{parse_u32, u32_to_decimal};

#[test]
fn formats_single_digits() {
    assert_eq!(u32_to_decimal(0), "0");
    assert_eq!(u32_to_decimal(5), "5");
    assert_eq!(u32_to_decimal(9), "9");
}

#[test]
fn formats_multi_digit_values() {
    assert_eq!(u32_to_decimal(10), "10");
    assert_eq!(u32_to_decimal(50), "50");
    assert_eq!(u32_to_decimal(100), "100");
    assert_eq!(u32_to_decimal(4294967295), "4294967295");
}

#[test]
fn parses_digit_text() {
    assert_eq!(parse_u32("0"), Some(0));
    assert_eq!(parse_u32("35"), Some(35));
    assert_eq!(parse_u32("100"), Some(100));
    assert_eq!(parse_u32("007"), Some(7));
    assert_eq!(parse_u32("4294967295"), Some(4294967295));
}

#[test]
fn rejects_non_digit_text() {
    assert_eq!(parse_u32(""), None);
    assert_eq!(parse_u32("abc"), None);
    assert_eq!(parse_u32("12a"), None);
    assert_eq!(parse_u32("-5"), None);
    assert_eq!(parse_u32(" 5"), None);
    assert_eq!(parse_u32("5.0"), None);
}

#[test]
fn rejects_values_past_the_integer_limit() {
    assert_eq!(parse_u32("4294967296"), None);
    assert_eq!(parse_u32("99999999999999999999"), None);
}

#[test]
fn format_then_parse_returns_the_value() {
    let values = [0u32, 1, 5, 50, 99, 100, 12345, 4294967295];
    for v in values {
        assert_eq!(parse_u32(&u32_to_decimal(v)), Some(v));
    }
}
