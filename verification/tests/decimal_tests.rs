use sai_hf_bot::decimal::{parse_amount, parse_u64, push_decimal, u64_to_decimal};

#[test]
fn numbers_to_text() {
    assert_eq!(u64_to_decimal(0), "0");
    assert_eq!(u64_to_decimal(7), "7");
    assert_eq!(u64_to_decimal(10), "10");
    assert_eq!(u64_to_decimal(1_000_000_000), "1000000000");
    assert_eq!(u64_to_decimal(u64::MAX), "18446744073709551615");
    let mut text = String::from("n=");
    push_decimal(&mut text, 4096);
    assert_eq!(text, "n=4096");
}

#[test]
fn text_to_numbers() {
    assert_eq!(parse_u64("0"), Some(0));
    assert_eq!(parse_u64("007"), Some(7));
    assert_eq!(parse_u64("+15"), Some(15));
    assert_eq!(parse_u64("18446744073709551615"), Some(u64::MAX));
    assert_eq!(parse_u64("18446744073709551616"), None);
    assert_eq!(parse_u64("99999999999999999999999"), None);
    assert_eq!(parse_u64(""), None);
    assert_eq!(parse_u64("+"), None);
    assert_eq!(parse_u64("++1"), None);
    assert_eq!(parse_u64("-1"), None);
    assert_eq!(parse_u64("1.0"), None);
    assert_eq!(parse_u64("1e9"), None);
    assert_eq!(parse_u64(" 1"), None);
    assert_eq!(parse_u64("1 "), None);
    assert_eq!(parse_u64("١٢"), None);
    assert_eq!(parse_u64("12é"), None);
}

#[test]
fn text_and_back() {
    for n in [0u64, 1, 9, 10, 11, 99, 100, 12345, 1_000_000_007, u64::MAX - 1, u64::MAX] {
        assert_eq!(parse_u64(&u64_to_decimal(n)), Some(n));
        assert_eq!(u64_to_decimal(n), n.to_string());
    }
}

#[test]
fn amounts() {
    assert_eq!(parse_amount("0.1"), Some(100_000_000));
    assert_eq!(parse_amount("0.01"), Some(10_000_000));
    assert_eq!(parse_amount("1"), Some(1_000_000_000));
    assert_eq!(parse_amount("1.5"), Some(1_500_000_000));
    assert_eq!(parse_amount("+1.5"), Some(1_500_000_000));
    assert_eq!(parse_amount("-1.5"), Some(-1_500_000_000));
    assert_eq!(parse_amount("0"), Some(0));
    assert_eq!(parse_amount("-0"), Some(0));
    assert_eq!(parse_amount("0.000000001"), Some(1));
    assert_eq!(parse_amount("-0.000000001"), Some(-1));
    assert_eq!(parse_amount("123.456789012"), Some(123_456_789_012));
    assert_eq!(parse_amount("000.100"), Some(100_000_000));
}

#[test]
fn amounts_at_the_limits() {
    assert_eq!(parse_amount("9223372036.854775807"), Some(i64::MAX));
    assert_eq!(parse_amount("9223372036.854775808"), None);
    assert_eq!(parse_amount("-9223372036.854775808"), Some(i64::MIN));
    assert_eq!(parse_amount("-9223372036.854775809"), None);
    assert_eq!(parse_amount("9223372037"), None);
    assert_eq!(parse_amount("-9223372037"), None);
    assert_eq!(parse_amount("99999999999999999999999999"), None);
    assert_eq!(parse_amount("99999999999999999999999999.5"), None);
}

#[test]
fn texts_that_are_no_amounts() {
    for text in [
        "", "+", "-", ".", ".5", "5.", "1.0000000001", "1..5", "1.5.2", "1,5", "1e3", "abc",
        "1.5x", "x1.5", " 1", "1 ", "--1", "+-1", "1.-5", "1.+5", "0.١", "é",
    ] {
        assert_eq!(parse_amount(text), None, "{}", text);
    }
}
