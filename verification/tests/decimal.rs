use clubsite::decimal::{format_i32, parse_i32};

#[test]
fn format_i32_writes_plain_decimal() {
    assert_eq!(format_i32(0), "0");
    assert_eq!(format_i32(7), "7");
    assert_eq!(format_i32(42), "42");
    assert_eq!(format_i32(-7), "-7");
    assert_eq!(format_i32(1000), "1000");
    assert_eq!(format_i32(i32::MAX), "2147483647");
    assert_eq!(format_i32(i32::MIN), "-2147483648");
}

#[test]
fn format_i32_agrees_with_to_string() {
    for n in [-1000000, -99, -10, -1, 0, 1, 9, 10, 99, 100, 123456789] {
        assert_eq!(format_i32(n), n.to_string());
    }
}

#[test]
fn parse_i32_accepts_decimal_with_optional_sign() {
    assert_eq!(parse_i32("42"), Some(42));
    assert_eq!(parse_i32("+5"), Some(5));
    assert_eq!(parse_i32("-0"), Some(0));
    assert_eq!(parse_i32("-17"), Some(-17));
    assert_eq!(parse_i32("007"), Some(7));
    assert_eq!(parse_i32("2147483647"), Some(i32::MAX));
    assert_eq!(parse_i32("-2147483648"), Some(i32::MIN));
}

#[test]
fn parse_i32_refuses_what_str_parse_refuses() {
    for s in ["", "-", "+", "12a", " 1", "1 ", "+-1", "--1", "2147483648", "-2147483649",
              "99999999999999999999", "\u{0663}", "1.0"] {
        assert_eq!(parse_i32(s), None, "input {:?}", s);
        assert!(s.parse::<i32>().is_err());
    }
}

#[test]
fn parse_i32_reads_back_format_i32() {
    for n in [i32::MIN, -123, -1, 0, 1, 5, 31, 65536, i32::MAX] {
        assert_eq!(parse_i32(&format_i32(n)), Some(n));
    }
}
