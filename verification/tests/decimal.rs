use mpesa_dev::decimal::{format_i64, format_u64, parse_i64_text, parse_u16, parse_unsigned_max, parse_usize};

#[test]
fn parses_ports_like_std() {
    assert_eq!(parse_u16("4321"), Some(4321));
    assert_eq!(parse_u16("+80"), Some(80));
    assert_eq!(parse_u16("0065535"), Some(65535));
    assert_eq!(parse_u16("65536"), None);
    assert_eq!(parse_u16(""), None);
    assert_eq!(parse_u16("+"), None);
    assert_eq!(parse_u16("-1"), None);
    assert_eq!(parse_u16(" 1"), None);
    assert_eq!(parse_u16("12a"), None);
    for text in ["0", "1", "+7", "99999", "65535", "x", "", "-0", "+-1"] {
        assert_eq!(parse_u16(text), text.parse::<u16>().ok(), "{text}");
    }
}

#[test]
fn parses_usize_and_limits() {
    assert_eq!(parse_usize("3"), Some(3));
    assert_eq!(parse_usize("18446744073709551615"), "18446744073709551615".parse::<usize>().ok());
    assert_eq!(parse_usize("18446744073709551616"), None);
    assert_eq!(parse_unsigned_max("100", 99), None);
    assert_eq!(parse_unsigned_max("99", 99), Some(99));
}

#[test]
fn parses_i64_like_std() {
    assert_eq!(parse_i64_text("3599"), Some(3599));
    assert_eq!(parse_i64_text("-42"), Some(-42));
    assert_eq!(parse_i64_text("+42"), Some(42));
    assert_eq!(parse_i64_text("-9223372036854775808"), Some(i64::MIN));
    assert_eq!(parse_i64_text("9223372036854775807"), Some(i64::MAX));
    assert_eq!(parse_i64_text("9223372036854775808"), None);
    assert_eq!(parse_i64_text("-9223372036854775809"), None);
    assert_eq!(parse_i64_text("-"), None);
    assert_eq!(parse_i64_text("--1"), None);
    assert_eq!(parse_i64_text("3599s"), None);
    for text in ["0", "-0", "+0", "12", "-", "+", "", "1e3", "-+1"] {
        assert_eq!(parse_i64_text(text), text.parse::<i64>().ok(), "{text}");
    }
}

#[test]
fn formats_like_display() {
    assert_eq!(format_u64(0), "0");
    assert_eq!(format_u64(1234567890), "1234567890");
    assert_eq!(format_u64(u64::MAX), u64::MAX.to_string());
    assert_eq!(format_i64(-42), "-42");
    assert_eq!(format_i64(i64::MIN), i64::MIN.to_string());
    assert_eq!(format_i64(1032), "1032");
}

#[test]
fn decimal_round_trip() {
    for n in [0u64, 9, 10, 4321, 65535, u64::MAX] {
        assert_eq!(parse_unsigned_max(&format_u64(n), u64::MAX), Some(n));
    }
    for n in [i64::MIN, -1, 0, 1, i64::MAX] {
        assert_eq!(parse_i64_text(&format_i64(n)), Some(n));
    }
}
