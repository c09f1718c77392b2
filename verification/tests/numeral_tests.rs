use simulador::numeral::{fmt_i64, fmt_u64, fmt_u64_padded, parse_i64, parse_u8};

#[test]
fn format_integers() {
    assert_eq!(fmt_u64(0), "0");
    assert_eq!(fmt_u64(1234567890), "1234567890");
    assert_eq!(fmt_u64(u64::MAX), u64::MAX.to_string());
    assert_eq!(fmt_i64(-42), "-42");
    assert_eq!(fmt_i64(i64::MIN), i64::MIN.to_string());
    assert_eq!(fmt_i64(i64::MAX), i64::MAX.to_string());
}

#[test]
fn zero_padding_as_format_width() {
    assert_eq!(fmt_u64_padded(7, 2), format!("{:02}", 7));
    assert_eq!(fmt_u64_padded(2025, 4), "2025");
    assert_eq!(fmt_u64_padded(12345, 4), "12345");
    assert_eq!(fmt_u64_padded(5, 4), "0005");
    assert_eq!(fmt_u64_padded(0, 0), "0");
}

#[test]
fn parse_i64_agrees_with_std() {
    for s in [
        "0", "42", "-42", "+42", "007", "-0", "", "+", "-", " 1", "1 ", "1.5", "abc", "9223372036854775807",
        "9223372036854775808", "-9223372036854775808", "-9223372036854775809", "++1", "+-1", "١٢",
        "99999999999999999999999999",
    ] {
        assert_eq!(parse_i64(s), s.parse::<i64>().ok(), "input {:?}", s);
    }
}

#[test]
fn parse_u8_agrees_with_std() {
    for s in ["0", "2", "255", "256", "+3", "-0", "-1", "", "x", "0255", "1000"] {
        assert_eq!(parse_u8(s), s.parse::<u8>().ok(), "input {:?}", s);
    }
}

#[test]
fn parse_of_format_round_trips() {
    for n in [0i64, 1, -1, 10, -10, 123456789, i64::MIN, i64::MAX] {
        assert_eq!(parse_i64(&fmt_i64(n)), Some(n));
    }
    for n in 0u8..=255 {
        assert_eq!(parse_u8(&fmt_u64(n as u64)), Some(n));
    }
}
