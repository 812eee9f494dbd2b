use barista::decimal::{parse_u64_chars, u64_to_decimal, push_signed_decimal, ParseIdError};

fn parse(text: &str) -> Result<u64, ParseIdError> {
    parse_u64_chars(&text.chars().collect::<Vec<char>>())
}

fn std_kind(text: &str) -> Result<u64, ParseIdError> {
    match text.parse::<u64>() {
        Ok(v) => Ok(v),
        Err(e) => Err(match e.kind() {
            std::num::IntErrorKind::Empty => ParseIdError::Empty,
            std::num::IntErrorKind::InvalidDigit => ParseIdError::InvalidDigit,
            std::num::IntErrorKind::PosOverflow => ParseIdError::PosOverflow,
            other => panic!("unexpected kind {:?}", other),
        }),
    }
}

#[test]
fn renders_zero_and_small_numbers() {
    assert_eq!(u64_to_decimal(0), "0");
    assert_eq!(u64_to_decimal(7), "7");
    assert_eq!(u64_to_decimal(10), "10");
    assert_eq!(u64_to_decimal(1234567890), "1234567890");
}

#[test]
fn renders_like_display() {
    for n in [1u64, 9, 99, 100, 101, 4194304, 175928847299117063, u64::MAX - 1, u64::MAX] {
        assert_eq!(u64_to_decimal(n), n.to_string());
    }
}

#[test]
fn renders_signed_values() {
    for n in [0i64, 5, -5, 1462015105, -1462015105, i64::MAX, i64::MIN] {
        let mut s = String::from("t:");
        push_signed_decimal(&mut s, n);
        assert_eq!(s, format!("t:{}", n));
    }
}

#[test]
fn parses_plain_digits() {
    assert_eq!(parse("0"), Ok(0));
    assert_eq!(parse("42"), Ok(42));
    assert_eq!(parse("0042"), Ok(42));
    assert_eq!(parse("18446744073709551615"), Ok(u64::MAX));
}

#[test]
fn parses_leading_plus() {
    assert_eq!(parse("+17"), Ok(17));
}

#[test]
fn rejects_empty_text() {
    assert_eq!(parse(""), Err(ParseIdError::Empty));
}

#[test]
fn rejects_lone_signs() {
    assert_eq!(parse("+"), Err(ParseIdError::InvalidDigit));
    assert_eq!(parse("-"), Err(ParseIdError::InvalidDigit));
}

#[test]
fn rejects_minus_and_letters() {
    assert_eq!(parse("-1"), Err(ParseIdError::InvalidDigit));
    assert_eq!(parse("12a"), Err(ParseIdError::InvalidDigit));
    assert_eq!(parse(" 12"), Err(ParseIdError::InvalidDigit));
    assert_eq!(parse("١٢"), Err(ParseIdError::InvalidDigit));
}

#[test]
fn rejects_overflow() {
    assert_eq!(parse("18446744073709551616"), Err(ParseIdError::PosOverflow));
    assert_eq!(parse("99999999999999999999999"), Err(ParseIdError::PosOverflow));
}

#[test]
fn invalid_digit_before_overflow_wins_by_position() {
    assert_eq!(parse("1844674407370955161x"), Err(ParseIdError::InvalidDigit));
    assert_eq!(parse("18446744073709551616x"), Err(ParseIdError::PosOverflow));
    assert_eq!(parse("1844674407370955161x9"), Err(ParseIdError::InvalidDigit));
}

#[test]
fn agrees_with_std_parse() {
    let cases = [
        "", "+", "-", "0", "+0", "-0", "007", "+123", "12 ", "1_000", "9223372036854775808",
        "18446744073709551615", "18446744073709551616", "184467440737095516150",
        "99999999999999999999x", "x99999999999999999999", "++1", "+-1", "é", "1é",
    ];
    for c in cases {
        assert_eq!(parse(c), std_kind(c), "case {:?}", c);
    }
}

#[test]
fn parse_error_messages_match_std() {
    assert_eq!(ParseIdError::Empty.message(), "".parse::<u64>().unwrap_err().to_string());
    assert_eq!(ParseIdError::InvalidDigit.message(), "x".parse::<u64>().unwrap_err().to_string());
    assert_eq!(
        ParseIdError::PosOverflow.message(),
        "99999999999999999999".parse::<u64>().unwrap_err().to_string()
    );
}

#[test]
fn round_trips_decimal_text() {
    for n in [0u64, 1, 10, 4194304, 123456789012345678, u64::MAX] {
        assert_eq!(parse(&u64_to_decimal(n)), Ok(n));
    }
}
