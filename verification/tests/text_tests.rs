use robinsr::hex::hex_encode;
use robinsr::text::{
    chars_of, is_ws_char, parse_u16, parse_u32, strip_trailing_chars, string_from_chars,
    trim_chars, u32_to_string, IntParseError,
};

fn cs(s: &str) -> Vec<char> {
    s.chars().collect()
}

#[test]
fn u32_to_string_writes_decimal() {
    assert_eq!(u32_to_string(0), "0");
    assert_eq!(u32_to_string(7), "7");
    assert_eq!(u32_to_string(8001), "8001");
    assert_eq!(u32_to_string(u32::MAX), "4294967295");
}

#[test]
fn parse_u32_reads_decimal() {
    assert_eq!(parse_u32(&cs("0")), Ok(0));
    assert_eq!(parse_u32(&cs("1224")), Ok(1224));
    assert_eq!(parse_u32(&cs("+5")), Ok(5));
    assert_eq!(parse_u32(&cs("007")), Ok(7));
    assert_eq!(parse_u32(&cs("4294967295")), Ok(u32::MAX));
}

#[test]
fn parse_u32_errors() {
    assert_eq!(parse_u32(&cs("")), Err(IntParseError::Empty));
    assert_eq!(parse_u32(&cs("+")), Err(IntParseError::InvalidDigit));
    assert_eq!(parse_u32(&cs("-")), Err(IntParseError::InvalidDigit));
    assert_eq!(parse_u32(&cs("-5")), Err(IntParseError::InvalidDigit));
    assert_eq!(parse_u32(&cs("12a")), Err(IntParseError::InvalidDigit));
    assert_eq!(parse_u32(&cs(" 1")), Err(IntParseError::InvalidDigit));
    assert_eq!(parse_u32(&cs("4294967296")), Err(IntParseError::PosOverflow));
    assert_eq!(parse_u32(&cs("99999999999x")), Err(IntParseError::PosOverflow));
}

#[test]
fn parse_u32_agrees_with_std() {
    for s in ["", "+", "-", "0", "+0", "12", "4294967295", "4294967296", "1x", "x1", "-0", "++1"] {
        let expected = s.parse::<u32>().map_err(|_| ());
        assert_eq!(parse_u32(&cs(s)).map_err(|_| ()), expected, "text {s:?}");
    }
}

#[test]
fn parse_u16_bounds() {
    assert_eq!(parse_u16(&cs("65535")), Ok(65535));
    assert_eq!(parse_u16(&cs("65536")), Err(IntParseError::PosOverflow));
    assert_eq!(parse_u16(&cs("1;")), Err(IntParseError::InvalidDigit));
}

#[test]
fn decimal_text_reads_back() {
    for n in [0u32, 1, 9, 10, 99, 1001, 8006, 65535, 123456789, u32::MAX] {
        let s = u32_to_string(n);
        assert_eq!(parse_u32(&chars_of(&s)), Ok(n));
    }
}

#[test]
fn trim_and_strip() {
    assert_eq!(trim_chars(&cs("  a b \t\n")), cs("a b"));
    assert_eq!(trim_chars(&cs("   ")), cs(""));
    assert_eq!(trim_chars(&cs("\u{3000}x\u{a0}")), cs("x"));
    assert_eq!(strip_trailing_chars(&cs("12;;;"), ';'), cs("12"));
    assert_eq!(strip_trailing_chars(&cs(";1;"), ';'), cs(";1"));
    assert!(is_ws_char('\u{2028}'));
    assert!(!is_ws_char('_'));
}

#[test]
fn chars_round_trip() {
    let s = "Robin Team é";
    let c = chars_of(s);
    assert_eq!(c, cs(s));
    assert_eq!(string_from_chars(&c), s);
}

#[test]
fn hex_encode_two_lowercase_digits_per_byte() {
    assert_eq!(hex_encode(&[]), "");
    assert_eq!(hex_encode(&[0x00, 0x0f, 0xa0, 0xff]), "000fa0ff");
    assert_eq!(hex_encode(&[0x9d, 0x74]), "9d74");
}
