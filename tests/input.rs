use ieee754_converter::input::{input_format, parse_input, parse_numeral, InputFormat, Mode, ParseError};

#[test]
fn format_binary() {
    assert_eq!(input_format("1010"), InputFormat::Binary);
    assert_eq!(input_format("10 10"), InputFormat::Binary);
    assert_eq!(input_format(""), InputFormat::Binary);
}

#[test]
fn format_hexadecimal() {
    assert_eq!(input_format("8F7F FF00"), InputFormat::Hexadecimal);
    assert_eq!(input_format("0x12"), InputFormat::Hexadecimal);
    assert_eq!(input_format("0Xzz"), InputFormat::Hexadecimal);
    assert_eq!(input_format("abc2"), InputFormat::Hexadecimal);
}

#[test]
fn format_unrecognized() {
    assert_eq!(input_format("hello"), InputFormat::Unrecognized);
    assert_eq!(input_format("12g"), InputFormat::Unrecognized);
    assert_eq!(input_format("1\t0"), InputFormat::Unrecognized);
}

#[test]
fn parse_binary() {
    assert_eq!(parse_numeral("1010"), Ok(10));
    assert_eq!(parse_numeral("1111 0000"), Ok(0xF0));
    assert_eq!(parse_numeral(&"1".repeat(32)), Ok(u32::MAX));
    assert_eq!(parse_numeral(&"1".repeat(33)), Err(ParseError::PosOverflow));
}

#[test]
fn parse_hexadecimal() {
    assert_eq!(parse_numeral("8F7F FF00"), Ok(0x8F7F_FF00));
    assert_eq!(parse_numeral("0x1f"), Ok(0x1F));
    assert_eq!(parse_numeral("0X1F"), Ok(0x1F));
    assert_eq!(parse_numeral("0x0x10"), Ok(0x10));
    assert_eq!(parse_numeral("0x+ff"), Ok(0xFF));
    assert_eq!(parse_numeral("12"), Ok(0x12));
    assert_eq!(parse_numeral("FFFFFFFF"), Ok(u32::MAX));
}

#[test]
fn parse_errors() {
    assert_eq!(parse_numeral(""), Err(ParseError::Empty));
    assert_eq!(parse_numeral("   "), Err(ParseError::Empty));
    assert_eq!(parse_numeral("0x"), Err(ParseError::Empty));
    assert_eq!(parse_numeral("0x+"), Err(ParseError::InvalidDigit));
    assert_eq!(parse_numeral("0x-1"), Err(ParseError::InvalidDigit));
    assert_eq!(parse_numeral("0xzz"), Err(ParseError::InvalidDigit));
    assert_eq!(parse_numeral("123456789"), Err(ParseError::PosOverflow));
    assert_eq!(parse_numeral("0x123456789z"), Err(ParseError::PosOverflow));
    assert_eq!(parse_numeral("0x12345678z"), Err(ParseError::InvalidDigit));
    assert_eq!(parse_numeral("hello"), Err(ParseError::UnrecognizedFormat));
}

#[test]
fn error_messages() {
    assert_eq!(ParseError::Empty.message(), "Nieprawidłowe wejście: cannot parse integer from empty string");
    assert_eq!(ParseError::InvalidDigit.message(), "Nieprawidłowe wejście: invalid digit found in string");
    assert_eq!(ParseError::PosOverflow.message(), "Nieprawidłowe wejście: number too large to fit in target type");
    assert_eq!(ParseError::UnrecognizedFormat.message(), "Nieprawidłowe wejście: Nieprawidłowy format wejścia");
}

#[test]
fn parse_input_default_low_latency() {
    let mut result = None;
    let mut error = Some("old".to_string());
    parse_input("8F7F FF00", &Mode::ToIEEE754, &mut result, &mut error);
    assert_eq!(result, Some(0x477F_FF00));
    assert_eq!(error, None);
}

#[test]
fn parse_input_default_standard() {
    let mut result = None;
    let mut error = None;
    parse_input("477F FF00", &Mode::ToInternal, &mut result, &mut error);
    assert_eq!(result, Some(0x8F7F_FF00));
    assert_eq!(error, None);
}

#[test]
fn parse_input_error_clears_result() {
    let mut result = Some(5);
    let mut error = None;
    parse_input("xyz", &Mode::ToInternal, &mut result, &mut error);
    assert_eq!(result, None);
    assert_eq!(error, Some("Nieprawidłowe wejście: Nieprawidłowy format wejścia".to_string()));
}
