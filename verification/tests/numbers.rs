//! Decimal text: rendering and parsing of 64-bit integers.

use qbapi::text::{i64_dec, parse_i64, u64_dec};
use qbapi::Error;

#[test]
fn renders_small_numbers() {
    assert_eq!(u64_dec(0), "0");
    assert_eq!(u64_dec(7), "7");
    assert_eq!(u64_dec(10), "10");
    assert_eq!(u64_dec(512000), "512000");
}

#[test]
fn renders_signed_numbers() {
    assert_eq!(i64_dec(0), "0");
    assert_eq!(i64_dec(-1), "-1");
    assert_eq!(i64_dec(42), "42");
    assert_eq!(i64_dec(i64::MAX), "9223372036854775807");
    assert_eq!(i64_dec(i64::MIN), "-9223372036854775808");
}

#[test]
fn parses_plain_numbers() {
    assert_eq!(parse_i64("0"), Ok(0));
    assert_eq!(parse_i64("123"), Ok(123));
    assert_eq!(parse_i64("-123"), Ok(-123));
    assert_eq!(parse_i64("+5"), Ok(5));
    assert_eq!(parse_i64("007"), Ok(7));
}

#[test]
fn parses_the_type_bounds() {
    assert_eq!(parse_i64("9223372036854775807"), Ok(i64::MAX));
    assert_eq!(parse_i64("-9223372036854775808"), Ok(i64::MIN));
}

#[test]
fn rejects_values_out_of_range() {
    assert_eq!(parse_i64("9223372036854775808"), Err(Error::StringToInt));
    assert_eq!(parse_i64("-9223372036854775809"), Err(Error::StringToInt));
    assert_eq!(parse_i64("99999999999999999999999"), Err(Error::StringToInt));
}

#[test]
fn rejects_text_outside_the_grammar() {
    assert_eq!(parse_i64(""), Err(Error::StringToInt));
    assert_eq!(parse_i64("-"), Err(Error::StringToInt));
    assert_eq!(parse_i64("+"), Err(Error::StringToInt));
    assert_eq!(parse_i64("12a"), Err(Error::StringToInt));
    assert_eq!(parse_i64("a12"), Err(Error::StringToInt));
    assert_eq!(parse_i64(" 12"), Err(Error::StringToInt));
    assert_eq!(parse_i64("1 2"), Err(Error::StringToInt));
    assert_eq!(parse_i64("--1"), Err(Error::StringToInt));
    assert_eq!(parse_i64("1.5"), Err(Error::StringToInt));
}

#[test]
fn rendering_then_parsing_gives_the_number_back() {
    for n in [0i64, 1, -1, 999, -1000, i64::MAX, i64::MIN] {
        assert_eq!(parse_i64(i64_dec(n).as_str()), Ok(n));
    }
}
