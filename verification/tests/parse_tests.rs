use rust_server::digits::u64_to_decimal;
use rust_server::ids::parse_user_id;
use rust_server::model::ApiError;
use rust_server::text::{str_eq, trim};

#[test]
fn plain_number_parses() {
    assert_eq!(parse_user_id("7"), Ok(7));
    assert_eq!(parse_user_id("999999"), Ok(999999));
    assert_eq!(parse_user_id("0"), Ok(0));
}

#[test]
fn surrounding_whitespace_is_trimmed() {
    assert_eq!(parse_user_id(" 42 "), Ok(42));
    assert_eq!(parse_user_id("\t42\n"), Ok(42));
    assert_eq!(parse_user_id("\u{00A0}42\u{3000}"), Ok(42));
}

#[test]
fn leading_plus_is_accepted_once() {
    assert_eq!(parse_user_id("+123"), Ok(123));
    assert_eq!(parse_user_id("++123"), Err(ApiError::ParseError));
    assert_eq!(parse_user_id("+"), Err(ApiError::ParseError));
}

#[test]
fn leading_zeros_are_accepted() {
    assert_eq!(parse_user_id("0007"), Ok(7));
}

#[test]
fn non_numeric_input_is_a_parse_error() {
    assert_eq!(parse_user_id("abc"), Err(ApiError::ParseError));
    assert_eq!(parse_user_id(""), Err(ApiError::ParseError));
    assert_eq!(parse_user_id("   "), Err(ApiError::ParseError));
    assert_eq!(parse_user_id("12a"), Err(ApiError::ParseError));
    assert_eq!(parse_user_id("-7"), Err(ApiError::ParseError));
    assert_eq!(parse_user_id("1 2"), Err(ApiError::ParseError));
}

#[test]
fn value_must_fit_in_u32() {
    assert_eq!(parse_user_id("4294967295"), Ok(u32::MAX));
    assert_eq!(parse_user_id("4294967296"), Err(ApiError::ParseError));
    assert_eq!(parse_user_id("99999999999999999999"), Err(ApiError::ParseError));
}

#[test]
fn decimal_rendering_is_exact() {
    assert_eq!(u64_to_decimal(0), "0");
    assert_eq!(u64_to_decimal(7), "7");
    assert_eq!(u64_to_decimal(10), "10");
    assert_eq!(u64_to_decimal(1234567890), "1234567890");
    assert_eq!(u64_to_decimal(u64::MAX), "18446744073709551615");
}

#[test]
fn rendered_numbers_parse_back() {
    for n in [0u32, 1, 9, 10, 99, 100, 65536, u32::MAX] {
        let text = u64_to_decimal(n as u64);
        assert_eq!(parse_user_id(&text), Ok(n));
    }
}

#[test]
fn trim_removes_only_surrounding_whitespace() {
    assert_eq!(trim("  a b\t"), "a b");
    assert_eq!(trim(""), "");
    assert_eq!(trim(" \n "), "");
    assert_eq!(trim("x"), "x");
}

#[test]
fn str_eq_compares_contents() {
    assert!(str_eq("abc", "abc"));
    assert!(!str_eq("abc", "abd"));
    assert!(!str_eq("abc", "ab"));
    assert!(str_eq("", ""));
}
