use qa_service::decimal::ParseFault;
use qa_service::errors::Error;
use qa_service::types::pagination::{extract_pagination, Pagination};

fn params(pairs: &[(&str, &str)]) -> Vec<(String, String)> {
    pairs.iter().map(|(k, v)| (k.to_string(), v.to_string())).collect()
}

#[test]
fn missing_both_keys_fails_with_missing_parameters() {
    let r = extract_pagination(params(&[]));
    assert!(matches!(r, Err(Error::MissingParameters)));
}

#[test]
fn missing_offset_fails_with_missing_parameters() {
    let r = extract_pagination(params(&[("limit", "2")]));
    assert!(matches!(r, Err(Error::MissingParameters)));
}

#[test]
fn missing_limit_fails_with_missing_parameters() {
    let r = extract_pagination(params(&[("offset", "0")]));
    assert!(matches!(r, Err(Error::MissingParameters)));
}

#[test]
fn unrelated_keys_fail_with_missing_parameters() {
    let r = extract_pagination(params(&[("start", "1"), ("end", "5")]));
    assert!(matches!(r, Err(Error::MissingParameters)));
}

#[test]
fn missing_key_wins_over_unparseable_value() {
    let r = extract_pagination(params(&[("limit", "abc")]));
    assert!(matches!(r, Err(Error::MissingParameters)));
}

#[test]
fn non_numeric_limit_fails_with_parse_error() {
    let r = extract_pagination(params(&[("limit", "abc"), ("offset", "0")]));
    assert!(matches!(r, Err(Error::ParseError(ParseFault::InvalidDigit))));
}

#[test]
fn non_numeric_offset_fails_even_with_valid_limit() {
    let r = extract_pagination(params(&[("limit", "1"), ("offset", "x7")]));
    assert!(matches!(r, Err(Error::ParseError(ParseFault::InvalidDigit))));
}

#[test]
fn empty_value_fails_with_empty_fault() {
    let r = extract_pagination(params(&[("limit", ""), ("offset", "1")]));
    assert!(matches!(r, Err(Error::ParseError(ParseFault::Empty))));
}

#[test]
fn negative_value_fails_with_invalid_digit() {
    let r = extract_pagination(params(&[("limit", "-1"), ("offset", "0")]));
    assert!(matches!(r, Err(Error::ParseError(ParseFault::InvalidDigit))));
}

#[test]
fn too_large_value_fails_with_overflow() {
    let r = extract_pagination(params(&[("limit", "4294967296"), ("offset", "0")]));
    assert!(matches!(r, Err(Error::ParseError(ParseFault::Overflow))));
}

#[test]
fn limit_fault_reported_before_offset_fault() {
    let r = extract_pagination(params(&[("limit", "zz"), ("offset", "99999999999")]));
    assert!(matches!(r, Err(Error::ParseError(ParseFault::InvalidDigit))));
}

#[test]
fn largest_value_is_accepted() {
    let r = extract_pagination(params(&[("limit", "4294967295"), ("offset", "0")])).unwrap();
    assert_eq!(r.limit, Some(4294967295));
    assert_eq!(r.offset, 0);
}

#[test]
fn leading_plus_sign_is_accepted() {
    let r = extract_pagination(params(&[("limit", "+42"), ("offset", "+0")])).unwrap();
    assert_eq!(r.limit, Some(42));
    assert_eq!(r.offset, 0);
}

#[test]
fn bare_plus_sign_fails_with_invalid_digit() {
    let r = extract_pagination(params(&[("limit", "+"), ("offset", "0")]));
    assert!(matches!(r, Err(Error::ParseError(ParseFault::InvalidDigit))));
}

#[test]
fn bounds_come_back_unclamped() {
    let r = extract_pagination(params(&[("limit", "20"), ("offset", "10")])).unwrap();
    assert_eq!(r.limit, Some(20));
    assert_eq!(r.offset, 10);
}

#[test]
fn first_occurrence_of_a_key_wins() {
    let r = extract_pagination(params(&[("limit", "1"), ("limit", "2"), ("offset", "0")])).unwrap();
    assert_eq!(r.limit, Some(1));
}

#[test]
fn default_pagination_is_unbounded() {
    let p = Pagination::default();
    assert_eq!(p.limit, None);
    assert_eq!(p.offset, 0);
}
