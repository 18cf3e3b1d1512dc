use qa_api::error::Error;
use qa_api::number::ParseFailure;
use qa_api::types::pagination::{
    extract_index_range, extract_pagination, index_range_for, index_range_from, pagination_for,
    pagination_from, IndexRange, Pagination,
};
use std::collections::HashMap;

fn query(pairs: &[(&str, &str)]) -> HashMap<String, String> {
    let mut params = HashMap::new();
    for (key, value) in pairs {
        params.insert(key.to_string(), value.to_string());
    }
    params
}

#[test]
fn limit_and_offset_are_read() {
    let mut query = HashMap::new();
    query.insert("limit".to_string(), "1".to_string());
    query.insert("offset".to_string(), "10".to_string());
    let p = extract_pagination(query).unwrap();
    assert_eq!(p.limit, Some(1));
    assert_eq!(p.offset, 10);
}

#[test]
fn each_parameter_is_read_from_its_own_key() {
    let p = extract_pagination(query(&[("limit", "5"), ("offset", "0")])).unwrap();
    assert_eq!(p, Pagination { limit: Some(5), offset: 0 });
    let p = extract_pagination(query(&[("offset", "7"), ("limit", "3"), ("start", "1"), ("end", "2")])).unwrap();
    assert_eq!(p, Pagination { limit: Some(3), offset: 7 });
    let r = extract_index_range(query(&[("offset", "7"), ("limit", "3"), ("start", "1"), ("end", "2")])).unwrap();
    assert_eq!(r, IndexRange { start: 1, end: 2 });
}

#[test]
fn a_missing_limit_or_offset_is_reported() {
    assert!(matches!(extract_pagination(query(&[("limit", "5")])), Err(Error::MissingParameters)));
    assert!(matches!(extract_pagination(query(&[("offset", "5")])), Err(Error::MissingParameters)));
    assert!(matches!(extract_pagination(query(&[])), Err(Error::MissingParameters)));
    assert!(matches!(
        extract_pagination(query(&[("start", "1"), ("end", "2")])),
        Err(Error::MissingParameters)
    ));
    assert!(matches!(
        extract_pagination(query(&[("Limit", "1"), ("offset", "2")])),
        Err(Error::MissingParameters)
    ));
}

#[test]
fn a_missing_parameter_wins_over_a_bad_one() {
    assert!(matches!(extract_pagination(query(&[("limit", "x")])), Err(Error::MissingParameters)));
    assert!(matches!(extract_index_range(query(&[("end", "x")])), Err(Error::MissingParameters)));
}

#[test]
fn a_limit_or_offset_that_is_no_number_is_reported() {
    assert!(matches!(
        extract_pagination(query(&[("limit", "five"), ("offset", "0")])),
        Err(Error::ParseError(ParseFailure::InvalidDigit))
    ));
    assert!(matches!(
        extract_pagination(query(&[("limit", "5"), ("offset", "-1")])),
        Err(Error::ParseError(ParseFailure::InvalidDigit))
    ));
    assert!(matches!(
        extract_pagination(query(&[("limit", ""), ("offset", "0")])),
        Err(Error::ParseError(ParseFailure::Empty))
    ));
    assert!(matches!(
        extract_pagination(query(&[("limit", "5"), ("offset", "99999999999999999999999999")])),
        Err(Error::ParseError(ParseFailure::PosOverflow))
    ));
}

#[test]
fn the_first_bad_parameter_is_the_one_reported() {
    assert!(matches!(
        extract_pagination(query(&[("limit", ""), ("offset", "x")])),
        Err(Error::ParseError(ParseFailure::Empty))
    ));
    assert!(matches!(
        extract_index_range(query(&[("start", "x"), ("end", "")])),
        Err(Error::ParseError(ParseFailure::InvalidDigit))
    ));
}

#[test]
fn start_and_end_are_read() {
    let r = extract_index_range(query(&[("start", "1"), ("end", "10")])).unwrap();
    assert_eq!(r, IndexRange { start: 1, end: 10 });
    let r = extract_index_range(query(&[("start", "10"), ("end", "5")])).unwrap();
    assert_eq!(r, IndexRange { start: 10, end: 5 });
}

#[test]
fn a_missing_start_or_end_is_reported() {
    assert!(matches!(extract_index_range(query(&[("start", "1")])), Err(Error::MissingParameters)));
    assert!(matches!(extract_index_range(query(&[("end", "1")])), Err(Error::MissingParameters)));
    assert!(matches!(
        extract_index_range(query(&[("limit", "1"), ("offset", "2")])),
        Err(Error::MissingParameters)
    ));
}

#[test]
fn a_start_or_end_that_is_no_number_is_reported() {
    assert!(matches!(
        extract_index_range(query(&[("start", "a"), ("end", "10")])),
        Err(Error::ParseError(ParseFailure::InvalidDigit))
    ));
    assert!(matches!(
        extract_index_range(query(&[("start", "1"), ("end", "1 0")])),
        Err(Error::ParseError(ParseFailure::InvalidDigit))
    ));
    assert!(matches!(
        extract_index_range(query(&[("start", "1"), ("end", "")])),
        Err(Error::ParseError(ParseFailure::Empty))
    ));
}

#[test]
fn texts_are_read_without_a_map() {
    assert_eq!(pagination_from(Some("2"), Some("4")).unwrap(), Pagination { limit: Some(2), offset: 4 });
    assert!(matches!(pagination_from(None, Some("4")), Err(Error::MissingParameters)));
    assert!(matches!(pagination_from(Some("4"), None), Err(Error::MissingParameters)));
    assert!(matches!(pagination_from(None, None), Err(Error::MissingParameters)));
    assert!(matches!(
        pagination_from(Some("4"), Some("z")),
        Err(Error::ParseError(ParseFailure::InvalidDigit))
    ));
    assert_eq!(index_range_from(Some("2"), Some("4")).unwrap(), IndexRange { start: 2, end: 4 });
    assert!(matches!(index_range_from(None, Some("4")), Err(Error::MissingParameters)));
    assert!(matches!(index_range_from(Some(""), Some("4")), Err(Error::ParseError(ParseFailure::Empty))));
}

#[test]
fn default_pagination_has_no_limit_and_no_offset() {
    assert_eq!(Pagination::default(), Pagination { limit: None, offset: 0 });
}

#[test]
fn a_query_without_parameters_asks_for_everything() {
    assert_eq!(pagination_for(HashMap::new()).unwrap(), Pagination { limit: None, offset: 0 });
    assert_eq!(index_range_for(HashMap::new()).unwrap(), None);
}

#[test]
fn a_query_with_parameters_must_hold_the_pair() {
    assert_eq!(
        pagination_for(query(&[("limit", "5"), ("offset", "0")])).unwrap(),
        Pagination { limit: Some(5), offset: 0 }
    );
    assert!(matches!(pagination_for(query(&[("limit", "5")])), Err(Error::MissingParameters)));
    assert!(matches!(pagination_for(query(&[("page", "5")])), Err(Error::MissingParameters)));
    assert_eq!(
        index_range_for(query(&[("start", "1"), ("end", "10")])).unwrap(),
        Some(IndexRange { start: 1, end: 10 })
    );
    assert!(matches!(index_range_for(query(&[("start", "1")])), Err(Error::MissingParameters)));
    assert!(matches!(
        index_range_for(query(&[("start", "1"), ("end", "x")])),
        Err(Error::ParseError(ParseFailure::InvalidDigit))
    ));
}

#[test]
fn a_range_is_checked_against_a_length() {
    assert!(IndexRange { start: 0, end: 0 }.check(0).is_ok());
    assert!(IndexRange { start: 1, end: 10 }.check(15).is_ok());
    assert!(IndexRange { start: 15, end: 15 }.check(15).is_ok());
    assert!(matches!(IndexRange { start: 10, end: 5 }.check(15), Err(Error::StartGreaterThanEnd)));
    assert!(matches!(IndexRange { start: 1, end: 16 }.check(15), Err(Error::EndParamExceedsItemList)));
    assert!(matches!(IndexRange { start: 20, end: 16 }.check(15), Err(Error::StartGreaterThanEnd)));
    assert!(matches!(IndexRange { start: 16, end: 16 }.check(15), Err(Error::EndParamExceedsItemList)));
}
