use qa_api::error::{rejection_of, return_error, Error, Rejection};
use qa_api::number::ParseFailure;
use qa_api::reply::{FORBIDDEN, NOT_FOUND, OK, RANGE_NOT_SATISFIABLE, UNPROCESSABLE_ENTITY};

#[test]
fn statuses_have_their_numbers() {
    assert_eq!(OK, 200);
    assert_eq!(FORBIDDEN, 403);
    assert_eq!(NOT_FOUND, 404);
    assert_eq!(RANGE_NOT_SATISFIABLE, 416);
    assert_eq!(UNPROCESSABLE_ENTITY, 422);
}

#[test]
fn each_failure_has_its_message() {
    assert_eq!(
        Error::ParseError(ParseFailure::InvalidDigit).to_string(),
        "Cannot parse parameter: invalid digit found in string"
    );
    assert_eq!(
        Error::ParseError(ParseFailure::Empty).to_string(),
        "Cannot parse parameter: cannot parse integer from empty string"
    );
    assert_eq!(
        Error::ParseError(ParseFailure::PosOverflow).to_string(),
        "Cannot parse parameter: number too large to fit in target type"
    );
    assert_eq!(Error::MissingParameters.to_string(), "Missing parameter");
    assert_eq!(Error::ItemNotFound.to_string(), "Item not found");
    assert_eq!(Error::StartGreaterThanEnd.to_string(), "Start cannot be greater than end parameter");
    assert_eq!(Error::EndParamExceedsItemList.to_string(), "End parameter exceeds item list length");
    assert_eq!(
        Error::DatabaseQueryError("connection refused".to_string()).to_string(),
        "Database query error connection refused"
    );
    assert_eq!(Error::DatabaseQueryError(String::new()).to_string(), "Database query error ");
}

#[test]
fn parse_message_is_that_of_the_standard_library() {
    let cause = "abc".parse::<usize>().unwrap_err();
    assert_eq!(
        Error::ParseError(ParseFailure::InvalidDigit).to_string(),
        format!("Cannot parse parameter: {}", cause)
    );
}

#[test]
fn validation_and_storage_failures_are_416() {
    assert_eq!(Error::ParseError(ParseFailure::InvalidDigit).status(), 416);
    assert_eq!(Error::ParseError(ParseFailure::Empty).status(), 416);
    assert_eq!(Error::ParseError(ParseFailure::PosOverflow).status(), 416);
    assert_eq!(Error::MissingParameters.status(), 416);
    assert_eq!(Error::StartGreaterThanEnd.status(), 416);
    assert_eq!(Error::EndParamExceedsItemList.status(), 416);
    assert_eq!(Error::DatabaseQueryError("x".to_string()).status(), 416);
}

#[test]
fn a_missing_item_is_404() {
    assert_eq!(Error::ItemNotFound.status(), 404);
}

#[test]
fn a_failure_is_answered_with_its_status_and_message() {
    let reply = return_error(Rejection::Failure(Error::MissingParameters));
    assert_eq!(reply.status, 416);
    assert_eq!(reply.body, "Missing parameter");
    let reply = return_error(Rejection::Failure(Error::ItemNotFound));
    assert_eq!(reply.status, 404);
    assert_eq!(reply.body, "Item not found");
    let reply = return_error(Rejection::Failure(Error::DatabaseQueryError("boom".to_string())));
    assert_eq!(reply.status, 416);
    assert_eq!(reply.body, "Database query error boom");
    let reply = return_error(Rejection::Failure(Error::ParseError(ParseFailure::InvalidDigit)));
    assert_eq!(reply.status, 416);
    assert_eq!(reply.body, "Cannot parse parameter: invalid digit found in string");
}

#[test]
fn a_forbidden_origin_is_403_with_its_reason() {
    let reply = return_error(Rejection::CorsForbidden("CORS request forbidden: origin not allowed".to_string()));
    assert_eq!(reply.status, 403);
    assert_eq!(reply.body, "CORS request forbidden: origin not allowed");
}

#[test]
fn an_unreadable_body_is_422_with_its_reason() {
    let reply = return_error(Rejection::BodyDeserializeError("missing field `title`".to_string()));
    assert_eq!(reply.status, 422);
    assert_eq!(reply.body, "missing field `title`");
}

#[test]
fn anything_else_is_a_missing_route() {
    let reply = return_error(Rejection::Unrecognized);
    assert_eq!(reply.status, 404);
    assert_eq!(reply.body, "Route not found");
}

#[test]
fn a_copy_of_a_failure_is_the_same_failure() {
    let e = Error::DatabaseQueryError("gone".to_string());
    let copy = e.clone();
    assert_eq!(copy.to_string(), e.to_string());
    assert!(matches!(Error::ItemNotFound.clone(), Error::ItemNotFound));
    assert!(matches!(
        Error::ParseError(ParseFailure::Empty).clone(),
        Error::ParseError(ParseFailure::Empty)
    ));
}

#[test]
fn a_failure_wins_over_every_other_cause() {
    let r = rejection_of(
        Some(Error::ItemNotFound),
        Some("origin not allowed".to_string()),
        Some("missing field".to_string()),
    );
    assert!(matches!(r, Rejection::Failure(Error::ItemNotFound)));
    let r = rejection_of(Some(Error::MissingParameters), None, Some("missing field".to_string()));
    assert!(matches!(r, Rejection::Failure(Error::MissingParameters)));
    let r = rejection_of(Some(Error::StartGreaterThanEnd), Some("origin".to_string()), None);
    assert!(matches!(r, Rejection::Failure(Error::StartGreaterThanEnd)));
    let r = rejection_of(Some(Error::DatabaseQueryError("down".to_string())), None, None);
    match r {
        Rejection::Failure(Error::DatabaseQueryError(report)) => assert_eq!(report, "down"),
        other => panic!("{:?}", other),
    }
}

#[test]
fn a_forbidden_origin_wins_over_an_unreadable_body() {
    let r = rejection_of(None, Some("origin not allowed".to_string()), Some("missing field".to_string()));
    match r {
        Rejection::CorsForbidden(why) => assert_eq!(why, "origin not allowed"),
        other => panic!("{:?}", other),
    }
    let r = rejection_of(None, Some("origin not allowed".to_string()), None);
    assert!(matches!(r, Rejection::CorsForbidden(_)));
}

#[test]
fn an_unreadable_body_stands_where_nothing_else_was_found() {
    match rejection_of(None, None, Some("missing field".to_string())) {
        Rejection::BodyDeserializeError(why) => assert_eq!(why, "missing field"),
        other => panic!("{:?}", other),
    }
}

#[test]
fn a_rejection_that_carries_nothing_known_is_unrecognized() {
    assert!(matches!(rejection_of(None, None, None), Rejection::Unrecognized));
}

#[test]
fn the_reply_is_that_of_the_cause_that_wins() {
    let reply = return_error(rejection_of(
        Some(Error::ItemNotFound),
        Some("origin not allowed".to_string()),
        Some("missing field".to_string()),
    ));
    assert_eq!(reply.status, 404);
    assert_eq!(reply.body, "Item not found");
    let reply = return_error(rejection_of(
        Some(Error::EndParamExceedsItemList),
        Some("origin not allowed".to_string()),
        None,
    ));
    assert_eq!(reply.status, 416);
    assert_eq!(reply.body, "End parameter exceeds item list length");
    let reply = return_error(rejection_of(None, Some("origin not allowed".to_string()), Some("x".to_string())));
    assert_eq!(reply.status, 403);
    assert_eq!(reply.body, "origin not allowed");
    let reply = return_error(rejection_of(None, None, Some("missing field".to_string())));
    assert_eq!(reply.status, 422);
    assert_eq!(reply.body, "missing field");
    let reply = return_error(rejection_of(None, None, None));
    assert_eq!(reply.status, 404);
    assert_eq!(reply.body, "Route not found");
}
