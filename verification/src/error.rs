//! The failures of the API and how each is shown to a client.

use crate::number::ParseFailure;
use crate::reply::{Reply, FORBIDDEN, NOT_FOUND, RANGE_NOT_SATISFIABLE, UNPROCESSABLE_ENTITY};
use vstd::prelude::*;
use vstd::string::StringExecFns;

verus! {

/// Every failure that the API reports.
#[derive(Debug)]
pub enum Error {
    /// A pagination parameter is no unsigned integer.
    ParseError(ParseFailure),
    /// A pagination parameter that is required is absent.
    MissingParameters,
    /// No record has the identifier that was asked for.
    ItemNotFound,
    /// The start of an index range lies behind its end.
    StartGreaterThanEnd,
    /// The end of an index range lies behind the end of the collection.
    EndParamExceedsItemList,
    /// The database refused or failed a statement; the text is its report.
    DatabaseQueryError(String),
}

/// An `Error` with its text as a sequence of characters.
pub enum ErrorView {
    ParseError(ParseFailure),
    MissingParameters,
    ItemNotFound,
    StartGreaterThanEnd,
    EndParamExceedsItemList,
    DatabaseQueryError(Seq<char>),
}

impl View for Error {
    type V = ErrorView;

    open spec fn view(&self) -> ErrorView {
        match *self {
            Error::ParseError(cause) => ErrorView::ParseError(cause),
            Error::MissingParameters => ErrorView::MissingParameters,
            Error::ItemNotFound => ErrorView::ItemNotFound,
            Error::StartGreaterThanEnd => ErrorView::StartGreaterThanEnd,
            Error::EndParamExceedsItemList => ErrorView::EndParamExceedsItemList,
            Error::DatabaseQueryError(report) => ErrorView::DatabaseQueryError(report@),
        }
    }
}

/// A result with its failure as a mathematical value.
pub open spec fn outcome<T>(r: Result<T, Error>) -> Result<T, ErrorView> {
    match r {
        Ok(v) => Ok(v),
        Err(e) => Err(e@),
    }
}

impl ErrorView {
    /// The message that a client reads.
    pub open spec fn message(self) -> Seq<char> {
        match self {
            ErrorView::ParseError(cause) => "Cannot parse parameter: "@ + cause.text(),
            ErrorView::MissingParameters => "Missing parameter"@,
            ErrorView::ItemNotFound => "Item not found"@,
            ErrorView::StartGreaterThanEnd => "Start cannot be greater than end parameter"@,
            ErrorView::EndParamExceedsItemList => "End parameter exceeds item list length"@,
            ErrorView::DatabaseQueryError(report) => "Database query error "@ + report,
        }
    }

    /// The HTTP status that goes with the failure: 404 where a record is
    /// missing, 416 for everything else.
    pub open spec fn status(self) -> u16 {
        match self {
            ErrorView::ItemNotFound => NOT_FOUND,
            _ => RANGE_NOT_SATISFIABLE,
        }
    }
}

impl Clone for Error {
    fn clone(&self) -> (copy: Self)
        ensures
            copy@ == self@,
    {
        match self {
            Error::ParseError(cause) => Error::ParseError(*cause),
            Error::MissingParameters => Error::MissingParameters,
            Error::ItemNotFound => Error::ItemNotFound,
            Error::StartGreaterThanEnd => Error::StartGreaterThanEnd,
            Error::EndParamExceedsItemList => Error::EndParamExceedsItemList,
            Error::DatabaseQueryError(report) => Error::DatabaseQueryError(report.clone()),
        }
    }
}

impl Error {
    /// The message that a client reads.
    pub fn to_string(&self) -> (r: String)
        ensures
            r@ == self@.message(),
    {
        match self {
            Error::ParseError(cause) => String::from_str("Cannot parse parameter: ").concat(
                cause.describe(),
            ),
            Error::MissingParameters => String::from_str("Missing parameter"),
            Error::ItemNotFound => String::from_str("Item not found"),
            Error::StartGreaterThanEnd => String::from_str(
                "Start cannot be greater than end parameter",
            ),
            Error::EndParamExceedsItemList => String::from_str(
                "End parameter exceeds item list length",
            ),
            Error::DatabaseQueryError(report) => String::from_str("Database query error ").concat(
                report.as_str(),
            ),
        }
    }

    /// The HTTP status that goes with the failure.
    pub fn status(&self) -> (r: u16)
        ensures
            r == self@.status(),
    {
        match self {
            Error::ItemNotFound => NOT_FOUND,
            _ => RANGE_NOT_SATISFIABLE,
        }
    }
}

/// Why a request was turned away before or while it was served.
#[derive(Debug)]
pub enum Rejection {
    /// The API itself reported a failure.
    Failure(Error),
    /// The request came from an origin that is not allowed; the text says why.
    CorsForbidden(String),
    /// The body of the request could not be read; the text says why.
    BodyDeserializeError(String),
    /// Anything else: no route took the request.
    Unrecognized,
}

/// The cause that stands for a rejection which may carry several: a failure
/// of the API before a forbidden origin, that before an unreadable body, and
/// `Unrecognized` where it carries none of the three.
pub open spec fn first_cause(
    failure: Option<Error>,
    forbidden: Option<String>,
    unreadable: Option<String>,
) -> Rejection {
    if failure is Some {
        Rejection::Failure(failure->0)
    } else if forbidden is Some {
        Rejection::CorsForbidden(forbidden->0)
    } else if unreadable is Some {
        Rejection::BodyDeserializeError(unreadable->0)
    } else {
        Rejection::Unrecognized
    }
}

/// Picks the cause that a rejection is answered for, from what was found in
/// it: the failure of the API, the reason of a forbidden origin, the reason
/// of an unreadable body.
pub fn rejection_of(
    failure: Option<Error>,
    forbidden: Option<String>,
    unreadable: Option<String>,
) -> (r: Rejection)
    ensures
        r == first_cause(failure, forbidden, unreadable),
{
    match failure {
        Some(e) => Rejection::Failure(e),
        None => match forbidden {
            Some(why) => Rejection::CorsForbidden(why),
            None => match unreadable {
                Some(why) => Rejection::BodyDeserializeError(why),
                None => Rejection::Unrecognized,
            },
        },
    }
}

/// A failure of the API that a rejection carries decides the reply, whatever
/// else the rejection carries.
pub proof fn lemma_failure_wins(e: Error, forbidden: Option<String>, unreadable: Option<String>)
    ensures
        rejection_status(first_cause(Some(e), forbidden, unreadable)) == e@.status(),
        rejection_body(first_cause(Some(e), forbidden, unreadable)) == e@.message(),
{
}

/// The status that `return_error` gives a rejection.
pub open spec fn rejection_status(r: Rejection) -> u16 {
    match r {
        Rejection::Failure(e) => e@.status(),
        Rejection::CorsForbidden(_) => FORBIDDEN,
        Rejection::BodyDeserializeError(_) => UNPROCESSABLE_ENTITY,
        Rejection::Unrecognized => NOT_FOUND,
    }
}

/// The text that `return_error` gives a rejection.
pub open spec fn rejection_body(r: Rejection) -> Seq<char> {
    match r {
        Rejection::Failure(e) => e@.message(),
        Rejection::CorsForbidden(why) => why@,
        Rejection::BodyDeserializeError(why) => why@,
        Rejection::Unrecognized => "Route not found"@,
    }
}

/// Turns a rejection into the reply that the client gets. A rejection that is
/// not recognized is answered as a missing route, so that nothing of it shows.
pub fn return_error(r: Rejection) -> (reply: Reply)
    ensures
        reply.status == rejection_status(r),
        reply.body@ == rejection_body(r),
{
    match r {
        Rejection::Failure(e) => Reply { status: e.status(), body: e.to_string() },
        Rejection::CorsForbidden(why) => Reply { status: FORBIDDEN, body: why },
        Rejection::BodyDeserializeError(why) => Reply { status: UNPROCESSABLE_ENTITY, body: why },
        Rejection::Unrecognized => Reply {
            status: NOT_FOUND,
            body: String::from_str("Route not found"),
        },
    }
}

} // verus!
