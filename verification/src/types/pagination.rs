//! Pagination parameters, read from the query of a request.

use crate::error::{outcome, Error, ErrorView};
use crate::number::{parse_unsigned, parse_usize};
use std::collections::HashMap;
use vstd::prelude::*;

verus! {

/// A window given by how many records to skip and how many to return at most.
#[derive(Debug, Clone, Copy, PartialEq, Eq, Structural)]
pub struct Pagination {
    /// How many records are returned at most; `None` sets no limit.
    pub limit: Option<usize>,
    /// How many records are skipped before the first that is returned.
    pub offset: usize,
}

/// A window given by two positions in the full listing.
#[derive(Debug, Clone, Copy, PartialEq, Eq, Structural)]
pub struct IndexRange {
    /// The position of the first record that is returned.
    pub start: usize,
    /// The position behind the last record that is returned.
    pub end: usize,
}

impl IndexRange {
    /// Whether the range can be cut out of a collection of `len` records: the
    /// start must not lie behind the end, nor the end behind the collection.
    /// Where both are wrong, the failure is that of the start.
    pub open spec fn fits(self, len: nat) -> Result<(), ErrorView> {
        if self.start > self.end {
            Err(ErrorView::StartGreaterThanEnd)
        } else if self.end > len {
            Err(ErrorView::EndParamExceedsItemList)
        } else {
            Ok(())
        }
    }

    /// Checks the range against the length of a collection.
    pub fn check(&self, len: usize) -> (r: Result<(), Error>)
        ensures
            outcome(r) == self.fits(len as nat),
    {
        if self.start > self.end {
            Err(Error::StartGreaterThanEnd)
        } else if self.end > len {
            Err(Error::EndParamExceedsItemList)
        } else {
            Ok(())
        }
    }
}

/// The records that a listing of `items` returns: all of them where no range
/// is given, else those from `start` up to, not including, `end`, in their
/// order, provided that the range fits.
pub open spec fn window<T>(items: Seq<T>, range: Option<IndexRange>) -> Result<Seq<T>, ErrorView> {
    match range {
        None => Ok(items),
        Some(r) => match r.fits(items.len()) {
            Ok(_) => Ok(items.subrange(r.start as int, r.end as int)),
            Err(e) => Err(e),
        },
    }
}

/// A range that lies within the collection selects exactly the records at its
/// positions, in their order.
pub proof fn lemma_window_within<T>(items: Seq<T>, range: IndexRange)
    requires
        range.start <= range.end <= items.len(),
    ensures
        window(items, Some(range)) == Ok::<Seq<T>, ErrorView>(
            items.subrange(range.start as int, range.end as int),
        ),
        window(items, Some(range))->Ok_0.len() == range.end - range.start,
        forall|k: int|
            0 <= k < range.end - range.start ==> window(items, Some(range))->Ok_0[k]
                == items[range.start + k],
{
}

/// A range whose start lies behind its end is refused as such, whatever the
/// collection; one in order whose end lies behind the collection is refused
/// for its end.
pub proof fn lemma_window_refused<T>(items: Seq<T>, range: IndexRange)
    ensures
        range.start > range.end ==> window(items, Some(range)) == Err::<Seq<T>, ErrorView>(
            ErrorView::StartGreaterThanEnd,
        ),
        range.start <= range.end && range.end > items.len() ==> window(items, Some(range))
            == Err::<Seq<T>, ErrorView>(ErrorView::EndParamExceedsItemList),
{
}

impl Default for Pagination {
    /// No limit and nothing skipped.
    fn default() -> (p: Self)
        ensures
            p == (Pagination { limit: None, offset: 0 }),
    {
        Pagination { limit: None, offset: 0 }
    }
}

/// The two numbers that a pair of parameters denotes. Where one of the two is
/// absent the failure is `MissingParameters`; where one is no unsigned integer
/// it is `ParseError` with the cause, that of the first where both are none.
pub open spec fn number_pair(first: Option<Seq<char>>, second: Option<Seq<char>>) -> Result<
    (usize, usize),
    ErrorView,
> {
    if first is Some && second is Some {
        match parse_unsigned(first->0, usize::MAX as nat) {
            Err(cause) => Err(ErrorView::ParseError(cause)),
            Ok(a) => match parse_unsigned(second->0, usize::MAX as nat) {
                Err(cause) => Err(ErrorView::ParseError(cause)),
                Ok(b) => Ok((a as usize, b as usize)),
            },
        }
    } else {
        Err(ErrorView::MissingParameters)
    }
}

/// The pagination that the texts of `limit` and `offset` denote.
pub open spec fn limit_offset(limit: Option<Seq<char>>, offset: Option<Seq<char>>) -> Result<
    Pagination,
    ErrorView,
> {
    match number_pair(limit, offset) {
        Ok((l, o)) => Ok(Pagination { limit: Some(l), offset: o }),
        Err(e) => Err(e),
    }
}

/// The index range that the texts of `start` and `end` denote. That the start
/// lies before the end, and the end within a collection, is left to whoever
/// cuts the window out of one.
pub open spec fn start_end(start: Option<Seq<char>>, end: Option<Seq<char>>) -> Result<
    IndexRange,
    ErrorView,
> {
    match number_pair(start, end) {
        Ok((s, e)) => Ok(IndexRange { start: s, end: e }),
        Err(e) => Err(e),
    }
}

/// Where one parameter of a pair is absent, the pair is refused with
/// `MissingParameters`, whatever the other holds.
pub proof fn lemma_missing_parameter(first: Option<Seq<char>>, second: Option<Seq<char>>)
    requires
        first is None || second is None,
    ensures
        limit_offset(first, second) == Err::<Pagination, ErrorView>(ErrorView::MissingParameters),
        start_end(first, second) == Err::<IndexRange, ErrorView>(ErrorView::MissingParameters),
{
}

/// Where both parameters of a pair are there and one of them is not read as
/// an unsigned integer, the pair is refused with `ParseError`: with the cause
/// of the first where that one is not read, else with the cause of the second.
pub proof fn lemma_unreadable_parameter(first: Seq<char>, second: Seq<char>)
    requires
        parse_unsigned(first, usize::MAX as nat) is Err || parse_unsigned(
            second,
            usize::MAX as nat,
        ) is Err,
    ensures
        ({
            let one = parse_unsigned(first, usize::MAX as nat);
            let two = parse_unsigned(second, usize::MAX as nat);
            let cause = if one is Err {
                one->Err_0
            } else {
                two->Err_0
            };
            &&& limit_offset(Some(first), Some(second)) == Err::<Pagination, ErrorView>(
                ErrorView::ParseError(cause),
            )
            &&& start_end(Some(first), Some(second)) == Err::<IndexRange, ErrorView>(
                ErrorView::ParseError(cause),
            )
        }),
{
}

/// Where both parameters of a pair are read as unsigned integers, the pair
/// is accepted and holds the two numbers.
pub proof fn lemma_readable_parameters(first: Seq<char>, second: Seq<char>)
    requires
        parse_unsigned(first, usize::MAX as nat) is Ok,
        parse_unsigned(second, usize::MAX as nat) is Ok,
    ensures
        ({
            let a = parse_unsigned(first, usize::MAX as nat)->Ok_0;
            let b = parse_unsigned(second, usize::MAX as nat)->Ok_0;
            &&& a <= usize::MAX
            &&& b <= usize::MAX
            &&& limit_offset(Some(first), Some(second)) == Ok::<Pagination, ErrorView>(
                Pagination { limit: Some(a as usize), offset: b as usize },
            )
            &&& start_end(Some(first), Some(second)) == Ok::<IndexRange, ErrorView>(
                IndexRange { start: a as usize, end: b as usize },
            )
        }),
{
}

/// The text that the query holds under `key`, if any.
pub open spec fn param(params: HashMap<String, String>, key: Seq<char>) -> Option<Seq<char>> {
    if params.deep_view().contains_key(key) {
        Some(params.deep_view()[key])
    } else {
        None
    }
}

/// `HashMap::get` on a map from `String` to `String`, with a `&str` as the
/// key: the value that the map holds under a key with the characters of `key`,
/// or `None` where it holds no such key. Stated without proof.
#[verifier::external_body]
fn lookup<'a>(params: &'a HashMap<String, String>, key: &str) -> (value: Option<&'a String>)
    ensures
        match value {
            Some(text) => param(*params, key@) == Some(text@),
            None => param(*params, key@) is None,
        },
{
    params.get(key)
}

fn as_text<'a>(value: Option<&'a String>) -> (text: Option<&'a str>)
    ensures
        text is Some == value is Some,
        text is Some ==> text->0@ == value->0@,
{
    match value {
        Some(s) => Some(s.as_str()),
        None => None,
    }
}

fn parse_pair(first: Option<&str>, second: Option<&str>) -> (r: Result<(usize, usize), Error>)
    ensures
        outcome(r) == number_pair(text_of(first), text_of(second)),
{
    match (first, second) {
        (Some(a), Some(b)) => {
            let x = match parse_usize(a) {
                Ok(x) => x,
                Err(cause) => {
                    return Err(Error::ParseError(cause));
                },
            };
            let y = match parse_usize(b) {
                Ok(y) => y,
                Err(cause) => {
                    return Err(Error::ParseError(cause));
                },
            };
            Ok((x, y))
        },
        _ => Err(Error::MissingParameters),
    }
}

/// The characters of a text that may be absent.
pub open spec fn text_of(value: Option<&str>) -> Option<Seq<char>> {
    match value {
        Some(s) => Some(s@),
        None => None,
    }
}

/// Reads a limit and an offset from the texts of the two parameters.
pub fn pagination_from(limit: Option<&str>, offset: Option<&str>) -> (r: Result<Pagination, Error>)
    ensures
        outcome(r) == limit_offset(text_of(limit), text_of(offset)),
{
    match parse_pair(limit, offset) {
        Ok((l, o)) => Ok(Pagination { limit: Some(l), offset: o }),
        Err(e) => Err(e),
    }
}

/// Reads a start and an end from the texts of the two parameters.
pub fn index_range_from(start: Option<&str>, end: Option<&str>) -> (r: Result<IndexRange, Error>)
    ensures
        outcome(r) == start_end(text_of(start), text_of(end)),
{
    match parse_pair(start, end) {
        Ok((s, e)) => Ok(IndexRange { start: s, end: e }),
        Err(e) => Err(e),
    }
}

/// Reads the pagination from the parameters `limit` and `offset` of a query,
/// as in `/questions?limit=10&offset=20`.
pub fn extract_pagination(params: HashMap<String, String>) -> (r: Result<Pagination, Error>)
    ensures
        outcome(r) == limit_offset(param(params, "limit"@), param(params, "offset"@)),
{
    let limit = as_text(lookup(&params, "limit"));
    let offset = as_text(lookup(&params, "offset"));
    pagination_from(limit, offset)
}

/// Reads the index range from the parameters `start` and `end` of a query,
/// as in `/questions?start=0&end=10`.
pub fn extract_index_range(params: HashMap<String, String>) -> (r: Result<IndexRange, Error>)
    ensures
        outcome(r) == start_end(param(params, "start"@), param(params, "end"@)),
{
    let start = as_text(lookup(&params, "start"));
    let end = as_text(lookup(&params, "end"));
    index_range_from(start, end)
}

/// The window that a listing over the database uses: no limit and no offset
/// for a query without parameters, else what `limit` and `offset` say.
pub open spec fn listing_window(params: HashMap<String, String>) -> Result<Pagination, ErrorView> {
    if params@.is_empty() {
        Ok(Pagination { limit: None, offset: 0 })
    } else {
        limit_offset(param(params, "limit"@), param(params, "offset"@))
    }
}

/// The index range that a listing in memory uses: none for a query without
/// parameters, else what `start` and `end` say.
pub open spec fn listing_range(params: HashMap<String, String>) -> Result<
    Option<IndexRange>,
    ErrorView,
> {
    if params@.is_empty() {
        Ok(None)
    } else {
        match start_end(param(params, "start"@), param(params, "end"@)) {
            Ok(range) => Ok(Some(range)),
            Err(e) => Err(e),
        }
    }
}

/// Chooses the window of a listing over the database. A query without any
/// parameter is no failure: it asks for everything.
pub fn pagination_for(params: HashMap<String, String>) -> (r: Result<Pagination, Error>)
    ensures
        outcome(r) == listing_window(params),
{
    if params.is_empty() {
        Ok(Pagination::default())
    } else {
        extract_pagination(params)
    }
}

/// Chooses the index range of a listing in memory. A query without any
/// parameter is no failure: it asks for everything.
pub fn index_range_for(params: HashMap<String, String>) -> (r: Result<Option<IndexRange>, Error>)
    ensures
        outcome(r) == listing_range(params),
{
    if params.is_empty() {
        Ok(None)
    } else {
        match extract_index_range(params) {
            Ok(range) => Ok(Some(range)),
            Err(e) => Err(e),
        }
    }
}

} // verus!
