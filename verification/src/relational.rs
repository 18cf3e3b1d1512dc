//! The relational store, as far as it is decided here: which statement each
//! operation sends to the database, with which values, and what the answer
//! of the database means. Sending the statement is left to the caller.

use crate::error::{Error, ErrorView};
use crate::types::answer::NewAnswer;
use crate::types::pagination::Pagination;
use crate::types::question::{NewQuestion, Question};
use vstd::prelude::*;

verus! {

/// Lists questions; `$1` is the limit and `$2` the offset.
pub const SELECT_QUESTIONS: &'static str = "SELECT * FROM questions LIMIT $1 OFFSET $2";

/// Inserts a question and returns the row, with the identifier that the
/// database gave it.
pub const INSERT_QUESTION: &'static str =
    "INSERT INTO questions (title, content, tags) VALUES ($1, $2, $3) RETURNING id, title, content, tags";

/// Replaces the contents of the question `$4` and returns the row.
pub const UPDATE_QUESTION: &'static str =
    "UPDATE questions SET title = $1, content = $2, tags = $3 WHERE id = $4 RETURNING id, title, content, tags";

/// Removes the question `$1`.
pub const DELETE_QUESTION: &'static str = "DELETE FROM questions WHERE id = $1";

/// Lists answers; `$1` is the limit and `$2` the offset.
pub const SELECT_ANSWERS: &'static str = "SELECT * FROM answers LIMIT $1 OFFSET $2";

/// Inserts an answer and returns the row, with the identifier that the
/// database gave it.
pub const INSERT_ANSWER: &'static str =
    "INSERT INTO answers (content, question_id) VALUES ($1, $2) RETURNING id, content, question_id";

/// A value that takes the place of a `$n` in a statement.
#[derive(Debug)]
pub enum Value {
    /// A four-byte integer: an identifier.
    Int(i32),
    /// An eight-byte integer: a count of rows.
    BigInt(i64),
    /// A text.
    Text(String),
    /// A list of texts, or null.
    TextList(Option<Vec<String>>),
}

/// A `Value` as a mathematical value.
pub enum ValueView {
    Int(int),
    BigInt(int),
    Text(Seq<char>),
    TextList(Option<Seq<Seq<char>>>),
}

impl View for Value {
    type V = ValueView;

    open spec fn view(&self) -> ValueView {
        match *self {
            Value::Int(n) => ValueView::Int(n as int),
            Value::BigInt(n) => ValueView::BigInt(n as int),
            Value::Text(t) => ValueView::Text(t@),
            Value::TextList(l) => ValueView::TextList(l.deep_view()),
        }
    }
}

/// A statement and the values for its placeholders, the first for `$1`.
#[derive(Debug)]
pub struct Statement {
    pub text: &'static str,
    pub values: Vec<Value>,
}

/// A `Statement` as a mathematical value.
pub struct StatementView {
    pub text: Seq<char>,
    pub values: Seq<ValueView>,
}

impl View for Statement {
    type V = StatementView;

    open spec fn view(&self) -> StatementView {
        StatementView {
            text: self.text@,
            values: Seq::new(self.values@.len(), |i: int| self.values@[i]@),
        }
    }
}

/// The eight-byte integer that is sent for a count: the count itself, or the
/// largest such integer where the count lies above it. No table holds that
/// many rows, so to the database the two ask for the same.
pub open spec fn count_sent(n: usize) -> int {
    if n <= i64::MAX {
        n as int
    } else {
        i64::MAX as int
    }
}

/// Turns a count into the eight-byte integer that is sent for it.
pub fn to_int8(n: usize) -> (r: i64)
    ensures
        r == count_sent(n),
        0 <= r,
        n <= i64::MAX ==> r == n,
{
    let wide: u64 = n as u64;
    if wide > 0x7fff_ffff_ffff_ffffu64 {
        i64::MAX
    } else {
        wide as i64
    }
}

/// The limit that is sent for a pagination: 0 where it sets none.
pub open spec fn limit_sent(pagination: Pagination) -> int {
    match pagination.limit {
        Some(n) => count_sent(n),
        None => 0,
    }
}

/// The values of a listing: the limit for `$1`, the offset for `$2`, each as
/// it was asked for and never negative.
pub open spec fn window_sent(pagination: Pagination) -> Seq<ValueView> {
    seq![
        ValueView::BigInt(limit_sent(pagination)),
        ValueView::BigInt(count_sent(pagination.offset)),
    ]
}

fn window_values(pagination: Pagination) -> (values: Vec<Value>)
    ensures
        Seq::new(values@.len(), |i: int| values@[i]@) == window_sent(pagination),
{
    let limit: i64 = match pagination.limit {
        Some(n) => to_int8(n),
        None => 0,
    };
    let mut values: Vec<Value> = Vec::new();
    values.push(Value::BigInt(limit));
    values.push(Value::BigInt(to_int8(pagination.offset)));
    assert(Seq::new(values@.len(), |i: int| values@[i]@) =~= window_sent(pagination));
    values
}

/// Whatever window is asked for, the database is sent a limit and an offset
/// that are not negative, and exactly those asked for wherever they fit in
/// eight bytes: an offset is never turned into a smaller one.
pub proof fn lemma_window_sent(pagination: Pagination)
    ensures
        window_sent(pagination).len() == 2,
        window_sent(pagination)[0] == ValueView::BigInt(limit_sent(pagination)),
        window_sent(pagination)[1] == ValueView::BigInt(count_sent(pagination.offset)),
        0 <= limit_sent(pagination) <= i64::MAX,
        0 <= count_sent(pagination.offset) <= i64::MAX,
        pagination.offset <= i64::MAX ==> count_sent(pagination.offset) == pagination.offset,
        count_sent(pagination.offset) != pagination.offset ==> count_sent(pagination.offset)
            == i64::MAX,
        pagination.limit is Some && pagination.limit->0 <= i64::MAX ==> limit_sent(pagination)
            == pagination.limit->0,
        pagination.limit is None ==> limit_sent(pagination) == 0,
{
}

/// The statement that lists the questions of a window.
pub fn get_questions(pagination: Pagination) -> (statement: Statement)
    ensures
        statement@ == (StatementView {
            text: SELECT_QUESTIONS@,
            values: window_sent(pagination),
        }),
{
    Statement { text: SELECT_QUESTIONS, values: window_values(pagination) }
}

/// The statement that lists the answers of a window.
pub fn get_answers(pagination: Pagination) -> (statement: Statement)
    ensures
        statement@ == (StatementView {
            text: SELECT_ANSWERS@,
            values: window_sent(pagination),
        }),
{
    Statement { text: SELECT_ANSWERS, values: window_values(pagination) }
}

/// The statement that stores a new question.
pub fn add_question(new_question: NewQuestion) -> (statement: Statement)
    ensures
        statement@ == (StatementView {
            text: INSERT_QUESTION@,
            values: seq![
                ValueView::Text(new_question@.title),
                ValueView::Text(new_question@.content),
                ValueView::TextList(new_question@.tags),
            ],
        }),
{
    let ghost expected = seq![
        ValueView::Text(new_question@.title),
        ValueView::Text(new_question@.content),
        ValueView::TextList(new_question@.tags),
    ];
    let mut values: Vec<Value> = Vec::new();
    values.push(Value::Text(new_question.title));
    values.push(Value::Text(new_question.content));
    values.push(Value::TextList(new_question.tags));
    assert(Seq::new(values@.len(), |i: int| values@[i]@) =~= expected);
    Statement { text: INSERT_QUESTION, values }
}

/// The statement that gives the question `question_id` the contents of
/// `question`. The identifier inside `question` is not sent.
pub fn update_question(question: Question, question_id: i32) -> (statement: Statement)
    ensures
        statement@ == (StatementView {
            text: UPDATE_QUESTION@,
            values: seq![
                ValueView::Text(question@.title),
                ValueView::Text(question@.content),
                ValueView::TextList(question@.tags),
                ValueView::Int(question_id as int),
            ],
        }),
{
    let ghost expected = seq![
        ValueView::Text(question@.title),
        ValueView::Text(question@.content),
        ValueView::TextList(question@.tags),
        ValueView::Int(question_id as int),
    ];
    let mut values: Vec<Value> = Vec::new();
    values.push(Value::Text(question.title));
    values.push(Value::Text(question.content));
    values.push(Value::TextList(question.tags));
    values.push(Value::Int(question_id));
    assert(Seq::new(values@.len(), |i: int| values@[i]@) =~= expected);
    Statement { text: UPDATE_QUESTION, values }
}

/// The statement that removes the question `question_id`.
pub fn delete_question(question_id: i32) -> (statement: Statement)
    ensures
        statement@ == (StatementView {
            text: DELETE_QUESTION@,
            values: seq![ValueView::Int(question_id as int)],
        }),
{
    let mut values: Vec<Value> = Vec::new();
    values.push(Value::Int(question_id));
    assert(Seq::new(values@.len(), |i: int| values@[i]@) =~= seq![
        ValueView::Int(question_id as int),
    ]);
    Statement { text: DELETE_QUESTION, values }
}

/// The statement that stores a new answer.
pub fn add_answer(new_answer: NewAnswer) -> (statement: Statement)
    ensures
        statement@ == (StatementView {
            text: INSERT_ANSWER@,
            values: seq![
                ValueView::Text(new_answer@.content),
                ValueView::Int(new_answer@.question_id),
            ],
        }),
{
    let ghost expected = seq![
        ValueView::Text(new_answer@.content),
        ValueView::Int(new_answer@.question_id),
    ];
    let mut values: Vec<Value> = Vec::new();
    values.push(Value::Text(new_answer.content));
    values.push(Value::Int(new_answer.question_id.0));
    assert(Seq::new(values@.len(), |i: int| values@[i]@) =~= expected);
    Statement { text: INSERT_ANSWER, values }
}

/// What the database answered to a statement that returns rows, as the API
/// reports it: the rows as they came, or the report of the database as a
/// `DatabaseQueryError`. An update that found no row comes back from the
/// database as such a report.
pub fn fetched<T>(answer: Result<T, String>) -> (r: Result<T, Error>)
    ensures
        match answer {
            Ok(rows) => r == Ok::<T, Error>(rows),
            Err(report) => r matches Err(e) && e@ == ErrorView::DatabaseQueryError(report@),
        },
{
    match answer {
        Ok(rows) => Ok(rows),
        Err(report) => Err(Error::DatabaseQueryError(report)),
    }
}

/// What the database answered to a removal, as the API reports it. A removal
/// that the database ran has succeeded, however many rows it took away: none
/// counts as well as one.
pub fn deleted(answer: Result<u64, String>) -> (r: Result<bool, Error>)
    ensures
        match answer {
            Ok(_) => r == Ok::<bool, Error>(true),
            Err(report) => r matches Err(e) && e@ == ErrorView::DatabaseQueryError(report@),
        },
{
    match answer {
        Ok(_) => Ok(true),
        Err(report) => Err(Error::DatabaseQueryError(report)),
    }
}

} // verus!
