//! The routes under `/questions`.

use crate::error::{Error, ErrorView};
use crate::number::{integer_text, integer_to_string};
use crate::reply::{Reply, OK};
use crate::store::{question_listing, question_outcome, InMemoryStore};
use crate::types::pagination::{index_range_for, listing_range};
use crate::types::question::{NewQuestion, Question, QuestionView};
use std::collections::HashMap;
use vstd::prelude::*;
use vstd::string::StringExecFns;

verus! {

/// `GET /questions`: all questions for a query without parameters, else
/// those between `start` and `end`.
pub fn get_questions(params: HashMap<String, String>, store: &InMemoryStore) -> (r: Result<
    Vec<Question>,
    Error,
>)
    ensures
        question_listing(r) == match listing_range(params) {
            Ok(range) => store@.get_questions(range),
            Err(e) => Err::<Seq<QuestionView>, ErrorView>(e),
        },
{
    match index_range_for(params) {
        Ok(range) => store.get_questions(range),
        Err(e) => Err(e),
    }
}

/// `POST /questions`: stores the question and says so.
pub fn add_question(store: &mut InMemoryStore, new_question: NewQuestion) -> (reply: Reply)
    requires
        old(store)@.wf(),
        old(store)@.next_question_id < i32::MAX,
    ensures
        final(store)@ == old(store)@.add_question(new_question@).0,
        final(store)@.wf(),
        reply.status == OK,
        reply.body@ == "Question added"@,
{
    store.add_question(new_question);
    Reply { status: OK, body: String::from_str("Question added") }
}

/// `PUT /questions/{id}`: gives the question `id` the contents of `question`
/// and returns it as it then stands.
pub fn update_question(id: i32, store: &mut InMemoryStore, question: Question) -> (r: Result<
    Question,
    Error,
>)
    requires
        old(store)@.wf(),
    ensures
        (final(store)@, question_outcome(r)) == old(store)@.update_question(
            question@.body(),
            id as int,
        ),
        final(store)@.wf(),
{
    store.update_question(question, id)
}

/// The text that confirms the removal of the question `id`.
pub open spec fn deleted_text(id: int) -> Seq<char> {
    "Question "@ + integer_text(id) + " deleted"@
}

/// Says that the question `id` was removed.
pub fn deleted_reply(id: i32) -> (reply: Reply)
    ensures
        reply.status == OK,
        reply.body@ == deleted_text(id as int),
{
    let mut body = String::from_str("Question ");
    body.append(integer_to_string(id).as_str());
    body.append(" deleted");
    Reply { status: OK, body }
}

/// `DELETE /questions/{id}`: removes the question `id` and says so.
pub fn delete_question(id: i32, store: &mut InMemoryStore) -> (r: Result<Reply, Error>)
    requires
        old(store)@.wf(),
    ensures
        final(store)@ == old(store)@.delete_question(id as int).0,
        final(store)@.wf(),
        match r {
            Ok(reply) => old(store)@.holds_question(id as int) && reply.status == OK
                && reply.body@ == deleted_text(id as int),
            Err(e) => !old(store)@.holds_question(id as int) && e@ == ErrorView::ItemNotFound,
        },
{
    match store.delete_question(id) {
        Ok(_) => Ok(deleted_reply(id)),
        Err(e) => Err(e),
    }
}

} // verus!
