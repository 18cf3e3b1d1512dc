//! The routes under `/answers`.

use crate::error::{Error, ErrorView};
use crate::reply::{Reply, OK};
use crate::store::{answer_listing, InMemoryStore};
use crate::types::answer::{Answer, AnswerView, NewAnswer};
use crate::types::pagination::{index_range_for, listing_range};
use std::collections::HashMap;
use vstd::prelude::*;
use vstd::string::StringExecFns;

verus! {

/// `GET /answers`: all answers for a query without parameters, else those
/// between `start` and `end`.
pub fn get_answers(params: HashMap<String, String>, store: &InMemoryStore) -> (r: Result<
    Vec<Answer>,
    Error,
>)
    ensures
        answer_listing(r) == match listing_range(params) {
            Ok(range) => store@.get_answers(range),
            Err(e) => Err::<Seq<AnswerView>, ErrorView>(e),
        },
{
    match index_range_for(params) {
        Ok(range) => store.get_answers(range),
        Err(e) => Err(e),
    }
}

/// `POST /answers`: stores the answer and says so.
pub fn add_answer(store: &mut InMemoryStore, new_answer: NewAnswer) -> (reply: Reply)
    requires
        old(store)@.wf(),
        old(store)@.next_answer_id < i32::MAX,
    ensures
        final(store)@ == old(store)@.add_answer(new_answer@).0,
        final(store)@.wf(),
        reply.status == OK,
        reply.body@ == "Answer added"@,
{
    store.add_answer(new_answer);
    Reply { status: OK, body: String::from_str("Answer added") }
}

} // verus!
