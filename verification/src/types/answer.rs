//! Answers: what a client sends and what the store keeps.

use crate::types::question::QuestionId;
use vstd::prelude::*;

verus! {

/// The identifier that a store gives an answer.
#[derive(Debug, Clone, Copy, PartialEq, Eq, Hash, Structural)]
pub struct AnswerId(pub i32);

/// An answer as the store keeps it. Nothing here checks that the question it
/// names exists.
#[derive(Debug)]
pub struct Answer {
    pub id: AnswerId,
    pub content: String,
    pub question_id: QuestionId,
}

/// An answer as a client sends it, before the store has given it an identifier.
#[derive(Debug)]
pub struct NewAnswer {
    pub content: String,
    pub question_id: QuestionId,
}

/// An answer as a mathematical value.
pub struct AnswerView {
    pub id: int,
    pub content: Seq<char>,
    pub question_id: int,
}

/// A new answer as a mathematical value.
pub struct NewAnswerView {
    pub content: Seq<char>,
    pub question_id: int,
}

impl NewAnswerView {
    /// The answer that comes of this one under the identifier `id`.
    pub open spec fn with_id(self, id: int) -> AnswerView {
        AnswerView { id, content: self.content, question_id: self.question_id }
    }
}

impl View for Answer {
    type V = AnswerView;

    open spec fn view(&self) -> AnswerView {
        AnswerView {
            id: self.id.0 as int,
            content: self.content@,
            question_id: self.question_id.0 as int,
        }
    }
}

impl View for NewAnswer {
    type V = NewAnswerView;

    open spec fn view(&self) -> NewAnswerView {
        NewAnswerView { content: self.content@, question_id: self.question_id.0 as int }
    }
}

/// The answers of a list as mathematical values, in their order.
pub open spec fn answer_views(list: Seq<Answer>) -> Seq<AnswerView> {
    Seq::new(list.len(), |i: int| list[i]@)
}

impl Clone for Answer {
    fn clone(&self) -> (copy: Self)
        ensures
            copy@ == self@,
    {
        Answer {
            id: AnswerId(self.id.0),
            content: self.content.clone(),
            question_id: QuestionId(self.question_id.0),
        }
    }
}

impl Clone for NewAnswer {
    fn clone(&self) -> (copy: Self)
        ensures
            copy@ == self@,
    {
        NewAnswer { content: self.content.clone(), question_id: QuestionId(self.question_id.0) }
    }
}

} // verus!
