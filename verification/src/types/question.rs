//! Questions: what a client sends and what the store keeps.

use vstd::prelude::*;

verus! {

/// The identifier that a store gives a question.
#[derive(Debug, Clone, Copy, PartialEq, Eq, Hash, Structural)]
pub struct QuestionId(pub i32);

/// A question as the store keeps it.
#[derive(Debug)]
pub struct Question {
    pub id: QuestionId,
    pub title: String,
    pub content: String,
    pub tags: Option<Vec<String>>,
}

/// A question as a client sends it, before the store has given it an identifier.
#[derive(Debug)]
pub struct NewQuestion {
    pub title: String,
    pub content: String,
    pub tags: Option<Vec<String>>,
}

/// A question as a mathematical value: its identifier, its texts, and its
/// tags in their order (a tag may occur more than once).
pub struct QuestionView {
    pub id: int,
    pub title: Seq<char>,
    pub content: Seq<char>,
    pub tags: Option<Seq<Seq<char>>>,
}

/// A new question as a mathematical value.
pub struct NewQuestionView {
    pub title: Seq<char>,
    pub content: Seq<char>,
    pub tags: Option<Seq<Seq<char>>>,
}

impl NewQuestionView {
    /// The question that comes of this one under the identifier `id`.
    pub open spec fn with_id(self, id: int) -> QuestionView {
        QuestionView { id, title: self.title, content: self.content, tags: self.tags }
    }
}

impl QuestionView {
    /// What the question holds besides its identifier.
    pub open spec fn body(self) -> NewQuestionView {
        NewQuestionView { title: self.title, content: self.content, tags: self.tags }
    }
}

impl View for Question {
    type V = QuestionView;

    open spec fn view(&self) -> QuestionView {
        QuestionView {
            id: self.id.0 as int,
            title: self.title@,
            content: self.content@,
            tags: self.tags.deep_view(),
        }
    }
}

impl View for NewQuestion {
    type V = NewQuestionView;

    open spec fn view(&self) -> NewQuestionView {
        NewQuestionView {
            title: self.title@,
            content: self.content@,
            tags: self.tags.deep_view(),
        }
    }
}

/// The questions of a list as mathematical values, in their order.
pub open spec fn question_views(list: Seq<Question>) -> Seq<QuestionView> {
    Seq::new(list.len(), |i: int| list[i]@)
}

/// Copies a list of tags, keeping their order.
pub fn copy_tags(tags: &Option<Vec<String>>) -> (copy: Option<Vec<String>>)
    ensures
        copy.deep_view() == tags.deep_view(),
{
    match tags {
        None => None,
        Some(list) => {
            let mut out: Vec<String> = Vec::new();
            let mut i: usize = 0;
            while i < list.len()
                invariant
                    i <= list.len(),
                    out.len() == i,
                    forall|k: int| 0 <= k < i ==> out[k]@ == list[k]@,
                decreases list.len() - i,
            {
                out.push(list[i].clone());
                i = i + 1;
            }
            assert(out.deep_view() =~= list.deep_view());
            Some(out)
        },
    }
}

impl Clone for Question {
    fn clone(&self) -> (copy: Self)
        ensures
            copy@ == self@,
    {
        Question {
            id: QuestionId(self.id.0),
            title: self.title.clone(),
            content: self.content.clone(),
            tags: copy_tags(&self.tags),
        }
    }
}

impl Clone for NewQuestion {
    fn clone(&self) -> (copy: Self)
        ensures
            copy@ == self@,
    {
        NewQuestion {
            title: self.title.clone(),
            content: self.content.clone(),
            tags: copy_tags(&self.tags),
        }
    }
}

} // verus!
