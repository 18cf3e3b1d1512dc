//! The store that keeps its records in memory.
//!
//! Records stand in the order in which they were added. Each collection hands
//! out identifiers from a counter of its own, so that no two of its records
//! ever share one. The store is a plain owned value: whoever shares it
//! between tasks puts it behind a reader/writer lock, and each call is then
//! one critical section.

use crate::error::{outcome, Error, ErrorView};
use crate::types::answer::{answer_views, Answer, AnswerId, AnswerView, NewAnswer, NewAnswerView};
use crate::types::pagination::{window, IndexRange};
use crate::types::question::{
    copy_tags,
    question_views,
    NewQuestion,
    NewQuestionView,
    Question,
    QuestionId,
    QuestionView,
};
use vstd::prelude::*;

verus! {

/// What a store holds, as a mathematical value.
pub struct StoreView {
    /// The questions, oldest first.
    pub questions: Seq<QuestionView>,
    /// The answers, oldest first.
    pub answers: Seq<AnswerView>,
    /// The identifier that the next question gets.
    pub next_question_id: int,
    /// The identifier that the next answer gets.
    pub next_answer_id: int,
}

impl StoreView {
    /// Every identifier was handed out by the counter of its collection, and
    /// no two records of a collection share one.
    pub open spec fn wf(self) -> bool {
        &&& 1 <= self.next_question_id
        &&& 1 <= self.next_answer_id
        &&& forall|i: int|
            0 <= i < self.questions.len() ==> 1 <= (#[trigger] self.questions[i]).id
                < self.next_question_id
        &&& forall|i: int|
            0 <= i < self.answers.len() ==> 1 <= (#[trigger] self.answers[i]).id
                < self.next_answer_id
        &&& forall|i: int, j: int|
            0 <= i < j < self.questions.len() ==> (#[trigger] self.questions[i]).id != (
            #[trigger] self.questions[j]).id
        &&& forall|i: int, j: int|
            0 <= i < j < self.answers.len() ==> (#[trigger] self.answers[i]).id != (
            #[trigger] self.answers[j]).id
    }

    /// The store that holds nothing yet.
    pub open spec fn empty() -> StoreView {
        StoreView {
            questions: Seq::empty(),
            answers: Seq::empty(),
            next_question_id: 1,
            next_answer_id: 1,
        }
    }

    /// Whether a question has the identifier `id`.
    pub open spec fn holds_question(self, id: int) -> bool {
        exists|i: int| 0 <= i < self.questions.len() && (#[trigger] self.questions[i]).id == id
    }

    /// Where the question with the identifier `id` stands.
    pub open spec fn position(self, id: int) -> int
        recommends
            self.holds_question(id),
    {
        choose|i: int| 0 <= i < self.questions.len() && (#[trigger] self.questions[i]).id == id
    }

    /// The questions that a listing returns.
    pub open spec fn get_questions(self, range: Option<IndexRange>) -> Result<
        Seq<QuestionView>,
        ErrorView,
    > {
        window(self.questions, range)
    }

    /// The answers that a listing returns.
    pub open spec fn get_answers(self, range: Option<IndexRange>) -> Result<
        Seq<AnswerView>,
        ErrorView,
    > {
        window(self.answers, range)
    }

    /// The store after a question was added, and the question as it was
    /// stored: under the next identifier, behind all others.
    pub open spec fn add_question(self, new_question: NewQuestionView) -> (StoreView, QuestionView) {
        let question = new_question.with_id(self.next_question_id);
        (
            StoreView {
                questions: self.questions.push(question),
                next_question_id: self.next_question_id + 1,
                ..self
            },
            question,
        )
    }

    /// The store after an answer was added, and the answer as it was stored.
    pub open spec fn add_answer(self, new_answer: NewAnswerView) -> (StoreView, AnswerView) {
        let answer = new_answer.with_id(self.next_answer_id);
        (
            StoreView {
                answers: self.answers.push(answer),
                next_answer_id: self.next_answer_id + 1,
                ..self
            },
            answer,
        )
    }

    /// The store after the question `id` was given new contents, and the
    /// question as it then stands: in its old place, under its old
    /// identifier. Where no question has that identifier the store stays as
    /// it is and the failure is `ItemNotFound`.
    pub open spec fn update_question(self, contents: NewQuestionView, id: int) -> (
        StoreView,
        Result<QuestionView, ErrorView>,
    ) {
        if self.holds_question(id) {
            let question = contents.with_id(id);
            (
                StoreView {
                    questions: self.questions.update(self.position(id), question),
                    ..self
                },
                Ok(question),
            )
        } else {
            (self, Err(ErrorView::ItemNotFound))
        }
    }

    /// The store after the question `id` was removed; the others keep their
    /// order. Where no question has that identifier the store stays as it is
    /// and the failure is `ItemNotFound`.
    pub open spec fn delete_question(self, id: int) -> (StoreView, Result<(), ErrorView>) {
        if self.holds_question(id) {
            (StoreView { questions: self.questions.remove(self.position(id)), ..self }, Ok(()))
        } else {
            (self, Err(ErrorView::ItemNotFound))
        }
    }

    /// The store after the questions of `batch` were added one after the
    /// other.
    pub open spec fn add_questions(self, batch: Seq<NewQuestionView>) -> StoreView
        decreases batch.len(),
    {
        if batch.len() == 0 {
            self
        } else {
            self.add_questions(batch.drop_last()).add_question(batch.last()).0
        }
    }
}

/// The positions at which `record` stands in `list`.
pub open spec fn positions_of<T>(list: Seq<T>, record: T) -> Set<int> {
    Set::new(|i: int| 0 <= i < list.len() && list[i] == record)
}

/// Adding a question keeps the store well formed, and the listing of all
/// questions then holds the new question exactly once: at its end.
pub proof fn lemma_added_question_listed_once(store: StoreView, new_question: NewQuestionView)
    requires
        store.wf(),
    ensures
        ({
            let (after, question) = store.add_question(new_question);
            &&& after.wf()
            &&& after.get_questions(None) == Ok::<Seq<QuestionView>, ErrorView>(after.questions)
            &&& positions_of(after.questions, question) == set![store.questions.len() as int]
            &&& positions_of(after.questions, question).len() == 1
        }),
{
    let (after, question) = store.add_question(new_question);
    assert(after.questions[store.questions.len() as int] == question);
    assert forall|i: int| 0 <= i < store.questions.len() implies after.questions[i]
        != question by {
        assert(after.questions[i] == store.questions[i]);
    }
    assert(positions_of(after.questions, question) =~= set![store.questions.len() as int]);
}

/// Adding an answer keeps the store well formed, and the listing of all
/// answers then holds the new answer exactly once: at its end.
pub proof fn lemma_added_answer_listed_once(store: StoreView, new_answer: NewAnswerView)
    requires
        store.wf(),
    ensures
        ({
            let (after, answer) = store.add_answer(new_answer);
            &&& after.wf()
            &&& after.get_answers(None) == Ok::<Seq<AnswerView>, ErrorView>(after.answers)
            &&& positions_of(after.answers, answer) == set![store.answers.len() as int]
            &&& positions_of(after.answers, answer).len() == 1
        }),
{
    let (after, answer) = store.add_answer(new_answer);
    assert(after.answers[store.answers.len() as int] == answer);
    assert forall|i: int| 0 <= i < store.answers.len() implies after.answers[i] != answer by {
        assert(after.answers[i] == store.answers[i]);
    }
    assert(positions_of(after.answers, answer) =~= set![store.answers.len() as int]);
}

/// An update or a removal that names an identifier which no question has
/// fails with `ItemNotFound` and leaves the store as it was.
pub proof fn lemma_missing_question_untouched(store: StoreView, contents: NewQuestionView, id: int)
    requires
        !store.holds_question(id),
    ensures
        store.update_question(contents, id) == (
            store,
            Err::<QuestionView, ErrorView>(ErrorView::ItemNotFound),
        ),
        store.delete_question(id) == (store, Err::<(), ErrorView>(ErrorView::ItemNotFound)),
{
}

/// In a well-formed store an identifier names one place at most.
pub proof fn lemma_position_unique(store: StoreView, i: int)
    requires
        store.wf(),
        0 <= i < store.questions.len(),
    ensures
        store.holds_question(store.questions[i].id),
        store.position(store.questions[i].id) == i,
{
    let id = store.questions[i].id;
    let p = store.position(id);
    assert(0 <= p < store.questions.len() && store.questions[p].id == id);
    if p < i {
        assert(store.questions[p].id != store.questions[i].id);
    } else if i < p {
        assert(store.questions[i].id != store.questions[p].id);
    }
}

/// An update of a question that the store holds succeeds: the question gets
/// the new contents and keeps its identifier and its place, every other
/// question stays as it was, and the store stays well formed.
pub proof fn lemma_update_held_question(store: StoreView, contents: NewQuestionView, id: int)
    requires
        store.wf(),
        store.holds_question(id),
    ensures
        ({
            let (after, result) = store.update_question(contents, id);
            &&& result == Ok::<QuestionView, ErrorView>(contents.with_id(id))
            &&& after.wf()
            &&& after.questions.len() == store.questions.len()
            &&& forall|i: int|
                0 <= i < store.questions.len() ==> #[trigger] after.questions[i] == if
                    store.questions[i].id == id {
                    contents.with_id(id)
                } else {
                    store.questions[i]
                }
        }),
{
    let (after, result) = store.update_question(contents, id);
    let p = store.position(id);
    assert forall|i: int| 0 <= i < store.questions.len() implies #[trigger] after.questions[i]
        == if store.questions[i].id == id {
        contents.with_id(id)
    } else {
        store.questions[i]
    } by {
        if store.questions[i].id == id {
            lemma_position_unique(store, i);
        }
    }
    assert forall|i: int| 0 <= i < after.questions.len() implies (#[trigger] after.questions[i]).id
        == store.questions[i].id by {}
}

/// A removal of a question that the store holds succeeds: the store then
/// holds one question less and none with that identifier, the others keep
/// their order, and the store stays well formed.
pub proof fn lemma_delete_held_question(store: StoreView, id: int)
    requires
        store.wf(),
        store.holds_question(id),
    ensures
        ({
            let (after, result) = store.delete_question(id);
            &&& result == Ok::<(), ErrorView>(())
            &&& after.wf()
            &&& after.questions.len() == store.questions.len() - 1
            &&& !after.holds_question(id)
            &&& after.questions == store.questions.remove(store.position(id))
        }),
{
    let (after, result) = store.delete_question(id);
    let p = store.position(id);
    assert(0 <= p < store.questions.len() && store.questions[p].id == id);
    assert forall|i: int| 0 <= i < after.questions.len() implies #[trigger] after.questions[i]
        == store.questions[if i < p {
        i
    } else {
        i + 1
    }] by {}
    assert forall|i: int| 0 <= i < after.questions.len() implies (#[trigger] after.questions[i]).id
        != id by {
        let k = if i < p {
            i
        } else {
            i + 1
        };
        assert(after.questions[i] == store.questions[k]);
        if k < p {
            assert(store.questions[k].id != store.questions[p].id);
        } else {
            assert(store.questions[p].id != store.questions[k].id);
        }
    }
    assert forall|i: int, j: int| 0 <= i < j < after.questions.len() implies (
    #[trigger] after.questions[i]).id != (#[trigger] after.questions[j]).id by {
        let ki = if i < p {
            i
        } else {
            i + 1
        };
        let kj = if j < p {
            j
        } else {
            j + 1
        };
        assert(after.questions[i] == store.questions[ki]);
        assert(after.questions[j] == store.questions[kj]);
        assert(store.questions[ki].id != store.questions[kj].id);
    }
    assert forall|i: int| 0 <= i < after.questions.len() implies 1 <= (
    #[trigger] after.questions[i]).id < after.next_question_id by {
        let k = if i < p {
            i
        } else {
            i + 1
        };
        assert(after.questions[i] == store.questions[k]);
    }
}

/// However many questions are added, in whatever order the calls come to
/// run, none is lost and no identifier is handed out twice: the store then
/// holds its old questions and behind them every question of the batch, each
/// under an identifier of its own, counted on from the next one.
pub proof fn lemma_add_questions(store: StoreView, batch: Seq<NewQuestionView>)
    requires
        store.wf(),
    ensures
        ({
            let after = store.add_questions(batch);
            &&& after.wf()
            &&& after.questions.len() == store.questions.len() + batch.len()
            &&& after.next_question_id == store.next_question_id + batch.len()
            &&& after.questions == store.questions + Seq::new(
                batch.len(),
                |k: int| batch[k].with_id(store.next_question_id + k),
            )
            &&& after.answers == store.answers
            &&& after.next_answer_id == store.next_answer_id
        }),
    decreases batch.len(),
{
    let after = store.add_questions(batch);
    let added = Seq::new(batch.len(), |k: int| batch[k].with_id(store.next_question_id + k));
    if batch.len() == 0 {
        assert(after.questions =~= store.questions + added);
    } else {
        let before = store.add_questions(batch.drop_last());
        lemma_add_questions(store, batch.drop_last());
        lemma_added_question_listed_once(before, batch.last());
        assert(after.questions =~= store.questions + added);
    }
}

/// The questions of a listing as mathematical values.
pub open spec fn question_listing(r: Result<Vec<Question>, Error>) -> Result<
    Seq<QuestionView>,
    ErrorView,
> {
    match r {
        Ok(list) => Ok(question_views(list@)),
        Err(e) => Err(e@),
    }
}

/// The answers of a listing as mathematical values.
pub open spec fn answer_listing(r: Result<Vec<Answer>, Error>) -> Result<Seq<AnswerView>, ErrorView> {
    match r {
        Ok(list) => Ok(answer_views(list@)),
        Err(e) => Err(e@),
    }
}

/// The question of an update as a mathematical value.
pub open spec fn question_outcome(r: Result<Question, Error>) -> Result<QuestionView, ErrorView> {
    match r {
        Ok(q) => Ok(q@),
        Err(e) => Err(e@),
    }
}

/// A store of questions and answers that lives in memory. Its fields are its
/// own: a store comes from `new` and changes through its methods only, and
/// these keep it well formed.
#[derive(Debug)]
pub struct InMemoryStore {
    questions: Vec<Question>,
    answers: Vec<Answer>,
    next_question_id: i32,
    next_answer_id: i32,
}

impl View for InMemoryStore {
    type V = StoreView;

    closed spec fn view(&self) -> StoreView {
        StoreView {
            questions: question_views(self.questions@),
            answers: answer_views(self.answers@),
            next_question_id: self.next_question_id as int,
            next_answer_id: self.next_answer_id as int,
        }
    }
}

impl InMemoryStore {
    /// A store that holds nothing yet. Its first records get the identifier 1.
    pub fn new() -> (store: Self)
        ensures
            store@ == StoreView::empty(),
            store@.wf(),
    {
        let store = InMemoryStore {
            questions: Vec::new(),
            answers: Vec::new(),
            next_question_id: 1,
            next_answer_id: 1,
        };
        assert(store@.questions =~= Seq::empty());
        assert(store@.answers =~= Seq::empty());
        store
    }

    /// Whether the store can still hand out an identifier to a question.
    pub fn has_question_id_left(&self) -> (left: bool)
        ensures
            left == (self@.next_question_id < i32::MAX),
    {
        self.next_question_id < i32::MAX
    }

    /// Whether the store can still hand out an identifier to an answer.
    pub fn has_answer_id_left(&self) -> (left: bool)
        ensures
            left == (self@.next_answer_id < i32::MAX),
    {
        self.next_answer_id < i32::MAX
    }

    /// How many questions the store holds.
    pub fn question_count(&self) -> (n: usize)
        ensures
            n == self@.questions.len(),
    {
        self.questions.len()
    }

    /// How many answers the store holds.
    pub fn answer_count(&self) -> (n: usize)
        ensures
            n == self@.answers.len(),
    {
        self.answers.len()
    }

    /// Lists the questions: all of them, oldest first, or those of `range`.
    /// A range that is out of order or reaches behind the last question is
    /// refused.
    pub fn get_questions(&self, range: Option<IndexRange>) -> (r: Result<Vec<Question>, Error>)
        ensures
            question_listing(r) == self@.get_questions(range),
    {
        let (start, end) = match range {
            None => (0, self.questions.len()),
            Some(r) => {
                match r.check(self.questions.len()) {
                    Ok(_) => (r.start, r.end),
                    Err(e) => {
                        return Err(e);
                    },
                }
            },
        };
        let mut out: Vec<Question> = Vec::new();
        let mut i: usize = start;
        while i < end
            invariant
                start <= i <= end <= self.questions.len(),
                out.len() == i - start,
                forall|k: int| 0 <= k < out.len() ==> out[k]@ == self.questions[start + k]@,
            decreases end - i,
        {
            out.push(self.questions[i].clone());
            i = i + 1;
        }
        assert(question_views(out@) =~= self@.questions.subrange(start as int, end as int));
        assert(self@.questions.subrange(0, self@.questions.len() as int) =~= self@.questions);
        Ok(out)
    }

    /// Lists the answers: all of them, oldest first, or those of `range`.
    pub fn get_answers(&self, range: Option<IndexRange>) -> (r: Result<Vec<Answer>, Error>)
        ensures
            answer_listing(r) == self@.get_answers(range),
    {
        let (start, end) = match range {
            None => (0, self.answers.len()),
            Some(r) => {
                match r.check(self.answers.len()) {
                    Ok(_) => (r.start, r.end),
                    Err(e) => {
                        return Err(e);
                    },
                }
            },
        };
        let mut out: Vec<Answer> = Vec::new();
        let mut i: usize = start;
        while i < end
            invariant
                start <= i <= end <= self.answers.len(),
                out.len() == i - start,
                forall|k: int| 0 <= k < out.len() ==> out[k]@ == self.answers[start + k]@,
            decreases end - i,
        {
            out.push(self.answers[i].clone());
            i = i + 1;
        }
        assert(answer_views(out@) =~= self@.answers.subrange(start as int, end as int));
        assert(self@.answers.subrange(0, self@.answers.len() as int) =~= self@.answers);
        Ok(out)
    }

    /// Stores a new question under the next identifier and returns it as it
    /// was stored.
    pub fn add_question(&mut self, new_question: NewQuestion) -> (question: Question)
        requires
            old(self)@.wf(),
            old(self)@.next_question_id < i32::MAX,
        ensures
            (final(self)@, question@) == old(self)@.add_question(new_question@),
            final(self)@.wf(),
    {
        let id = self.next_question_id;
        let stored = Question {
            id: QuestionId(id),
            title: new_question.title.clone(),
            content: new_question.content.clone(),
            tags: copy_tags(&new_question.tags),
        };
        let question = Question {
            id: QuestionId(id),
            title: new_question.title,
            content: new_question.content,
            tags: new_question.tags,
        };
        self.next_question_id = id + 1;
        self.questions.push(stored);
        assert(final(self)@.questions =~= old(self)@.questions.push(question@));
        question
    }

    /// Stores a new answer under the next identifier and returns it as it was
    /// stored. Whether the question that it names exists is not looked at.
    pub fn add_answer(&mut self, new_answer: NewAnswer) -> (answer: Answer)
        requires
            old(self)@.wf(),
            old(self)@.next_answer_id < i32::MAX,
        ensures
            (final(self)@, answer@) == old(self)@.add_answer(new_answer@),
            final(self)@.wf(),
    {
        let id = self.next_answer_id;
        let stored = Answer {
            id: AnswerId(id),
            content: new_answer.content.clone(),
            question_id: QuestionId(new_answer.question_id.0),
        };
        let answer = Answer {
            id: AnswerId(id),
            content: new_answer.content,
            question_id: new_answer.question_id,
        };
        self.next_answer_id = id + 1;
        self.answers.push(stored);
        assert(final(self)@.answers =~= old(self)@.answers.push(answer@));
        answer
    }

    /// The place of the question `id`, if the store holds it.
    fn find_question(&self, id: i32) -> (place: Option<usize>)
        requires
            self@.wf(),
        ensures
            match place {
                Some(i) => self@.holds_question(id as int) && i == self@.position(id as int),
                None => !self@.holds_question(id as int),
            },
    {
        let mut i: usize = 0;
        while i < self.questions.len()
            invariant
                i <= self.questions.len(),
                self@.wf(),
                forall|k: int| 0 <= k < i ==> (#[trigger] self@.questions[k]).id != id,
            decreases self.questions.len() - i,
        {
            if self.questions[i].id.0 == id {
                assert(self@.questions[i as int].id == id);
                return Some(i);
            }
            i = i + 1;
        }
        None
    }

    /// Gives the question `question_id` the title, content and tags of
    /// `question`, in place, and returns it as it then stands. The identifier
    /// inside `question` is not looked at.
    pub fn update_question(&mut self, question: Question, question_id: i32) -> (r: Result<
        Question,
        Error,
    >)
        requires
            old(self)@.wf(),
        ensures
            (final(self)@, question_outcome(r)) == old(self)@.update_question(
                question@.body(),
                question_id as int,
            ),
            final(self)@.wf(),
    {
        match self.find_question(question_id) {
            None => Err(Error::ItemNotFound),
            Some(i) => {
                let stored = Question {
                    id: QuestionId(question_id),
                    title: question.title.clone(),
                    content: question.content.clone(),
                    tags: copy_tags(&question.tags),
                };
                let updated = Question {
                    id: QuestionId(question_id),
                    title: question.title,
                    content: question.content,
                    tags: question.tags,
                };
                self.questions.set(i, stored);
                assert(final(self)@.questions =~= old(self)@.questions.update(i as int, updated@));
                Ok(updated)
            },
        }
    }

    /// Removes the question `question_id`.
    pub fn delete_question(&mut self, question_id: i32) -> (r: Result<(), Error>)
        requires
            old(self)@.wf(),
        ensures
            (final(self)@, outcome(r)) == old(self)@.delete_question(question_id as int),
            final(self)@.wf(),
    {
        match self.find_question(question_id) {
            None => Err(Error::ItemNotFound),
            Some(i) => {
                self.questions.remove(i);
                assert(final(self)@.questions =~= old(self)@.questions.remove(i as int));
                Ok(())
            },
        }
    }
}

} // verus!
