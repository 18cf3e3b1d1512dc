use qa_api::error::Error;
use qa_api::number::ParseFailure;
use qa_api::routes::answer::{add_answer, get_answers};
use qa_api::routes::question::{
    add_question, delete_question, deleted_reply, get_questions, update_question,
};
use qa_api::store::InMemoryStore;
use qa_api::types::answer::NewAnswer;
use qa_api::types::question::{NewQuestion, Question, QuestionId};
use std::collections::HashMap;

fn query(pairs: &[(&str, &str)]) -> HashMap<String, String> {
    let mut params = HashMap::new();
    for (key, value) in pairs {
        params.insert(key.to_string(), value.to_string());
    }
    params
}

fn store_of(n: usize) -> InMemoryStore {
    let mut store = InMemoryStore::new();
    for i in 0..n {
        let reply = add_question(
            &mut store,
            NewQuestion { title: format!("title {}", i), content: format!("content {}", i), tags: None },
        );
        assert_eq!(reply.status, 200);
    }
    store
}

#[test]
fn start_one_end_ten_of_fifteen() {
    let store = store_of(15);
    let listed = get_questions(query(&[("start", "1"), ("end", "10")]), &store).unwrap();
    assert_eq!(listed.len(), 9);
    for (k, q) in listed.iter().enumerate() {
        assert_eq!(q.id, QuestionId(k as i32 + 2));
        assert_eq!(q.title, format!("title {}", k + 1));
    }
}

#[test]
fn start_ten_end_five_is_refused() {
    let store = store_of(15);
    assert!(matches!(
        get_questions(query(&[("start", "10"), ("end", "5")]), &store),
        Err(Error::StartGreaterThanEnd)
    ));
}

#[test]
fn an_end_behind_the_questions_is_refused() {
    let store = store_of(15);
    assert!(matches!(
        get_questions(query(&[("start", "0"), ("end", "16")]), &store),
        Err(Error::EndParamExceedsItemList)
    ));
}

#[test]
fn no_parameters_list_all_questions() {
    let store = store_of(4);
    let listed = get_questions(HashMap::new(), &store).unwrap();
    assert_eq!(listed.len(), 4);
    assert_eq!(listed[0].id, QuestionId(1));
    assert_eq!(listed[3].id, QuestionId(4));
}

#[test]
fn half_a_pair_is_a_missing_parameter() {
    let store = store_of(4);
    assert!(matches!(get_questions(query(&[("start", "1")]), &store), Err(Error::MissingParameters)));
    assert!(matches!(get_questions(query(&[("end", "1")]), &store), Err(Error::MissingParameters)));
    assert!(matches!(get_questions(query(&[("other", "1")]), &store), Err(Error::MissingParameters)));
}

#[test]
fn a_parameter_that_is_no_number_is_a_parse_error() {
    let store = store_of(4);
    assert!(matches!(
        get_questions(query(&[("start", "one"), ("end", "3")]), &store),
        Err(Error::ParseError(ParseFailure::InvalidDigit))
    ));
    assert!(matches!(
        get_questions(query(&[("start", "1"), ("end", "-3")]), &store),
        Err(Error::ParseError(ParseFailure::InvalidDigit))
    ));
}

#[test]
fn adding_a_question_is_confirmed() {
    let mut store = InMemoryStore::new();
    let reply = add_question(
        &mut store,
        NewQuestion { title: "t".to_string(), content: "c".to_string(), tags: None },
    );
    assert_eq!(reply.status, 200);
    assert_eq!(reply.body, "Question added");
    assert_eq!(store.question_count(), 1);
}

#[test]
fn updating_returns_the_question() {
    let mut store = store_of(2);
    let sent = Question { id: QuestionId(1), title: "x".to_string(), content: "y".to_string(), tags: None };
    let updated = update_question(2, &mut store, sent.clone()).unwrap();
    assert_eq!(updated.id, QuestionId(2));
    assert_eq!(updated.title, "x");
    assert!(matches!(update_question(3, &mut store, sent), Err(Error::ItemNotFound)));
    let listed = get_questions(HashMap::new(), &store).unwrap();
    assert_eq!(listed[0].title, "title 0");
    assert_eq!(listed[1].title, "x");
}

#[test]
fn removing_is_confirmed_with_the_identifier() {
    let mut store = store_of(12);
    let reply = delete_question(12, &mut store).unwrap();
    assert_eq!(reply.status, 200);
    assert_eq!(reply.body, "Question 12 deleted");
    assert_eq!(store.question_count(), 11);
    assert!(matches!(delete_question(12, &mut store), Err(Error::ItemNotFound)));
    assert!(matches!(delete_question(-4, &mut store), Err(Error::ItemNotFound)));
    assert_eq!(store.question_count(), 11);
}

#[test]
fn the_confirmation_names_any_identifier() {
    assert_eq!(deleted_reply(0).body, "Question 0 deleted");
    assert_eq!(deleted_reply(-7).body, "Question -7 deleted");
    assert_eq!(deleted_reply(i32::MAX).body, "Question 2147483647 deleted");
    assert_eq!(deleted_reply(i32::MIN).body, "Question -2147483648 deleted");
    assert_eq!(deleted_reply(5).status, 200);
}

#[test]
fn answers_are_added_and_listed() {
    let mut store = InMemoryStore::new();
    for i in 0..4 {
        let reply = add_answer(
            &mut store,
            NewAnswer { content: format!("answer {}", i), question_id: QuestionId(1) },
        );
        assert_eq!(reply.status, 200);
        assert_eq!(reply.body, "Answer added");
    }
    assert_eq!(get_answers(HashMap::new(), &store).unwrap().len(), 4);
    let listed = get_answers(query(&[("start", "1"), ("end", "3")]), &store).unwrap();
    assert_eq!(listed.len(), 2);
    assert_eq!(listed[0].content, "answer 1");
    assert_eq!(listed[1].content, "answer 2");
    assert!(matches!(
        get_answers(query(&[("start", "3"), ("end", "1")]), &store),
        Err(Error::StartGreaterThanEnd)
    ));
    assert!(matches!(get_answers(query(&[("start", "3")]), &store), Err(Error::MissingParameters)));
}
