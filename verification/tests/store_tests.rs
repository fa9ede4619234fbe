use qa_service::errors::Error;
use qa_service::store::Store;
use qa_service::types::answer::NewAnswer;
use qa_service::types::question::{NewQuestion, Question, QuestionId};

fn new_question(title: &str, content: &str) -> NewQuestion {
    NewQuestion { title: title.to_string(), content: content.to_string(), tags: None }
}

fn seed(store: &mut Store, n: usize) {
    let mut i = 0;
    while i < n {
        let q = new_question(&format!("title {}", i), &format!("content {}", i));
        store.add_question(q).unwrap();
        i += 1;
    }
}

#[test]
fn new_store_is_empty() {
    let store = Store::new();
    let all = store.get_questions(None, 0).unwrap();
    assert!(all.is_empty());
}

#[test]
fn identifiers_count_up_from_one() {
    let mut store = Store::new();
    let first = store.add_question(new_question("a", "b")).unwrap();
    let second = store.add_question(new_question("c", "d")).unwrap();
    assert_eq!(first.id.0, "1");
    assert_eq!(second.id.0, "2");
}

#[test]
fn added_question_is_listed_exactly_once() {
    let mut store = Store::new();
    seed(&mut store, 3);
    let added = store.add_question(new_question("fresh", "record")).unwrap();
    let all = store.get_questions(None, 0).unwrap();
    let occurrences = all.iter().filter(|q| q.id.0 == added.id.0).count();
    assert_eq!(occurrences, 1);
    assert_eq!(all.len(), 4);
    assert_eq!(all[3].title, "fresh");
    assert_eq!(all[3].content, "record");
}

#[test]
fn identical_content_creates_two_distinct_records() {
    let mut store = Store::new();
    let a = store.add_question(new_question("same", "same")).unwrap();
    let b = store.add_question(new_question("same", "same")).unwrap();
    assert_ne!(a.id.0, b.id.0);
    assert_eq!(store.get_questions(None, 0).unwrap().len(), 2);
}

#[test]
fn many_adds_produce_all_distinct_records() {
    let mut store = Store::new();
    let mut ids: Vec<String> = Vec::new();
    let mut i = 0;
    while i < 10 {
        let q = store.add_question(new_question(&format!("t{}", i), &format!("c{}", i))).unwrap();
        ids.push(q.id.0.clone());
        i += 1;
    }
    let all = store.get_questions(None, 0).unwrap();
    assert_eq!(all.len(), 10);
    let mut a = 0;
    while a < ids.len() {
        let mut b = a + 1;
        while b < ids.len() {
            assert_ne!(ids[a], ids[b]);
            b += 1;
        }
        a += 1;
    }
}

#[test]
fn pagination_slices_in_stable_order() {
    let mut store = Store::new();
    seed(&mut store, 5);
    let page = store.get_questions(Some(2), 0).unwrap();
    assert_eq!(page.len(), 2);
    assert_eq!(page[0].title, "title 0");
    assert_eq!(page[1].title, "title 1");
}

#[test]
fn pagination_offset_skips_records() {
    let mut store = Store::new();
    seed(&mut store, 5);
    let page = store.get_questions(Some(2), 3).unwrap();
    assert_eq!(page.len(), 2);
    assert_eq!(page[0].title, "title 3");
    assert_eq!(page[1].title, "title 4");
}

#[test]
fn pagination_beyond_the_end_yields_what_is_there() {
    let mut store = Store::new();
    seed(&mut store, 3);
    assert_eq!(store.get_questions(Some(10), 2).unwrap().len(), 1);
    assert!(store.get_questions(Some(2), 10).unwrap().is_empty());
    assert!(store.get_questions(None, 3).unwrap().is_empty());
}

#[test]
fn update_replaces_the_record_and_keeps_the_identifier() {
    let mut store = Store::new();
    seed(&mut store, 2);
    let replacement = Question {
        id: QuestionId("ignored".to_string()),
        title: "new title".to_string(),
        content: "new content".to_string(),
        tags: Some(vec!["tag".to_string()]),
    };
    let updated = store.update_question(replacement, QuestionId("2".to_string())).unwrap();
    assert_eq!(updated.id.0, "2");
    assert_eq!(updated.title, "new title");
    let all = store.get_questions(None, 0).unwrap();
    assert_eq!(all.len(), 2);
    assert_eq!(all[0].title, "title 0");
    assert_eq!(all[1].title, "new title");
    assert_eq!(all[1].tags, Some(vec!["tag".to_string()]));
}

#[test]
fn update_unknown_id_fails_and_leaves_store_unchanged() {
    let mut store = Store::new();
    seed(&mut store, 2);
    let replacement = Question {
        id: QuestionId("99".to_string()),
        title: "x".to_string(),
        content: "y".to_string(),
        tags: None,
    };
    let r = store.update_question(replacement, QuestionId("99".to_string()));
    assert!(matches!(r, Err(Error::QuestionNotFound)));
    let all = store.get_questions(None, 0).unwrap();
    assert_eq!(all.len(), 2);
    assert_eq!(all[0].title, "title 0");
    assert_eq!(all[1].title, "title 1");
}

#[test]
fn delete_removes_exactly_that_record() {
    let mut store = Store::new();
    seed(&mut store, 3);
    store.delete_question(QuestionId("2".to_string())).unwrap();
    let all = store.get_questions(None, 0).unwrap();
    assert_eq!(all.len(), 2);
    assert_eq!(all[0].id.0, "1");
    assert_eq!(all[1].id.0, "3");
}

#[test]
fn second_delete_of_the_same_id_fails() {
    let mut store = Store::new();
    seed(&mut store, 1);
    assert!(store.delete_question(QuestionId("1".to_string())).is_ok());
    let again = store.delete_question(QuestionId("1".to_string()));
    assert!(matches!(again, Err(Error::QuestionNotFound)));
}

#[test]
fn deleted_identifier_is_not_reused() {
    let mut store = Store::new();
    seed(&mut store, 2);
    store.delete_question(QuestionId("2".to_string())).unwrap();
    let fresh = store.add_question(new_question("later", "record")).unwrap();
    assert_eq!(fresh.id.0, "3");
}

#[test]
fn add_answer_assigns_identifiers_and_skips_validation() {
    let mut store = Store::new();
    let first = store
        .add_answer(NewAnswer {
            content: "an answer".to_string(),
            question_id: QuestionId("no such question".to_string()),
        })
        .unwrap();
    let second = store
        .add_answer(NewAnswer {
            content: "another".to_string(),
            question_id: QuestionId("1".to_string()),
        })
        .unwrap();
    assert_eq!(first.id.0, 1);
    assert_eq!(second.id.0, 2);
    assert_eq!(first.content, "an answer");
}
