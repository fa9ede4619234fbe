use qa_service::errors::Error;
use qa_service::profanity::{check_profanity, ModerationOutcome};
use qa_service::routes::answer::add_answer;
use qa_service::routes::question::{add_question, delete_question, get_questions, update_question};
use qa_service::store::Store;
use qa_service::types::answer::NewAnswer;
use qa_service::types::question::{NewQuestion, Question, QuestionId};

fn clean(text: &str) -> ModerationOutcome {
    ModerationOutcome::Censored { censored_content: text.to_string() }
}

fn new_question(title: &str, content: &str) -> NewQuestion {
    NewQuestion { title: title.to_string(), content: content.to_string(), tags: None }
}

fn seed(store: &mut Store, n: usize) {
    let mut i = 0;
    while i < n {
        let title = format!("title {}", i);
        let content = format!("content {}", i);
        add_question(store, new_question(&title, &content), clean(&title), clean(&content))
            .unwrap();
        i += 1;
    }
}

#[test]
fn listing_without_parameters_returns_everything() {
    let mut store = Store::new();
    seed(&mut store, 5);
    let all = get_questions(Vec::new(), &store).unwrap();
    assert_eq!(all.len(), 5);
}

#[test]
fn listing_with_limit_two_offset_zero_returns_first_two_in_order() {
    let mut store = Store::new();
    seed(&mut store, 5);
    let params = vec![
        ("limit".to_string(), "2".to_string()),
        ("offset".to_string(), "0".to_string()),
    ];
    let page = get_questions(params, &store).unwrap();
    assert_eq!(page.len(), 2);
    assert_eq!(page[0].title, "title 0");
    assert_eq!(page[1].title, "title 1");
}

#[test]
fn listing_with_bad_parameters_reports_the_extraction_error() {
    let store = Store::new();
    let params = vec![("limit".to_string(), "two".to_string())];
    let r = get_questions(params, &store);
    assert!(matches!(r, Err(Error::MissingParameters)));
}

#[test]
fn clean_moderation_stores_the_text_unchanged() {
    let mut store = Store::new();
    let stored = add_question(
        &mut store,
        new_question("hello", "world"),
        clean("hello"),
        clean("world"),
    )
    .unwrap();
    assert_eq!(stored.title, "hello");
    assert_eq!(stored.content, "world");
    let all = get_questions(Vec::new(), &store).unwrap();
    assert_eq!(all.len(), 1);
    assert_eq!(all[0].title, "hello");
    assert_eq!(all[0].content, "world");
}

#[test]
fn moderation_censors_what_it_returns() {
    let mut store = Store::new();
    let stored = add_question(
        &mut store,
        new_question("rude title", "rude content"),
        ModerationOutcome::Censored { censored_content: "**** title".to_string() },
        ModerationOutcome::Censored { censored_content: "**** content".to_string() },
    )
    .unwrap();
    assert_eq!(stored.title, "**** title");
    assert_eq!(stored.content, "**** content");
}

#[test]
fn moderation_server_failure_persists_nothing() {
    let mut store = Store::new();
    let r = add_question(
        &mut store,
        new_question("hello", "world"),
        ModerationOutcome::ApiFailure { status: 503, message: "unavailable".to_string() },
        clean("world"),
    );
    match r {
        Err(Error::ServerError { status, message }) => {
            assert_eq!(status, 503);
            assert_eq!(message, "unavailable");
        },
        _ => panic!("expected a server error"),
    }
    assert!(get_questions(Vec::new(), &store).unwrap().is_empty());
}

#[test]
fn moderation_client_failure_is_classified_as_client_error() {
    let mut store = Store::new();
    let r = add_question(
        &mut store,
        new_question("hello", "world"),
        clean("hello"),
        ModerationOutcome::ApiFailure { status: 403, message: "bad key".to_string() },
    );
    match r {
        Err(Error::ClientError { status, message }) => {
            assert_eq!(status, 403);
            assert_eq!(message, "bad key");
        },
        _ => panic!("expected a client error"),
    }
    assert!(get_questions(Vec::new(), &store).unwrap().is_empty());
}

#[test]
fn moderation_transport_failure_is_classified_as_external_api_error() {
    let r = check_profanity(ModerationOutcome::Transport {
        message: "connection refused".to_string(),
    });
    match r {
        Err(Error::ExternalAPIError { message }) => assert_eq!(message, "connection refused"),
        _ => panic!("expected an external api error"),
    }
}

#[test]
fn content_failure_aborts_after_title_succeeded() {
    let mut store = Store::new();
    let r = add_question(
        &mut store,
        new_question("hello", "world"),
        clean("hello"),
        ModerationOutcome::Transport { message: "timed out".to_string() },
    );
    assert!(matches!(r, Err(Error::ExternalAPIError { .. })));
    assert!(get_questions(Vec::new(), &store).unwrap().is_empty());
}

#[test]
fn update_route_replaces_the_record_under_the_path_id() {
    let mut store = Store::new();
    seed(&mut store, 2);
    let body = Question {
        id: QuestionId("2".to_string()),
        title: "edited".to_string(),
        content: "body".to_string(),
        tags: None,
    };
    let updated = update_question(
        "2".to_string(),
        &mut store,
        body,
        clean("edited"),
        clean("body"),
    )
    .unwrap();
    assert_eq!(updated.id.0, "2");
    assert_eq!(updated.title, "edited");
    let all = get_questions(Vec::new(), &store).unwrap();
    assert_eq!(all[1].title, "edited");
    assert_eq!(all[0].title, "title 0");
}

#[test]
fn update_route_unknown_id_fails_with_question_not_found() {
    let mut store = Store::new();
    seed(&mut store, 1);
    let body = Question {
        id: QuestionId("7".to_string()),
        title: "edited".to_string(),
        content: "body".to_string(),
        tags: None,
    };
    let r = update_question("7".to_string(), &mut store, body, clean("edited"), clean("body"));
    assert!(matches!(r, Err(Error::QuestionNotFound)));
    assert_eq!(get_questions(Vec::new(), &store).unwrap().len(), 1);
}

#[test]
fn update_route_moderation_failure_leaves_the_record_alone() {
    let mut store = Store::new();
    seed(&mut store, 1);
    let body = Question {
        id: QuestionId("1".to_string()),
        title: "edited".to_string(),
        content: "body".to_string(),
        tags: None,
    };
    let r = update_question(
        "1".to_string(),
        &mut store,
        body,
        ModerationOutcome::ApiFailure { status: 500, message: "broken".to_string() },
        clean("body"),
    );
    assert!(matches!(r, Err(Error::ServerError { .. })));
    assert_eq!(get_questions(Vec::new(), &store).unwrap()[0].title, "title 0");
}

#[test]
fn delete_route_removes_and_then_reports_not_found() {
    let mut store = Store::new();
    seed(&mut store, 2);
    delete_question("1".to_string(), &mut store).unwrap();
    let all = get_questions(Vec::new(), &store).unwrap();
    assert_eq!(all.len(), 1);
    assert_eq!(all[0].id.0, "2");
    let again = delete_question("1".to_string(), &mut store);
    assert!(matches!(again, Err(Error::QuestionNotFound)));
}

#[test]
fn answer_route_stores_censored_content() {
    let mut store = Store::new();
    seed(&mut store, 1);
    let a = add_answer(
        &mut store,
        NewAnswer { content: "rude".to_string(), question_id: QuestionId("1".to_string()) },
        ModerationOutcome::Censored { censored_content: "****".to_string() },
    )
    .unwrap();
    assert_eq!(a.id.0, 1);
    assert_eq!(a.content, "****");
    assert_eq!(a.question_id.0, "1");
}

#[test]
fn answer_route_moderation_failure_persists_nothing() {
    let mut store = Store::new();
    let r = add_answer(
        &mut store,
        NewAnswer { content: "text".to_string(), question_id: QuestionId("1".to_string()) },
        ModerationOutcome::ApiFailure { status: 503, message: "down".to_string() },
    );
    assert!(matches!(r, Err(Error::ServerError { .. })));
}
