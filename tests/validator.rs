use chat_core::validator::{
    validate_new_message, validate_register, Field, FieldProblem, Gate, NewMessageBody,
    RegisterBody, ValidateRegister, MAX_FIELD_CHARS, MAX_MESSAGE_CHARS,
};

fn body(u: Option<&str>, c: Option<&str>, p: Option<&str>) -> RegisterBody {
    RegisterBody {
        username: u.map(|s| s.to_string()),
        contact: c.map(|s| s.to_string()),
        password: p.map(|s| s.to_string()),
    }
}

struct CountingHandler {
    calls: std::cell::Cell<u32>,
}

#[test]
fn register_missing_field_is_rejected_without_handler() {
    let mw = ValidateRegister.new_transform(CountingHandler { calls: std::cell::Cell::new(0) });
    match mw.call(body(Some("alice"), None, Some("secret"))) {
        Gate::Forward(_) => mw.service().calls.set(mw.service().calls.get() + 1),
        Gate::Reject(r) => {
            assert_eq!(r.status, 400);
            assert_eq!(r.message, "contact is required");
        }
    }
    assert_eq!(mw.service().calls.get(), 0);
}

#[test]
fn register_well_formed_body_reaches_handler_intact() {
    let mw = ValidateRegister.new_transform(CountingHandler { calls: std::cell::Cell::new(0) });
    match mw.call(body(Some("alice"), Some("a@x.io"), Some("p4ss word"))) {
        Gate::Forward(req) => {
            mw.service().calls.set(mw.service().calls.get() + 1);
            assert_eq!(req.username, "alice");
            assert_eq!(req.contact, "a@x.io");
            assert_eq!(req.password, "p4ss word");
        }
        Gate::Reject(r) => panic!("rejected: {}", r.message),
    }
    assert_eq!(mw.service().calls.get(), 1);
}

#[test]
fn register_problems_are_aggregated_in_field_order() {
    let long = "x".repeat(MAX_FIELD_CHARS + 1);
    let e = validate_register(body(None, Some(""), Some(&long))).unwrap_err();
    assert_eq!(
        e.problems,
        vec![
            FieldProblem::Missing(Field::Username),
            FieldProblem::Empty(Field::Contact),
            FieldProblem::TooLong(Field::Password),
        ]
    );
    let r = e.response();
    assert_eq!(r.status, 400);
    assert_eq!(
        r.message,
        "username is required; contact must not be empty; password is too long"
    );
}

#[test]
fn register_length_bound_counts_characters() {
    let at_limit = "é".repeat(MAX_FIELD_CHARS);
    let req = validate_register(body(Some(&at_limit), Some("c"), Some("p"))).unwrap();
    assert_eq!(req.username, at_limit);
    let over = "é".repeat(MAX_FIELD_CHARS + 1);
    let e = validate_register(body(Some(&over), Some("c"), Some("p"))).unwrap_err();
    assert_eq!(e.problems, vec![FieldProblem::TooLong(Field::Username)]);
}

#[test]
fn new_message_checks() {
    match validate_new_message(NewMessageBody { message_text: Some("hello".to_string()) }) {
        Gate::Forward(req) => assert_eq!(req.message_text, "hello"),
        Gate::Reject(r) => panic!("rejected: {}", r.message),
    }
    match validate_new_message(NewMessageBody { message_text: None }) {
        Gate::Reject(r) => {
            assert_eq!(r.status, 400);
            assert_eq!(r.message, "message_text is required");
        }
        Gate::Forward(_) => panic!("missing text accepted"),
    }
    match validate_new_message(NewMessageBody { message_text: Some(String::new()) }) {
        Gate::Reject(r) => assert_eq!(r.message, "message_text must not be empty"),
        Gate::Forward(_) => panic!("empty text accepted"),
    }
    let long = "y".repeat(MAX_MESSAGE_CHARS + 1);
    match validate_new_message(NewMessageBody { message_text: Some(long) }) {
        Gate::Reject(r) => assert_eq!(r.message, "message_text is too long"),
        Gate::Forward(_) => panic!("long text accepted"),
    }
}
