use json_errors::text::{describe, join};
use json_errors::{ErrorBody, ErrorsBody, JsonError, JsonErrors};

#[test]
fn new_derives_the_body_from_the_description() {
    let error = JsonError::new(400, "Bad request");
    assert_eq!(error.status, 400);
    assert_eq!(error.description, "Bad request");
    assert_eq!(error.body, ErrorBody { error: String::from("Bad request") });
}

#[test]
fn new_takes_an_empty_description() {
    let error = JsonError::new(0, "");
    assert_eq!(error.status, 0);
    assert_eq!(error.description, "");
    assert_eq!(error.body.error, "");
}

#[test]
fn single_error_aggregate_has_its_status_and_description() {
    let errors = JsonErrors::from(JsonError::new(422, "email already exists"));
    assert_eq!(errors.1, 422);
    assert_eq!(errors.0, vec![JsonError::new(422, "email already exists")]);
    assert_eq!(errors.descriptions(), vec![String::from("email already exists")]);
    assert_eq!(errors.description(), "email already exists");
}

#[test]
fn single_error_aggregate_body() {
    let errors = JsonErrors::from(JsonError::new(404, "Not found"));
    assert_eq!(
        errors.body(),
        ErrorsBody { error: String::from("Not found"), errors: vec![String::from("Not found")] }
    );
}

#[test]
fn aggregate_of_several_lists_them_in_order() {
    let errors = JsonErrors(
        vec![
            JsonError::new(422, "email already exists"),
            JsonError::new(404, "Not found"),
            JsonError::new(500, "Unknown Stripe error"),
        ],
        422,
    );
    assert_eq!(
        errors.descriptions(),
        vec![
            String::from("email already exists"),
            String::from("Not found"),
            String::from("Unknown Stripe error"),
        ]
    );
    assert_eq!(errors.description(), "email already exists\nNot found\nUnknown Stripe error");
    let body = errors.body();
    assert_eq!(body.error, "email already exists\nNot found\nUnknown Stripe error");
    assert_eq!(body.errors, errors.descriptions());
    assert_eq!(errors.1, 422);
}

#[test]
fn empty_aggregate_has_an_empty_body() {
    let errors = JsonErrors(Vec::new(), 500);
    assert_eq!(errors.descriptions(), Vec::<String>::new());
    assert_eq!(errors.description(), "");
    assert_eq!(errors.body(), ErrorsBody { error: String::new(), errors: Vec::new() });
}

#[test]
fn aggregate_keeps_empty_descriptions_as_lines() {
    let errors = JsonErrors(vec![JsonError::new(400, ""), JsonError::new(400, "")], 400);
    assert_eq!(errors.description(), "\n");
    assert_eq!(errors.descriptions(), vec![String::new(), String::new()]);
}

#[test]
fn join_puts_the_separator_between_neighbours() {
    assert_eq!(join(&Vec::new(), ", "), "");
    assert_eq!(join(&vec![String::from("a")], ", "), "a");
    assert_eq!(join(&vec![String::from("a"), String::from("b")], ", "), "a, b");
    assert_eq!(
        join(&vec![String::from("a"), String::new(), String::from("c")], "-"),
        "a--c"
    );
    assert_eq!(join(&vec![String::from("a"), String::from("b")], ""), "ab");
}

#[test]
fn describe_joins_origin_and_cause_with_one_space() {
    assert_eq!(describe(Some(String::from("email")), "already exists"), "email already exists");
    assert_eq!(describe(None, "already exists"), "already exists");
    assert_eq!(describe(Some(String::new()), "x"), " x");
    assert_eq!(describe(Some(String::from("a")), ""), "a ");
}
