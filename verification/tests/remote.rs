use json_errors::remote::{classify_body, parse_body, RemoteResponse, TransportFailure};
use json_errors::{JsonError, JsonErrors};

fn response(status: u16, body: &str) -> RemoteResponse {
    RemoteResponse { status, body: Some(String::from(body)) }
}

#[test]
fn parse_body_reads_the_error_member() {
    assert_eq!(parse_body("{\"error\": \"X\"}"), Some(String::from("X")));
    assert_eq!(parse_body("{\"error\":\"not allowed\"}"), Some(String::from("not allowed")));
    assert_eq!(parse_body("  {\"error\" : \"a \\\"b\\\"\\n\"}  "), Some(String::from("a \"b\"\n")));
    assert_eq!(parse_body("{\"error\": \"\"}"), Some(String::new()));
    assert_eq!(parse_body("{\"code\": 7, \"error\": \"X\"}"), Some(String::from("X")));
}

#[test]
fn parse_body_gives_nothing_for_other_bodies() {
    assert_eq!(parse_body(""), None);
    assert_eq!(parse_body("X"), None);
    assert_eq!(parse_body("Internal Server Error"), None);
    assert_eq!(parse_body("\"X\""), None);
    assert_eq!(parse_body("[\"X\"]"), None);
    assert_eq!(parse_body("{}"), None);
    assert_eq!(parse_body("{\"message\": \"X\"}"), None);
    assert_eq!(parse_body("{\"error\": 5}"), None);
    assert_eq!(parse_body("{\"error\": null}"), None);
    assert_eq!(parse_body("{\"error\": {\"message\": \"X\"}}"), None);
    assert_eq!(parse_body("{\"error\": \"X\""), None);
    assert_eq!(parse_body("{\"error\": \"X\"} trailing"), None);
    assert_eq!(parse_body("error"), None);
}

#[test]
fn classify_body_prefers_the_parsed_text() {
    let error = classify_body(404, "{\"error\": \"X\"}", Some(String::from("X")));
    assert_eq!(error, JsonError::new(404, "X"));
    let error = classify_body(503, "gateway down", None);
    assert_eq!(error, JsonError::new(503, "gateway down"));
    let error = classify_body(400, "", None);
    assert_eq!(error, JsonError::new(400, ""));
}

#[test]
fn response_with_error_body_gives_its_text() {
    let error = JsonError::from(response(403, "{\"error\": \"X\"}"));
    assert_eq!(error.status, 403);
    assert_eq!(error.description, "X");
    assert_eq!(error.body.error, "X");
}

#[test]
fn response_with_other_body_gives_the_body() {
    let error = JsonError::from(response(502, "Bad Gateway"));
    assert_eq!(error.status, 502);
    assert_eq!(error.description, "Bad Gateway");
    let error = JsonError::from(response(400, "{\"message\": \"X\"}"));
    assert_eq!(error.status, 400);
    assert_eq!(error.description, "{\"message\": \"X\"}");
    let error = JsonError::from(response(418, ""));
    assert_eq!(error.status, 418);
    assert_eq!(error.description, "");
}

#[test]
fn response_keeps_any_status() {
    assert_eq!(JsonError::from(response(0, "x")).status, 0);
    assert_eq!(JsonError::from(response(200, "x")).status, 200);
    assert_eq!(JsonError::from(response(65535, "{\"error\": \"x\"}")).status, 65535);
}

#[test]
fn response_without_readable_body_is_500() {
    let error = JsonError::from(RemoteResponse { status: 404, body: None });
    assert_eq!(error.status, 500);
    assert_eq!(error.description, "could not read response body");
    assert_eq!(error.body.error, "could not read response body");
}

#[test]
fn response_widens_to_an_aggregate_of_one() {
    let errors = JsonErrors::from(response(409, "{\"error\": \"taken\"}"));
    assert_eq!(errors.1, 409);
    assert_eq!(errors.0, vec![JsonError::new(409, "taken")]);
}

#[test]
fn transport_failure_without_status_is_500_unknown_error() {
    let error = JsonError::from(TransportFailure {
        status: None,
        serialization: false,
        text: String::from("connection reset"),
    });
    assert_eq!(error.status, 500);
    assert_eq!(error.description, "Unknown error: connection reset");
    assert_eq!(error.body.error, "Unknown error: connection reset");
}

#[test]
fn transport_failure_keeps_its_status() {
    let error = JsonError::from(TransportFailure {
        status: Some(504),
        serialization: false,
        text: String::from("timed out"),
    });
    assert_eq!(error.status, 504);
    assert_eq!(error.description, "Unknown error: timed out");
}

#[test]
fn serialization_failure_has_a_fixed_description() {
    let error = JsonError::from(TransportFailure {
        status: None,
        serialization: true,
        text: String::from("expected value at line 1 column 1"),
    });
    assert_eq!(error.status, 500);
    assert_eq!(error.description, "Serialization error");
    let error = JsonError::from(TransportFailure {
        status: Some(200),
        serialization: true,
        text: String::new(),
    });
    assert_eq!(error.status, 200);
    assert_eq!(error.description, "Serialization error");
}

#[test]
fn transport_failure_with_empty_text() {
    let error = JsonError::from(TransportFailure {
        status: None,
        serialization: false,
        text: String::new(),
    });
    assert_eq!(error.description, "Unknown error: ");
}

#[test]
fn transport_failure_widens_to_an_aggregate_of_one() {
    let errors = JsonErrors::from(TransportFailure {
        status: Some(502),
        serialization: false,
        text: String::from("broken pipe"),
    });
    assert_eq!(errors.1, 502);
    assert_eq!(errors.0, vec![JsonError::new(502, "Unknown error: broken pipe")]);
}
