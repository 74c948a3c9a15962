//! Failures of an outbound HTTP call.

use crate::document::{json_member_text, read_member_text};
use crate::json_errors::{aggregate_of, ErrorValue, JsonError, JsonErrors};
use crate::status::INTERNAL_SERVER_ERROR;
use vstd::prelude::*;
use vstd::std_specs::convert::FromSpecImpl;

verus! {

/// A response that came back with a status that is no success. `body` is the
/// whole body as text, or `None` where it could not be read.
#[derive(Debug, PartialEq, Eq)]
pub struct RemoteResponse {
    pub status: u16,
    pub body: Option<String>,
}

/// The mathematical content of a [`RemoteResponse`].
pub struct ResponseValue {
    pub status: u16,
    pub body: Option<Seq<char>>,
}

impl View for RemoteResponse {
    type V = ResponseValue;

    open spec fn view(&self) -> ResponseValue {
        ResponseValue { status: self.status, body: self.body.deep_view() }
    }
}

/// A call that failed below the level of responses. `status` is there where
/// one was obtained all the same, `serialization` says that the failure lay
/// in encoding or decoding, and `text` is how the failure prints.
#[derive(Debug, PartialEq, Eq)]
pub struct TransportFailure {
    pub status: Option<u16>,
    pub serialization: bool,
    pub text: String,
}

/// The mathematical content of a [`TransportFailure`].
pub struct FailureValue {
    pub status: Option<u16>,
    pub serialization: bool,
    pub text: Seq<char>,
}

impl View for TransportFailure {
    type V = FailureValue;

    open spec fn view(&self) -> FailureValue {
        FailureValue { status: self.status, serialization: self.serialization, text: self.text@ }
    }
}

/// The error text that a body carries: the string under `error`, where the
/// body is a JSON object that has one.
pub open spec fn api_error(body: Seq<char>) -> Option<Seq<char>> {
    json_member_text(body, "error"@)
}

/// The cause that a body gives: its error text where it carries one, else the
/// body itself.
pub open spec fn body_cause(body: Seq<char>, api_error: Option<Seq<char>>) -> Seq<char> {
    match api_error {
        Some(text) => text,
        None => body,
    }
}

/// What a response is classified as, given what parsing its body gave.
pub open spec fn classified_body(status: u16, body: Seq<char>, api_error: Option<Seq<char>>)
    -> ErrorValue {
    ErrorValue { status, description: body_cause(body, api_error) }
}

/// What a response is classified as.
pub open spec fn classified_response(response: ResponseValue) -> ErrorValue {
    match response.body {
        Some(body) => classified_body(response.status, body, api_error(body)),
        None => ErrorValue {
            status: INTERNAL_SERVER_ERROR,
            description: "could not read response body"@,
        },
    }
}

/// What a transport failure is classified as.
pub open spec fn classified_transport(failure: FailureValue) -> ErrorValue {
    ErrorValue {
        status: match failure.status {
            Some(status) => status,
            None => INTERNAL_SERVER_ERROR,
        },
        description: if failure.serialization {
            "Serialization error"@
        } else {
            "Unknown error: "@ + failure.text
        },
    }
}

/// The error text that the body carries, if it carries one.
pub fn parse_body(body: &str) -> (text: Option<String>)
    ensures
        text.deep_view() == api_error(body@),
{
    read_member_text(body, "error")
}

/// Classifies a response from its status, its body and what parsing the body
/// gave: the status is kept, and the cause is the parsed error text, or the
/// body as it is where there is none.
pub fn classify_body(status: u16, body: &str, api_error: Option<String>) -> (error: JsonError)
    ensures
        error.wf(),
        error@ == classified_body(status, body@, api_error.deep_view()),
{
    match api_error {
        Some(text) => JsonError::new(status, text.as_str()),
        None => JsonError::new(status, body),
    }
}

impl From<RemoteResponse> for JsonError {
    /// Classifies a response. One whose body could not be read becomes an
    /// error of this side.
    fn from(resp: RemoteResponse) -> (error: JsonError)
        ensures
            error.wf(),
            error@ == classified_response(resp@),
    {
        match resp.body {
            Some(body) => {
                let api_error = parse_body(body.as_str());
                classify_body(resp.status, body.as_str(), api_error)
            },
            None => JsonError::new(INTERNAL_SERVER_ERROR, "could not read response body"),
        }
    }
}

/// What the conversion gives is stated by the `ensures` of `from`.
impl FromSpecImpl<RemoteResponse> for JsonError {
    open spec fn obeys_from_spec() -> bool {
        false
    }

    open spec fn from_spec(resp: RemoteResponse) -> JsonError {
        arbitrary()
    }
}

impl From<RemoteResponse> for JsonErrors {
    /// Classifies a response, as an aggregate of one.
    fn from(resp: RemoteResponse) -> (errors: JsonErrors)
        ensures
            errors.wf(),
            errors@ == aggregate_of(classified_response(resp@)),
    {
        let error: JsonError = resp.into();
        error.into()
    }
}

/// What the conversion gives is stated by the `ensures` of `from`.
impl FromSpecImpl<RemoteResponse> for JsonErrors {
    open spec fn obeys_from_spec() -> bool {
        false
    }

    open spec fn from_spec(resp: RemoteResponse) -> JsonErrors {
        arbitrary()
    }
}

impl From<TransportFailure> for JsonError {
    /// Classifies a transport failure.
    fn from(err: TransportFailure) -> (error: JsonError)
        ensures
            error.wf(),
            error@ == classified_transport(err@),
    {
        let status = match err.status {
            Some(status) => status,
            None => INTERNAL_SERVER_ERROR,
        };
        if err.serialization {
            JsonError::new(status, "Serialization error")
        } else {
            let mut description = "Unknown error: ".to_owned();
            description.append(err.text.as_str());
            JsonError::new(status, description.as_str())
        }
    }
}

/// What the conversion gives is stated by the `ensures` of `from`.
impl FromSpecImpl<TransportFailure> for JsonError {
    open spec fn obeys_from_spec() -> bool {
        false
    }

    open spec fn from_spec(err: TransportFailure) -> JsonError {
        arbitrary()
    }
}

impl From<TransportFailure> for JsonErrors {
    /// Classifies a transport failure, as an aggregate of one.
    fn from(err: TransportFailure) -> (errors: JsonErrors)
        ensures
            errors.wf(),
            errors@ == aggregate_of(classified_transport(err@)),
    {
        let error: JsonError = err.into();
        error.into()
    }
}

/// What the conversion gives is stated by the `ensures` of `from`.
impl FromSpecImpl<TransportFailure> for JsonErrors {
    open spec fn obeys_from_spec() -> bool {
        false
    }

    open spec fn from_spec(err: TransportFailure) -> JsonErrors {
        arbitrary()
    }
}

} // verus!
