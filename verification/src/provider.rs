//! Failures of the payment provider.

use crate::json_errors::{aggregate_of, ErrorValue, JsonError, JsonErrors};
use crate::remote::{classified_transport, TransportFailure};
use crate::status::{INTERNAL_SERVER_ERROR, UNPROCESSABLE_ENTITY};
use vstd::prelude::*;
use vstd::std_specs::convert::FromSpecImpl;

verus! {

/// A failure of a call to the payment provider.
#[derive(Debug, PartialEq, Eq)]
pub enum StripeError {
    /// The provider declined the request or found it invalid. `param` names
    /// the field of the request that it blames, where it blames one.
    Stripe { message: Option<String>, param: Option<String> },
    /// The call failed on the way.
    Http(TransportFailure),
    /// Anything else. `debug` is the debug rendering of the failure.
    Other { debug: String },
}

/// The mathematical content of a [`StripeError`].
pub enum StripeValue {
    Stripe { message: Option<Seq<char>>, param: Option<Seq<char>> },
    Http(crate::remote::FailureValue),
    Other { debug: Seq<char> },
}

impl View for StripeError {
    type V = StripeValue;

    open spec fn view(&self) -> StripeValue {
        match *self {
            StripeError::Stripe { message, param } => StripeValue::Stripe {
                message: message.deep_view(),
                param: param.deep_view(),
            },
            StripeError::Http(failure) => StripeValue::Http(failure@),
            StripeError::Other { debug } => StripeValue::Other { debug: debug@ },
        }
    }
}

/// What the provider said: its message, followed by the blamed field in
/// parentheses where there is one; nothing where there is no message.
pub open spec fn decline_text(message: Option<Seq<char>>, param: Option<Seq<char>>) -> Seq<char> {
    match message {
        Some(message) => match param {
            Some(param) => message + " ("@ + param + ")"@,
            None => message,
        },
        None => Seq::empty(),
    }
}

/// The cause of a decline: what the provider said, or a fixed text where it
/// said nothing.
pub open spec fn decline_cause(message: Option<Seq<char>>, param: Option<Seq<char>>) -> Seq<char> {
    if decline_text(message, param).len() == 0 {
        "Stripe error"@
    } else {
        decline_text(message, param)
    }
}

/// What a failure of the payment provider is classified as. A decline is the
/// client's to mend, whatever status the provider gave it.
pub open spec fn classified_stripe(err: StripeValue) -> ErrorValue {
    match err {
        StripeValue::Stripe { message, param } => ErrorValue {
            status: UNPROCESSABLE_ENTITY,
            description: decline_cause(message, param),
        },
        StripeValue::Http(failure) => classified_transport(failure),
        StripeValue::Other { debug } => ErrorValue {
            status: INTERNAL_SERVER_ERROR,
            description: "Unknown Stripe error"@,
        },
    }
}

/// The diagnostic line that classifying a failure calls for: one for a
/// failure that is not told apart, none for the others.
pub open spec fn trace_of(err: StripeValue) -> Option<Seq<char>> {
    match err {
        StripeValue::Other { debug } => Some(
            "Could not convert following stripe error: "@ + debug,
        ),
        _ => None,
    }
}

impl StripeError {
    /// The line to hand to the diagnostic log when this failure is
    /// classified, if it calls for one.
    pub fn trace(&self) -> (line: Option<String>)
        ensures
            line.deep_view() == trace_of(self@),
    {
        match self {
            StripeError::Other { debug } => {
                let mut line = "Could not convert following stripe error: ".to_owned();
                line.append(debug.as_str());
                Some(line)
            },
            _ => None,
        }
    }
}

/// The cause of a decline from the provider's message and the field it blames.
pub fn decline_description(message: Option<String>, param: Option<String>) -> (cause: String)
    ensures
        cause@ == decline_cause(message.deep_view(), param.deep_view()),
{
    let mut text = String::new();
    if let Some(message) = message {
        text = message;
        if let Some(param) = param {
            text.append(" (");
            text.append(param.as_str());
            text.append(")");
        }
    }
    if text.as_str().is_empty() {
        text = "Stripe error".to_owned();
    }
    text
}

impl From<StripeError> for JsonError {
    /// Classifies a failure of the payment provider.
    fn from(err: StripeError) -> (error: JsonError)
        ensures
            error.wf(),
            error@ == classified_stripe(err@),
    {
        match err {
            StripeError::Stripe { message, param } => {
                let cause = decline_description(message, param);
                JsonError::new(UNPROCESSABLE_ENTITY, cause.as_str())
            },
            StripeError::Http(failure) => failure.into(),
            StripeError::Other { debug: _ } => JsonError::new(
                INTERNAL_SERVER_ERROR,
                "Unknown Stripe error",
            ),
        }
    }
}

/// What the conversion gives is stated by the `ensures` of `from`.
impl FromSpecImpl<StripeError> for JsonError {
    open spec fn obeys_from_spec() -> bool {
        false
    }

    open spec fn from_spec(err: StripeError) -> JsonError {
        arbitrary()
    }
}

impl From<StripeError> for JsonErrors {
    /// Classifies a failure of the payment provider, as an aggregate of one.
    fn from(err: StripeError) -> (errors: JsonErrors)
        ensures
            errors.wf(),
            errors@ == aggregate_of(classified_stripe(err@)),
    {
        let error: JsonError = err.into();
        error.into()
    }
}

/// What the conversion gives is stated by the `ensures` of `from`.
impl FromSpecImpl<StripeError> for JsonErrors {
    open spec fn obeys_from_spec() -> bool {
        false
    }

    open spec fn from_spec(err: StripeError) -> JsonErrors {
        arbitrary()
    }
}

} // verus!
