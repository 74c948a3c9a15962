//! The normalised error and the aggregate of several of them.

use crate::text::{join, joined};
use vstd::prelude::*;
use vstd::std_specs::convert::FromSpecImpl;

verus! {

/// What a [`JsonError`] serialises to: an object with the one member `error`.
#[derive(Debug, PartialEq, Eq)]
pub struct ErrorBody {
    pub error: String,
}

/// One classified failure.
#[derive(Debug, PartialEq, Eq)]
pub struct JsonError {
    pub status: u16,
    pub description: String,
    pub body: ErrorBody,
}

/// The mathematical content of a [`JsonError`].
pub struct ErrorValue {
    pub status: u16,
    pub description: Seq<char>,
}

impl View for JsonError {
    type V = ErrorValue;

    open spec fn view(&self) -> ErrorValue {
        ErrorValue { status: self.status, description: self.description@ }
    }
}

impl JsonError {
    /// The body says what the description says.
    pub open spec fn wf(&self) -> bool {
        self.body.error@ == self.description@
    }

    /// An error with the given status and description; the body is derived
    /// from the description.
    pub fn new(status: u16, description: &str) -> (error: JsonError)
        ensures
            error.wf(),
            error@ == (ErrorValue { status, description: description@ }),
    {
        JsonError {
            status,
            description: description.to_owned(),
            body: ErrorBody { error: description.to_owned() },
        }
    }
}

/// Several failures of one operation, in the order in which they were
/// collected, under one overall status.
///
/// The overall status is what the holder assigns: widening a single error
/// gives that error's status, and nothing here merges the statuses of several.
#[derive(Debug, PartialEq, Eq)]
pub struct JsonErrors(pub Vec<JsonError>, pub u16);

/// The mathematical content of a [`JsonErrors`].
pub struct ErrorsValue {
    pub errors: Seq<ErrorValue>,
    pub status: u16,
}

/// What a [`JsonErrors`] serialises to: all descriptions joined by newlines
/// under `error`, and each of them under `errors`.
#[derive(Debug, PartialEq, Eq)]
pub struct ErrorsBody {
    pub error: String,
    pub errors: Vec<String>,
}

/// The descriptions of the errors, in their order.
pub open spec fn descriptions_of(errors: Seq<ErrorValue>) -> Seq<Seq<char>> {
    errors.map_values(|error: ErrorValue| error.description)
}

/// The aggregate that holds one error and has its status.
pub open spec fn aggregate_of(error: ErrorValue) -> ErrorsValue {
    ErrorsValue { errors: seq![error], status: error.status }
}

impl View for JsonErrors {
    type V = ErrorsValue;

    open spec fn view(&self) -> ErrorsValue {
        ErrorsValue { errors: self.0@.map_values(|error: JsonError| error@), status: self.1 }
    }
}

impl JsonErrors {
    /// Every error in the aggregate is well formed.
    pub open spec fn wf(&self) -> bool {
        forall|i: int| 0 <= i < self.0.len() ==> (#[trigger] self.0[i]).wf()
    }

    /// The description of each error, in order.
    pub fn descriptions(&self) -> (list: Vec<String>)
        ensures
            list.deep_view() == descriptions_of(self@.errors),
            list.len() == self.0.len(),
            forall|i: int| 0 <= i < list.len() ==> (#[trigger] list[i])@ == self.0[i].description@,
    {
        let mut list: Vec<String> = Vec::new();
        let mut i: usize = 0;
        while i < self.0.len()
            invariant
                i <= self.0.len(),
                list.len() == i,
                forall|k: int| 0 <= k < i ==> (#[trigger] list[k])@ == self.0[k].description@,
            decreases self.0.len() - i,
        {
            list.push(self.0[i].description.clone());
            i += 1;
        }
        proof {
            assert(list.deep_view() =~= descriptions_of(self@.errors));
        }
        list
    }

    /// All descriptions in one text, one to a line.
    pub fn description(&self) -> (text: String)
        ensures
            text@ == joined(descriptions_of(self@.errors), "\n"@),
    {
        let list = self.descriptions();
        join(&list, "\n")
    }

    /// What the aggregate serialises to.
    pub fn body(&self) -> (body: ErrorsBody)
        ensures
            body.error@ == joined(descriptions_of(self@.errors), "\n"@),
            body.errors.deep_view() == descriptions_of(self@.errors),
            body.errors.len() == self.0.len(),
            forall|i: int|
                0 <= i < body.errors.len() ==> (#[trigger] body.errors[i])@
                    == self.0[i].description@,
    {
        let errors = self.descriptions();
        let error = join(&errors, "\n");
        ErrorsBody { error, errors }
    }
}

impl From<JsonError> for JsonErrors {
    /// The aggregate of one error: it holds that error and has its status.
    fn from(err: JsonError) -> (errors: JsonErrors)
        ensures
            errors.0@ == seq![err],
            errors.1 == err.status,
            errors@ == aggregate_of(err@),
            err.wf() ==> errors.wf(),
    {
        let status = err.status;
        let mut list: Vec<JsonError> = Vec::new();
        list.push(err);
        let errors = JsonErrors(list, status);
        proof {
            assert(errors.0@ =~= seq![err]);
            assert(errors@.errors =~= seq![err@]);
        }
        errors
    }
}

/// What the conversion gives is stated by the `ensures` of `from`.
impl FromSpecImpl<JsonError> for JsonErrors {
    open spec fn obeys_from_spec() -> bool {
        false
    }

    open spec fn from_spec(err: JsonError) -> JsonErrors {
        arbitrary()
    }
}

} // verus!
