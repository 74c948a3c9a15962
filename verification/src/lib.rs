//! Uniform, client-facing errors.
//!
//! Failures of a storage layer, of an outbound HTTP call and of a payment
//! provider are classified into one shape: a status code, a one-line
//! description and a body that can be serialised.

pub mod document;
pub mod json_errors;
pub mod laws;
pub mod pattern;
pub mod provider;
pub mod remote;
pub mod status;
pub mod storage;
pub mod text;

pub use crate::json_errors::{ErrorBody, ErrorValue, ErrorsBody, ErrorsValue, JsonError, JsonErrors};
