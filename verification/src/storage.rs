//! Failures of the storage layer.

use crate::json_errors::{aggregate_of, ErrorValue, JsonError, JsonErrors};
use crate::pattern::{capture_in_first_match, first_match_group, pattern_accepted};
use crate::status::{INTERNAL_SERVER_ERROR, NOT_FOUND, UNPROCESSABLE_ENTITY};
use crate::text::{describe, described};
use vstd::prelude::*;
use vstd::std_specs::convert::FromSpecImpl;

verus! {

/// What the database driver reports of the place of a failure. Any of the
/// three names may be missing.
#[derive(Debug, PartialEq, Eq)]
pub struct DatabaseErrorInformation {
    pub column_name: Option<String>,
    pub constraint_name: Option<String>,
    pub table_name: Option<String>,
}

/// The mathematical content of a [`DatabaseErrorInformation`].
pub struct InformationValue {
    pub column_name: Option<Seq<char>>,
    pub constraint_name: Option<Seq<char>>,
    pub table_name: Option<Seq<char>>,
}

impl View for DatabaseErrorInformation {
    type V = InformationValue;

    open spec fn view(&self) -> InformationValue {
        InformationValue {
            column_name: self.column_name.deep_view(),
            constraint_name: self.constraint_name.deep_view(),
            table_name: self.table_name.deep_view(),
        }
    }
}

/// The kinds of database failure that are told apart.
#[derive(Debug, Clone, Copy, PartialEq, Eq, Structural)]
pub enum DatabaseErrorKind {
    UniqueViolation,
    ForeignKeyViolation,
    Other,
}

/// A failure of the storage layer. `debug` is the debug rendering of the
/// failure as the storage layer gives it.
#[derive(Debug, PartialEq, Eq)]
pub enum StorageError {
    NotFound,
    DatabaseError { kind: DatabaseErrorKind, information: DatabaseErrorInformation, debug: String },
    Other { debug: String },
}

/// The mathematical content of a [`StorageError`].
pub enum StorageValue {
    NotFound,
    DatabaseError { kind: DatabaseErrorKind, information: InformationValue, debug: Seq<char> },
    Other { debug: Seq<char> },
}

impl View for StorageError {
    type V = StorageValue;

    open spec fn view(&self) -> StorageValue {
        match *self {
            StorageError::NotFound => StorageValue::NotFound,
            StorageError::DatabaseError { kind, information, debug } => StorageValue::DatabaseError {
                kind,
                information: information@,
                debug: debug@,
            },
            StorageError::Other { debug } => StorageValue::Other { debug: debug@ },
        }
    }
}

/// The pattern for a constraint name of the shape table, underscore, middle,
/// `_key`. The table's name stands in it as it is, and so is read as a
/// pattern itself.
pub open spec fn key_pattern(table: Seq<char>) -> Seq<char> {
    table + "_(.+)_key"@
}

/// The middle of a constraint name: what the first group of the table's key
/// pattern takes in the leftmost match of the pattern in the name. `None`
/// where the pattern does not compile or matches nowhere in the name.
pub open spec fn key_middle(table: Seq<char>, constraint: Seq<char>) -> Option<Seq<char>> {
    if pattern_accepted(key_pattern(table)) {
        first_match_group(key_pattern(table), constraint, 1)
    } else {
        None
    }
}

/// The middle of the constraint name where one was found, else the name as
/// it was reported.
pub open spec fn middle_or_raw(constraint: Seq<char>, middle: Option<Seq<char>>) -> Seq<char> {
    match middle {
        Some(middle) => middle,
        None => constraint,
    }
}

/// The field that a failure is attributed to: the column name where it is
/// reported; else the constraint name, or its middle where a table name is
/// reported too and the table's key pattern matches; else nothing.
pub open spec fn origin_of(information: InformationValue) -> Option<Seq<char>> {
    match information.column_name {
        Some(column) => Some(column),
        None => match information.constraint_name {
            Some(constraint) => match information.table_name {
                Some(table) => Some(middle_or_raw(constraint, key_middle(table, constraint))),
                None => Some(constraint),
            },
            None => None,
        },
    }
}

/// What a storage failure is classified as.
pub open spec fn classified_storage(err: StorageValue) -> ErrorValue {
    match err {
        StorageValue::NotFound => ErrorValue { status: NOT_FOUND, description: "Not found"@ },
        StorageValue::DatabaseError { kind, information, debug } => match kind {
            DatabaseErrorKind::UniqueViolation => ErrorValue {
                status: UNPROCESSABLE_ENTITY,
                description: described(origin_of(information), "already exists"@),
            },
            DatabaseErrorKind::ForeignKeyViolation => ErrorValue {
                status: UNPROCESSABLE_ENTITY,
                description: described(origin_of(information), "violates foreign key"@),
            },
            DatabaseErrorKind::Other => ErrorValue {
                status: INTERNAL_SERVER_ERROR,
                description: described(Some("Database error:"@), debug),
            },
        },
        StorageValue::Other { debug } => ErrorValue {
            status: INTERNAL_SERVER_ERROR,
            description: described(Some("Database error:"@), debug),
        },
    }
}

/// The key pattern of a table, as a text to compile.
fn key_pattern_of(table: &str) -> (pattern: String)
    ensures
        pattern@ == key_pattern(table@),
{
    let mut pattern = table.to_owned();
    pattern.append("_(.+)_key");
    pattern
}

/// The middle of a constraint name by the key pattern of its table, if the
/// pattern compiles and matches.
pub fn constraint_middle(table: &str, constraint: &str) -> (middle: Option<String>)
    ensures
        middle.deep_view() == key_middle(table@, constraint@),
{
    let pattern = key_pattern_of(table);
    match capture_in_first_match(pattern.as_str(), constraint, 1) {
        Ok(middle) => middle,
        Err(_) => None,
    }
}

/// The origin for a constraint name, given the middle that its table's key
/// pattern found in it, if it found one.
pub fn constraint_origin(constraint: &str, middle: Option<String>) -> (origin: String)
    ensures
        origin@ == middle_or_raw(constraint@, middle.deep_view()),
{
    match middle {
        Some(middle) => middle,
        None => constraint.to_owned(),
    }
}

/// The field that the failure is attributed to, as far as the driver's report
/// lets one be told. This never fails: a table name that makes no pattern
/// leaves the constraint name as it is.
pub fn column_from_database_error_infos(infos: &DatabaseErrorInformation) -> (origin: Option<
    String,
>)
    ensures
        origin.deep_view() == origin_of(infos@),
{
    match &infos.column_name {
        Some(column) => Some(column.clone()),
        None => match &infos.constraint_name {
            Some(constraint) => match &infos.table_name {
                Some(table) => {
                    let middle = constraint_middle(table.as_str(), constraint.as_str());
                    Some(constraint_origin(constraint.as_str(), middle))
                },
                None => Some(constraint.clone()),
            },
            None => None,
        },
    }
}

impl From<StorageError> for JsonError {
    /// Classifies a failure of the storage layer.
    fn from(err: StorageError) -> (error: JsonError)
        ensures
            error.wf(),
            error@ == classified_storage(err@),
    {
        match err {
            StorageError::NotFound => JsonError::new(NOT_FOUND, "Not found"),
            StorageError::DatabaseError { kind, information, debug } => match kind {
                DatabaseErrorKind::UniqueViolation => {
                    let origin = column_from_database_error_infos(&information);
                    let description = describe(origin, "already exists");
                    JsonError::new(UNPROCESSABLE_ENTITY, description.as_str())
                },
                DatabaseErrorKind::ForeignKeyViolation => {
                    let origin = column_from_database_error_infos(&information);
                    let description = describe(origin, "violates foreign key");
                    JsonError::new(UNPROCESSABLE_ENTITY, description.as_str())
                },
                DatabaseErrorKind::Other => {
                    let description = describe(Some("Database error:".to_owned()), debug.as_str());
                    JsonError::new(INTERNAL_SERVER_ERROR, description.as_str())
                },
            },
            StorageError::Other { debug } => {
                let description = describe(Some("Database error:".to_owned()), debug.as_str());
                JsonError::new(INTERNAL_SERVER_ERROR, description.as_str())
            },
        }
    }
}

/// What the conversion gives is stated by the `ensures` of `from`.
impl FromSpecImpl<StorageError> for JsonError {
    open spec fn obeys_from_spec() -> bool {
        false
    }

    open spec fn from_spec(err: StorageError) -> JsonError {
        arbitrary()
    }
}

impl From<StorageError> for JsonErrors {
    /// Classifies a failure of the storage layer, as an aggregate of one.
    fn from(err: StorageError) -> (errors: JsonErrors)
        ensures
            errors.wf(),
            errors@ == aggregate_of(classified_storage(err@)),
    {
        let error: JsonError = err.into();
        error.into()
    }
}

/// What the conversion gives is stated by the `ensures` of `from`.
impl FromSpecImpl<StorageError> for JsonErrors {
    open spec fn obeys_from_spec() -> bool {
        false
    }

    open spec fn from_spec(err: StorageError) -> JsonErrors {
        arbitrary()
    }
}

} // verus!
