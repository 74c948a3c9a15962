//! What holds of classification, for every input.

use crate::json_errors::{aggregate_of, descriptions_of, ErrorValue};
use crate::provider::{classified_stripe, StripeValue};
use crate::remote::{api_error, classified_response, classified_transport, FailureValue, ResponseValue};
use crate::status::{INTERNAL_SERVER_ERROR, NOT_FOUND, UNPROCESSABLE_ENTITY};
use crate::storage::{
    classified_storage, key_middle, key_pattern, origin_of, DatabaseErrorKind,
    InformationValue, StorageValue,
};
use crate::pattern::pattern_accepted;
use crate::text::{described, joined};
use vstd::prelude::*;

verus! {

/// A storage failure that says that nothing was found is classified as
/// status 404 with the description "Not found".
pub proof fn not_found_is_not_found(err: StorageValue)
    requires
        err is NotFound,
    ensures
        classified_storage(err).status == 404,
        classified_storage(err).description == "Not found"@,
{
}

/// A violation of a unique or of a foreign key constraint for which the
/// driver reports a column is classified as status 422, and its description
/// is the column's name, one space and what was violated: it starts with the
/// column's name.
pub proof fn violation_names_reported_column(
    kind: DatabaseErrorKind,
    information: InformationValue,
    debug: Seq<char>,
    column: Seq<char>,
)
    requires
        kind != DatabaseErrorKind::Other,
        information.column_name == Some(column),
    ensures
        origin_of(information) == Some(column),
        classified_storage(StorageValue::DatabaseError { kind, information, debug }).status == 422,
        kind == DatabaseErrorKind::UniqueViolation ==> classified_storage(
            StorageValue::DatabaseError { kind, information, debug },
        ).description == column + " "@ + "already exists"@,
        kind == DatabaseErrorKind::ForeignKeyViolation ==> classified_storage(
            StorageValue::DatabaseError { kind, information, debug },
        ).description == column + " "@ + "violates foreign key"@,
        column.is_prefix_of(
            classified_storage(StorageValue::DatabaseError { kind, information, debug }).description,
        ),
{
    let description = classified_storage(
        StorageValue::DatabaseError { kind, information, debug },
    ).description;
    assert(description.subrange(0, column.len() as int) =~= column);
}

/// Where the driver reports a constraint and no column, there is an origin,
/// and it is the constraint name as it was reported wherever the name has no
/// middle to give: where no table is reported, where the table's name makes
/// no pattern that compiles, and where the pattern matches nowhere in the
/// constraint name. Where a middle is found, it is the origin.
pub proof fn unmatched_constraint_is_kept(information: InformationValue, constraint: Seq<char>)
    requires
        information.column_name is None,
        information.constraint_name == Some(constraint),
    ensures
        information.table_name is None ==> origin_of(information) == Some(constraint),
        information.table_name matches Some(table) ==> (!pattern_accepted(key_pattern(table))
            ==> origin_of(information) == Some(constraint)),
        information.table_name matches Some(table) ==> (key_middle(table, constraint) is None
            ==> origin_of(information) == Some(constraint)),
        information.table_name matches Some(table) ==> (key_middle(table, constraint) is Some
            ==> origin_of(information) == key_middle(table, constraint)),
        origin_of(information) is Some,
{
}

/// Where the driver reports neither a column nor a constraint, there is no origin, and
/// the description of a violation is what was violated alone.
pub proof fn unreported_origin_is_absent(information: InformationValue, debug: Seq<char>)
    requires
        information.column_name is None,
        information.constraint_name is None,
    ensures
        origin_of(information) is None,
        classified_storage(
            StorageValue::DatabaseError {
                kind: DatabaseErrorKind::UniqueViolation,
                information,
                debug,
            },
        ).description == "already exists"@,
        classified_storage(
            StorageValue::DatabaseError {
                kind: DatabaseErrorKind::ForeignKeyViolation,
                information,
                debug,
            },
        ).description == "violates foreign key"@,
{
}

/// A response whose body was read keeps its status. Its cause is the error
/// text that the body carries, and the body as it is where it carries none.
pub proof fn response_cause_is_error_text_or_body(status: u16, body: Seq<char>)
    ensures
        classified_response(ResponseValue { status, body: Some(body) }).status == status,
        api_error(body) matches Some(text) ==> classified_response(
            ResponseValue { status, body: Some(body) },
        ).description == text,
        api_error(body) is None ==> classified_response(
            ResponseValue { status, body: Some(body) },
        ).description == body,
{
}

/// A transport failure has the status that it carries, and 500 where it
/// carries none. Unless it is a serialization failure, its description is
/// "Unknown error: " followed by how the failure prints.
pub proof fn transport_failure_is_described(failure: FailureValue)
    ensures
        failure.status matches Some(status) ==> classified_transport(failure).status == status,
        failure.status is None ==> classified_transport(failure).status == 500,
        failure.serialization ==> classified_transport(failure).description
            == "Serialization error"@,
        !failure.serialization ==> classified_transport(failure).description == "Unknown error: "@
            + failure.text,
{
}

/// A decline of the payment provider that carries a message and a parameter
/// is classified as status 422, whatever status the provider gave, with the
/// message followed by the parameter in parentheses as its description.
pub proof fn decline_names_message_and_parameter(message: Seq<char>, param: Seq<char>)
    ensures
        classified_stripe(StripeValue::Stripe { message: Some(message), param: Some(param) })
            == (ErrorValue {
            status: 422,
            description: message + " ("@ + param + ")"@,
        }),
{
    reveal_strlit(" (");
    reveal_strlit(")");
    assert((message + " ("@ + param + ")"@).len() > 0);
}

/// Every failure of the payment provider is classified as 422 where it is
/// a decline, as its transport failure where it is one, and as 500 otherwise.
pub proof fn provider_status_goes_by_variant(err: StripeValue)
    ensures
        err is Stripe ==> classified_stripe(err).status == UNPROCESSABLE_ENTITY,
        err matches StripeValue::Http(failure) ==> classified_stripe(err) == classified_transport(
            failure,
        ),
        err is Other ==> classified_stripe(err).status == INTERNAL_SERVER_ERROR,
{
}

/// The aggregate of a single error has that error's status, its list of
/// descriptions holds exactly that error's description, and so does the text
/// that joins the list, whatever the separator.
pub proof fn single_aggregate_keeps_error(error: ErrorValue, separator: Seq<char>)
    ensures
        aggregate_of(error).status == error.status,
        aggregate_of(error).errors.len() == 1,
        descriptions_of(aggregate_of(error).errors) == seq![error.description],
        joined(descriptions_of(aggregate_of(error).errors), separator) == error.description,
{
    assert(descriptions_of(aggregate_of(error).errors) =~= seq![error.description]);
}

/// Joining keeps the lines in their order: the text for a list with one more
/// line is the text for the list, the separator and that line.
pub proof fn joined_grows_by_one_line(lines: Seq<Seq<char>>, line: Seq<char>, separator: Seq<char>)
    ensures
        joined(lines.push(line), separator) == if lines.len() == 0 {
            line
        } else {
            joined(lines, separator) + separator + line
        },
{
    assert(lines.push(line).drop_last() =~= lines);
}

/// A description is its cause alone where no origin is known, and else ends
/// with one space and the cause.
pub proof fn description_ends_with_cause(origin: Option<Seq<char>>, cause: Seq<char>)
    ensures
        origin is None ==> described(origin, cause) == cause,
        origin matches Some(field) ==> described(origin, cause) == field + " "@ + cause,
        cause.is_suffix_of(described(origin, cause)),
{
    let description = described(origin, cause);
    assert(description.subrange(description.len() - cause.len(), description.len() as int)
        =~= cause);
}

/// Every storage failure is classified as 404, 422 or 500.
pub proof fn storage_status_is_one_of_three(err: StorageValue)
    ensures
        classified_storage(err).status == NOT_FOUND || classified_storage(err).status
            == UNPROCESSABLE_ENTITY || classified_storage(err).status == INTERNAL_SERVER_ERROR,
{
}

} // verus!
