//! Matching a text against a regular expression.

use vstd::prelude::*;

verus! {

/// The error of the `regex` crate for a pattern that it does not compile.
#[verifier::external_type_specification]
#[verifier::external_body]
pub struct ExPatternError(regex::Error);

/// Whether `regex::Regex::new` compiles `pattern`.
pub uninterp spec fn pattern_accepted(pattern: Seq<char>) -> bool;

/// What `regex::Regex::captures` finds for a compiled `pattern` in `text`:
/// the part of `text` that the group with the index `group` takes in the
/// leftmost match; `None` where the pattern matches nowhere in `text`, where
/// it has no such group, or where the group takes no part in the match.
pub uninterp spec fn first_match_group(pattern: Seq<char>, text: Seq<char>, group: nat) -> Option<
    Seq<char>,
>;

/// Compiles `pattern` with `regex::Regex::new`, searches `text` with
/// `regex::Regex::captures` and reads the group with `regex::Captures::get`
/// and `regex::Match::as_str`.
///
/// Trusted: the error comes back exactly when the crate refuses the pattern.
/// Otherwise the result is the text of the group in the leftmost match, and
/// `None` where `captures` finds no match or `get` finds no such group in it.
#[verifier::external_body]
pub(crate) fn capture_in_first_match(pattern: &str, text: &str, group: usize) -> (r: Result<
    Option<String>,
    regex::Error,
>)
    ensures
        r is Ok <==> pattern_accepted(pattern@),
        r matches Ok(captured) ==> captured.deep_view() == first_match_group(
            pattern@,
            text@,
            group as nat,
        ),
{
    let compiled = regex::Regex::new(pattern)?;
    Ok(
        match compiled.captures(text) {
            Some(groups) => groups.get(group).map(|part| part.as_str().to_owned()),
            None => None,
        },
    )
}

} // verus!
