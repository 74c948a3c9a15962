//! Reading a member of a JSON document.

use vstd::prelude::*;

verus! {

/// What `serde_json` reads under `key` in the JSON document `text`: the
/// content of that member where `text` is one JSON object and the member is a
/// string, else `None`.
pub uninterp spec fn json_member_text(text: Seq<char>, key: Seq<char>) -> Option<Seq<char>>;

/// Parses `text` with `serde_json::from_str` into a `serde_json::Value`, looks
/// `key` up in it with `Value::get` and reads the member with `Value::as_str`.
///
/// Trusted: the result is `None` where `from_str` fails, where the document
/// is no object, where it has no member `key` or where the member is no
/// string; it is the same for the same `text` and `key`.
#[verifier::external_body]
pub(crate) fn read_member_text(text: &str, key: &str) -> (member: Option<String>)
    ensures
        member.deep_view() == json_member_text(text@, key@),
{
    let document: serde_json::Value = serde_json::from_str(text).ok()?;
    document.get(key)?.as_str().map(String::from)
}

} // verus!
