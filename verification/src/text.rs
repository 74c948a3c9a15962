//! Putting descriptions together.

use vstd::prelude::*;

verus! {

/// A cause, with the origin and one space in front of it where there is an origin.
pub open spec fn described(origin: Option<Seq<char>>, cause: Seq<char>) -> Seq<char> {
    match origin {
        Some(origin) => origin + " "@ + cause,
        None => cause,
    }
}

/// The lines in their order, with the separator between each two neighbours.
pub open spec fn joined(lines: Seq<Seq<char>>, separator: Seq<char>) -> Seq<char>
    decreases lines.len(),
{
    if lines.len() == 0 {
        Seq::empty()
    } else if lines.len() == 1 {
        lines[0]
    } else {
        joined(lines.drop_last(), separator) + separator + lines.last()
    }
}

/// The description of a failure from where it arose, if that is known, and what went wrong.
pub fn describe(origin: Option<String>, cause: &str) -> (description: String)
    ensures
        description@ == described(origin.deep_view(), cause@),
{
    match origin {
        Some(origin) => {
            let mut description = origin;
            description.append(" ");
            description.append(cause);
            description
        },
        None => cause.to_owned(),
    }
}

/// Joins the lines with the separator.
pub fn join(lines: &Vec<String>, separator: &str) -> (text: String)
    ensures
        text@ == joined(lines.deep_view(), separator@),
{
    let mut text = String::new();
    let mut i: usize = 0;
    while i < lines.len()
        invariant
            i <= lines.len(),
            text@ == joined(lines.deep_view().take(i as int), separator@),
        decreases lines.len() - i,
    {
        let ghost before = lines.deep_view().take(i as int);
        let ghost after = lines.deep_view().take(i + 1);
        proof {
            assert(after.drop_last() == before);
            assert(after.last() == lines[i as int]@);
        }
        if i > 0 {
            text.append(separator);
        }
        text.append(lines[i].as_str());
        i += 1;
    }
    proof {
        assert(lines.deep_view().take(lines.len() as int) == lines.deep_view());
    }
    text
}

} // verus!
