//! JSON documents, read and written by the `json` crate.
//!
//! The crate's values never leave this file: a document comes in as text and
//! goes out as the names and texts of its members, and rows of names and
//! texts go out as the text of a document.

use vstd::prelude::*;
use crate::text::{is_digit, pairs};

verus! {

/// The longest run of ASCII digits that a text may hold to be read as JSON.
/// The parser counts the digits of a fraction in sixteen bits.
pub const MAX_DIGIT_RUN: usize = 32767;

/// The length of the run of ASCII digits that ends `s`.
pub open spec fn digits_at_end(s: Seq<char>) -> nat
    decreases s.len(),
{
    if s.len() == 0 || !is_digit(s.last()) {
        0
    } else {
        digits_at_end(s.drop_last()) + 1
    }
}

/// No run of ASCII digits in `s` is longer than `limit`.
pub open spec fn digit_runs_within(s: Seq<char>, limit: nat) -> bool {
    forall|k: int| 0 <= k <= s.len() ==> digits_at_end(#[trigger] s.take(k)) <= limit
}

/// The text can be handed to the parser: no run of ASCII digits in it is
/// longer than [`MAX_DIGIT_RUN`].
pub open spec fn readable(text: Seq<char>) -> bool {
    digit_runs_within(text, MAX_DIGIT_RUN as nat)
}

/// Whether `text` can be handed to the parser.
pub fn is_readable(text: &str) -> (fit: bool)
    ensures
        fit == readable(text@),
{
    let mut run: usize = 0;
    for c in it: text.chars()
        invariant
            it.seq() == text@,
            run == digits_at_end(text@.take(it.index() as int)),
            run <= MAX_DIGIT_RUN,
            digit_runs_within(text@.take(it.index() as int), MAX_DIGIT_RUN as nat),
    {
        let ghost seen = text@.take(it.index() as int);
        let ghost now = text@.take(it.index() + 1);
        assert(now.drop_last() == seen);
        if '0' <= c && c <= '9' {
            run = run + 1;
            if run > MAX_DIGIT_RUN {
                return false;
            }
        } else {
            run = 0;
        }
        assert forall|k: int| 0 <= k <= now.len() implies digits_at_end(#[trigger] now.take(k))
            <= MAX_DIGIT_RUN by {
            if k < now.len() {
                assert(now.take(k) == seen.take(k));
            } else {
                assert(now.take(k) == now);
            }
        }
    }
    assert(text@.take(text@.len() as int) == text@);
    true
}

/// What `json::parse` makes of a readable `text`: `None` where it reports an error,
/// else the members of the document in the order in which `entries` walks
/// them, each as its name and the text that `to_string` gives for its
/// value. A document that is not an object has no members.
pub uninterp spec fn parsed_members(text: Seq<char>) -> Option<Seq<(Seq<char>, Seq<char>)>>;

/// What `dump` writes for the array that holds one object per row, each
/// object filled by assigning the row's texts to their names in order.
pub uninterp spec fn rows_dump(rows: Seq<Seq<(Seq<char>, Seq<char>)>>) -> Seq<char>;

/// The views of the rows, in order.
pub open spec fn tables(rows: Seq<Vec<(String, String)>>) -> Seq<Seq<(Seq<char>, Seq<char>)>> {
    Seq::new(rows.len(), |i: int| pairs(rows[i]@))
}

/// Parses `text` with `json::parse` and walks the result with
/// `JsonValue::entries`, turning each member into its name and the text of
/// its value (`to_string`). Nothing is claimed of the result but that it is
/// what the crate gives for this text: `None` for an error, else the members.
///
/// The parser lowers a sixteen-bit exponent by one for each digit of a
/// fraction whose digits so far are all zero, and so cannot take a number
/// such as `0.000...` with more than 32768 digits; a text with so long a run
/// of digits is left out.
#[verifier::external_body]
pub(crate) fn parse_members(text: &str) -> (r: Option<Vec<(String, String)>>)
    requires
        readable(text@),
    ensures
        match r {
            Some(members) => parsed_members(text@) == Some(pairs(members@)),
            None => parsed_members(text@) is None,
        },
{
    match json::parse(text) {
        Ok(value) => Some(
            value.entries().map(|(name, member)| (name.to_string(), member.to_string())).collect(),
        ),
        Err(_) => None,
    }
}

/// Builds a `JsonValue` array with one object per row (`new_array`,
/// `new_object`, assignment by name, `push`) and writes it with `dump`.
/// Nothing is claimed of the text but that it is what the crate writes for
/// these rows.
#[verifier::external_body]
pub(crate) fn dump_rows(rows: &Vec<Vec<(String, String)>>) -> (text: String)
    ensures
        text@ == rows_dump(tables(rows@)),
{
    let mut array = json::JsonValue::new_array();
    for row in rows.iter() {
        let mut object = json::JsonValue::new_object();
        for (name, value) in row.iter() {
            object[name.as_str()] = value.as_str().into();
        }
        let _ = array.push(object);
    }
    array.dump()
}

} // verus!
