//! How a session's sets are kept in a text column: as a JSON array of
//! integers.
use crate::pairing::decimal_of;
use crate::store::sets_view;
use vstd::prelude::*;

verus! {

/// An integer in decimal, with a leading `-` when negative.
pub open spec fn int_text(n: int) -> Seq<char> {
    if n < 0 {
        seq!['-'] + decimal_of((-n) as nat)
    } else {
        decimal_of(n as nat)
    }
}

/// The integers in decimal, separated by commas.
pub open spec fn comma_joined(s: Seq<i32>) -> Seq<char>
    decreases s.len(),
{
    if s.len() == 0 {
        Seq::empty()
    } else if s.len() == 1 {
        int_text(s[0] as int)
    } else {
        comma_joined(s.drop_last()) + seq![','] + int_text(s.last() as int)
    }
}

/// The compact JSON array of the integers.
pub open spec fn ints_json(s: Seq<i32>) -> Seq<char> {
    seq!['['] + comma_joined(s) + seq![']']
}

/// The integers that serde_json reads from a text as a `Vec<i32>`, if it
/// holds such an array.
pub uninterp spec fn ints_from_json(text: Seq<char>) -> Option<Seq<i32>>;

/// Relies on serde_json::to_string for a `Vec<i32>`: the compact formatter
/// writes `[`, the integers in decimal separated by `,` with no spaces, and
/// `]`. Writing integers into a `Vec<u8>` cannot fail.
#[verifier::external_body]
fn ints_to_text(v: &Vec<i32>) -> (r: Option<String>)
    ensures
        r is Some,
        r matches Some(t) ==> t@ == ints_json(v@),
{
    serde_json::to_string(v).ok()
}

/// Relies on serde_json::from_str for a `Vec<i32>`: the array the text
/// holds, `None` where it holds none; the result depends on the text alone.
#[verifier::external_body]
fn ints_from_text(text: &str) -> (r: Option<Vec<i32>>)
    ensures
        sets_view(r) == ints_from_json(text@),
{
    serde_json::from_str(text).ok()
}

/// The sets read back from a column; an empty column, or one that holds no
/// array of integers, gives none.
pub fn parse_sets(value: Option<String>) -> (r: Option<Vec<i32>>)
    ensures
        value.is_none() ==> r.is_none(),
        value matches Some(t) ==> sets_view(r) == ints_from_json(t@),
{
    match value {
        Some(t) => ints_from_text(t.as_str()),
        None => None,
    }
}

/// The column text for a list of sets; no sets give an empty column.
pub fn serialize_sets(value: &Option<Vec<i32>>) -> (r: Option<String>)
    ensures
        value.is_none() ==> r.is_none(),
        value matches Some(v) ==> (r is Some && r->Some_0@ == ints_json(v@)),
{
    match value {
        Some(v) => ints_to_text(v),
        None => None,
    }
}

} // verus!
