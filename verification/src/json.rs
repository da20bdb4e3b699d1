//! The few pieces of compact JSON that the library writes: quoted strings,
//! numbers and arrays of strings.
//!
//! How a string is escaped is left to `serde_json`; its result is named here.
//! The layout of objects and arrays around the strings is this crate's own.

use crate::text::{decimal_text, push_decimal};
use vstd::prelude::*;
use vstd::string::*;

verus! {

/// The JSON string literal for `s`, quotes and escapes included, as
/// `serde_json` writes it.
pub uninterp spec fn json_string_text(s: Seq<char>) -> Seq<char>;

/// Calls `serde_json::to_string` on a string slice.
///
/// Assumed, not proved: serialising a string slice cannot fail, and the text
/// that comes back depends on the characters of `s` alone.
#[verifier::external_body]
pub(crate) fn json_string(s: &str) -> (r: String)
    ensures
        r@ == json_string_text(s@),
{
    serde_json::to_string(s).unwrap()
}

/// The texts of a sequence of strings.
pub open spec fn texts(items: Seq<String>) -> Seq<Seq<char>> {
    Seq::new(items.len(), |i: int| items[i]@)
}

/// The elements of a JSON array of strings: each as a string literal, with a
/// comma between neighbours.
pub open spec fn json_items_text(items: Seq<Seq<char>>) -> Seq<char>
    decreases items.len(),
{
    if items.len() == 0 {
        Seq::empty()
    } else if items.len() == 1 {
        json_string_text(items[0])
    } else {
        json_items_text(items.drop_last()) + ","@ + json_string_text(items.last())
    }
}

/// A JSON array of strings.
pub open spec fn json_string_array_text(items: Seq<Seq<char>>) -> Seq<char> {
    "["@ + json_items_text(items) + "]"@
}

/// A member of a JSON object whose value is a string: `,"name":"value"`
/// without the comma.
pub open spec fn string_member_text(name: Seq<char>, value: Seq<char>) -> Seq<char> {
    "\""@ + name + "\":"@ + json_string_text(value)
}

/// A member of a JSON object whose value is a number.
pub open spec fn number_member_text(name: Seq<char>, value: nat) -> Seq<char> {
    "\""@ + name + "\":"@ + decimal_text(value)
}

/// Appends `"name":"value"` to `out`, the value escaped as JSON asks.
pub fn push_string_member(out: &mut String, name: &str, value: &str)
    ensures
        final(out)@ == old(out)@ + string_member_text(name@, value@),
{
    let quoted = json_string(value);
    let mut member = String::from_str("\"");
    member.append(name);
    member.append("\":");
    member.append(quoted.as_str());
    out.append(member.as_str());
}

/// Appends `"name":value` to `out`, the value as a decimal numeral.
pub fn push_number_member(out: &mut String, name: &str, value: u64)
    ensures
        final(out)@ == old(out)@ + number_member_text(name@, value as nat),
{
    let mut member = String::from_str("\"");
    member.append(name);
    member.append("\":");
    push_decimal(&mut member, value);
    out.append(member.as_str());
}

/// Writes a JSON array of strings.
pub fn json_string_array(items: &Vec<String>) -> (r: String)
    ensures
        r@ == json_string_array_text(texts(items@)),
{
    let mut inner = String::new();
    let mut i: usize = 0;
    while i < items.len()
        invariant
            0 <= i <= items.len(),
            inner@ == json_items_text(texts(items@).take(i as int)),
        decreases items.len() - i,
    {
        let quoted = json_string(items[i].as_str());
        proof {
            let before = texts(items@).take(i as int);
            let after = texts(items@).take(i + 1);
            assert(after.drop_last() =~= before);
            assert(after.last() == items@[i as int]@);
        }
        if i > 0 {
            inner.append(",");
            inner.append(quoted.as_str());
        } else {
            inner = quoted;
        }
        i = i + 1;
    }
    proof {
        assert(texts(items@).take(items.len() as int) =~= texts(items@));
    }
    let mut out = String::from_str("[");
    out.append(inner.as_str());
    out.append("]");
    out
}

} // verus!
