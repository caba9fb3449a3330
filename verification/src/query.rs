//! Building the query parameters of a search: one pair for each field that
//! is present, in the order in which the record declares its fields.

use crate::text::{bool_text, bool_to_string, decimal, i128_to_string};
use crate::url::{pairs_of, QueryParam};
use vstd::prelude::*;

verus! {

/// The pairs of a query: names and values as they will stand in the URL.
pub type Pairs = Seq<(Seq<char>, Seq<char>)>;

/// `acc`, and behind it the pair of an integer field if the field is present.
pub open spec fn with_int(acc: Pairs, name: Seq<char>, field: Option<int>) -> Pairs {
    match field {
        Some(n) => acc.push((name, decimal(n))),
        None => acc,
    }
}

/// `acc`, and behind it the pair of a boolean field if the field is present.
pub open spec fn with_bool(acc: Pairs, name: Seq<char>, field: Option<bool>) -> Pairs {
    match field {
        Some(b) => acc.push((name, bool_text(b))),
        None => acc,
    }
}

/// `acc`, and behind it the pair of a text field if the field is present. The
/// text goes in as it is, unescaped.
pub open spec fn with_text(acc: Pairs, name: Seq<char>, field: Option<Seq<char>>) -> Pairs {
    match field {
        Some(s) => acc.push((name, s)),
        None => acc,
    }
}

/// A 128-bit field as an integer.
pub open spec fn wide(field: Option<i128>) -> Option<int> {
    match field {
        Some(n) => Some(n as int),
        None => None,
    }
}

/// A 64-bit field as an integer.
pub open spec fn long(field: Option<i64>) -> Option<int> {
    match field {
        Some(n) => Some(n as int),
        None => None,
    }
}

/// An 8-bit field as an integer.
pub open spec fn short(field: Option<i8>) -> Option<int> {
    match field {
        Some(n) => Some(n as int),
        None => None,
    }
}

/// A text field as its characters.
pub open spec fn chars(field: Option<String>) -> Option<Seq<char>> {
    match field {
        Some(s) => Some(s@),
        None => None,
    }
}

/// Puts one pair behind those in `out`.
fn push_pair(out: &mut Vec<QueryParam>, name: &str, value: String)
    ensures
        pairs_of(final(out)@) == pairs_of(old(out)@).push((name@, value@)),
{
    out.push(QueryParam { name: String::from_str(name), value });
    assert(pairs_of(final(out)@) =~= pairs_of(old(out)@).push((name@, value@)));
}

/// Puts the pair of a 128-bit field behind those in `out`, if it is present.
pub(crate) fn push_wide(out: &mut Vec<QueryParam>, name: &str, field: Option<i128>)
    ensures
        pairs_of(final(out)@) == with_int(pairs_of(old(out)@), name@, wide(field)),
{
    if let Some(n) = field {
        push_pair(out, name, i128_to_string(n));
    }
}

/// Puts the pair of a 64-bit field behind those in `out`, if it is present.
pub(crate) fn push_long(out: &mut Vec<QueryParam>, name: &str, field: Option<i64>)
    ensures
        pairs_of(final(out)@) == with_int(pairs_of(old(out)@), name@, long(field)),
{
    if let Some(n) = field {
        push_pair(out, name, i128_to_string(n as i128));
    }
}

/// Puts the pair of an 8-bit field behind those in `out`, if it is present.
pub(crate) fn push_short(out: &mut Vec<QueryParam>, name: &str, field: Option<i8>)
    ensures
        pairs_of(final(out)@) == with_int(pairs_of(old(out)@), name@, short(field)),
{
    if let Some(n) = field {
        push_pair(out, name, i128_to_string(n as i128));
    }
}

/// Puts the pair of a boolean field behind those in `out`, if it is present.
pub(crate) fn push_bool(out: &mut Vec<QueryParam>, name: &str, field: Option<bool>)
    ensures
        pairs_of(final(out)@) == with_bool(pairs_of(old(out)@), name@, field),
{
    if let Some(b) = field {
        push_pair(out, name, bool_to_string(b));
    }
}

/// Puts the pair of a text field behind those in `out`, if it is present.
pub(crate) fn push_text(out: &mut Vec<QueryParam>, name: &str, field: &Option<String>)
    ensures
        pairs_of(final(out)@) == with_text(pairs_of(old(out)@), name@, chars(*field)),
{
    if let Some(s) = field {
        push_pair(out, name, s.clone());
    }
}

} // verus!
