//! Reading JSON text: the parser of `serde_json` hands out a value of its
//! own, and this module walks it into a [`Json`].

use crate::json::{Json, JsonValue, Member, Members};
use serde_json::Value;
use vstd::prelude::*;

verus! {

/// A JSON value of `serde_json`, carried as an opaque value.
#[verifier::external_type_specification]
#[verifier::external_body]
pub struct ExValue(serde_json::Value);

/// The error of `serde_json`, carried as an opaque value.
#[verifier::external_type_specification]
#[verifier::external_body]
pub struct ExJsonError(serde_json::Error);

/// What the parser of `serde_json` makes of a text: the value that the text
/// denotes, or nothing where the text is not JSON.
pub uninterp spec fn parsed_json(text: Seq<char>) -> Option<JsonValue>;

/// What a value of `serde_json` holds. A number whose text is that of an
/// integer of 128 bits stands for that integer, any other number for the
/// text that `serde_json` keeps of it; the members of an object stand in
/// the order in which the object hands them out.
pub uninterp spec fn value_json(v: Value) -> JsonValue;

/// Why a text could not be read as the record that was expected.
#[derive(Clone, Copy, Debug, PartialEq, Eq)]
pub enum DecodeError {
    /// The text is not JSON.
    Syntax,
    /// The text is JSON of another shape than the record.
    Shape,
}

/// What each of a list of values holds.
pub open spec fn values_json(values: Seq<Value>) -> Seq<JsonValue> {
    Seq::new(values.len(), |i: int| value_json(values[i]))
}

/// What each of a list of members holds, under its name.
pub open spec fn entries_json(entries: Seq<(&String, &Value)>) -> Members {
    Seq::new(entries.len(), |i: int| (entries[i].0@, value_json(*entries[i].1)))
}

/// `found` is the boolean that `j` is, and nothing where `j` is none.
pub open spec fn is_bool_of(found: Option<bool>, j: JsonValue) -> bool {
    match found {
        Some(b) => j == JsonValue::Bool(b),
        None => !(j is Bool),
    }
}

/// `found` is the integer that `j` is, and nothing where `j` is none.
pub open spec fn is_int_of(found: Option<i128>, j: JsonValue) -> bool {
    match found {
        Some(n) => j == JsonValue::Int(n as int),
        None => !(j is Int),
    }
}

/// `found` is the text of the number that `j` is, where `j` is a number
/// that is no integer, and nothing where `j` is no number. Of the text of
/// an integer nothing is said.
pub open spec fn is_real_text_of(found: Option<String>, j: JsonValue) -> bool {
    match found {
        Some(t) => j is Int || j == JsonValue::Real(t@),
        None => !(j is Int) && !(j is Real),
    }
}

/// `found` is the text that `j` is, and nothing where `j` is none.
pub open spec fn is_text_of(found: Option<String>, j: JsonValue) -> bool {
    match found {
        Some(s) => j == JsonValue::Text(s@),
        None => !(j is Text),
    }
}

/// `found` holds the items of the array that `j` is, and nothing where `j`
/// is none.
pub open spec fn is_items_of(found: Option<&Vec<Value>>, j: JsonValue) -> bool {
    match found {
        Some(items) => j == JsonValue::Array(values_json(items@)),
        None => !(j is Array),
    }
}

/// `found` holds the members of the object that `j` is, and nothing where
/// `j` is none.
pub open spec fn is_members_of(found: Option<Vec<(&String, &Value)>>, j: JsonValue) -> bool {
    match found {
        Some(entries) => j == JsonValue::Object(entries_json(entries@)),
        None => !(j is Object),
    }
}

/// `serde_json::from_str` at the type `Value`: the value that the text
/// denotes, or an error where the text is not JSON.
#[verifier::external_body]
fn parse_value(text: &str) -> (parsed: Result<Value, serde_json::Error>)
    ensures
        parsed matches Ok(v) ==> parsed_json(text@) == Some(value_json(v)),
        parsed is Err ==> parsed_json(text@) is None,
{
    serde_json::from_str::<Value>(text)
}

/// `Value::is_null`: whether the value is `null`.
#[verifier::external_body]
fn is_null(v: &Value) -> (null: bool)
    ensures
        null == (value_json(*v) is Null),
{
    v.is_null()
}

/// `Value::as_bool`: the boolean, if the value is one.
#[verifier::external_body]
fn as_bool(v: &Value) -> (found: Option<bool>)
    ensures
        is_bool_of(found, value_json(*v)),
{
    v.as_bool()
}

/// `Number::as_i128`: the integer, if the value is a number whose text is
/// that of an integer of 128 bits.
#[verifier::external_body]
fn as_int(v: &Value) -> (found: Option<i128>)
    ensures
        is_int_of(found, value_json(*v)),
{
    match v {
        Value::Number(n) => n.as_i128(),
        _ => None,
    }
}

/// `Number`'s `Display`: the text that `serde_json` keeps of the number, if
/// the value is one. The contract speaks of the text only where the number
/// is no integer: an integer may be kept as another text than its digits,
/// as zero is where it was read from `-0`.
#[verifier::external_body]
fn as_number_text(v: &Value) -> (found: Option<String>)
    ensures
        is_real_text_of(found, value_json(*v)),
{
    match v {
        Value::Number(n) => Some(n.to_string()),
        _ => None,
    }
}

/// `Value::as_str`: the text, if the value is a string.
#[verifier::external_body]
fn as_text(v: &Value) -> (found: Option<String>)
    ensures
        is_text_of(found, value_json(*v)),
{
    match v {
        Value::String(s) => Some(s.clone()),
        _ => None,
    }
}

/// `Value::as_array`: the items, if the value is an array.
#[verifier::external_body]
fn as_array(v: &Value) -> (found: Option<&Vec<Value>>)
    ensures
        is_items_of(found, value_json(*v)),
{
    v.as_array()
}

/// `Map::iter`: the members in the order in which the object hands them
/// out, if the value is an object.
#[verifier::external_body]
fn as_members(v: &Value) -> (found: Option<Vec<(&String, &Value)>>)
    ensures
        is_members_of(found, value_json(*v)),
{
    match v {
        Value::Object(m) => Some(m.iter().collect()),
        _ => None,
    }
}

/// The JSON value that a value of `serde_json` holds.
fn tree_of(v: &Value) -> (j: Json)
    ensures
        j@ == value_json(*v),
    decreases value_json(*v),
{
    if is_null(v) {
        return Json::Null;
    }
    if let Some(b) = as_bool(v) {
        return Json::Bool(b);
    }
    if let Some(n) = as_int(v) {
        return Json::Int(n);
    }
    if let Some(s) = as_text(v) {
        return Json::Text(s);
    }
    if let Some(values) = as_array(v) {
        let ghost all = values_json(values@);
        let mut items: Vec<Json> = Vec::new();
        let mut i: usize = 0;
        while i < values.len()
            invariant
                i <= values.len(),
                items.len() == i,
                all == values_json(values@),
                value_json(*v) == JsonValue::Array(all),
                forall|k: int| 0 <= k < i ==> (#[trigger] items[k])@ == all[k],
            decreases values.len() - i,
        {
            proof {
                assert(all[i as int] == value_json(values[i as int]));
                assert(value_json(*v)->Array_0 == all);
                assert(decreases_to!(value_json(*v) => value_json(*v)->Array_0));
                assert(decreases_to!(all => all[i as int]));
            }
            let item = tree_of(&values[i]);
            items.push(item);
            i += 1;
        }
        let j = Json::array(items);
        assert(j@->Array_0 =~= all);
        return j;
    }
    if let Some(entries) = as_members(v) {
        let ghost all = entries_json(entries@);
        let mut members: Vec<Member> = Vec::new();
        let mut i: usize = 0;
        while i < entries.len()
            invariant
                i <= entries.len(),
                members.len() == i,
                all == entries_json(entries@),
                value_json(*v) == JsonValue::Object(all),
                forall|k: int|
                    0 <= k < i ==> ((#[trigger] members[k]).name@, members[k].value@) == all[k],
            decreases entries.len() - i,
        {
            proof {
                assert(all[i as int] == (entries[i as int].0@, value_json(*entries[i as int].1)));
                assert(value_json(*v)->Object_0 == all);
                assert(decreases_to!(value_json(*v) => value_json(*v)->Object_0));
                assert(decreases_to!(all => all[i as int]));
                assert(decreases_to!(all[i as int] => all[i as int].1));
            }
            let name = entries[i].0.clone();
            let value = tree_of(entries[i].1);
            members.push(Member { name, value });
            i += 1;
        }
        let j = Json::object(members);
        assert(j@->Object_0 =~= all);
        return j;
    }
    match as_number_text(v) {
        Some(t) => Json::Real(t),
        None => {
            // Every value is one of the seven kinds.
            Json::Null
        },
    }
}

impl Json {
    /// Reads a text as JSON.
    pub fn parse(text: &str) -> (parsed: Result<Json, DecodeError>)
        ensures
            parsed matches Ok(j) ==> parsed_json(text@) == Some(j@),
            parsed matches Err(e) ==> e is Syntax && parsed_json(text@) is None,
    {
        match parse_value(text) {
            Ok(v) => Ok(tree_of(&v)),
            Err(_) => Err(DecodeError::Syntax),
        }
    }
}

} // verus!
