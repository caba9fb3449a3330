//! The mapping between records and JSON objects: every field under its wire
//! name, a default for every field that is absent, and the fields that are
//! left out when they hold their default.

use crate::json::{field, field_in, is_number_text, is_writable, Json, JsonValue, Members};
use crate::text::decimal;
use vstd::prelude::*;

verus! {

/// A record that is written as a JSON object and read from one.
pub trait Record: Sized + View {
    /// The JSON object that a record is written as.
    spec fn json_of(v: Self::V) -> JsonValue;

    /// The record that a JSON value is read as, if it can be read as one.
    spec fn of_json(j: JsonValue) -> Option<Self::V>;

    /// Whether the record is one that is written as JSON and read back as
    /// itself: the text of each measurement is that of a number, no name
    /// occurs twice in a table of texts, every free-form value can be
    /// written, and none of them is present and `null`, which is written as
    /// `null` and read as absent.
    spec fn comes_back(v: Self::V) -> bool;

    /// Whether the record is one that is written as JSON and read back as
    /// itself.
    fn is_valid(&self) -> (valid: bool)
        ensures
            valid == Self::comes_back(self@),
    ;

    /// Writes the record as a JSON object.
    fn to_json(&self) -> (j: Json)
        ensures
            j@ == Self::json_of(self@),
    ;

    /// Reads a JSON value as a record. A field that is absent gets its
    /// default, a member that no field answers to is ignored, and a member
    /// of the wrong type makes the whole value unreadable; so does a
    /// measurement whose text is that of no number, a table of texts in
    /// which a name occurs twice, and a free-form value that cannot be
    /// written.
    fn from_json(j: &Json) -> (r: Option<Self>)
        ensures
            r matches Some(v) ==> Self::of_json(j@) == Some(v@) && Self::comes_back(v@),
            r is None ==> Self::of_json(j@) is None,
    ;

    /// What is read is a record that is written as JSON and read back as
    /// itself.
    proof fn read_is_valid(j: JsonValue)
        ensures
            Self::of_json(j) matches Some(v) ==> Self::comes_back(v),
    ;

    /// Reading what was written gives the record back: every field that was
    /// written with its value, and every field that was left out with the
    /// default that it held.
    proof fn round_trip(v: Self::V)
        requires
            Self::comes_back(v),
        ensures
            Self::of_json(Self::json_of(v)) == Some(v),
    ;
}

/// `acc`, and behind it a member that is always written.
#[verifier::opaque]
pub open spec fn with_member(acc: Members, name: Seq<char>, value: JsonValue) -> Members {
    acc.push((name, value))
}

/// `acc`, and behind it a member that is written only where there is a
/// value.
#[verifier::opaque]
pub open spec fn with_optional(acc: Members, name: Seq<char>, value: Option<JsonValue>) -> Members {
    match value {
        Some(v) => acc.push((name, v)),
        None => acc,
    }
}

/// A member that was just written is found under its name, and every other
/// name finds what it found before.
pub broadcast proof fn lemma_field_with_member(
    acc: Members,
    name: Seq<char>,
    value: JsonValue,
    wanted: Seq<char>,
)
    ensures
        #[trigger] field_in(with_member(acc, name, value), wanted) == if name == wanted {
            Some(value)
        } else {
            field_in(acc, wanted)
        },
{
    reveal(with_member);
    assert(with_member(acc, name, value).drop_last() =~= acc);
}

/// A member that was left out changes nothing, and one that was written is
/// found under its name.
pub broadcast proof fn lemma_field_with_optional(
    acc: Members,
    name: Seq<char>,
    value: Option<JsonValue>,
    wanted: Seq<char>,
)
    ensures
        #[trigger] field_in(with_optional(acc, name, value), wanted) == if value is Some && name
            == wanted {
            value
        } else {
            field_in(acc, wanted)
        },
{
    reveal(with_optional);
    if let Some(v) = value {
        assert(with_optional(acc, name, value).drop_last() =~= acc);
    }
}

/// What tells the wire names of one record apart: the length of a name, and
/// the characters at its start, at a quarter, at the middle and at its end.
pub open spec fn mark(name: Seq<char>) -> (nat, char, char, char, char) {
    (
        name.len(),
        name[0],
        name[name.len() as int / 4],
        name[name.len() as int / 2],
        name[name.len() - 1],
    )
}

/// Whether no name occurs twice in a table of texts. A table is written as
/// one JSON object, and an object holds one value for each name.
pub open spec fn names_once(table: Seq<(Seq<char>, Seq<char>)>) -> bool {
    forall|i: int, k: int|
        0 <= i < k < table.len() ==> (#[trigger] table[i]).0 != (#[trigger] table[k]).0
}

/// The view of an optional field.
pub open spec fn view_of<T: View>(field: Option<T>) -> Option<T::V> {
    match field {
        Some(x) => Some(x@),
        None => None,
    }
}

/// The views of a list of records.
pub open spec fn views<T: View>(items: Seq<T>) -> Seq<T::V> {
    Seq::new(items.len(), |i: int| items[i]@)
}

/// The characters of each of a list of texts.
pub open spec fn texts_of(items: Seq<String>) -> Seq<Seq<char>> {
    Seq::new(items.len(), |i: int| items[i]@)
}

/// A value only where there is one to write: a field that holds nothing is
/// left out.
pub open spec fn text_if_any(s: Seq<char>) -> Option<JsonValue> {
    if s.len() == 0 {
        None
    } else {
        Some(JsonValue::Text(s))
    }
}

/// The text of an optional field, if the field is present.
pub open spec fn text_if_some(field: Option<Seq<char>>) -> Option<JsonValue> {
    match field {
        Some(s) => Some(JsonValue::Text(s)),
        None => None,
    }
}

/// The number of an optional field, if the field is present.
pub open spec fn long_if_some(field: Option<i64>) -> Option<JsonValue> {
    match field {
        Some(n) => Some(JsonValue::Int(n as int)),
        None => None,
    }
}

/// The boolean of an optional field, if the field is present.
pub open spec fn flag_if_some(field: Option<bool>) -> Option<JsonValue> {
    match field {
        Some(b) => Some(JsonValue::Bool(b)),
        None => None,
    }
}

/// The array of a list, if the list is not empty.
pub open spec fn array_if_any(items: Seq<JsonValue>) -> Option<JsonValue> {
    if items.len() == 0 {
        None
    } else {
        Some(JsonValue::Array(items))
    }
}

/// The object of a table of texts, if the table is not empty.
pub open spec fn table_if_any(table: Seq<(Seq<char>, Seq<char>)>) -> Option<JsonValue> {
    if table.len() == 0 {
        None
    } else {
        Some(table_json(table))
    }
}

/// The value of an optional field that is always written: `null` where the
/// field is absent.
pub open spec fn or_null(value: Option<JsonValue>) -> JsonValue {
    match value {
        Some(v) => v,
        None => JsonValue::Null,
    }
}

/// The JSON objects of a list of records.
pub open spec fn list_json<T: Record>(items: Seq<T::V>) -> Seq<JsonValue> {
    Seq::new(items.len(), |i: int| T::json_of(items[i]))
}

/// The JSON strings of a list of texts.
pub open spec fn texts_json(items: Seq<Seq<char>>) -> Seq<JsonValue> {
    Seq::new(items.len(), |i: int| JsonValue::Text(items[i]))
}

/// The JSON object of a table of texts: each value under its name.
pub open spec fn table_json(table: Seq<(Seq<char>, Seq<char>)>) -> JsonValue {
    JsonValue::Object(Seq::new(table.len(), |i: int| (table[i].0, JsonValue::Text(table[i].1))))
}

/// The JSON object of an optional record, if the record is present.
pub open spec fn record_if_some<T: Record>(field: Option<T::V>) -> Option<JsonValue> {
    match field {
        Some(v) => Some(T::json_of(v)),
        None => None,
    }
}

/// Each record of the list comes back once it was written.
pub open spec fn all_come_back<T: Record>(items: Seq<T::V>) -> bool {
    forall|i: int| 0 <= i < items.len() ==> #[trigger] T::comes_back(items[i])
}

/// A list of records that was written is read as the same list.
pub proof fn lemma_list_round_trip<T: Record>(items: Seq<T::V>)
    requires
        all_come_back::<T>(items),
    ensures
        list_of_json::<T>(list_json::<T>(items)) == Some(items),
{
    let written = list_json::<T>(items);
    assert forall|i: int| 0 <= i < written.len() implies (#[trigger] T::of_json(written[i]))
        == Some(items[i]) by {
        assert(T::comes_back(items[i]));
        T::round_trip(items[i]);
    }
    assert(list_of_json::<T>(written)->0 =~= items);
}

/// A list of texts that was written is read as the same list.
pub proof fn lemma_texts_round_trip(items: Seq<Seq<char>>)
    ensures
        texts_of_json(texts_json(items)) == Some(items),
{
    let written = texts_json(items);
    assert forall|i: int| 0 <= i < written.len() implies (#[trigger] written[i]) is Text by {}
    assert(texts_of_json(written)->0 =~= items);
}

/// A table of texts in which no name occurs twice is read, once it was
/// written, as the same table.
pub proof fn lemma_table_round_trip(table: Seq<(Seq<char>, Seq<char>)>)
    requires
        names_once(table),
    ensures
        table_json(table) is Object,
        table_of_json(table_json(table)->Object_0) == Some(table),
{
    let written = table_json(table)->Object_0;
    assert forall|i: int| 0 <= i < written.len() implies (#[trigger] written[i]).1 is Text by {}
    assert(texts_of_members(written) =~= table);
}

/// The records that a list of JSON values is read as are all records that
/// are written as JSON and read back as themselves.
pub proof fn lemma_list_read_is_valid<T: Record>(items: Seq<JsonValue>)
    ensures
        list_of_json::<T>(items) matches Some(read) ==> all_come_back::<T>(read),
{
    if let Some(read) = list_of_json::<T>(items) {
        assert forall|i: int| 0 <= i < read.len() implies #[trigger] T::comes_back(read[i]) by {
            assert(T::of_json(items[i]) is Some);
            T::read_is_valid(items[i]);
        }
    }
}

/// The text under `name`: empty where there is no such member, unreadable
/// where the member is no text.
pub open spec fn text_at(j: JsonValue, name: Seq<char>) -> Option<Seq<char>> {
    match field(j, name) {
        None => Some(Seq::empty()),
        Some(JsonValue::Text(s)) => Some(s),
        Some(_) => None,
    }
}

/// The 64-bit number under `name`: zero where there is no such member,
/// unreadable where the member is no integer or does not fit.
pub open spec fn long_at(j: JsonValue, name: Seq<char>) -> Option<i64> {
    match field(j, name) {
        None => Some(0i64),
        Some(JsonValue::Int(n)) => if i64::MIN <= n <= i64::MAX {
            Some(n as i64)
        } else {
            None
        },
        Some(_) => None,
    }
}

/// The 128-bit number under `name`: zero where there is no such member,
/// unreadable where the member is no integer or does not fit.
pub open spec fn wide_at(j: JsonValue, name: Seq<char>) -> Option<i128> {
    match field(j, name) {
        None => Some(0i128),
        Some(JsonValue::Int(n)) => if i128::MIN <= n <= i128::MAX {
            Some(n as i128)
        } else {
            None
        },
        Some(_) => None,
    }
}

/// The number under `name`, as its text: `0.0` where there is no such
/// member, the digits of an integer, the text of any other number, and
/// unreadable where the member is no number or its text is that of none.
pub open spec fn real_at(j: JsonValue, name: Seq<char>) -> Option<Seq<char>> {
    match field(j, name) {
        None => Some("0.0"@),
        Some(JsonValue::Int(n)) => Some(decimal(n)),
        Some(JsonValue::Real(t)) => if is_number_text(t) {
            Some(t)
        } else {
            None
        },
        Some(_) => None,
    }
}

/// The free-form value under `name`: `null` where there is no such member,
/// unreadable where the member cannot be written.
pub open spec fn json_at(j: JsonValue, name: Seq<char>) -> Option<JsonValue> {
    match field(j, name) {
        None => Some(JsonValue::Null),
        Some(v) => if is_writable(v) {
            Some(v)
        } else {
            None
        },
    }
}

/// The boolean under `name`: `false` where there is no such member,
/// unreadable where the member is no boolean.
pub open spec fn flag_at(j: JsonValue, name: Seq<char>) -> Option<bool> {
    match field(j, name) {
        None => Some(false),
        Some(JsonValue::Bool(b)) => Some(b),
        Some(_) => None,
    }
}

/// The optional text under `name`: absent where there is no such member or
/// the member is `null`, unreadable where it is anything else but a text.
pub open spec fn opt_text_at(j: JsonValue, name: Seq<char>) -> Option<Option<Seq<char>>> {
    match field(j, name) {
        None => Some(None),
        Some(JsonValue::Null) => Some(None),
        Some(JsonValue::Text(s)) => Some(Some(s)),
        Some(_) => None,
    }
}

/// The optional 64-bit number under `name`: absent where there is no such
/// member or the member is `null`, unreadable where it is anything else but
/// an integer that fits.
pub open spec fn opt_long_at(j: JsonValue, name: Seq<char>) -> Option<Option<i64>> {
    match field(j, name) {
        None => Some(None),
        Some(JsonValue::Null) => Some(None),
        Some(JsonValue::Int(n)) => if i64::MIN <= n <= i64::MAX {
            Some(Some(n as i64))
        } else {
            None
        },
        Some(_) => None,
    }
}

/// The optional boolean under `name`: absent where there is no such member
/// or the member is `null`, unreadable where it is anything else but a
/// boolean.
pub open spec fn opt_flag_at(j: JsonValue, name: Seq<char>) -> Option<Option<bool>> {
    match field(j, name) {
        None => Some(None),
        Some(JsonValue::Null) => Some(None),
        Some(JsonValue::Bool(b)) => Some(Some(b)),
        Some(_) => None,
    }
}

/// The optional free-form value under `name`: absent where there is no such
/// member or the member is `null`, unreadable where the member cannot be
/// written.
pub open spec fn opt_json_at(j: JsonValue, name: Seq<char>) -> Option<Option<JsonValue>> {
    match field(j, name) {
        None => Some(None),
        Some(JsonValue::Null) => Some(None),
        Some(v) => if is_writable(v) {
            Some(Some(v))
        } else {
            None
        },
    }
}

/// The records that a list of JSON values is read as, if each of them can
/// be read.
pub open spec fn list_of_json<T: Record>(items: Seq<JsonValue>) -> Option<Seq<T::V>> {
    if forall|i: int| 0 <= i < items.len() ==> (#[trigger] T::of_json(items[i])) is Some {
        Some(Seq::new(items.len(), |i: int| T::of_json(items[i])->0))
    } else {
        None
    }
}

/// The list of records under `name`: empty where there is no such member,
/// unreadable where the member is no array or one of its items cannot be
/// read.
pub open spec fn list_at<T: Record>(j: JsonValue, name: Seq<char>) -> Option<Seq<T::V>> {
    match field(j, name) {
        None => Some(Seq::empty()),
        Some(JsonValue::Array(items)) => list_of_json::<T>(items),
        Some(_) => None,
    }
}

/// The texts that a list of JSON values is read as, if each of them is a
/// text.
pub open spec fn texts_of_json(items: Seq<JsonValue>) -> Option<Seq<Seq<char>>> {
    if forall|i: int| 0 <= i < items.len() ==> (#[trigger] items[i]) is Text {
        Some(Seq::new(items.len(), |i: int| items[i]->Text_0))
    } else {
        None
    }
}

/// The list of texts under `name`: empty where there is no such member,
/// unreadable where the member is no array of texts.
pub open spec fn texts_at(j: JsonValue, name: Seq<char>) -> Option<Seq<Seq<char>>> {
    match field(j, name) {
        None => Some(Seq::empty()),
        Some(JsonValue::Array(items)) => texts_of_json(items),
        Some(_) => None,
    }
}

/// The names of the members with the texts that their values are.
pub open spec fn texts_of_members(members: Members) -> Seq<(Seq<char>, Seq<char>)> {
    Seq::new(members.len(), |i: int| (members[i].0, members[i].1->Text_0))
}

/// The table that the members of an object are read as, if each of their
/// values is a text and no name occurs twice.
pub open spec fn table_of_json(members: Members) -> Option<Seq<(Seq<char>, Seq<char>)>> {
    if (forall|i: int| 0 <= i < members.len() ==> (#[trigger] members[i]).1 is Text)
        && names_once(texts_of_members(members)) {
        Some(texts_of_members(members))
    } else {
        None
    }
}

/// The table of texts under `name`: empty where there is no such member,
/// unreadable where the member is no object of texts or a name occurs twice
/// in it.
pub open spec fn table_at(j: JsonValue, name: Seq<char>) -> Option<Seq<(Seq<char>, Seq<char>)>> {
    match field(j, name) {
        None => Some(Seq::empty()),
        Some(JsonValue::Object(members)) => table_of_json(members),
        Some(_) => None,
    }
}

/// The record under `name`: `blank` where there is no such member,
/// unreadable where the member cannot be read as the record.
pub open spec fn record_at<T: Record>(j: JsonValue, name: Seq<char>, blank: T::V) -> Option<T::V> {
    match field(j, name) {
        None => Some(blank),
        Some(v) => T::of_json(v),
    }
}

/// The optional record under `name`: absent where there is no such member
/// or the member is `null`, unreadable where it cannot be read as the
/// record.
pub open spec fn opt_record_at<T: Record>(j: JsonValue, name: Seq<char>) -> Option<Option<T::V>> {
    match field(j, name) {
        None => Some(None),
        Some(JsonValue::Null) => Some(None),
        Some(v) => match T::of_json(v) {
            Some(r) => Some(Some(r)),
            None => None,
        },
    }
}

} // verus!
