//! Writing the fields of a record into a JSON object and reading them out of
//! one.

use crate::json::{
    field, is_writable, items_of, lemma_view_of_parts, members_of, Json, JsonValue, Member,
};
use crate::number::is_number;
use crate::record::{
    all_come_back, array_if_any, flag_at, flag_if_some, json_at, list_at, list_json,
    list_of_json, long_at, long_if_some, names_once, opt_flag_at, opt_json_at, opt_long_at,
    opt_record_at, opt_text_at, real_at, record_at, record_if_some, table_at, table_if_any,
    table_json, text_at, text_if_any, text_if_some, texts_at, texts_json, texts_of,
    texts_of_json, texts_of_members, view_of, views, wide_at, with_member, with_optional,
    Record,
};
use crate::text::i128_to_string;
use vstd::prelude::*;

verus! {

/// A name and the text that goes with it.
#[derive(Clone, Debug, PartialEq, Eq)]
pub struct NamedText {
    pub name: String,
    pub value: String,
}

impl View for NamedText {
    type V = (Seq<char>, Seq<char>);

    open spec fn view(&self) -> (Seq<char>, Seq<char>) {
        (self.name@, self.value@)
    }
}

impl Json {
    /// A copy of this value.
    pub fn duplicate(&self) -> (copy: Json)
        ensures
            copy@ == self@,
        decreases self,
    {
        proof {
            lemma_view_of_parts(*self);
        }
        match self {
            Json::Null => Json::Null,
            Json::Bool(b) => Json::Bool(*b),
            Json::Int(n) => Json::Int(*n),
            Json::Real(t) => Json::Real(t.clone()),
            Json::Text(s) => Json::Text(s.clone()),
            Json::Array(items) => {
                let mut copies: Vec<Json> = Vec::new();
                let mut i: usize = 0;
                while i < items.len()
                    invariant
                        i <= items.len(),
                        copies.len() == i,
                        *self == Json::Array(*items),
                        forall|k: int| 0 <= k < i ==> (#[trigger] copies[k])@ == items[k]@,
                    decreases items.len() - i,
                {
                    proof {
                        assert(self->Array_0 == *items);
                        assert(decreases_to!(*self => self->Array_0));
                        assert(decreases_to!(items => items[i as int]));
                    }
                    let copy = items[i].duplicate();
                    copies.push(copy);
                    i += 1;
                }
                assert(items_of(copies@) =~= items_of(items@));
                Json::array(copies)
            },
            Json::Object(members) => {
                let mut copies: Vec<Member> = Vec::new();
                let mut i: usize = 0;
                while i < members.len()
                    invariant
                        i <= members.len(),
                        copies.len() == i,
                        *self == Json::Object(*members),
                        forall|k: int|
                            0 <= k < i ==> (#[trigger] copies[k]).name@ == members[k].name@
                                && copies[k].value@ == members[k].value@,
                    decreases members.len() - i,
                {
                    proof {
                        assert(self->Object_0 == *members);
                        assert(decreases_to!(*self => self->Object_0));
                        assert(decreases_to!(members => members[i as int]));
                    }
                    let value = members[i].value.duplicate();
                    copies.push(Member { name: members[i].name.clone(), value });
                    i += 1;
                }
                assert(members_of(copies@) =~= members_of(members@));
                Json::object(copies)
            },
        }
    }
}

impl Json {
    /// Whether the value can be written as JSON text: wherever it holds the
    /// text of a number, the text is that of a JSON number.
    pub fn can_be_written(&self) -> (ok: bool)
        ensures
            ok == is_writable(self@),
        decreases self,
    {
        proof {
            lemma_view_of_parts(*self);
        }
        match self {
            Json::Real(t) => is_number(t.as_str()),
            Json::Array(items) => {
                let ghost all = items_of(items@);
                let mut i: usize = 0;
                while i < items.len()
                    invariant
                        i <= items.len(),
                        all == items_of(items@),
                        self@ == JsonValue::Array(all),
                        *self == Json::Array(*items),
                        forall|k: int| 0 <= k < i ==> is_writable(#[trigger] all[k]),
                    decreases items.len() - i,
                {
                    proof {
                        assert(self->Array_0 == *items);
                        assert(decreases_to!(*self => self->Array_0));
                        assert(decreases_to!(items => items[i as int]));
                    }
                    if !items[i].can_be_written() {
                        assert(all[i as int] == items[i as int]@);
                        assert(!is_writable(all[i as int]));
                        assert(is_writable(self@) ==> is_writable(self@->Array_0[i as int]));
                        return false;
                    }
                    i += 1;
                }
                true
            },
            Json::Object(members) => {
                let ghost all = members_of(members@);
                let mut i: usize = 0;
                while i < members.len()
                    invariant
                        i <= members.len(),
                        all == members_of(members@),
                        self@ == JsonValue::Object(all),
                        *self == Json::Object(*members),
                        forall|k: int| 0 <= k < i ==> is_writable((#[trigger] all[k]).1),
                    decreases members.len() - i,
                {
                    proof {
                        assert(self->Object_0 == *members);
                        assert(decreases_to!(*self => self->Object_0));
                        assert(decreases_to!(members => members[i as int]));
                    }
                    if !members[i].value.can_be_written() {
                        assert(all[i as int].1 == members[i as int].value@);
                        assert(!is_writable(all[i as int].1));
                        assert(is_writable(self@) ==> is_writable(self@->Object_0[i as int].1));
                        return false;
                    }
                    i += 1;
                }
                true
            },
            _ => true,
        }
    }
}

/// Whether each record of a list is one that is written as JSON and read
/// back as itself.
pub fn all_valid<T: Record>(items: &Vec<T>) -> (valid: bool)
    ensures
        valid == all_come_back::<T>(views(items@)),
{
    let ghost all = views(items@);
    let mut i: usize = 0;
    while i < items.len()
        invariant
            i <= items.len(),
            all == views(items@),
            forall|k: int| 0 <= k < i ==> #[trigger] T::comes_back(all[k]),
        decreases items.len() - i,
    {
        if !items[i].is_valid() {
            assert(!T::comes_back(all[i as int]));
            return false;
        }
        i += 1;
    }
    true
}

/// Whether no name occurs twice in a table of texts.
pub fn names_occur_once(table: &Vec<NamedText>) -> (once: bool)
    ensures
        once == names_once(views(table@)),
{
    let ghost all = views(table@);
    let mut k: usize = 0;
    while k < table.len()
        invariant
            k <= table.len(),
            all == views(table@),
            forall|i: int, m: int|
                0 <= i < m < k ==> (#[trigger] all[i]).0 != (#[trigger] all[m]).0,
        decreases table.len() - k,
    {
        let mut i: usize = 0;
        while i < k
            invariant
                i <= k < table.len(),
                all == views(table@),
                forall|x: int| 0 <= x < i ==> (#[trigger] all[x]).0 != all[k as int].0,
            decreases k - i,
        {
            if table[i].name == table[k].name {
                assert(all[i as int].0 == all[k as int].0);
                return false;
            }
            i += 1;
        }
        k += 1;
    }
    true
}

/// Puts a member that is always written behind those in `out`.
pub fn write_member(out: &mut Vec<Member>, name: &str, value: Json)
    ensures
        members_of(final(out)@) == with_member(members_of(old(out)@), name@, value@),
{
    reveal(with_member);
    out.push(Member { name: String::from_str(name), value });
    assert(members_of(final(out)@) =~= with_member(members_of(old(out)@), name@, value@));
}

/// Puts a member behind those in `out` where there is a value to write.
pub fn write_optional(out: &mut Vec<Member>, name: &str, value: Option<Json>)
    ensures
        members_of(final(out)@) == with_optional(members_of(old(out)@), name@, view_of(value)),
{
    reveal(with_member);
    reveal(with_optional);
    if let Some(v) = value {
        write_member(out, name, v);
    }
}

/// The JSON string of a text that is not empty.
pub fn some_text(s: &String) -> (j: Option<Json>)
    ensures
        view_of(j) == text_if_any(s@),
{
    if s.as_str().is_empty() {
        None
    } else {
        Some(Json::Text(s.clone()))
    }
}

/// The JSON string of an optional text that is present.
pub fn text_of_some(field: &Option<String>) -> (j: Option<Json>)
    ensures
        view_of(j) == text_if_some(view_of(*field)),
{
    match field {
        Some(s) => Some(Json::Text(s.clone())),
        None => None,
    }
}

/// The JSON number of an optional number that is present.
pub fn long_of_some(field: Option<i64>) -> (j: Option<Json>)
    ensures
        view_of(j) == long_if_some(field),
{
    match field {
        Some(n) => Some(Json::Int(n as i128)),
        None => None,
    }
}

/// The JSON boolean of an optional boolean that is present.
pub fn flag_of_some(field: Option<bool>) -> (j: Option<Json>)
    ensures
        view_of(j) == flag_if_some(field),
{
    match field {
        Some(b) => Some(Json::Bool(b)),
        None => None,
    }
}

/// The JSON value that an optional value is always written as.
pub fn or_null_json(value: Option<Json>) -> (j: Json)
    ensures
        j@ == crate::record::or_null(view_of(value)),
{
    match value {
        Some(v) => v,
        None => Json::Null,
    }
}

/// The JSON objects of a list of records.
pub fn list_to_json<T: Record>(items: &Vec<T>) -> (out: Vec<Json>)
    ensures
        items_of(out@) == list_json::<T>(views(items@)),
{
    let mut out: Vec<Json> = Vec::new();
    let mut i: usize = 0;
    while i < items.len()
        invariant
            i <= items.len(),
            out.len() == i,
            forall|k: int| 0 <= k < i ==> (#[trigger] out[k])@ == T::json_of(items[k]@),
        decreases items.len() - i,
    {
        let j = items[i].to_json();
        out.push(j);
        i += 1;
    }
    assert(items_of(out@) =~= list_json::<T>(views(items@)));
    out
}

/// The JSON array of a list of records that is not empty.
pub fn some_list<T: Record>(items: &Vec<T>) -> (j: Option<Json>)
    ensures
        view_of(j) == array_if_any(list_json::<T>(views(items@))),
{
    if items.len() == 0 {
        None
    } else {
        Some(Json::array(list_to_json(items)))
    }
}

/// The JSON strings of a list of texts.
pub fn texts_to_json(items: &Vec<String>) -> (out: Vec<Json>)
    ensures
        items_of(out@) == texts_json(texts_of(items@)),
{
    let mut out: Vec<Json> = Vec::new();
    let mut i: usize = 0;
    while i < items.len()
        invariant
            i <= items.len(),
            out.len() == i,
            forall|k: int| 0 <= k < i ==> (#[trigger] out[k])@ == JsonValue::Text(items[k]@),
        decreases items.len() - i,
    {
        out.push(Json::Text(items[i].clone()));
        i += 1;
    }
    assert(items_of(out@) =~= texts_json(texts_of(items@)));
    out
}

/// The JSON object of a table of texts.
pub fn table_to_json(table: &Vec<NamedText>) -> (j: Json)
    ensures
        j@ == table_json(views(table@)),
{
    let mut out: Vec<Member> = Vec::new();
    let mut i: usize = 0;
    while i < table.len()
        invariant
            i <= table.len(),
            out.len() == i,
            forall|k: int|
                0 <= k < i ==> (#[trigger] out[k]).name@ == table[k].name@ && out[k].value@
                    == JsonValue::Text(table[k].value@),
        decreases table.len() - i,
    {
        out.push(Member { name: table[i].name.clone(), value: Json::Text(table[i].value.clone()) });
        i += 1;
    }
    let j = Json::object(out);
    assert(j@->Object_0 =~= table_json(views(table@))->Object_0);
    j
}

/// The JSON object of a table of texts that is not empty.
pub fn some_table(table: &Vec<NamedText>) -> (j: Option<Json>)
    ensures
        view_of(j) == table_if_any(views(table@)),
{
    if table.len() == 0 {
        None
    } else {
        Some(table_to_json(table))
    }
}

/// A copy of a free-form value that is present.
pub fn json_of_some(field: &Option<Json>) -> (j: Option<Json>)
    ensures
        view_of(j) == view_of(*field),
{
    match field {
        Some(v) => Some(v.duplicate()),
        None => None,
    }
}

/// The JSON object of an optional record that is present.
pub fn record_of_some<T: Record>(field: &Option<T>) -> (j: Option<Json>)
    ensures
        view_of(j) == record_if_some::<T>(view_of(*field)),
{
    match field {
        Some(r) => Some(r.to_json()),
        None => None,
    }
}

/// Reads the text under `name`.
pub fn read_text(j: &Json, name: &str) -> (r: Option<String>)
    ensures
        r matches Some(s) ==> text_at(j@, name@) == Some(s@),
        r is None ==> text_at(j@, name@) is None,
{
    match j.get(name) {
        None => Some(String::new()),
        Some(Json::Text(s)) => Some(s.clone()),
        Some(_) => None,
    }
}

/// Reads the 64-bit number under `name`.
pub fn read_long(j: &Json, name: &str) -> (r: Option<i64>)
    ensures
        r == long_at(j@, name@),
{
    match j.get(name) {
        None => Some(0),
        Some(Json::Int(n)) => {
            if -0x8000_0000_0000_0000 <= *n && *n <= 0x7fff_ffff_ffff_ffff {
                Some(*n as i64)
            } else {
                None
            }
        },
        Some(_) => None,
    }
}

/// Reads the 128-bit number under `name`.
pub fn read_wide(j: &Json, name: &str) -> (r: Option<i128>)
    ensures
        r == wide_at(j@, name@),
{
    match j.get(name) {
        None => Some(0),
        Some(Json::Int(n)) => Some(*n),
        Some(_) => None,
    }
}

/// Reads the number under `name` as its text.
pub fn read_real(j: &Json, name: &str) -> (r: Option<String>)
    ensures
        r matches Some(t) ==> real_at(j@, name@) == Some(t@),
        r is None ==> real_at(j@, name@) is None,
{
    match j.get(name) {
        None => Some(String::from_str("0.0")),
        Some(Json::Int(n)) => Some(i128_to_string(*n)),
        Some(Json::Real(t)) => {
            if is_number(t.as_str()) {
                Some(t.clone())
            } else {
                None
            }
        },
        Some(_) => None,
    }
}

/// Reads the free-form value under `name`.
pub fn read_json(j: &Json, name: &str) -> (r: Option<Json>)
    ensures
        view_of(r) == json_at(j@, name@),
{
    match j.get(name) {
        None => Some(Json::Null),
        Some(v) => {
            if v.can_be_written() {
                Some(v.duplicate())
            } else {
                None
            }
        },
    }
}

/// Reads the boolean under `name`.
pub fn read_flag(j: &Json, name: &str) -> (r: Option<bool>)
    ensures
        r == flag_at(j@, name@),
{
    match j.get(name) {
        None => Some(false),
        Some(Json::Bool(b)) => Some(*b),
        Some(_) => None,
    }
}

/// Reads the optional text under `name`.
pub fn read_opt_text(j: &Json, name: &str) -> (r: Option<Option<String>>)
    ensures
        r matches Some(f) ==> opt_text_at(j@, name@) == Some(view_of(f)),
        r is None ==> opt_text_at(j@, name@) is None,
{
    match j.get(name) {
        None => Some(None),
        Some(Json::Null) => Some(None),
        Some(Json::Text(s)) => Some(Some(s.clone())),
        Some(_) => None,
    }
}

/// Reads the optional 64-bit number under `name`.
pub fn read_opt_long(j: &Json, name: &str) -> (r: Option<Option<i64>>)
    ensures
        r == opt_long_at(j@, name@),
{
    match j.get(name) {
        None => Some(None),
        Some(Json::Null) => Some(None),
        Some(Json::Int(n)) => {
            if -0x8000_0000_0000_0000 <= *n && *n <= 0x7fff_ffff_ffff_ffff {
                Some(Some(*n as i64))
            } else {
                None
            }
        },
        Some(_) => None,
    }
}

/// Reads the optional boolean under `name`.
pub fn read_opt_flag(j: &Json, name: &str) -> (r: Option<Option<bool>>)
    ensures
        r == opt_flag_at(j@, name@),
{
    match j.get(name) {
        None => Some(None),
        Some(Json::Null) => Some(None),
        Some(Json::Bool(b)) => Some(Some(*b)),
        Some(_) => None,
    }
}

/// Reads the optional free-form value under `name`.
pub fn read_opt_json(j: &Json, name: &str) -> (r: Option<Option<Json>>)
    ensures
        r matches Some(f) ==> opt_json_at(j@, name@) == Some(view_of(f)),
        r is None ==> opt_json_at(j@, name@) is None,
{
    match j.get(name) {
        None => Some(None),
        Some(Json::Null) => Some(None),
        Some(v) => {
            if v.can_be_written() {
                Some(Some(v.duplicate()))
            } else {
                None
            }
        },
    }
}

/// Reads a list of JSON values as records.
pub fn read_items<T: Record>(items: &Vec<Json>) -> (r: Option<Vec<T>>)
    ensures
        r matches Some(v) ==> list_of_json::<T>(items_of(items@)) == Some(views(v@)),
        r is None ==> list_of_json::<T>(items_of(items@)) is None,
{
    let ghost all = items_of(items@);
    let mut out: Vec<T> = Vec::new();
    let mut i: usize = 0;
    while i < items.len()
        invariant
            i <= items.len(),
            out.len() == i,
            all == items_of(items@),
            forall|k: int| 0 <= k < i ==> #[trigger] T::of_json(all[k]) == Some(out[k]@),
        decreases items.len() - i,
    {
        match T::from_json(&items[i]) {
            Some(v) => {
                out.push(v);
            },
            None => {
                assert(T::of_json(all[i as int]) is None);
                return None;
            },
        }
        i += 1;
    }
    assert(list_of_json::<T>(all)->0 =~= views(out@));
    Some(out)
}

/// Reads the list of records under `name`.
pub fn read_list<T: Record>(j: &Json, name: &str) -> (r: Option<Vec<T>>)
    ensures
        r matches Some(v) ==> list_at::<T>(j@, name@) == Some(views(v@)),
        r is None ==> list_at::<T>(j@, name@) is None,
{
    match j.get(name) {
        None => {
            let v: Vec<T> = Vec::new();
            assert(views(v@) =~= Seq::<T::V>::empty());
            Some(v)
        },
        Some(Json::Array(items)) => {
            proof {
                lemma_view_of_parts(Json::Array(*items));
            }
            read_items(items)
        },
        Some(_) => None,
    }
}

/// Reads the list of texts under `name`.
pub fn read_texts(j: &Json, name: &str) -> (r: Option<Vec<String>>)
    ensures
        r matches Some(v) ==> texts_at(j@, name@) == Some(texts_of(v@)),
        r is None ==> texts_at(j@, name@) is None,
{
    match j.get(name) {
        None => {
            let v: Vec<String> = Vec::new();
            assert(texts_of(v@) =~= Seq::<Seq<char>>::empty());
            Some(v)
        },
        Some(Json::Array(items)) => {
            proof {
                lemma_view_of_parts(Json::Array(*items));
            }
            let ghost all = items_of(items@);
            let mut out: Vec<String> = Vec::new();
            let mut i: usize = 0;
            while i < items.len()
                invariant
                    i <= items.len(),
                    out.len() == i,
                    all == items_of(items@),
                    field(j@, name@) == Some(JsonValue::Array(all)),
                    forall|k: int| 0 <= k < i ==> #[trigger] all[k] == JsonValue::Text(out[k]@),
                decreases items.len() - i,
            {
                match &items[i] {
                    Json::Text(s) => {
                        out.push(s.clone());
                    },
                    _ => {
                        assert(!(all[i as int] is Text));
                        return None;
                    },
                }
                i += 1;
            }
            assert(texts_of_json(all)->0 =~= texts_of(out@));
            Some(out)
        },
        Some(_) => None,
    }
}

/// Reads the table of texts under `name`.
pub fn read_table(j: &Json, name: &str) -> (r: Option<Vec<NamedText>>)
    ensures
        r matches Some(v) ==> table_at(j@, name@) == Some(views(v@)),
        r is None ==> table_at(j@, name@) is None,
{
    match j.get(name) {
        None => {
            let v: Vec<NamedText> = Vec::new();
            assert(views(v@) =~= Seq::<(Seq<char>, Seq<char>)>::empty());
            Some(v)
        },
        Some(Json::Object(members)) => {
            proof {
                lemma_view_of_parts(Json::Object(*members));
            }
            let ghost all = members_of(members@);
            let mut out: Vec<NamedText> = Vec::new();
            let mut i: usize = 0;
            while i < members.len()
                invariant
                    i <= members.len(),
                    out.len() == i,
                    all == members_of(members@),
                    field(j@, name@) == Some(JsonValue::Object(all)),
                    forall|k: int|
                        0 <= k < i ==> #[trigger] all[k] == (
                            out[k].name@,
                            JsonValue::Text(out[k].value@),
                        ),
                decreases members.len() - i,
            {
                match &members[i].value {
                    Json::Text(s) => {
                        out.push(NamedText { name: members[i].name.clone(), value: s.clone() });
                    },
                    _ => {
                        assert(!(all[i as int].1 is Text));
                        return None;
                    },
                }
                i += 1;
            }
            assert(texts_of_members(all) =~= views(out@));
            if names_occur_once(&out) {
                Some(out)
            } else {
                None
            }
        },
        Some(_) => None,
    }
}

/// Reads the record under `name`, or takes `blank` where there is none.
pub fn read_record<T: Record>(j: &Json, name: &str, blank: T) -> (r: Option<T>)
    ensures
        r matches Some(v) ==> record_at::<T>(j@, name@, blank@) == Some(v@),
        r is None ==> record_at::<T>(j@, name@, blank@) is None,
{
    match j.get(name) {
        None => Some(blank),
        Some(v) => T::from_json(v),
    }
}

/// Reads the optional record under `name`.
pub fn read_opt_record<T: Record>(j: &Json, name: &str) -> (r: Option<Option<T>>)
    ensures
        r matches Some(Some(v)) ==> opt_record_at::<T>(j@, name@) == Some(Some(v@)),
        r matches Some(None) ==> opt_record_at::<T>(j@, name@) == Some(None::<T::V>),
        r is None ==> opt_record_at::<T>(j@, name@) is None,
{
    match j.get(name) {
        None => Some(None),
        Some(Json::Null) => Some(None),
        Some(v) => match T::from_json(v) {
            Some(r) => Some(Some(r)),
            None => None,
        },
    }
}

} // verus!
