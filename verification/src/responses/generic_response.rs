//! The envelope of the list endpoints: a count, the records, and a total.

use crate::fields::{all_valid, list_to_json, read_list, read_long, write_member};
use crate::json::{field, is_writable, members_of, Json, JsonValue, Member, Members};
use crate::record::{
    all_come_back, lemma_field_with_member, lemma_list_read_is_valid, lemma_list_round_trip,
    list_at, list_json, long_at,
    mark, views, with_member, Record,
};
use vstd::prelude::*;

verus! {

/// One page of records, as a list endpoint sends it. The three fields are
/// read as they come: nothing holds the count or the total to the number of
/// records.
#[derive(Clone, Debug, PartialEq, Eq)]
pub struct GenericResponse<T> {
    /// How many records the service says that `data` holds.
    pub count: i64,
    /// The records, in the order in which the service sent them.
    pub data: Vec<T>,
    /// How many records the service says that there are in all.
    pub total: i64,
}

/// One page of records, as a mathematical object.
#[verifier::ext_equal]
pub struct GenericResponseView<V> {
    pub count: i64,
    pub data: Seq<V>,
    pub total: i64,
}

impl<V> GenericResponseView<V> {
    /// The page in which every field holds its default.
    pub open spec fn blank() -> GenericResponseView<V> {
        GenericResponseView { count: 0i64, data: Seq::empty(), total: 0i64 }
    }
}

impl<T: View> View for GenericResponse<T> {
    type V = GenericResponseView<T::V>;

    open spec fn view(&self) -> GenericResponseView<T::V> {
        GenericResponseView { count: self.count, data: views(self.data@), total: self.total }
    }
}

impl<T: View> Default for GenericResponse<T> {
    fn default() -> (r: Self)
        ensures
            r@ == GenericResponseView::<T::V>::blank(),
    {
        let r = GenericResponse { count: 0, data: Vec::new(), total: 0 };
        assert(r@ =~= GenericResponseView::<T::V>::blank());
        r
    }
}

impl<T: Record> Record for GenericResponse<T> {
    open spec fn json_of(v: GenericResponseView<T::V>) -> JsonValue {
        let m = Members::empty();
        let m = with_member(m, "Count"@, JsonValue::Int(v.count as int));
        let m = with_member(m, "Data"@, JsonValue::Array(list_json::<T>(v.data)));
        let m = with_member(m, "Total"@, JsonValue::Int(v.total as int));
        JsonValue::Object(m)
    }

    open spec fn of_json(j: JsonValue) -> Option<GenericResponseView<T::V>> {
        if j is Object && long_at(j, "Count"@) is Some && list_at::<T>(j, "Data"@) is Some
            && long_at(j, "Total"@) is Some {
            Some(
                GenericResponseView {
                    count: long_at(j, "Count"@)->0,
                    data: list_at::<T>(j, "Data"@)->0,
                    total: long_at(j, "Total"@)->0,
                },
            )
        } else {
            None
        }
    }

    open spec fn comes_back(v: GenericResponseView<T::V>) -> bool {
        all_come_back::<T>(v.data)
    }

    fn is_valid(&self) -> (valid: bool) {
        all_valid(&self.data)
    }

    fn to_json(&self) -> (j: Json) {
        let mut m: Vec<Member> = Vec::new();
        assert(members_of(m@) =~= Members::empty());
        write_member(&mut m, "Count", Json::Int(self.count as i128));
        write_member(&mut m, "Data", Json::array(list_to_json(&self.data)));
        write_member(&mut m, "Total", Json::Int(self.total as i128));
        Json::object(m)
    }

    fn from_json(j: &Json) -> (r: Option<Self>) {
        match j {
            Json::Object(_) => {},
            _ => {
                return None;
            },
        }
        let count = match read_long(j, "Count") {
            Some(v) => v,
            None => {
                return None;
            },
        };
        let data = match read_list::<T>(j, "Data") {
            Some(v) => v,
            None => {
                return None;
            },
        };
        let total = match read_long(j, "Total") {
            Some(v) => v,
            None => {
                return None;
            },
        };
        let r = GenericResponse { count, data, total };
        proof {
            assert(Self::of_json(j@)->0 =~= r@);
            Self::read_is_valid(j@);
        }
        Some(r)
    }

    proof fn read_is_valid(j: JsonValue) {
        if let Some(JsonValue::Array(items)) = field(j, "Data"@) {
            lemma_list_read_is_valid::<T>(items);
        }
    }

    proof fn round_trip(v: GenericResponseView<T::V>) {
        broadcast use lemma_field_with_member;

        reveal_strlit("Count");
        reveal_strlit("Data");
        reveal_strlit("Total");
        assert(mark("Count"@) == (5nat, 'C', 'o', 'u', 't'));
        assert(mark("Data"@) == (4nat, 'D', 'a', 't', 'a'));
        assert(mark("Total"@) == (5nat, 'T', 'o', 't', 'l'));
        lemma_list_round_trip::<T>(v.data);
        assert(Self::of_json(Self::json_of(v))->0 =~= v);
    }
}

/// An object without members is read as the page in which every field
/// holds its default, and that page is one that comes back.
pub proof fn lemma_blank_generic_response<T: Record>()
    ensures
        GenericResponse::<T>::of_json(JsonValue::Object(Members::empty())) == Some(
            GenericResponseView::<T::V>::blank(),
        ),
        GenericResponse::<T>::comes_back(GenericResponseView::<T::V>::blank()),
{
    let j = JsonValue::Object(Members::empty());
    assert(GenericResponse::<T>::of_json(j)->0 =~= GenericResponseView::<T::V>::blank());
}

/// A page is read with the count and the total that it was written with,
/// whatever the number of its records: nothing holds the three to each
/// other.
pub proof fn lemma_counts_are_free<T: Record>(count: i64, data: Seq<T::V>, total: i64)
    requires
        all_come_back::<T>(data),
    ensures
        GenericResponse::<T>::of_json(
            GenericResponse::<T>::json_of(GenericResponseView { count, data, total }),
        ) == Some(GenericResponseView { count, data, total }),
{
    GenericResponse::<T>::round_trip(GenericResponseView { count, data, total });
}

impl Record for Json {
    /// A free-form value is written as itself.
    open spec fn json_of(v: JsonValue) -> JsonValue {
        v
    }

    /// A JSON value is read as a free-form value where it can be written.
    open spec fn of_json(j: JsonValue) -> Option<JsonValue> {
        if is_writable(j) {
            Some(j)
        } else {
            None
        }
    }

    open spec fn comes_back(v: JsonValue) -> bool {
        is_writable(v)
    }

    fn is_valid(&self) -> (valid: bool) {
        self.can_be_written()
    }

    fn to_json(&self) -> (j: Json) {
        self.duplicate()
    }

    fn from_json(j: &Json) -> (r: Option<Self>) {
        if j.can_be_written() {
            Some(j.duplicate())
        } else {
            None
        }
    }

    proof fn read_is_valid(j: JsonValue) {
    }

    proof fn round_trip(v: JsonValue) {
    }
}

} // verus!
