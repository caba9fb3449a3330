//! A list of contacts.

use crate::fields::{read_flag, read_long, read_text, read_wide, write_member};
use crate::json::{members_of, Json, JsonValue, Member, Members};
use crate::record::{
    flag_at, lemma_field_with_member, long_at, mark, text_at, wide_at, with_member, Record,
};
use vstd::prelude::*;

verus! {

/// A contact list.
#[derive(Clone, Debug, PartialEq, Eq)]
pub struct ContactsList {
    /// Whether the list is marked as deleted.
    pub is_deleted: bool,
    /// The name that the account gave the list.
    pub name: String,
    /// The address that reaches every contact of the list.
    pub address: String,
    /// When the list was made.
    pub created_at: String,
    /// The ID of the list.
    pub id: i128,
    /// How many contacts the list holds.
    pub subscriber_count: i64,
}

/// A list of contacts, as a mathematical object.
#[verifier::ext_equal]
pub struct ContactsListView {
    pub is_deleted: bool,
    pub name: Seq<char>,
    pub address: Seq<char>,
    pub created_at: Seq<char>,
    pub id: i128,
    pub subscriber_count: i64,
}

impl ContactsListView {
    /// The record in which every field holds its default.
    pub open spec fn blank() -> ContactsListView {
        ContactsListView {
            is_deleted: false,
            name: Seq::empty(),
            address: Seq::empty(),
            created_at: Seq::empty(),
            id: 0i128,
            subscriber_count: 0i64,
        }
    }
}

impl View for ContactsList {
    type V = ContactsListView;

    open spec fn view(&self) -> ContactsListView {
        ContactsListView {
            is_deleted: self.is_deleted,
            name: self.name@,
            address: self.address@,
            created_at: self.created_at@,
            id: self.id,
            subscriber_count: self.subscriber_count,
        }
    }
}

impl Default for ContactsList {
    fn default() -> (r: Self)
        ensures
            r@ == ContactsListView::blank(),
    {
        let r = ContactsList {
            is_deleted: false,
            name: String::new(),
            address: String::new(),
            created_at: String::new(),
            id: 0,
            subscriber_count: 0,
        };
        assert(r@ =~= ContactsListView::blank());
        r
    }
}

impl Record for ContactsList {
    open spec fn json_of(v: ContactsListView) -> JsonValue {
        let m = Members::empty();
        let m = with_member(m, "IsDeleted"@, JsonValue::Bool(v.is_deleted));
        let m = with_member(m, "Name"@, JsonValue::Text(v.name));
        let m = with_member(m, "Address"@, JsonValue::Text(v.address));
        let m = with_member(m, "CreatedAt"@, JsonValue::Text(v.created_at));
        let m = with_member(m, "ID"@, JsonValue::Int(v.id as int));
        let m = with_member(m, "SubscriberCount"@, JsonValue::Int(v.subscriber_count as int));
        JsonValue::Object(m)
    }

    open spec fn of_json(j: JsonValue) -> Option<ContactsListView> {
        if j is Object
            && flag_at(j, "IsDeleted"@) is Some
            && text_at(j, "Name"@) is Some
            && text_at(j, "Address"@) is Some
            && text_at(j, "CreatedAt"@) is Some
            && wide_at(j, "ID"@) is Some
            && long_at(j, "SubscriberCount"@) is Some {
            Some(
                ContactsListView {
                    is_deleted: flag_at(j, "IsDeleted"@)->0,
                    name: text_at(j, "Name"@)->0,
                    address: text_at(j, "Address"@)->0,
                    created_at: text_at(j, "CreatedAt"@)->0,
                    id: wide_at(j, "ID"@)->0,
                    subscriber_count: long_at(j, "SubscriberCount"@)->0,
                },
            )
        } else {
            None
        }
    }

    open spec fn comes_back(v: ContactsListView) -> bool {
        true
    }

    fn is_valid(&self) -> (valid: bool) {
        true
    }

    fn to_json(&self) -> (j: Json) {
        let mut m: Vec<Member> = Vec::new();
        assert(members_of(m@) =~= Members::empty());
        write_member(&mut m, "IsDeleted", Json::Bool(self.is_deleted));
        write_member(&mut m, "Name", Json::Text(self.name.clone()));
        write_member(&mut m, "Address", Json::Text(self.address.clone()));
        write_member(&mut m, "CreatedAt", Json::Text(self.created_at.clone()));
        write_member(&mut m, "ID", Json::Int(self.id));
        write_member(&mut m, "SubscriberCount", Json::Int(self.subscriber_count as i128));
        Json::object(m)
    }

    fn from_json(j: &Json) -> (r: Option<Self>) {
        match j {
            Json::Object(_) => {},
            _ => {
                return None;
            },
        }
        let is_deleted = match read_flag(j, "IsDeleted") {
            Some(v) => v,
            None => {
                return None;
            },
        };
        let name = match read_text(j, "Name") {
            Some(v) => v,
            None => {
                return None;
            },
        };
        let address = match read_text(j, "Address") {
            Some(v) => v,
            None => {
                return None;
            },
        };
        let created_at = match read_text(j, "CreatedAt") {
            Some(v) => v,
            None => {
                return None;
            },
        };
        let id = match read_wide(j, "ID") {
            Some(v) => v,
            None => {
                return None;
            },
        };
        let subscriber_count = match read_long(j, "SubscriberCount") {
            Some(v) => v,
            None => {
                return None;
            },
        };
        let r = ContactsList { is_deleted, name, address, created_at, id, subscriber_count };
        proof {
            assert(Self::of_json(j@)->0 =~= r@);
            Self::read_is_valid(j@);
        }
        Some(r)
    }

    proof fn read_is_valid(j: JsonValue) {
    }

    proof fn round_trip(v: ContactsListView) {
        broadcast use lemma_field_with_member;

        reveal_strlit("IsDeleted");
        reveal_strlit("Name");
        reveal_strlit("Address");
        reveal_strlit("CreatedAt");
        reveal_strlit("ID");
        reveal_strlit("SubscriberCount");
        assert(mark("IsDeleted"@) == (9nat, 'I', 'D', 'l', 'd'));
        assert(mark("Name"@) == (4nat, 'N', 'a', 'm', 'e'));
        assert(mark("Address"@) == (7nat, 'A', 'd', 'r', 's'));
        assert(mark("CreatedAt"@) == (9nat, 'C', 'e', 't', 't'));
        assert(mark("ID"@) == (2nat, 'I', 'I', 'D', 'D'));
        assert(mark("SubscriberCount"@) == (15nat, 'S', 's', 'b', 't'));
        assert(Self::of_json(Self::json_of(v))->0 =~= v);
    }
}

/// An object without members is read as the record in which every field
/// holds its default, and that record is one that comes back: a field that
/// is absent never makes a value unreadable.
pub proof fn lemma_blank_contacts_list()
    ensures
        ContactsList::of_json(JsonValue::Object(Members::empty()))
            == Some(ContactsListView::blank()),
        ContactsList::comes_back(ContactsListView::blank()),
{
    let j = JsonValue::Object(Members::empty());
    assert(ContactsList::of_json(j)->0 =~= ContactsListView::blank());
}

} // verus!
