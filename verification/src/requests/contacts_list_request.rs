//! The making or changing of a contact list.

use crate::fields::{flag_of_some, read_opt_flag, read_opt_text, text_of_some, write_optional};
use crate::json::{members_of, Json, JsonValue, Member, Members};
use crate::record::{
    flag_if_some, lemma_field_with_optional, mark, opt_flag_at, opt_text_at, text_if_some,
    view_of, with_optional, Record,
};
use vstd::prelude::*;

verus! {

/// What to make a contact list with, or what to change in one.
#[derive(Clone, Debug, PartialEq, Eq)]
pub struct ContactsListRequest {
    /// Whether the list is marked as deleted.
    pub is_deleted: Option<bool>,
    /// The name of the list.
    pub name: Option<String>,
}

/// The making or changing of a contact list, as a mathematical object.
#[verifier::ext_equal]
pub struct ContactsListRequestView {
    pub is_deleted: Option<bool>,
    pub name: Option<Seq<char>>,
}

impl ContactsListRequestView {
    /// The record in which every field holds its default.
    pub open spec fn blank() -> ContactsListRequestView {
        ContactsListRequestView {
            is_deleted: None,
            name: None,
        }
    }
}

impl View for ContactsListRequest {
    type V = ContactsListRequestView;

    open spec fn view(&self) -> ContactsListRequestView {
        ContactsListRequestView {
            is_deleted: self.is_deleted,
            name: view_of(self.name),
        }
    }
}

impl Default for ContactsListRequest {
    fn default() -> (r: Self)
        ensures
            r@ == ContactsListRequestView::blank(),
    {
        let r = ContactsListRequest {
            is_deleted: None,
            name: None,
        };
        assert(r@ =~= ContactsListRequestView::blank());
        r
    }
}

impl Record for ContactsListRequest {
    open spec fn json_of(v: ContactsListRequestView) -> JsonValue {
        let m = Members::empty();
        let m = with_optional(m, "IsDeleted"@, flag_if_some(v.is_deleted));
        let m = with_optional(m, "Name"@, text_if_some(v.name));
        JsonValue::Object(m)
    }

    open spec fn of_json(j: JsonValue) -> Option<ContactsListRequestView> {
        if j is Object
            && opt_flag_at(j, "IsDeleted"@) is Some
            && opt_text_at(j, "Name"@) is Some {
            Some(
                ContactsListRequestView {
                    is_deleted: opt_flag_at(j, "IsDeleted"@)->0,
                    name: opt_text_at(j, "Name"@)->0,
                },
            )
        } else {
            None
        }
    }

    open spec fn comes_back(v: ContactsListRequestView) -> bool {
        true
    }

    fn is_valid(&self) -> (valid: bool) {
        true
    }

    fn to_json(&self) -> (j: Json) {
        let mut m: Vec<Member> = Vec::new();
        assert(members_of(m@) =~= Members::empty());
        write_optional(&mut m, "IsDeleted", flag_of_some(self.is_deleted));
        write_optional(&mut m, "Name", text_of_some(&self.name));
        Json::object(m)
    }

    fn from_json(j: &Json) -> (r: Option<Self>) {
        match j {
            Json::Object(_) => {},
            _ => {
                return None;
            },
        }
        let is_deleted = match read_opt_flag(j, "IsDeleted") {
            Some(v) => v,
            None => {
                return None;
            },
        };
        let name = match read_opt_text(j, "Name") {
            Some(v) => v,
            None => {
                return None;
            },
        };
        let r = ContactsListRequest { is_deleted, name };
        proof {
            assert(Self::of_json(j@)->0 =~= r@);
            Self::read_is_valid(j@);
        }
        Some(r)
    }

    proof fn read_is_valid(j: JsonValue) {
    }

    proof fn round_trip(v: ContactsListRequestView) {
        broadcast use lemma_field_with_optional;

        reveal_strlit("IsDeleted");
        reveal_strlit("Name");
        assert(mark("IsDeleted"@) == (9nat, 'I', 'D', 'l', 'd'));
        assert(mark("Name"@) == (4nat, 'N', 'a', 'm', 'e'));
        assert(Self::of_json(Self::json_of(v))->0 =~= v);
    }
}

/// An object without members is read as the record in which every field
/// holds its default, and that record is one that comes back: a field that
/// is absent never makes a value unreadable.
pub proof fn lemma_blank_contacts_list_request()
    ensures
        ContactsListRequest::of_json(JsonValue::Object(Members::empty()))
            == Some(ContactsListRequestView::blank()),
        ContactsListRequest::comes_back(ContactsListRequestView::blank()),
{
    let j = JsonValue::Object(Members::empty());
    assert(ContactsListRequest::of_json(j)->0 =~= ContactsListRequestView::blank());
}

} // verus!
