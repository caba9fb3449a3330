//! The making or changing of a contact.

use crate::fields::{
    flag_of_some, or_null_json, read_opt_flag, read_opt_text, text_of_some, write_member,
    write_optional,
};
use crate::json::{members_of, Json, JsonValue, Member, Members};
use crate::record::{
    flag_if_some, lemma_field_with_member, lemma_field_with_optional, mark, opt_flag_at,
    opt_text_at, or_null, text_if_some, view_of, with_member, with_optional, Record,
};
use vstd::prelude::*;

verus! {

/// What to make a contact with, or what to change in one.
#[derive(Clone, Debug, PartialEq, Eq)]
pub struct ContactRequest {
    /// Whether the contact gets no marketing mail.
    pub is_excluded_from_campaigns: Option<bool>,
    /// The name of the contact.
    pub name: Option<String>,
    /// The address of the contact; always written, as `null` where it is
    /// absent.
    pub email: Option<String>,
}

/// The making or changing of a contact, as a mathematical object.
#[verifier::ext_equal]
pub struct ContactRequestView {
    pub is_excluded_from_campaigns: Option<bool>,
    pub name: Option<Seq<char>>,
    pub email: Option<Seq<char>>,
}

impl ContactRequestView {
    /// The record in which every field holds its default.
    pub open spec fn blank() -> ContactRequestView {
        ContactRequestView {
            is_excluded_from_campaigns: None,
            name: None,
            email: None,
        }
    }
}

impl View for ContactRequest {
    type V = ContactRequestView;

    open spec fn view(&self) -> ContactRequestView {
        ContactRequestView {
            is_excluded_from_campaigns: self.is_excluded_from_campaigns,
            name: view_of(self.name),
            email: view_of(self.email),
        }
    }
}

impl Default for ContactRequest {
    fn default() -> (r: Self)
        ensures
            r@ == ContactRequestView::blank(),
    {
        let r = ContactRequest {
            is_excluded_from_campaigns: None,
            name: None,
            email: None,
        };
        assert(r@ =~= ContactRequestView::blank());
        r
    }
}

impl Record for ContactRequest {
    open spec fn json_of(v: ContactRequestView) -> JsonValue {
        let m = Members::empty();
        let m = with_optional(
            m,
            "IsExcludedFromCampaigns"@,
            flag_if_some(v.is_excluded_from_campaigns),
        );
        let m = with_optional(m, "Name"@, text_if_some(v.name));
        let m = with_member(m, "Email"@, or_null(text_if_some(v.email)));
        JsonValue::Object(m)
    }

    open spec fn of_json(j: JsonValue) -> Option<ContactRequestView> {
        if j is Object
            && opt_flag_at(j, "IsExcludedFromCampaigns"@) is Some
            && opt_text_at(j, "Name"@) is Some
            && opt_text_at(j, "Email"@) is Some {
            Some(
                ContactRequestView {
                    is_excluded_from_campaigns: opt_flag_at(j, "IsExcludedFromCampaigns"@)->0,
                    name: opt_text_at(j, "Name"@)->0,
                    email: opt_text_at(j, "Email"@)->0,
                },
            )
        } else {
            None
        }
    }

    open spec fn comes_back(v: ContactRequestView) -> bool {
        true
    }

    fn is_valid(&self) -> (valid: bool) {
        true
    }

    fn to_json(&self) -> (j: Json) {
        let mut m: Vec<Member> = Vec::new();
        assert(members_of(m@) =~= Members::empty());
        write_optional(
            &mut m,
            "IsExcludedFromCampaigns",
            flag_of_some(self.is_excluded_from_campaigns),
        );
        write_optional(&mut m, "Name", text_of_some(&self.name));
        write_member(&mut m, "Email", or_null_json(text_of_some(&self.email)));
        Json::object(m)
    }

    fn from_json(j: &Json) -> (r: Option<Self>) {
        match j {
            Json::Object(_) => {},
            _ => {
                return None;
            },
        }
        let is_excluded_from_campaigns = match read_opt_flag(j, "IsExcludedFromCampaigns") {
            Some(v) => v,
            None => {
                return None;
            },
        };
        let name = match read_opt_text(j, "Name") {
            Some(v) => v,
            None => {
                return None;
            },
        };
        let email = match read_opt_text(j, "Email") {
            Some(v) => v,
            None => {
                return None;
            },
        };
        let r = ContactRequest { is_excluded_from_campaigns, name, email };
        proof {
            assert(Self::of_json(j@)->0 =~= r@);
            Self::read_is_valid(j@);
        }
        Some(r)
    }

    proof fn read_is_valid(j: JsonValue) {
    }

    proof fn round_trip(v: ContactRequestView) {
        broadcast use lemma_field_with_member, lemma_field_with_optional;

        reveal_strlit("IsExcludedFromCampaigns");
        reveal_strlit("Name");
        reveal_strlit("Email");
        assert(mark("IsExcludedFromCampaigns"@) == (23nat, 'I', 'l', 'r', 's'));
        assert(mark("Name"@) == (4nat, 'N', 'a', 'm', 'e'));
        assert(mark("Email"@) == (5nat, 'E', 'm', 'a', 'l'));
        assert(Self::of_json(Self::json_of(v))->0 =~= v);
    }
}

/// An object without members is read as the record in which every field
/// holds its default, and that record is one that comes back: a field that
/// is absent never makes a value unreadable.
pub proof fn lemma_blank_contact_request()
    ensures
        ContactRequest::of_json(JsonValue::Object(Members::empty()))
            == Some(ContactRequestView::blank()),
        ContactRequest::comes_back(ContactRequestView::blank()),
{
    let j = JsonValue::Object(Members::empty());
    assert(ContactRequest::of_json(j)->0 =~= ContactRequestView::blank());
}

} // verus!
