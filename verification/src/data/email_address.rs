//! An email address with the name of its owner.

use crate::fields::{read_text, write_member};
use crate::json::{members_of, Json, JsonValue, Member, Members};
use crate::record::{lemma_field_with_member, mark, text_at, with_member, Record};
use vstd::prelude::*;

verus! {

/// An email address.
#[derive(Clone, Debug, PartialEq, Eq)]
pub struct EmailAddress {
    /// The address.
    pub email: String,
    /// The name of its owner; may be empty.
    pub name: String,
}

/// An email address with the name of its owner, as a mathematical object.
#[verifier::ext_equal]
pub struct EmailAddressView {
    pub email: Seq<char>,
    pub name: Seq<char>,
}

impl EmailAddressView {
    /// The record in which every field holds its default.
    pub open spec fn blank() -> EmailAddressView {
        EmailAddressView {
            email: Seq::empty(),
            name: Seq::empty(),
        }
    }
}

impl View for EmailAddress {
    type V = EmailAddressView;

    open spec fn view(&self) -> EmailAddressView {
        EmailAddressView {
            email: self.email@,
            name: self.name@,
        }
    }
}

impl Default for EmailAddress {
    fn default() -> (r: Self)
        ensures
            r@ == EmailAddressView::blank(),
    {
        let r = EmailAddress {
            email: String::new(),
            name: String::new(),
        };
        assert(r@ =~= EmailAddressView::blank());
        r
    }
}

impl EmailAddress {
    /// An address without a name.
    pub fn from_email(email: &str) -> (r: Self)
        ensures
            r@ == (EmailAddressView { email: email@, name: Seq::empty() }),
    {
        EmailAddress { email: String::from_str(email), name: String::new() }
    }

    /// An address with the name of its owner.
    pub fn from_email_and_name(email: &str, name: &str) -> (r: Self)
        ensures
            r@ == (EmailAddressView { email: email@, name: name@ }),
    {
        EmailAddress { email: String::from_str(email), name: String::from_str(name) }
    }

    /// Whether neither an address nor a name was given.
    pub fn is_empty(&self) -> (empty: bool)
        ensures
            empty == (self@.name.len() == 0 && self@.email.len() == 0),
    {
        self.name.as_str().is_empty() && self.email.as_str().is_empty()
    }
}

impl Record for EmailAddress {
    open spec fn json_of(v: EmailAddressView) -> JsonValue {
        let m = Members::empty();
        let m = with_member(m, "Email"@, JsonValue::Text(v.email));
        let m = with_member(m, "Name"@, JsonValue::Text(v.name));
        JsonValue::Object(m)
    }

    open spec fn of_json(j: JsonValue) -> Option<EmailAddressView> {
        if j is Object
            && text_at(j, "Email"@) is Some
            && text_at(j, "Name"@) is Some {
            Some(
                EmailAddressView {
                    email: text_at(j, "Email"@)->0,
                    name: text_at(j, "Name"@)->0,
                },
            )
        } else {
            None
        }
    }

    open spec fn comes_back(v: EmailAddressView) -> bool {
        true
    }

    fn is_valid(&self) -> (valid: bool) {
        true
    }

    fn to_json(&self) -> (j: Json) {
        let mut m: Vec<Member> = Vec::new();
        assert(members_of(m@) =~= Members::empty());
        write_member(&mut m, "Email", Json::Text(self.email.clone()));
        write_member(&mut m, "Name", Json::Text(self.name.clone()));
        Json::object(m)
    }

    fn from_json(j: &Json) -> (r: Option<Self>) {
        match j {
            Json::Object(_) => {},
            _ => {
                return None;
            },
        }
        let email = match read_text(j, "Email") {
            Some(v) => v,
            None => {
                return None;
            },
        };
        let name = match read_text(j, "Name") {
            Some(v) => v,
            None => {
                return None;
            },
        };
        let r = EmailAddress { email, name };
        proof {
            assert(Self::of_json(j@)->0 =~= r@);
            Self::read_is_valid(j@);
        }
        Some(r)
    }

    proof fn read_is_valid(j: JsonValue) {
    }

    proof fn round_trip(v: EmailAddressView) {
        broadcast use lemma_field_with_member;

        reveal_strlit("Email");
        reveal_strlit("Name");
        assert(mark("Email"@) == (5nat, 'E', 'm', 'a', 'l'));
        assert(mark("Name"@) == (4nat, 'N', 'a', 'm', 'e'));
        assert(Self::of_json(Self::json_of(v))->0 =~= v);
    }
}

/// An object without members is read as the record in which every field
/// holds its default, and that record is one that comes back: a field that
/// is absent never makes a value unreadable.
pub proof fn lemma_blank_email_address()
    ensures
        EmailAddress::of_json(JsonValue::Object(Members::empty()))
            == Some(EmailAddressView::blank()),
        EmailAddress::comes_back(EmailAddressView::blank()),
{
    let j = JsonValue::Object(Members::empty());
    assert(EmailAddress::of_json(j)->0 =~= EmailAddressView::blank());
}

} // verus!
