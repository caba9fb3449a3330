//! A recipient that a message was accepted for.

use crate::fields::{read_text, read_wide, write_member};
use crate::json::{members_of, Json, JsonValue, Member, Members};
use crate::record::{lemma_field_with_member, mark, text_at, wide_at, with_member, Record};
use vstd::prelude::*;

verus! {

/// One recipient for which a message was accepted.
#[derive(Clone, Debug, PartialEq, Eq)]
pub struct ResponseSuccess {
    /// The address of the recipient.
    pub email: String,
    /// The UUID of the message.
    pub message_uuid: String,
    /// The ID of the message.
    pub message_id: i128,
    /// Where the message can be looked up.
    pub message_href: String,
}

/// A recipient that a message was accepted for, as a mathematical object.
#[verifier::ext_equal]
pub struct ResponseSuccessView {
    pub email: Seq<char>,
    pub message_uuid: Seq<char>,
    pub message_id: i128,
    pub message_href: Seq<char>,
}

impl ResponseSuccessView {
    /// The record in which every field holds its default.
    pub open spec fn blank() -> ResponseSuccessView {
        ResponseSuccessView {
            email: Seq::empty(),
            message_uuid: Seq::empty(),
            message_id: 0i128,
            message_href: Seq::empty(),
        }
    }
}

impl View for ResponseSuccess {
    type V = ResponseSuccessView;

    open spec fn view(&self) -> ResponseSuccessView {
        ResponseSuccessView {
            email: self.email@,
            message_uuid: self.message_uuid@,
            message_id: self.message_id,
            message_href: self.message_href@,
        }
    }
}

impl Default for ResponseSuccess {
    fn default() -> (r: Self)
        ensures
            r@ == ResponseSuccessView::blank(),
    {
        let r = ResponseSuccess {
            email: String::new(),
            message_uuid: String::new(),
            message_id: 0,
            message_href: String::new(),
        };
        assert(r@ =~= ResponseSuccessView::blank());
        r
    }
}

impl Record for ResponseSuccess {
    open spec fn json_of(v: ResponseSuccessView) -> JsonValue {
        let m = Members::empty();
        let m = with_member(m, "Email"@, JsonValue::Text(v.email));
        let m = with_member(m, "MessageUUID"@, JsonValue::Text(v.message_uuid));
        let m = with_member(m, "MessageID"@, JsonValue::Int(v.message_id as int));
        let m = with_member(m, "MessageHref"@, JsonValue::Text(v.message_href));
        JsonValue::Object(m)
    }

    open spec fn of_json(j: JsonValue) -> Option<ResponseSuccessView> {
        if j is Object
            && text_at(j, "Email"@) is Some
            && text_at(j, "MessageUUID"@) is Some
            && wide_at(j, "MessageID"@) is Some
            && text_at(j, "MessageHref"@) is Some {
            Some(
                ResponseSuccessView {
                    email: text_at(j, "Email"@)->0,
                    message_uuid: text_at(j, "MessageUUID"@)->0,
                    message_id: wide_at(j, "MessageID"@)->0,
                    message_href: text_at(j, "MessageHref"@)->0,
                },
            )
        } else {
            None
        }
    }

    open spec fn comes_back(v: ResponseSuccessView) -> bool {
        true
    }

    fn is_valid(&self) -> (valid: bool) {
        true
    }

    fn to_json(&self) -> (j: Json) {
        let mut m: Vec<Member> = Vec::new();
        assert(members_of(m@) =~= Members::empty());
        write_member(&mut m, "Email", Json::Text(self.email.clone()));
        write_member(&mut m, "MessageUUID", Json::Text(self.message_uuid.clone()));
        write_member(&mut m, "MessageID", Json::Int(self.message_id));
        write_member(&mut m, "MessageHref", Json::Text(self.message_href.clone()));
        Json::object(m)
    }

    fn from_json(j: &Json) -> (r: Option<Self>) {
        match j {
            Json::Object(_) => {},
            _ => {
                return None;
            },
        }
        let email = match read_text(j, "Email") {
            Some(v) => v,
            None => {
                return None;
            },
        };
        let message_uuid = match read_text(j, "MessageUUID") {
            Some(v) => v,
            None => {
                return None;
            },
        };
        let message_id = match read_wide(j, "MessageID") {
            Some(v) => v,
            None => {
                return None;
            },
        };
        let message_href = match read_text(j, "MessageHref") {
            Some(v) => v,
            None => {
                return None;
            },
        };
        let r = ResponseSuccess { email, message_uuid, message_id, message_href };
        proof {
            assert(Self::of_json(j@)->0 =~= r@);
            Self::read_is_valid(j@);
        }
        Some(r)
    }

    proof fn read_is_valid(j: JsonValue) {
    }

    proof fn round_trip(v: ResponseSuccessView) {
        broadcast use lemma_field_with_member;

        reveal_strlit("Email");
        reveal_strlit("MessageUUID");
        reveal_strlit("MessageID");
        reveal_strlit("MessageHref");
        assert(mark("Email"@) == (5nat, 'E', 'm', 'a', 'l'));
        assert(mark("MessageUUID"@) == (11nat, 'M', 's', 'g', 'D'));
        assert(mark("MessageID"@) == (9nat, 'M', 's', 'a', 'D'));
        assert(mark("MessageHref"@) == (11nat, 'M', 's', 'g', 'f'));
        assert(Self::of_json(Self::json_of(v))->0 =~= v);
    }
}

/// An object without members is read as the record in which every field
/// holds its default, and that record is one that comes back: a field that
/// is absent never makes a value unreadable.
pub proof fn lemma_blank_response_success()
    ensures
        ResponseSuccess::of_json(JsonValue::Object(Members::empty()))
            == Some(ResponseSuccessView::blank()),
        ResponseSuccess::comes_back(ResponseSuccessView::blank()),
{
    let j = JsonValue::Object(Members::empty());
    assert(ResponseSuccess::of_json(j)->0 =~= ResponseSuccessView::blank());
}

} // verus!
