//! The sending of messages.

use crate::data::{Message, MessageView};
use crate::fields::{
    all_valid, flag_of_some, json_of_some, list_to_json, read_list, read_opt_flag,
    read_opt_json, write_member, write_optional,
};
use crate::json::{field, is_writable, members_of, Json, JsonValue, Member, Members};
use crate::record::{
    all_come_back, flag_if_some, lemma_field_with_member, lemma_field_with_optional,
    lemma_list_read_is_valid, lemma_list_round_trip, list_at, list_json, mark, opt_flag_at,
    opt_json_at, view_of, views, with_member, with_optional, Record,
};
use vstd::prelude::*;

verus! {

/// The messages to send, and how to send them.
#[derive(Debug, PartialEq, Eq)]
pub struct SendRequest {
    /// The messages; always written.
    pub messages: Vec<Message>,
    /// Whether the service checks the whole request before it sends.
    pub advance_error_handling: Option<bool>,
    /// Properties that every message takes over, as free-form JSON.
    pub globals: Option<Json>,
    /// Whether the service only checks the request and sends nothing.
    pub sandbox_mode: Option<bool>,
}

/// The sending of messages, as a mathematical object.
#[verifier::ext_equal]
pub struct SendRequestView {
    pub messages: Seq<MessageView>,
    pub advance_error_handling: Option<bool>,
    pub globals: Option<JsonValue>,
    pub sandbox_mode: Option<bool>,
}

impl SendRequestView {
    /// The record in which every field holds its default.
    pub open spec fn blank() -> SendRequestView {
        SendRequestView {
            messages: Seq::empty(),
            advance_error_handling: None,
            globals: None,
            sandbox_mode: None,
        }
    }
}

impl View for SendRequest {
    type V = SendRequestView;

    open spec fn view(&self) -> SendRequestView {
        SendRequestView {
            messages: views(self.messages@),
            advance_error_handling: self.advance_error_handling,
            globals: view_of(self.globals),
            sandbox_mode: self.sandbox_mode,
        }
    }
}

impl Default for SendRequest {
    fn default() -> (r: Self)
        ensures
            r@ == SendRequestView::blank(),
    {
        let r = SendRequest {
            messages: Vec::new(),
            advance_error_handling: None,
            globals: None,
            sandbox_mode: None,
        };
        assert(r@ =~= SendRequestView::blank());
        r
    }
}

impl Record for SendRequest {
    open spec fn json_of(v: SendRequestView) -> JsonValue {
        let m = Members::empty();
        let m = with_member(m, "Messages"@, JsonValue::Array(list_json::<Message>(v.messages)));
        let m = with_optional(m, "AdvanceErrorHandling"@, flag_if_some(v.advance_error_handling));
        let m = with_optional(m, "Globals"@, v.globals);
        let m = with_optional(m, "SandboxMode"@, flag_if_some(v.sandbox_mode));
        JsonValue::Object(m)
    }

    open spec fn of_json(j: JsonValue) -> Option<SendRequestView> {
        if j is Object
            && list_at::<Message>(j, "Messages"@) is Some
            && opt_flag_at(j, "AdvanceErrorHandling"@) is Some
            && opt_json_at(j, "Globals"@) is Some
            && opt_flag_at(j, "SandboxMode"@) is Some {
            Some(
                SendRequestView {
                    messages: list_at::<Message>(j, "Messages"@)->0,
                    advance_error_handling: opt_flag_at(j, "AdvanceErrorHandling"@)->0,
                    globals: opt_json_at(j, "Globals"@)->0,
                    sandbox_mode: opt_flag_at(j, "SandboxMode"@)->0,
                },
            )
        } else {
            None
        }
    }

    open spec fn comes_back(v: SendRequestView) -> bool {
        all_come_back::<Message>(v.messages)
        && (v.globals matches Some(j) ==> j != JsonValue::Null && is_writable(j))
    }

    fn is_valid(&self) -> (valid: bool) {
        if !all_valid(&self.messages) {
            return false;
        }
        let globals_fits = match &self.globals {
            Some(Json::Null) => false,
            Some(j) => j.can_be_written(),
            None => true,
        };
        if !globals_fits {
            return false;
        }
        true
    }

    fn to_json(&self) -> (j: Json) {
        let mut m: Vec<Member> = Vec::new();
        assert(members_of(m@) =~= Members::empty());
        write_member(&mut m, "Messages", Json::array(list_to_json(&self.messages)));
        write_optional(&mut m, "AdvanceErrorHandling", flag_of_some(self.advance_error_handling));
        write_optional(&mut m, "Globals", json_of_some(&self.globals));
        write_optional(&mut m, "SandboxMode", flag_of_some(self.sandbox_mode));
        Json::object(m)
    }

    fn from_json(j: &Json) -> (r: Option<Self>) {
        match j {
            Json::Object(_) => {},
            _ => {
                return None;
            },
        }
        let messages = match read_list::<Message>(j, "Messages") {
            Some(v) => v,
            None => {
                return None;
            },
        };
        let advance_error_handling = match read_opt_flag(j, "AdvanceErrorHandling") {
            Some(v) => v,
            None => {
                return None;
            },
        };
        let globals = match read_opt_json(j, "Globals") {
            Some(v) => v,
            None => {
                return None;
            },
        };
        let sandbox_mode = match read_opt_flag(j, "SandboxMode") {
            Some(v) => v,
            None => {
                return None;
            },
        };
        let r = SendRequest { messages, advance_error_handling, globals, sandbox_mode };
        proof {
            assert(Self::of_json(j@)->0 =~= r@);
            Self::read_is_valid(j@);
        }
        Some(r)
    }

    proof fn read_is_valid(j: JsonValue) {
        if let Some(JsonValue::Array(items)) = field(j, "Messages"@) {
            lemma_list_read_is_valid::<Message>(items);
        }
    }

    proof fn round_trip(v: SendRequestView) {
        broadcast use lemma_field_with_member, lemma_field_with_optional;

        reveal_strlit("Messages");
        reveal_strlit("AdvanceErrorHandling");
        reveal_strlit("Globals");
        reveal_strlit("SandboxMode");
        assert(mark("Messages"@) == (8nat, 'M', 's', 'a', 's'));
        assert(mark("AdvanceErrorHandling"@) == (20nat, 'A', 'c', 'o', 'g'));
        assert(mark("Globals"@) == (7nat, 'G', 'l', 'b', 's'));
        assert(mark("SandboxMode"@) == (11nat, 'S', 'n', 'o', 'e'));
        lemma_list_round_trip::<Message>(v.messages);
        assert(Self::of_json(Self::json_of(v))->0 =~= v);
    }
}

/// An object without members is read as the record in which every field
/// holds its default, and that record is one that comes back: a field that
/// is absent never makes a value unreadable.
pub proof fn lemma_blank_send_request()
    ensures
        SendRequest::of_json(JsonValue::Object(Members::empty())) == Some(SendRequestView::blank()),
        SendRequest::comes_back(SendRequestView::blank()),
{
    let j = JsonValue::Object(Members::empty());
    assert(SendRequest::of_json(j)->0 =~= SendRequestView::blank());
}

} // verus!
