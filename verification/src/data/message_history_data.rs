//! One event in the history of a message.

use crate::fields::{read_long, read_text, read_wide, write_member};
use crate::json::{members_of, Json, JsonValue, Member, Members};
use crate::record::{lemma_field_with_member, long_at, mark, text_at, wide_at, with_member, Record};
use vstd::prelude::*;

verus! {

/// One event in the history of a message.
#[derive(Clone, Debug, PartialEq, Eq)]
pub struct MessageHistoryData {
    /// What the service notes on the event.
    pub comment: String,
    /// When the event happened, as a Unix timestamp.
    pub event_at: i64,
    /// The kind of event.
    pub event_type: String,
    /// The state of the message at the event.
    pub state: String,
    /// The user agent that caused the event.
    pub useragent: String,
    /// The ID of that user agent.
    pub useragent_id: i128,
}

/// One event in the history of a message, as a mathematical object.
#[verifier::ext_equal]
pub struct MessageHistoryDataView {
    pub comment: Seq<char>,
    pub event_at: i64,
    pub event_type: Seq<char>,
    pub state: Seq<char>,
    pub useragent: Seq<char>,
    pub useragent_id: i128,
}

impl MessageHistoryDataView {
    /// The record in which every field holds its default.
    pub open spec fn blank() -> MessageHistoryDataView {
        MessageHistoryDataView {
            comment: Seq::empty(),
            event_at: 0i64,
            event_type: Seq::empty(),
            state: Seq::empty(),
            useragent: Seq::empty(),
            useragent_id: 0i128,
        }
    }
}

impl View for MessageHistoryData {
    type V = MessageHistoryDataView;

    open spec fn view(&self) -> MessageHistoryDataView {
        MessageHistoryDataView {
            comment: self.comment@,
            event_at: self.event_at,
            event_type: self.event_type@,
            state: self.state@,
            useragent: self.useragent@,
            useragent_id: self.useragent_id,
        }
    }
}

impl Default for MessageHistoryData {
    fn default() -> (r: Self)
        ensures
            r@ == MessageHistoryDataView::blank(),
    {
        let r = MessageHistoryData {
            comment: String::new(),
            event_at: 0,
            event_type: String::new(),
            state: String::new(),
            useragent: String::new(),
            useragent_id: 0,
        };
        assert(r@ =~= MessageHistoryDataView::blank());
        r
    }
}

impl Record for MessageHistoryData {
    open spec fn json_of(v: MessageHistoryDataView) -> JsonValue {
        let m = Members::empty();
        let m = with_member(m, "Comment"@, JsonValue::Text(v.comment));
        let m = with_member(m, "EventAt"@, JsonValue::Int(v.event_at as int));
        let m = with_member(m, "EventType"@, JsonValue::Text(v.event_type));
        let m = with_member(m, "State"@, JsonValue::Text(v.state));
        let m = with_member(m, "Useragent"@, JsonValue::Text(v.useragent));
        let m = with_member(m, "UseragentID"@, JsonValue::Int(v.useragent_id as int));
        JsonValue::Object(m)
    }

    open spec fn of_json(j: JsonValue) -> Option<MessageHistoryDataView> {
        if j is Object
            && text_at(j, "Comment"@) is Some
            && long_at(j, "EventAt"@) is Some
            && text_at(j, "EventType"@) is Some
            && text_at(j, "State"@) is Some
            && text_at(j, "Useragent"@) is Some
            && wide_at(j, "UseragentID"@) is Some {
            Some(
                MessageHistoryDataView {
                    comment: text_at(j, "Comment"@)->0,
                    event_at: long_at(j, "EventAt"@)->0,
                    event_type: text_at(j, "EventType"@)->0,
                    state: text_at(j, "State"@)->0,
                    useragent: text_at(j, "Useragent"@)->0,
                    useragent_id: wide_at(j, "UseragentID"@)->0,
                },
            )
        } else {
            None
        }
    }

    open spec fn comes_back(v: MessageHistoryDataView) -> bool {
        true
    }

    fn is_valid(&self) -> (valid: bool) {
        true
    }

    fn to_json(&self) -> (j: Json) {
        let mut m: Vec<Member> = Vec::new();
        assert(members_of(m@) =~= Members::empty());
        write_member(&mut m, "Comment", Json::Text(self.comment.clone()));
        write_member(&mut m, "EventAt", Json::Int(self.event_at as i128));
        write_member(&mut m, "EventType", Json::Text(self.event_type.clone()));
        write_member(&mut m, "State", Json::Text(self.state.clone()));
        write_member(&mut m, "Useragent", Json::Text(self.useragent.clone()));
        write_member(&mut m, "UseragentID", Json::Int(self.useragent_id));
        Json::object(m)
    }

    fn from_json(j: &Json) -> (r: Option<Self>) {
        match j {
            Json::Object(_) => {},
            _ => {
                return None;
            },
        }
        let comment = match read_text(j, "Comment") {
            Some(v) => v,
            None => {
                return None;
            },
        };
        let event_at = match read_long(j, "EventAt") {
            Some(v) => v,
            None => {
                return None;
            },
        };
        let event_type = match read_text(j, "EventType") {
            Some(v) => v,
            None => {
                return None;
            },
        };
        let state = match read_text(j, "State") {
            Some(v) => v,
            None => {
                return None;
            },
        };
        let useragent = match read_text(j, "Useragent") {
            Some(v) => v,
            None => {
                return None;
            },
        };
        let useragent_id = match read_wide(j, "UseragentID") {
            Some(v) => v,
            None => {
                return None;
            },
        };
        let r = MessageHistoryData {
            comment,
            event_at,
            event_type,
            state,
            useragent,
            useragent_id,
        };
        proof {
            assert(Self::of_json(j@)->0 =~= r@);
            Self::read_is_valid(j@);
        }
        Some(r)
    }

    proof fn read_is_valid(j: JsonValue) {
    }

    proof fn round_trip(v: MessageHistoryDataView) {
        broadcast use lemma_field_with_member;

        reveal_strlit("Comment");
        reveal_strlit("EventAt");
        reveal_strlit("EventType");
        reveal_strlit("State");
        reveal_strlit("Useragent");
        reveal_strlit("UseragentID");
        assert(mark("Comment"@) == (7nat, 'C', 'o', 'm', 't'));
        assert(mark("EventAt"@) == (7nat, 'E', 'v', 'n', 't'));
        assert(mark("EventType"@) == (9nat, 'E', 'e', 't', 'e'));
        assert(mark("State"@) == (5nat, 'S', 't', 'a', 'e'));
        assert(mark("Useragent"@) == (9nat, 'U', 'e', 'a', 't'));
        assert(mark("UseragentID"@) == (11nat, 'U', 'e', 'g', 'D'));
        assert(Self::of_json(Self::json_of(v))->0 =~= v);
    }
}

/// An object without members is read as the record in which every field
/// holds its default, and that record is one that comes back: a field that
/// is absent never makes a value unreadable.
pub proof fn lemma_blank_message_history_data()
    ensures
        MessageHistoryData::of_json(JsonValue::Object(Members::empty()))
            == Some(MessageHistoryDataView::blank()),
        MessageHistoryData::comes_back(MessageHistoryDataView::blank()),
{
    let j = JsonValue::Object(Members::empty());
    assert(MessageHistoryData::of_json(j)->0 =~= MessageHistoryDataView::blank());
}

} // verus!
