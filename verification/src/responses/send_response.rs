//! The answer to a send request.

use crate::data::{ResponseMessage, ResponseMessageView};
use crate::fields::{all_valid, list_to_json, read_list, write_member};
use crate::json::{field, members_of, Json, JsonValue, Member, Members};
use crate::record::{
    all_come_back, lemma_field_with_member, lemma_list_read_is_valid, lemma_list_round_trip,
    list_at, list_json, mark, views, with_member, Record,
};
use vstd::prelude::*;

verus! {

/// What became of each message of a send request.
#[derive(Clone, Debug, PartialEq, Eq)]
pub struct SendResponse {
    /// The outcome of each message, in the order of the request.
    pub messages: Vec<ResponseMessage>,
}

/// The answer to a send request, as a mathematical object.
#[verifier::ext_equal]
pub struct SendResponseView {
    pub messages: Seq<ResponseMessageView>,
}

impl SendResponseView {
    /// The record in which every field holds its default.
    pub open spec fn blank() -> SendResponseView {
        SendResponseView {
            messages: Seq::empty(),
        }
    }
}

impl View for SendResponse {
    type V = SendResponseView;

    open spec fn view(&self) -> SendResponseView {
        SendResponseView {
            messages: views(self.messages@),
        }
    }
}

impl Default for SendResponse {
    fn default() -> (r: Self)
        ensures
            r@ == SendResponseView::blank(),
    {
        let r = SendResponse {
            messages: Vec::new(),
        };
        assert(r@ =~= SendResponseView::blank());
        r
    }
}

impl Record for SendResponse {
    open spec fn json_of(v: SendResponseView) -> JsonValue {
        let m = Members::empty();
        let m = with_member(
            m,
            "Messages"@,
            JsonValue::Array(list_json::<ResponseMessage>(v.messages)),
        );
        JsonValue::Object(m)
    }

    open spec fn of_json(j: JsonValue) -> Option<SendResponseView> {
        if j is Object
            && list_at::<ResponseMessage>(j, "Messages"@) is Some {
            Some(
                SendResponseView {
                    messages: list_at::<ResponseMessage>(j, "Messages"@)->0,
                },
            )
        } else {
            None
        }
    }

    open spec fn comes_back(v: SendResponseView) -> bool {
        all_come_back::<ResponseMessage>(v.messages)
    }

    fn is_valid(&self) -> (valid: bool) {
        if !all_valid(&self.messages) {
            return false;
        }
        true
    }

    fn to_json(&self) -> (j: Json) {
        let mut m: Vec<Member> = Vec::new();
        assert(members_of(m@) =~= Members::empty());
        write_member(&mut m, "Messages", Json::array(list_to_json(&self.messages)));
        Json::object(m)
    }

    fn from_json(j: &Json) -> (r: Option<Self>) {
        match j {
            Json::Object(_) => {},
            _ => {
                return None;
            },
        }
        let messages = match read_list::<ResponseMessage>(j, "Messages") {
            Some(v) => v,
            None => {
                return None;
            },
        };
        let r = SendResponse { messages };
        proof {
            assert(Self::of_json(j@)->0 =~= r@);
            Self::read_is_valid(j@);
        }
        Some(r)
    }

    proof fn read_is_valid(j: JsonValue) {
        if let Some(JsonValue::Array(items)) = field(j, "Messages"@) {
            lemma_list_read_is_valid::<ResponseMessage>(items);
        }
    }

    proof fn round_trip(v: SendResponseView) {
        broadcast use lemma_field_with_member;

        reveal_strlit("Messages");
        assert(mark("Messages"@) == (8nat, 'M', 's', 'a', 's'));
        lemma_list_round_trip::<ResponseMessage>(v.messages);
        assert(Self::of_json(Self::json_of(v))->0 =~= v);
    }
}

/// An object without members is read as the record in which every field
/// holds its default, and that record is one that comes back: a field that
/// is absent never makes a value unreadable.
pub proof fn lemma_blank_send_response()
    ensures
        SendResponse::of_json(JsonValue::Object(Members::empty()))
            == Some(SendResponseView::blank()),
        SendResponse::comes_back(SendResponseView::blank()),
{
    let j = JsonValue::Object(Members::empty());
    assert(SendResponse::of_json(j)->0 =~= SendResponseView::blank());
}

} // verus!
