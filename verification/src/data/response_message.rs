//! What became of one message of a send request.

use crate::data::{ResponseError, ResponseErrorView};
use crate::data::{ResponseSuccess, ResponseSuccessView};
use crate::fields::{all_valid, list_to_json, read_list, read_text, write_member};
use crate::json::{field, members_of, Json, JsonValue, Member, Members};
use crate::record::{
    all_come_back, lemma_field_with_member, lemma_list_read_is_valid, lemma_list_round_trip,
    list_at, list_json, mark, text_at, views, with_member, Record,
};
use vstd::prelude::*;

verus! {

/// The outcome of one message of a send request.
#[derive(Clone, Debug, PartialEq, Eq)]
pub struct ResponseMessage {
    /// `success` or `error`.
    pub status: String,
    /// The errors, where the message was refused.
    pub errors: Vec<ResponseError>,
    /// The custom ID that the message carried.
    pub custom_id: String,
    /// The main recipients that the message was accepted for.
    pub to: Vec<ResponseSuccess>,
    /// The copy recipients that the message was accepted for.
    pub cc: Vec<ResponseSuccess>,
    /// The hidden copy recipients that the message was accepted for.
    pub bcc: Vec<ResponseSuccess>,
}

/// What became of one message of a send request, as a mathematical object.
#[verifier::ext_equal]
pub struct ResponseMessageView {
    pub status: Seq<char>,
    pub errors: Seq<ResponseErrorView>,
    pub custom_id: Seq<char>,
    pub to: Seq<ResponseSuccessView>,
    pub cc: Seq<ResponseSuccessView>,
    pub bcc: Seq<ResponseSuccessView>,
}

impl ResponseMessageView {
    /// The record in which every field holds its default.
    pub open spec fn blank() -> ResponseMessageView {
        ResponseMessageView {
            status: Seq::empty(),
            errors: Seq::empty(),
            custom_id: Seq::empty(),
            to: Seq::empty(),
            cc: Seq::empty(),
            bcc: Seq::empty(),
        }
    }
}

impl View for ResponseMessage {
    type V = ResponseMessageView;

    open spec fn view(&self) -> ResponseMessageView {
        ResponseMessageView {
            status: self.status@,
            errors: views(self.errors@),
            custom_id: self.custom_id@,
            to: views(self.to@),
            cc: views(self.cc@),
            bcc: views(self.bcc@),
        }
    }
}

impl Default for ResponseMessage {
    fn default() -> (r: Self)
        ensures
            r@ == ResponseMessageView::blank(),
    {
        let r = ResponseMessage {
            status: String::new(),
            errors: Vec::new(),
            custom_id: String::new(),
            to: Vec::new(),
            cc: Vec::new(),
            bcc: Vec::new(),
        };
        assert(r@ =~= ResponseMessageView::blank());
        r
    }
}

impl Record for ResponseMessage {
    open spec fn json_of(v: ResponseMessageView) -> JsonValue {
        let m = Members::empty();
        let m = with_member(m, "Status"@, JsonValue::Text(v.status));
        let m = with_member(m, "Errors"@, JsonValue::Array(list_json::<ResponseError>(v.errors)));
        let m = with_member(m, "CustomID"@, JsonValue::Text(v.custom_id));
        let m = with_member(m, "To"@, JsonValue::Array(list_json::<ResponseSuccess>(v.to)));
        let m = with_member(m, "Cc"@, JsonValue::Array(list_json::<ResponseSuccess>(v.cc)));
        let m = with_member(m, "Bcc"@, JsonValue::Array(list_json::<ResponseSuccess>(v.bcc)));
        JsonValue::Object(m)
    }

    open spec fn of_json(j: JsonValue) -> Option<ResponseMessageView> {
        if j is Object
            && text_at(j, "Status"@) is Some
            && list_at::<ResponseError>(j, "Errors"@) is Some
            && text_at(j, "CustomID"@) is Some
            && list_at::<ResponseSuccess>(j, "To"@) is Some
            && list_at::<ResponseSuccess>(j, "Cc"@) is Some
            && list_at::<ResponseSuccess>(j, "Bcc"@) is Some {
            Some(
                ResponseMessageView {
                    status: text_at(j, "Status"@)->0,
                    errors: list_at::<ResponseError>(j, "Errors"@)->0,
                    custom_id: text_at(j, "CustomID"@)->0,
                    to: list_at::<ResponseSuccess>(j, "To"@)->0,
                    cc: list_at::<ResponseSuccess>(j, "Cc"@)->0,
                    bcc: list_at::<ResponseSuccess>(j, "Bcc"@)->0,
                },
            )
        } else {
            None
        }
    }

    open spec fn comes_back(v: ResponseMessageView) -> bool {
        all_come_back::<ResponseError>(v.errors)
        && all_come_back::<ResponseSuccess>(v.to)
        && all_come_back::<ResponseSuccess>(v.cc)
        && all_come_back::<ResponseSuccess>(v.bcc)
    }

    fn is_valid(&self) -> (valid: bool) {
        if !all_valid(&self.errors) {
            return false;
        }
        if !all_valid(&self.to) {
            return false;
        }
        if !all_valid(&self.cc) {
            return false;
        }
        if !all_valid(&self.bcc) {
            return false;
        }
        true
    }

    fn to_json(&self) -> (j: Json) {
        let mut m: Vec<Member> = Vec::new();
        assert(members_of(m@) =~= Members::empty());
        write_member(&mut m, "Status", Json::Text(self.status.clone()));
        write_member(&mut m, "Errors", Json::array(list_to_json(&self.errors)));
        write_member(&mut m, "CustomID", Json::Text(self.custom_id.clone()));
        write_member(&mut m, "To", Json::array(list_to_json(&self.to)));
        write_member(&mut m, "Cc", Json::array(list_to_json(&self.cc)));
        write_member(&mut m, "Bcc", Json::array(list_to_json(&self.bcc)));
        Json::object(m)
    }

    fn from_json(j: &Json) -> (r: Option<Self>) {
        match j {
            Json::Object(_) => {},
            _ => {
                return None;
            },
        }
        let status = match read_text(j, "Status") {
            Some(v) => v,
            None => {
                return None;
            },
        };
        let errors = match read_list::<ResponseError>(j, "Errors") {
            Some(v) => v,
            None => {
                return None;
            },
        };
        let custom_id = match read_text(j, "CustomID") {
            Some(v) => v,
            None => {
                return None;
            },
        };
        let to = match read_list::<ResponseSuccess>(j, "To") {
            Some(v) => v,
            None => {
                return None;
            },
        };
        let cc = match read_list::<ResponseSuccess>(j, "Cc") {
            Some(v) => v,
            None => {
                return None;
            },
        };
        let bcc = match read_list::<ResponseSuccess>(j, "Bcc") {
            Some(v) => v,
            None => {
                return None;
            },
        };
        let r = ResponseMessage { status, errors, custom_id, to, cc, bcc };
        proof {
            assert(Self::of_json(j@)->0 =~= r@);
            Self::read_is_valid(j@);
        }
        Some(r)
    }

    proof fn read_is_valid(j: JsonValue) {
        if let Some(JsonValue::Array(items)) = field(j, "Errors"@) {
            lemma_list_read_is_valid::<ResponseError>(items);
        }
        if let Some(JsonValue::Array(items)) = field(j, "To"@) {
            lemma_list_read_is_valid::<ResponseSuccess>(items);
        }
        if let Some(JsonValue::Array(items)) = field(j, "Cc"@) {
            lemma_list_read_is_valid::<ResponseSuccess>(items);
        }
        if let Some(JsonValue::Array(items)) = field(j, "Bcc"@) {
            lemma_list_read_is_valid::<ResponseSuccess>(items);
        }
    }

    proof fn round_trip(v: ResponseMessageView) {
        broadcast use lemma_field_with_member;

        reveal_strlit("Status");
        reveal_strlit("Errors");
        reveal_strlit("CustomID");
        reveal_strlit("To");
        reveal_strlit("Cc");
        reveal_strlit("Bcc");
        assert(mark("Status"@) == (6nat, 'S', 't', 't', 's'));
        assert(mark("Errors"@) == (6nat, 'E', 'r', 'o', 's'));
        assert(mark("CustomID"@) == (8nat, 'C', 's', 'o', 'D'));
        assert(mark("To"@) == (2nat, 'T', 'T', 'o', 'o'));
        assert(mark("Cc"@) == (2nat, 'C', 'C', 'c', 'c'));
        assert(mark("Bcc"@) == (3nat, 'B', 'B', 'c', 'c'));
        lemma_list_round_trip::<ResponseError>(v.errors);
        lemma_list_round_trip::<ResponseSuccess>(v.to);
        lemma_list_round_trip::<ResponseSuccess>(v.cc);
        lemma_list_round_trip::<ResponseSuccess>(v.bcc);
        assert(Self::of_json(Self::json_of(v))->0 =~= v);
    }
}

/// An object without members is read as the record in which every field
/// holds its default, and that record is one that comes back: a field that
/// is absent never makes a value unreadable.
pub proof fn lemma_blank_response_message()
    ensures
        ResponseMessage::of_json(JsonValue::Object(Members::empty()))
            == Some(ResponseMessageView::blank()),
        ResponseMessage::comes_back(ResponseMessageView::blank()),
{
    let j = JsonValue::Object(Members::empty());
    assert(ResponseMessage::of_json(j)->0 =~= ResponseMessageView::blank());
}

} // verus!
