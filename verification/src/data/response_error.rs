//! An error that the service reports for a message.

use crate::fields::{read_long, read_text, read_texts, texts_to_json, write_member};
use crate::json::{members_of, Json, JsonValue, Member, Members};
use crate::record::{
    lemma_field_with_member, lemma_texts_round_trip, long_at, mark, text_at, texts_at,
    texts_json, texts_of, with_member, Record,
};
use vstd::prelude::*;

verus! {

/// An error reported for one message of a send request.
#[derive(Clone, Debug, PartialEq, Eq)]
pub struct ResponseError {
    /// The ID of this occurrence of the error.
    pub error_identifier: String,
    /// The code of the error.
    pub error_code: String,
    /// The HTTP status that belongs to the error.
    pub status_code: i64,
    /// What went wrong, in words.
    pub error_message: String,
    /// The properties of the message that the error is about.
    pub error_related_to: Vec<String>,
}

/// An error that the service reports for a message, as a mathematical object.
#[verifier::ext_equal]
pub struct ResponseErrorView {
    pub error_identifier: Seq<char>,
    pub error_code: Seq<char>,
    pub status_code: i64,
    pub error_message: Seq<char>,
    pub error_related_to: Seq<Seq<char>>,
}

impl ResponseErrorView {
    /// The record in which every field holds its default.
    pub open spec fn blank() -> ResponseErrorView {
        ResponseErrorView {
            error_identifier: Seq::empty(),
            error_code: Seq::empty(),
            status_code: 0i64,
            error_message: Seq::empty(),
            error_related_to: Seq::empty(),
        }
    }
}

impl View for ResponseError {
    type V = ResponseErrorView;

    open spec fn view(&self) -> ResponseErrorView {
        ResponseErrorView {
            error_identifier: self.error_identifier@,
            error_code: self.error_code@,
            status_code: self.status_code,
            error_message: self.error_message@,
            error_related_to: texts_of(self.error_related_to@),
        }
    }
}

impl Default for ResponseError {
    fn default() -> (r: Self)
        ensures
            r@ == ResponseErrorView::blank(),
    {
        let r = ResponseError {
            error_identifier: String::new(),
            error_code: String::new(),
            status_code: 0,
            error_message: String::new(),
            error_related_to: Vec::new(),
        };
        assert(r@ =~= ResponseErrorView::blank());
        r
    }
}

impl Record for ResponseError {
    open spec fn json_of(v: ResponseErrorView) -> JsonValue {
        let m = Members::empty();
        let m = with_member(m, "ErrorIdentifier"@, JsonValue::Text(v.error_identifier));
        let m = with_member(m, "ErrorCode"@, JsonValue::Text(v.error_code));
        let m = with_member(m, "StatusCode"@, JsonValue::Int(v.status_code as int));
        let m = with_member(m, "ErrorMessage"@, JsonValue::Text(v.error_message));
        let m = with_member(m, "ErrorRelatedTo"@, JsonValue::Array(texts_json(v.error_related_to)));
        JsonValue::Object(m)
    }

    open spec fn of_json(j: JsonValue) -> Option<ResponseErrorView> {
        if j is Object
            && text_at(j, "ErrorIdentifier"@) is Some
            && text_at(j, "ErrorCode"@) is Some
            && long_at(j, "StatusCode"@) is Some
            && text_at(j, "ErrorMessage"@) is Some
            && texts_at(j, "ErrorRelatedTo"@) is Some {
            Some(
                ResponseErrorView {
                    error_identifier: text_at(j, "ErrorIdentifier"@)->0,
                    error_code: text_at(j, "ErrorCode"@)->0,
                    status_code: long_at(j, "StatusCode"@)->0,
                    error_message: text_at(j, "ErrorMessage"@)->0,
                    error_related_to: texts_at(j, "ErrorRelatedTo"@)->0,
                },
            )
        } else {
            None
        }
    }

    open spec fn comes_back(v: ResponseErrorView) -> bool {
        true
    }

    fn is_valid(&self) -> (valid: bool) {
        true
    }

    fn to_json(&self) -> (j: Json) {
        let mut m: Vec<Member> = Vec::new();
        assert(members_of(m@) =~= Members::empty());
        write_member(&mut m, "ErrorIdentifier", Json::Text(self.error_identifier.clone()));
        write_member(&mut m, "ErrorCode", Json::Text(self.error_code.clone()));
        write_member(&mut m, "StatusCode", Json::Int(self.status_code as i128));
        write_member(&mut m, "ErrorMessage", Json::Text(self.error_message.clone()));
        write_member(&mut m, "ErrorRelatedTo", Json::array(texts_to_json(&self.error_related_to)));
        Json::object(m)
    }

    fn from_json(j: &Json) -> (r: Option<Self>) {
        match j {
            Json::Object(_) => {},
            _ => {
                return None;
            },
        }
        let error_identifier = match read_text(j, "ErrorIdentifier") {
            Some(v) => v,
            None => {
                return None;
            },
        };
        let error_code = match read_text(j, "ErrorCode") {
            Some(v) => v,
            None => {
                return None;
            },
        };
        let status_code = match read_long(j, "StatusCode") {
            Some(v) => v,
            None => {
                return None;
            },
        };
        let error_message = match read_text(j, "ErrorMessage") {
            Some(v) => v,
            None => {
                return None;
            },
        };
        let error_related_to = match read_texts(j, "ErrorRelatedTo") {
            Some(v) => v,
            None => {
                return None;
            },
        };
        let r = ResponseError {
            error_identifier,
            error_code,
            status_code,
            error_message,
            error_related_to,
        };
        proof {
            assert(Self::of_json(j@)->0 =~= r@);
            Self::read_is_valid(j@);
        }
        Some(r)
    }

    proof fn read_is_valid(j: JsonValue) {
    }

    proof fn round_trip(v: ResponseErrorView) {
        broadcast use lemma_field_with_member;

        reveal_strlit("ErrorIdentifier");
        reveal_strlit("ErrorCode");
        reveal_strlit("StatusCode");
        reveal_strlit("ErrorMessage");
        reveal_strlit("ErrorRelatedTo");
        assert(mark("ErrorIdentifier"@) == (15nat, 'E', 'o', 'e', 'r'));
        assert(mark("ErrorCode"@) == (9nat, 'E', 'r', 'r', 'e'));
        assert(mark("StatusCode"@) == (10nat, 'S', 'a', 's', 'e'));
        assert(mark("ErrorMessage"@) == (12nat, 'E', 'o', 'e', 'e'));
        assert(mark("ErrorRelatedTo"@) == (14nat, 'E', 'o', 'l', 'o'));
        lemma_texts_round_trip(v.error_related_to);
        assert(Self::of_json(Self::json_of(v))->0 =~= v);
    }
}

/// An object without members is read as the record in which every field
/// holds its default, and that record is one that comes back: a field that
/// is absent never makes a value unreadable.
pub proof fn lemma_blank_response_error()
    ensures
        ResponseError::of_json(JsonValue::Object(Members::empty()))
            == Some(ResponseErrorView::blank()),
        ResponseError::comes_back(ResponseErrorView::blank()),
{
    let j = JsonValue::Object(Members::empty());
    assert(ResponseError::of_json(j)->0 =~= ResponseErrorView::blank());
}

} // verus!
