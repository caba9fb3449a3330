//! A file that goes with a message.

use crate::fields::{read_opt_text, read_text, text_of_some, write_member, write_optional};
use crate::json::{members_of, Json, JsonValue, Member, Members};
use crate::record::{
    lemma_field_with_member, lemma_field_with_optional, mark, opt_text_at, text_at,
    text_if_some, view_of, with_member, with_optional, Record,
};
use vstd::prelude::*;

verus! {

/// A file attached to a message.
#[derive(Clone, Debug, PartialEq, Eq)]
pub struct Attachment {
    /// The MIME type of the content.
    pub content_type: String,
    /// The name of the file, with its extension.
    pub filename: String,
    /// The content of the file, in base 64.
    pub base64_content: String,
    /// The content ID under which the HTML part refers to an inline
    /// attachment; left out where there is none.
    pub content_id: Option<String>,
}

/// A file that goes with a message, as a mathematical object.
#[verifier::ext_equal]
pub struct AttachmentView {
    pub content_type: Seq<char>,
    pub filename: Seq<char>,
    pub base64_content: Seq<char>,
    pub content_id: Option<Seq<char>>,
}

impl AttachmentView {
    /// The record in which every field holds its default.
    pub open spec fn blank() -> AttachmentView {
        AttachmentView {
            content_type: Seq::empty(),
            filename: Seq::empty(),
            base64_content: Seq::empty(),
            content_id: None,
        }
    }
}

impl View for Attachment {
    type V = AttachmentView;

    open spec fn view(&self) -> AttachmentView {
        AttachmentView {
            content_type: self.content_type@,
            filename: self.filename@,
            base64_content: self.base64_content@,
            content_id: view_of(self.content_id),
        }
    }
}

impl Default for Attachment {
    fn default() -> (r: Self)
        ensures
            r@ == AttachmentView::blank(),
    {
        let r = Attachment {
            content_type: String::new(),
            filename: String::new(),
            base64_content: String::new(),
            content_id: None,
        };
        assert(r@ =~= AttachmentView::blank());
        r
    }
}

impl Record for Attachment {
    open spec fn json_of(v: AttachmentView) -> JsonValue {
        let m = Members::empty();
        let m = with_member(m, "ContentType"@, JsonValue::Text(v.content_type));
        let m = with_member(m, "Filename"@, JsonValue::Text(v.filename));
        let m = with_member(m, "Base64Content"@, JsonValue::Text(v.base64_content));
        let m = with_optional(m, "ContentID"@, text_if_some(v.content_id));
        JsonValue::Object(m)
    }

    open spec fn of_json(j: JsonValue) -> Option<AttachmentView> {
        if j is Object
            && text_at(j, "ContentType"@) is Some
            && text_at(j, "Filename"@) is Some
            && text_at(j, "Base64Content"@) is Some
            && opt_text_at(j, "ContentID"@) is Some {
            Some(
                AttachmentView {
                    content_type: text_at(j, "ContentType"@)->0,
                    filename: text_at(j, "Filename"@)->0,
                    base64_content: text_at(j, "Base64Content"@)->0,
                    content_id: opt_text_at(j, "ContentID"@)->0,
                },
            )
        } else {
            None
        }
    }

    open spec fn comes_back(v: AttachmentView) -> bool {
        true
    }

    fn is_valid(&self) -> (valid: bool) {
        true
    }

    fn to_json(&self) -> (j: Json) {
        let mut m: Vec<Member> = Vec::new();
        assert(members_of(m@) =~= Members::empty());
        write_member(&mut m, "ContentType", Json::Text(self.content_type.clone()));
        write_member(&mut m, "Filename", Json::Text(self.filename.clone()));
        write_member(&mut m, "Base64Content", Json::Text(self.base64_content.clone()));
        write_optional(&mut m, "ContentID", text_of_some(&self.content_id));
        Json::object(m)
    }

    fn from_json(j: &Json) -> (r: Option<Self>) {
        match j {
            Json::Object(_) => {},
            _ => {
                return None;
            },
        }
        let content_type = match read_text(j, "ContentType") {
            Some(v) => v,
            None => {
                return None;
            },
        };
        let filename = match read_text(j, "Filename") {
            Some(v) => v,
            None => {
                return None;
            },
        };
        let base64_content = match read_text(j, "Base64Content") {
            Some(v) => v,
            None => {
                return None;
            },
        };
        let content_id = match read_opt_text(j, "ContentID") {
            Some(v) => v,
            None => {
                return None;
            },
        };
        let r = Attachment { content_type, filename, base64_content, content_id };
        proof {
            assert(Self::of_json(j@)->0 =~= r@);
            Self::read_is_valid(j@);
        }
        Some(r)
    }

    proof fn read_is_valid(j: JsonValue) {
    }

    proof fn round_trip(v: AttachmentView) {
        broadcast use lemma_field_with_member, lemma_field_with_optional;

        reveal_strlit("ContentType");
        reveal_strlit("Filename");
        reveal_strlit("Base64Content");
        reveal_strlit("ContentID");
        assert(mark("ContentType"@) == (11nat, 'C', 'n', 'n', 'e'));
        assert(mark("Filename"@) == (8nat, 'F', 'l', 'n', 'e'));
        assert(mark("Base64Content"@) == (13nat, 'B', 'e', 'C', 't'));
        assert(mark("ContentID"@) == (9nat, 'C', 'n', 'e', 'D'));
        assert(Self::of_json(Self::json_of(v))->0 =~= v);
    }
}

/// An object without members is read as the record in which every field
/// holds its default, and that record is one that comes back: a field that
/// is absent never makes a value unreadable.
pub proof fn lemma_blank_attachment()
    ensures
        Attachment::of_json(JsonValue::Object(Members::empty())) == Some(AttachmentView::blank()),
        Attachment::comes_back(AttachmentView::blank()),
{
    let j = JsonValue::Object(Members::empty());
    assert(Attachment::of_json(j)->0 =~= AttachmentView::blank());
}

} // verus!
