//! A message to send.

use crate::data::{Attachment, AttachmentView};
use crate::data::{EmailAddress, EmailAddressView};
use crate::fields::{
    all_valid, flag_of_some, list_to_json, long_of_some, names_occur_once, read_list,
    read_opt_flag, read_opt_long, read_opt_record, read_opt_text, read_record, read_table,
    read_text, record_of_some, some_list, some_table, some_text, text_of_some, write_member,
    write_optional, NamedText,
};
use crate::json::{field, members_of, Json, JsonValue, Member, Members};
use crate::record::{
    all_come_back, array_if_any, flag_if_some, lemma_field_with_member,
    lemma_field_with_optional, lemma_list_read_is_valid, lemma_list_round_trip,
    lemma_table_round_trip, list_at, list_json, long_if_some, mark, names_once, opt_flag_at,
    opt_long_at, opt_record_at, opt_text_at, record_at, record_if_some, table_at, table_if_any,
    text_at, text_if_any, text_if_some, view_of, views, with_member, with_optional, Record,
};
use vstd::prelude::*;

verus! {

/// A message to send.
#[derive(Clone, Debug, PartialEq, Eq)]
pub struct Message {
    /// The sender; always written.
    pub from: EmailAddress,
    /// The main recipients; always written.
    pub to: Vec<EmailAddress>,
    /// The copy recipients.
    pub cc: Vec<EmailAddress>,
    /// The hidden copy recipients.
    pub bcc: Vec<EmailAddress>,
    /// The subject; always written.
    pub subject: String,
    /// The body as plain text.
    pub text_part: String,
    /// The body as HTML.
    pub html_part: String,
    /// The template to take the body from.
    pub template_id: Option<i64>,
    /// Whether the template language is switched on.
    pub template_language: Option<bool>,
    /// Where a report goes when the template fails.
    pub template_error_reporting: Option<EmailAddress>,
    /// Whether the message goes out although the template failed.
    pub template_error_deliver: Option<bool>,
    /// The attached files.
    pub attachments: Vec<Attachment>,
    /// The files that the HTML part refers to by content ID.
    pub inlined_attachments: Vec<Attachment>,
    /// The place of the message in the sending queue of the account.
    pub priority: Option<i64>,
    /// The campaign that the message belongs to.
    pub custom_campain: Option<String>,
    /// Whether a contact gets the campaign only once.
    pub deduplicate_campain: Option<bool>,
    /// Whether opens are tracked: as the account says, never, or always.
    pub track_opens: Option<String>,
    /// Whether clicks are tracked: as the account says, never, or always.
    pub track_clicks: Option<String>,
    /// A custom ID for the message.
    pub custom_id: Option<String>,
    /// A payload that comes back with the events of the message.
    pub event_payload: Option<String>,
    /// More header lines, by name; a name is meant to occur once.
    pub headers: Vec<NamedText>,
    /// The address that answers go to.
    pub reply_to: Option<EmailAddress>,
    /// The monitoring category of the message.
    pub monitoring_category: Option<String>,
    /// The variables that the template fills in, by name; a name is meant to
    /// occur once.
    pub variables: Vec<NamedText>,
}

/// A message to send, as a mathematical object.
#[verifier::ext_equal]
pub struct MessageView {
    pub from: EmailAddressView,
    pub to: Seq<EmailAddressView>,
    pub cc: Seq<EmailAddressView>,
    pub bcc: Seq<EmailAddressView>,
    pub subject: Seq<char>,
    pub text_part: Seq<char>,
    pub html_part: Seq<char>,
    pub template_id: Option<i64>,
    pub template_language: Option<bool>,
    pub template_error_reporting: Option<EmailAddressView>,
    pub template_error_deliver: Option<bool>,
    pub attachments: Seq<AttachmentView>,
    pub inlined_attachments: Seq<AttachmentView>,
    pub priority: Option<i64>,
    pub custom_campain: Option<Seq<char>>,
    pub deduplicate_campain: Option<bool>,
    pub track_opens: Option<Seq<char>>,
    pub track_clicks: Option<Seq<char>>,
    pub custom_id: Option<Seq<char>>,
    pub event_payload: Option<Seq<char>>,
    pub headers: Seq<(Seq<char>, Seq<char>)>,
    pub reply_to: Option<EmailAddressView>,
    pub monitoring_category: Option<Seq<char>>,
    pub variables: Seq<(Seq<char>, Seq<char>)>,
}

impl MessageView {
    /// The record in which every field holds its default.
    pub open spec fn blank() -> MessageView {
        MessageView {
            from: EmailAddressView::blank(),
            to: Seq::empty(),
            cc: Seq::empty(),
            bcc: Seq::empty(),
            subject: Seq::empty(),
            text_part: Seq::empty(),
            html_part: Seq::empty(),
            template_id: None,
            template_language: None,
            template_error_reporting: None,
            template_error_deliver: None,
            attachments: Seq::empty(),
            inlined_attachments: Seq::empty(),
            priority: None,
            custom_campain: None,
            deduplicate_campain: None,
            track_opens: None,
            track_clicks: None,
            custom_id: None,
            event_payload: None,
            headers: Seq::empty(),
            reply_to: None,
            monitoring_category: None,
            variables: Seq::empty(),
        }
    }
}

impl View for Message {
    type V = MessageView;

    open spec fn view(&self) -> MessageView {
        MessageView {
            from: self.from@,
            to: views(self.to@),
            cc: views(self.cc@),
            bcc: views(self.bcc@),
            subject: self.subject@,
            text_part: self.text_part@,
            html_part: self.html_part@,
            template_id: self.template_id,
            template_language: self.template_language,
            template_error_reporting: view_of(self.template_error_reporting),
            template_error_deliver: self.template_error_deliver,
            attachments: views(self.attachments@),
            inlined_attachments: views(self.inlined_attachments@),
            priority: self.priority,
            custom_campain: view_of(self.custom_campain),
            deduplicate_campain: self.deduplicate_campain,
            track_opens: view_of(self.track_opens),
            track_clicks: view_of(self.track_clicks),
            custom_id: view_of(self.custom_id),
            event_payload: view_of(self.event_payload),
            headers: views(self.headers@),
            reply_to: view_of(self.reply_to),
            monitoring_category: view_of(self.monitoring_category),
            variables: views(self.variables@),
        }
    }
}

impl Default for Message {
    fn default() -> (r: Self)
        ensures
            r@ == MessageView::blank(),
    {
        let r = Message {
            from: EmailAddress::default(),
            to: Vec::new(),
            cc: Vec::new(),
            bcc: Vec::new(),
            subject: String::new(),
            text_part: String::new(),
            html_part: String::new(),
            template_id: None,
            template_language: None,
            template_error_reporting: None,
            template_error_deliver: None,
            attachments: Vec::new(),
            inlined_attachments: Vec::new(),
            priority: None,
            custom_campain: None,
            deduplicate_campain: None,
            track_opens: None,
            track_clicks: None,
            custom_id: None,
            event_payload: None,
            headers: Vec::new(),
            reply_to: None,
            monitoring_category: None,
            variables: Vec::new(),
        };
        assert(r@ =~= MessageView::blank());
        r
    }
}

impl Record for Message {
    open spec fn json_of(v: MessageView) -> JsonValue {
        let m = Members::empty();
        let m = with_member(m, "From"@, EmailAddress::json_of(v.from));
        let m = with_member(m, "To"@, JsonValue::Array(list_json::<EmailAddress>(v.to)));
        let m = with_optional(m, "Cc"@, array_if_any(list_json::<EmailAddress>(v.cc)));
        let m = with_optional(m, "Bcc"@, array_if_any(list_json::<EmailAddress>(v.bcc)));
        let m = with_member(m, "Subject"@, JsonValue::Text(v.subject));
        let m = with_optional(m, "TextPart"@, text_if_any(v.text_part));
        let m = with_optional(m, "HTMLPart"@, text_if_any(v.html_part));
        let m = with_optional(m, "TemplateID"@, long_if_some(v.template_id));
        let m = with_optional(m, "TemplateLanguage"@, flag_if_some(v.template_language));
        let m = with_optional(
            m,
            "TemplateErrorReporting"@,
            record_if_some::<EmailAddress>(v.template_error_reporting),
        );
        let m = with_optional(m, "TemplateErrorDeliver"@, flag_if_some(v.template_error_deliver));
        let m = with_optional(
            m,
            "Attachments"@,
            array_if_any(list_json::<Attachment>(v.attachments)),
        );
        let m = with_optional(
            m,
            "InlinedAttachments"@,
            array_if_any(list_json::<Attachment>(v.inlined_attachments)),
        );
        let m = with_optional(m, "Priority"@, long_if_some(v.priority));
        let m = with_optional(m, "CustomCampaign"@, text_if_some(v.custom_campain));
        let m = with_optional(m, "DeduplicateCampaign"@, flag_if_some(v.deduplicate_campain));
        let m = with_optional(m, "TrackOpens"@, text_if_some(v.track_opens));
        let m = with_optional(m, "TrackClicks"@, text_if_some(v.track_clicks));
        let m = with_optional(m, "CustomID"@, text_if_some(v.custom_id));
        let m = with_optional(m, "EventPayload"@, text_if_some(v.event_payload));
        let m = with_optional(m, "Headers"@, table_if_any(v.headers));
        let m = with_optional(m, "ReplyTo"@, record_if_some::<EmailAddress>(v.reply_to));
        let m = with_optional(m, "MonitoringCategory"@, text_if_some(v.monitoring_category));
        let m = with_optional(m, "Variables"@, table_if_any(v.variables));
        JsonValue::Object(m)
    }

    open spec fn of_json(j: JsonValue) -> Option<MessageView> {
        if j is Object
            && record_at::<EmailAddress>(j, "From"@, EmailAddressView::blank()) is Some
            && list_at::<EmailAddress>(j, "To"@) is Some
            && list_at::<EmailAddress>(j, "Cc"@) is Some
            && list_at::<EmailAddress>(j, "Bcc"@) is Some
            && text_at(j, "Subject"@) is Some
            && text_at(j, "TextPart"@) is Some
            && text_at(j, "HTMLPart"@) is Some
            && opt_long_at(j, "TemplateID"@) is Some
            && opt_flag_at(j, "TemplateLanguage"@) is Some
            && opt_record_at::<EmailAddress>(j, "TemplateErrorReporting"@) is Some
            && opt_flag_at(j, "TemplateErrorDeliver"@) is Some
            && list_at::<Attachment>(j, "Attachments"@) is Some
            && list_at::<Attachment>(j, "InlinedAttachments"@) is Some
            && opt_long_at(j, "Priority"@) is Some
            && opt_text_at(j, "CustomCampaign"@) is Some
            && opt_flag_at(j, "DeduplicateCampaign"@) is Some
            && opt_text_at(j, "TrackOpens"@) is Some
            && opt_text_at(j, "TrackClicks"@) is Some
            && opt_text_at(j, "CustomID"@) is Some
            && opt_text_at(j, "EventPayload"@) is Some
            && table_at(j, "Headers"@) is Some
            && opt_record_at::<EmailAddress>(j, "ReplyTo"@) is Some
            && opt_text_at(j, "MonitoringCategory"@) is Some
            && table_at(j, "Variables"@) is Some {
            Some(
                MessageView {
                    from: record_at::<EmailAddress>(j, "From"@, EmailAddressView::blank())->0,
                    to: list_at::<EmailAddress>(j, "To"@)->0,
                    cc: list_at::<EmailAddress>(j, "Cc"@)->0,
                    bcc: list_at::<EmailAddress>(j, "Bcc"@)->0,
                    subject: text_at(j, "Subject"@)->0,
                    text_part: text_at(j, "TextPart"@)->0,
                    html_part: text_at(j, "HTMLPart"@)->0,
                    template_id: opt_long_at(j, "TemplateID"@)->0,
                    template_language: opt_flag_at(j, "TemplateLanguage"@)->0,
                    template_error_reporting: opt_record_at::<EmailAddress>(
                        j,
                        "TemplateErrorReporting"@,
                    )->0,
                    template_error_deliver: opt_flag_at(j, "TemplateErrorDeliver"@)->0,
                    attachments: list_at::<Attachment>(j, "Attachments"@)->0,
                    inlined_attachments: list_at::<Attachment>(j, "InlinedAttachments"@)->0,
                    priority: opt_long_at(j, "Priority"@)->0,
                    custom_campain: opt_text_at(j, "CustomCampaign"@)->0,
                    deduplicate_campain: opt_flag_at(j, "DeduplicateCampaign"@)->0,
                    track_opens: opt_text_at(j, "TrackOpens"@)->0,
                    track_clicks: opt_text_at(j, "TrackClicks"@)->0,
                    custom_id: opt_text_at(j, "CustomID"@)->0,
                    event_payload: opt_text_at(j, "EventPayload"@)->0,
                    headers: table_at(j, "Headers"@)->0,
                    reply_to: opt_record_at::<EmailAddress>(j, "ReplyTo"@)->0,
                    monitoring_category: opt_text_at(j, "MonitoringCategory"@)->0,
                    variables: table_at(j, "Variables"@)->0,
                },
            )
        } else {
            None
        }
    }

    open spec fn comes_back(v: MessageView) -> bool {
        EmailAddress::comes_back(v.from)
        && all_come_back::<EmailAddress>(v.to)
        && all_come_back::<EmailAddress>(v.cc)
        && all_come_back::<EmailAddress>(v.bcc)
        && (v.template_error_reporting matches Some(r) ==> EmailAddress::comes_back(r))
        && all_come_back::<Attachment>(v.attachments)
        && all_come_back::<Attachment>(v.inlined_attachments)
        && names_once(v.headers)
        && (v.reply_to matches Some(r) ==> EmailAddress::comes_back(r))
        && names_once(v.variables)
    }

    fn is_valid(&self) -> (valid: bool) {
        if !self.from.is_valid() {
            return false;
        }
        if !all_valid(&self.to) {
            return false;
        }
        if !all_valid(&self.cc) {
            return false;
        }
        if !all_valid(&self.bcc) {
            return false;
        }
        let template_error_reporting_fits = match &self.template_error_reporting {
            Some(r) => r.is_valid(),
            None => true,
        };
        if !template_error_reporting_fits {
            return false;
        }
        if !all_valid(&self.attachments) {
            return false;
        }
        if !all_valid(&self.inlined_attachments) {
            return false;
        }
        if !names_occur_once(&self.headers) {
            return false;
        }
        let reply_to_fits = match &self.reply_to {
            Some(r) => r.is_valid(),
            None => true,
        };
        if !reply_to_fits {
            return false;
        }
        if !names_occur_once(&self.variables) {
            return false;
        }
        true
    }

    fn to_json(&self) -> (j: Json) {
        let mut m: Vec<Member> = Vec::new();
        assert(members_of(m@) =~= Members::empty());
        write_member(&mut m, "From", self.from.to_json());
        write_member(&mut m, "To", Json::array(list_to_json(&self.to)));
        write_optional(&mut m, "Cc", some_list(&self.cc));
        write_optional(&mut m, "Bcc", some_list(&self.bcc));
        write_member(&mut m, "Subject", Json::Text(self.subject.clone()));
        write_optional(&mut m, "TextPart", some_text(&self.text_part));
        write_optional(&mut m, "HTMLPart", some_text(&self.html_part));
        write_optional(&mut m, "TemplateID", long_of_some(self.template_id));
        write_optional(&mut m, "TemplateLanguage", flag_of_some(self.template_language));
        write_optional(
            &mut m,
            "TemplateErrorReporting",
            record_of_some(&self.template_error_reporting),
        );
        write_optional(&mut m, "TemplateErrorDeliver", flag_of_some(self.template_error_deliver));
        write_optional(&mut m, "Attachments", some_list(&self.attachments));
        write_optional(&mut m, "InlinedAttachments", some_list(&self.inlined_attachments));
        write_optional(&mut m, "Priority", long_of_some(self.priority));
        write_optional(&mut m, "CustomCampaign", text_of_some(&self.custom_campain));
        write_optional(&mut m, "DeduplicateCampaign", flag_of_some(self.deduplicate_campain));
        write_optional(&mut m, "TrackOpens", text_of_some(&self.track_opens));
        write_optional(&mut m, "TrackClicks", text_of_some(&self.track_clicks));
        write_optional(&mut m, "CustomID", text_of_some(&self.custom_id));
        write_optional(&mut m, "EventPayload", text_of_some(&self.event_payload));
        write_optional(&mut m, "Headers", some_table(&self.headers));
        write_optional(&mut m, "ReplyTo", record_of_some(&self.reply_to));
        write_optional(&mut m, "MonitoringCategory", text_of_some(&self.monitoring_category));
        write_optional(&mut m, "Variables", some_table(&self.variables));
        Json::object(m)
    }

    fn from_json(j: &Json) -> (r: Option<Self>) {
        match j {
            Json::Object(_) => {},
            _ => {
                return None;
            },
        }
        let from = match read_record::<EmailAddress>(j, "From", EmailAddress::default()) {
            Some(v) => v,
            None => {
                return None;
            },
        };
        let to = match read_list::<EmailAddress>(j, "To") {
            Some(v) => v,
            None => {
                return None;
            },
        };
        let cc = match read_list::<EmailAddress>(j, "Cc") {
            Some(v) => v,
            None => {
                return None;
            },
        };
        let bcc = match read_list::<EmailAddress>(j, "Bcc") {
            Some(v) => v,
            None => {
                return None;
            },
        };
        let subject = match read_text(j, "Subject") {
            Some(v) => v,
            None => {
                return None;
            },
        };
        let text_part = match read_text(j, "TextPart") {
            Some(v) => v,
            None => {
                return None;
            },
        };
        let html_part = match read_text(j, "HTMLPart") {
            Some(v) => v,
            None => {
                return None;
            },
        };
        let template_id = match read_opt_long(j, "TemplateID") {
            Some(v) => v,
            None => {
                return None;
            },
        };
        let template_language = match read_opt_flag(j, "TemplateLanguage") {
            Some(v) => v,
            None => {
                return None;
            },
        };
        let template_error_reporting = match read_opt_record::<EmailAddress>(
            j,
            "TemplateErrorReporting",
        ) {
            Some(v) => v,
            None => {
                return None;
            },
        };
        let template_error_deliver = match read_opt_flag(j, "TemplateErrorDeliver") {
            Some(v) => v,
            None => {
                return None;
            },
        };
        let attachments = match read_list::<Attachment>(j, "Attachments") {
            Some(v) => v,
            None => {
                return None;
            },
        };
        let inlined_attachments = match read_list::<Attachment>(j, "InlinedAttachments") {
            Some(v) => v,
            None => {
                return None;
            },
        };
        let priority = match read_opt_long(j, "Priority") {
            Some(v) => v,
            None => {
                return None;
            },
        };
        let custom_campain = match read_opt_text(j, "CustomCampaign") {
            Some(v) => v,
            None => {
                return None;
            },
        };
        let deduplicate_campain = match read_opt_flag(j, "DeduplicateCampaign") {
            Some(v) => v,
            None => {
                return None;
            },
        };
        let track_opens = match read_opt_text(j, "TrackOpens") {
            Some(v) => v,
            None => {
                return None;
            },
        };
        let track_clicks = match read_opt_text(j, "TrackClicks") {
            Some(v) => v,
            None => {
                return None;
            },
        };
        let custom_id = match read_opt_text(j, "CustomID") {
            Some(v) => v,
            None => {
                return None;
            },
        };
        let event_payload = match read_opt_text(j, "EventPayload") {
            Some(v) => v,
            None => {
                return None;
            },
        };
        let headers = match read_table(j, "Headers") {
            Some(v) => v,
            None => {
                return None;
            },
        };
        let reply_to = match read_opt_record::<EmailAddress>(j, "ReplyTo") {
            Some(v) => v,
            None => {
                return None;
            },
        };
        let monitoring_category = match read_opt_text(j, "MonitoringCategory") {
            Some(v) => v,
            None => {
                return None;
            },
        };
        let variables = match read_table(j, "Variables") {
            Some(v) => v,
            None => {
                return None;
            },
        };
        let r = Message {
            from,
            to,
            cc,
            bcc,
            subject,
            text_part,
            html_part,
            template_id,
            template_language,
            template_error_reporting,
            template_error_deliver,
            attachments,
            inlined_attachments,
            priority,
            custom_campain,
            deduplicate_campain,
            track_opens,
            track_clicks,
            custom_id,
            event_payload,
            headers,
            reply_to,
            monitoring_category,
            variables,
        };
        proof {
            assert(Self::of_json(j@)->0 =~= r@);
            Self::read_is_valid(j@);
        }
        Some(r)
    }

    proof fn read_is_valid(j: JsonValue) {
        if let Some(x) = field(j, "From"@) {
            EmailAddress::read_is_valid(x);
        }
        if let Some(JsonValue::Array(items)) = field(j, "To"@) {
            lemma_list_read_is_valid::<EmailAddress>(items);
        }
        if let Some(JsonValue::Array(items)) = field(j, "Cc"@) {
            lemma_list_read_is_valid::<EmailAddress>(items);
        }
        if let Some(JsonValue::Array(items)) = field(j, "Bcc"@) {
            lemma_list_read_is_valid::<EmailAddress>(items);
        }
        if let Some(x) = field(j, "TemplateErrorReporting"@) {
            EmailAddress::read_is_valid(x);
        }
        if let Some(JsonValue::Array(items)) = field(j, "Attachments"@) {
            lemma_list_read_is_valid::<Attachment>(items);
        }
        if let Some(JsonValue::Array(items)) = field(j, "InlinedAttachments"@) {
            lemma_list_read_is_valid::<Attachment>(items);
        }
        if let Some(x) = field(j, "ReplyTo"@) {
            EmailAddress::read_is_valid(x);
        }
    }

    proof fn round_trip(v: MessageView) {
        lemma_members_of_message(v);
        let j = Self::json_of(v);
        assert(record_at::<EmailAddress>(j, "From"@, EmailAddressView::blank())
            == Some(v.from)) by {
            EmailAddress::round_trip(v.from);
        }
        assert(list_at::<EmailAddress>(j, "To"@) == Some(v.to)) by {
            lemma_list_round_trip::<EmailAddress>(v.to);
        }
        assert(list_at::<EmailAddress>(j, "Cc"@) == Some(v.cc)) by {
            lemma_list_round_trip::<EmailAddress>(v.cc);
            if v.cc.len() == 0 {
                assert(v.cc =~= Seq::empty());
            }
        }
        assert(list_at::<EmailAddress>(j, "Bcc"@) == Some(v.bcc)) by {
            lemma_list_round_trip::<EmailAddress>(v.bcc);
            if v.bcc.len() == 0 {
                assert(v.bcc =~= Seq::empty());
            }
        }
        assert(text_at(j, "Subject"@) == Some(v.subject));
        assert(text_at(j, "TextPart"@) == Some(v.text_part)) by {
            if v.text_part.len() == 0 {
                assert(v.text_part =~= Seq::empty());
            }
        }
        assert(text_at(j, "HTMLPart"@) == Some(v.html_part)) by {
            if v.html_part.len() == 0 {
                assert(v.html_part =~= Seq::empty());
            }
        }
        assert(opt_long_at(j, "TemplateID"@) == Some(v.template_id));
        assert(opt_flag_at(j, "TemplateLanguage"@) == Some(v.template_language));
        assert(opt_record_at::<EmailAddress>(j, "TemplateErrorReporting"@)
            == Some(v.template_error_reporting)) by {
            if let Some(r) = v.template_error_reporting {
                EmailAddress::round_trip(r);
            }
        }
        assert(opt_flag_at(j, "TemplateErrorDeliver"@) == Some(v.template_error_deliver));
        assert(list_at::<Attachment>(j, "Attachments"@) == Some(v.attachments)) by {
            lemma_list_round_trip::<Attachment>(v.attachments);
            if v.attachments.len() == 0 {
                assert(v.attachments =~= Seq::empty());
            }
        }
        assert(list_at::<Attachment>(j, "InlinedAttachments"@) == Some(v.inlined_attachments)) by {
            lemma_list_round_trip::<Attachment>(v.inlined_attachments);
            if v.inlined_attachments.len() == 0 {
                assert(v.inlined_attachments =~= Seq::empty());
            }
        }
        assert(opt_long_at(j, "Priority"@) == Some(v.priority));
        assert(opt_text_at(j, "CustomCampaign"@) == Some(v.custom_campain));
        assert(opt_flag_at(j, "DeduplicateCampaign"@) == Some(v.deduplicate_campain));
        assert(opt_text_at(j, "TrackOpens"@) == Some(v.track_opens));
        assert(opt_text_at(j, "TrackClicks"@) == Some(v.track_clicks));
        assert(opt_text_at(j, "CustomID"@) == Some(v.custom_id));
        assert(opt_text_at(j, "EventPayload"@) == Some(v.event_payload));
        assert(table_at(j, "Headers"@) == Some(v.headers)) by {
            lemma_table_round_trip(v.headers);
            if v.headers.len() == 0 {
                assert(v.headers =~= Seq::empty());
            }
        }
        assert(opt_record_at::<EmailAddress>(j, "ReplyTo"@) == Some(v.reply_to)) by {
            if let Some(r) = v.reply_to {
                EmailAddress::round_trip(r);
            }
        }
        assert(opt_text_at(j, "MonitoringCategory"@) == Some(v.monitoring_category));
        assert(table_at(j, "Variables"@) == Some(v.variables)) by {
            lemma_table_round_trip(v.variables);
            if v.variables.len() == 0 {
                assert(v.variables =~= Seq::empty());
            }
        }
    }
}

/// An object without members is read as the record in which every field
/// holds its default, and that record is one that comes back: a field that
/// is absent never makes a value unreadable.
pub proof fn lemma_blank_message()
    ensures
        Message::of_json(JsonValue::Object(Members::empty())) == Some(MessageView::blank()),
        Message::comes_back(MessageView::blank()),
{
    let j = JsonValue::Object(Members::empty());
    assert(Message::of_json(j)->0 =~= MessageView::blank());
}

/// Each field that was written is found under its wire name, and a field
/// that was left out is not found.
pub proof fn lemma_members_of_message(v: MessageView)
    ensures
        field(Message::json_of(v), "From"@) == Some(EmailAddress::json_of(v.from)),
        field(Message::json_of(v), "To"@)
            == Some(JsonValue::Array(list_json::<EmailAddress>(v.to))),
        field(Message::json_of(v), "Cc"@) == array_if_any(list_json::<EmailAddress>(v.cc)),
        field(Message::json_of(v), "Bcc"@) == array_if_any(list_json::<EmailAddress>(v.bcc)),
        field(Message::json_of(v), "Subject"@) == Some(JsonValue::Text(v.subject)),
        field(Message::json_of(v), "TextPart"@) == text_if_any(v.text_part),
        field(Message::json_of(v), "HTMLPart"@) == text_if_any(v.html_part),
        field(Message::json_of(v), "TemplateID"@) == long_if_some(v.template_id),
        field(Message::json_of(v), "TemplateLanguage"@) == flag_if_some(v.template_language),
        field(Message::json_of(v), "TemplateErrorReporting"@)
            == record_if_some::<EmailAddress>(v.template_error_reporting),
        field(Message::json_of(v), "TemplateErrorDeliver"@)
            == flag_if_some(v.template_error_deliver),
        field(Message::json_of(v), "Attachments"@)
            == array_if_any(list_json::<Attachment>(v.attachments)),
        field(Message::json_of(v), "InlinedAttachments"@)
            == array_if_any(list_json::<Attachment>(v.inlined_attachments)),
        field(Message::json_of(v), "Priority"@) == long_if_some(v.priority),
        field(Message::json_of(v), "CustomCampaign"@) == text_if_some(v.custom_campain),
        field(Message::json_of(v), "DeduplicateCampaign"@) == flag_if_some(v.deduplicate_campain),
        field(Message::json_of(v), "TrackOpens"@) == text_if_some(v.track_opens),
        field(Message::json_of(v), "TrackClicks"@) == text_if_some(v.track_clicks),
        field(Message::json_of(v), "CustomID"@) == text_if_some(v.custom_id),
        field(Message::json_of(v), "EventPayload"@) == text_if_some(v.event_payload),
        field(Message::json_of(v), "Headers"@) == table_if_any(v.headers),
        field(Message::json_of(v), "ReplyTo"@) == record_if_some::<EmailAddress>(v.reply_to),
        field(Message::json_of(v), "MonitoringCategory"@) == text_if_some(v.monitoring_category),
        field(Message::json_of(v), "Variables"@) == table_if_any(v.variables),
{
    broadcast use lemma_field_with_member, lemma_field_with_optional;

    reveal_strlit("From");
    reveal_strlit("To");
    reveal_strlit("Cc");
    reveal_strlit("Bcc");
    reveal_strlit("Subject");
    reveal_strlit("TextPart");
    reveal_strlit("HTMLPart");
    reveal_strlit("TemplateID");
    reveal_strlit("TemplateLanguage");
    reveal_strlit("TemplateErrorReporting");
    reveal_strlit("TemplateErrorDeliver");
    reveal_strlit("Attachments");
    reveal_strlit("InlinedAttachments");
    reveal_strlit("Priority");
    reveal_strlit("CustomCampaign");
    reveal_strlit("DeduplicateCampaign");
    reveal_strlit("TrackOpens");
    reveal_strlit("TrackClicks");
    reveal_strlit("CustomID");
    reveal_strlit("EventPayload");
    reveal_strlit("Headers");
    reveal_strlit("ReplyTo");
    reveal_strlit("MonitoringCategory");
    reveal_strlit("Variables");
    assert(mark("From"@) == (4nat, 'F', 'r', 'o', 'm'));
    assert(mark("To"@) == (2nat, 'T', 'T', 'o', 'o'));
    assert(mark("Cc"@) == (2nat, 'C', 'C', 'c', 'c'));
    assert(mark("Bcc"@) == (3nat, 'B', 'B', 'c', 'c'));
    assert(mark("Subject"@) == (7nat, 'S', 'u', 'j', 't'));
    assert(mark("TextPart"@) == (8nat, 'T', 'x', 'P', 't'));
    assert(mark("HTMLPart"@) == (8nat, 'H', 'M', 'P', 't'));
    assert(mark("TemplateID"@) == (10nat, 'T', 'm', 'a', 'D'));
    assert(mark("TemplateLanguage"@) == (16nat, 'T', 'l', 'L', 'e'));
    assert(mark("TemplateErrorReporting"@) == (22nat, 'T', 'a', 'o', 'g'));
    assert(mark("TemplateErrorDeliver"@) == (20nat, 'T', 'a', 'r', 'r'));
    assert(mark("Attachments"@) == (11nat, 'A', 't', 'h', 's'));
    assert(mark("InlinedAttachments"@) == (18nat, 'I', 'n', 't', 's'));
    assert(mark("Priority"@) == (8nat, 'P', 'i', 'r', 'y'));
    assert(mark("CustomCampaign"@) == (14nat, 'C', 't', 'a', 'n'));
    assert(mark("DeduplicateCampaign"@) == (19nat, 'D', 'p', 't', 'n'));
    assert(mark("TrackOpens"@) == (10nat, 'T', 'a', 'O', 's'));
    assert(mark("TrackClicks"@) == (11nat, 'T', 'a', 'C', 's'));
    assert(mark("CustomID"@) == (8nat, 'C', 's', 'o', 'D'));
    assert(mark("EventPayload"@) == (12nat, 'E', 'n', 'a', 'd'));
    assert(mark("Headers"@) == (7nat, 'H', 'e', 'd', 's'));
    assert(mark("ReplyTo"@) == (7nat, 'R', 'e', 'l', 'o'));
    assert(mark("MonitoringCategory"@) == (18nat, 'M', 't', 'g', 'y'));
    assert(mark("Variables"@) == (9nat, 'V', 'r', 'a', 's'));
}

} // verus!
