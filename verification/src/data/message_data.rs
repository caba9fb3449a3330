//! What the service tells about one message.

use crate::fields::{read_flag, read_long, read_real, read_text, read_wide, write_member};
use crate::json::{
    field, is_number_text, lemma_zero_is_number, members_of, Json, JsonValue, Member, Members,
};
use crate::record::{
    flag_at, lemma_field_with_member, long_at, mark, real_at, text_at, wide_at, with_member,
    Record,
};
use crate::number::{is_number, lemma_decimal_is_number};
use vstd::prelude::*;

verus! {

/// What the service tells about one message. The two measurements are kept
/// as the text of their numbers.
#[derive(Clone, Debug, PartialEq, Eq)]
pub struct MessageData {
    /// When the message arrived.
    pub arrived_at: String,
    /// How many attachments the message has.
    pub attachment_count: i64,
    /// How often the service tried to deliver the message.
    pub attempt_count: i64,
    /// The ID of the campaign that the message belongs to.
    pub campaign_id: i128,
    /// The address of the contact that the message went to.
    pub contact_alt: String,
    /// The ID of the contact that the message went to.
    pub contact_id: i128,
    /// The time between processing and delivery, in milliseconds, as the text
    /// of a JSON number.
    pub delay: String,
    /// The ID of the domain that the message went to.
    pub destination_id: i128,
    /// The time spent on the text of the message, in milliseconds.
    pub filter_time: i64,
    /// The ID of the message.
    pub id: i128,
    /// Whether clicks are tracked.
    pub is_click_tracked: bool,
    /// Whether the message has an HTML part.
    pub is_html_part_included: bool,
    /// Whether opens are tracked.
    pub is_open_tracked: bool,
    /// Whether the message has a plain text part.
    pub is_text_part_included: bool,
    /// Whether unsubscriptions are tracked.
    pub is_unsub_tracked: bool,
    /// The size of the message, in bytes.
    pub message_size: i64,
    /// The ID of the sender address.
    pub sender_id: i128,
    /// The SpamAssassin score of the message, as the text of a JSON number.
    pub spamassassin_score: String,
    /// The SpamAssassin rules that the message matched.
    pub spamass_rules: String,
    /// Why the message was not delivered, as an ID.
    pub state_id: i64,
    /// Whether the state of the message will not change any more.
    pub state_permanent: bool,
    /// The status of the message.
    pub status: String,
    /// The subject of the message.
    pub subject: String,
    /// The UUID of the message.
    pub uuid: String,
}

/// What the service tells about one message, as a mathematical object.
#[verifier::ext_equal]
pub struct MessageDataView {
    pub arrived_at: Seq<char>,
    pub attachment_count: i64,
    pub attempt_count: i64,
    pub campaign_id: i128,
    pub contact_alt: Seq<char>,
    pub contact_id: i128,
    pub delay: Seq<char>,
    pub destination_id: i128,
    pub filter_time: i64,
    pub id: i128,
    pub is_click_tracked: bool,
    pub is_html_part_included: bool,
    pub is_open_tracked: bool,
    pub is_text_part_included: bool,
    pub is_unsub_tracked: bool,
    pub message_size: i64,
    pub sender_id: i128,
    pub spamassassin_score: Seq<char>,
    pub spamass_rules: Seq<char>,
    pub state_id: i64,
    pub state_permanent: bool,
    pub status: Seq<char>,
    pub subject: Seq<char>,
    pub uuid: Seq<char>,
}

impl MessageDataView {
    /// The record in which every field holds its default.
    pub open spec fn blank() -> MessageDataView {
        MessageDataView {
            arrived_at: Seq::empty(),
            attachment_count: 0i64,
            attempt_count: 0i64,
            campaign_id: 0i128,
            contact_alt: Seq::empty(),
            contact_id: 0i128,
            delay: "0.0"@,
            destination_id: 0i128,
            filter_time: 0i64,
            id: 0i128,
            is_click_tracked: false,
            is_html_part_included: false,
            is_open_tracked: false,
            is_text_part_included: false,
            is_unsub_tracked: false,
            message_size: 0i64,
            sender_id: 0i128,
            spamassassin_score: "0.0"@,
            spamass_rules: Seq::empty(),
            state_id: 0i64,
            state_permanent: false,
            status: Seq::empty(),
            subject: Seq::empty(),
            uuid: Seq::empty(),
        }
    }
}

impl View for MessageData {
    type V = MessageDataView;

    open spec fn view(&self) -> MessageDataView {
        MessageDataView {
            arrived_at: self.arrived_at@,
            attachment_count: self.attachment_count,
            attempt_count: self.attempt_count,
            campaign_id: self.campaign_id,
            contact_alt: self.contact_alt@,
            contact_id: self.contact_id,
            delay: self.delay@,
            destination_id: self.destination_id,
            filter_time: self.filter_time,
            id: self.id,
            is_click_tracked: self.is_click_tracked,
            is_html_part_included: self.is_html_part_included,
            is_open_tracked: self.is_open_tracked,
            is_text_part_included: self.is_text_part_included,
            is_unsub_tracked: self.is_unsub_tracked,
            message_size: self.message_size,
            sender_id: self.sender_id,
            spamassassin_score: self.spamassassin_score@,
            spamass_rules: self.spamass_rules@,
            state_id: self.state_id,
            state_permanent: self.state_permanent,
            status: self.status@,
            subject: self.subject@,
            uuid: self.uuid@,
        }
    }
}

impl Default for MessageData {
    fn default() -> (r: Self)
        ensures
            r@ == MessageDataView::blank(),
    {
        let r = MessageData {
            arrived_at: String::new(),
            attachment_count: 0,
            attempt_count: 0,
            campaign_id: 0,
            contact_alt: String::new(),
            contact_id: 0,
            delay: String::from_str("0.0"),
            destination_id: 0,
            filter_time: 0,
            id: 0,
            is_click_tracked: false,
            is_html_part_included: false,
            is_open_tracked: false,
            is_text_part_included: false,
            is_unsub_tracked: false,
            message_size: 0,
            sender_id: 0,
            spamassassin_score: String::from_str("0.0"),
            spamass_rules: String::new(),
            state_id: 0,
            state_permanent: false,
            status: String::new(),
            subject: String::new(),
            uuid: String::new(),
        };
        assert(r@ =~= MessageDataView::blank());
        r
    }
}

impl Record for MessageData {
    open spec fn json_of(v: MessageDataView) -> JsonValue {
        let m = Members::empty();
        let m = with_member(m, "ArrivedAt"@, JsonValue::Text(v.arrived_at));
        let m = with_member(m, "AttachmentCount"@, JsonValue::Int(v.attachment_count as int));
        let m = with_member(m, "AttemptCount"@, JsonValue::Int(v.attempt_count as int));
        let m = with_member(m, "CampaignID"@, JsonValue::Int(v.campaign_id as int));
        let m = with_member(m, "ContactAlt"@, JsonValue::Text(v.contact_alt));
        let m = with_member(m, "ContactID"@, JsonValue::Int(v.contact_id as int));
        let m = with_member(m, "Delay"@, JsonValue::Real(v.delay));
        let m = with_member(m, "DestinationID"@, JsonValue::Int(v.destination_id as int));
        let m = with_member(m, "FilterTime"@, JsonValue::Int(v.filter_time as int));
        let m = with_member(m, "ID"@, JsonValue::Int(v.id as int));
        let m = with_member(m, "IsClickTracked"@, JsonValue::Bool(v.is_click_tracked));
        let m = with_member(m, "IsHTMLPartIncluded"@, JsonValue::Bool(v.is_html_part_included));
        let m = with_member(m, "IsOpenTracked"@, JsonValue::Bool(v.is_open_tracked));
        let m = with_member(m, "IsTextPartIncluded"@, JsonValue::Bool(v.is_text_part_included));
        let m = with_member(m, "IsUnsubTracked"@, JsonValue::Bool(v.is_unsub_tracked));
        let m = with_member(m, "MessageSize"@, JsonValue::Int(v.message_size as int));
        let m = with_member(m, "SenderID"@, JsonValue::Int(v.sender_id as int));
        let m = with_member(m, "SpamassassinScore"@, JsonValue::Real(v.spamassassin_score));
        let m = with_member(m, "SpamassRules"@, JsonValue::Text(v.spamass_rules));
        let m = with_member(m, "StateID"@, JsonValue::Int(v.state_id as int));
        let m = with_member(m, "StatePermanent"@, JsonValue::Bool(v.state_permanent));
        let m = with_member(m, "Status"@, JsonValue::Text(v.status));
        let m = with_member(m, "Subject"@, JsonValue::Text(v.subject));
        let m = with_member(m, "UUID"@, JsonValue::Text(v.uuid));
        JsonValue::Object(m)
    }

    open spec fn of_json(j: JsonValue) -> Option<MessageDataView> {
        if j is Object
            && text_at(j, "ArrivedAt"@) is Some
            && long_at(j, "AttachmentCount"@) is Some
            && long_at(j, "AttemptCount"@) is Some
            && wide_at(j, "CampaignID"@) is Some
            && text_at(j, "ContactAlt"@) is Some
            && wide_at(j, "ContactID"@) is Some
            && real_at(j, "Delay"@) is Some
            && wide_at(j, "DestinationID"@) is Some
            && long_at(j, "FilterTime"@) is Some
            && wide_at(j, "ID"@) is Some
            && flag_at(j, "IsClickTracked"@) is Some
            && flag_at(j, "IsHTMLPartIncluded"@) is Some
            && flag_at(j, "IsOpenTracked"@) is Some
            && flag_at(j, "IsTextPartIncluded"@) is Some
            && flag_at(j, "IsUnsubTracked"@) is Some
            && long_at(j, "MessageSize"@) is Some
            && wide_at(j, "SenderID"@) is Some
            && real_at(j, "SpamassassinScore"@) is Some
            && text_at(j, "SpamassRules"@) is Some
            && long_at(j, "StateID"@) is Some
            && flag_at(j, "StatePermanent"@) is Some
            && text_at(j, "Status"@) is Some
            && text_at(j, "Subject"@) is Some
            && text_at(j, "UUID"@) is Some {
            Some(
                MessageDataView {
                    arrived_at: text_at(j, "ArrivedAt"@)->0,
                    attachment_count: long_at(j, "AttachmentCount"@)->0,
                    attempt_count: long_at(j, "AttemptCount"@)->0,
                    campaign_id: wide_at(j, "CampaignID"@)->0,
                    contact_alt: text_at(j, "ContactAlt"@)->0,
                    contact_id: wide_at(j, "ContactID"@)->0,
                    delay: real_at(j, "Delay"@)->0,
                    destination_id: wide_at(j, "DestinationID"@)->0,
                    filter_time: long_at(j, "FilterTime"@)->0,
                    id: wide_at(j, "ID"@)->0,
                    is_click_tracked: flag_at(j, "IsClickTracked"@)->0,
                    is_html_part_included: flag_at(j, "IsHTMLPartIncluded"@)->0,
                    is_open_tracked: flag_at(j, "IsOpenTracked"@)->0,
                    is_text_part_included: flag_at(j, "IsTextPartIncluded"@)->0,
                    is_unsub_tracked: flag_at(j, "IsUnsubTracked"@)->0,
                    message_size: long_at(j, "MessageSize"@)->0,
                    sender_id: wide_at(j, "SenderID"@)->0,
                    spamassassin_score: real_at(j, "SpamassassinScore"@)->0,
                    spamass_rules: text_at(j, "SpamassRules"@)->0,
                    state_id: long_at(j, "StateID"@)->0,
                    state_permanent: flag_at(j, "StatePermanent"@)->0,
                    status: text_at(j, "Status"@)->0,
                    subject: text_at(j, "Subject"@)->0,
                    uuid: text_at(j, "UUID"@)->0,
                },
            )
        } else {
            None
        }
    }

    open spec fn comes_back(v: MessageDataView) -> bool {
        is_number_text(v.delay)
        && is_number_text(v.spamassassin_score)
    }

    fn is_valid(&self) -> (valid: bool) {
        if !is_number(self.delay.as_str()) {
            return false;
        }
        if !is_number(self.spamassassin_score.as_str()) {
            return false;
        }
        true
    }

    fn to_json(&self) -> (j: Json) {
        let mut m: Vec<Member> = Vec::new();
        assert(members_of(m@) =~= Members::empty());
        write_member(&mut m, "ArrivedAt", Json::Text(self.arrived_at.clone()));
        write_member(&mut m, "AttachmentCount", Json::Int(self.attachment_count as i128));
        write_member(&mut m, "AttemptCount", Json::Int(self.attempt_count as i128));
        write_member(&mut m, "CampaignID", Json::Int(self.campaign_id));
        write_member(&mut m, "ContactAlt", Json::Text(self.contact_alt.clone()));
        write_member(&mut m, "ContactID", Json::Int(self.contact_id));
        write_member(&mut m, "Delay", Json::Real(self.delay.clone()));
        write_member(&mut m, "DestinationID", Json::Int(self.destination_id));
        write_member(&mut m, "FilterTime", Json::Int(self.filter_time as i128));
        write_member(&mut m, "ID", Json::Int(self.id));
        write_member(&mut m, "IsClickTracked", Json::Bool(self.is_click_tracked));
        write_member(&mut m, "IsHTMLPartIncluded", Json::Bool(self.is_html_part_included));
        write_member(&mut m, "IsOpenTracked", Json::Bool(self.is_open_tracked));
        write_member(&mut m, "IsTextPartIncluded", Json::Bool(self.is_text_part_included));
        write_member(&mut m, "IsUnsubTracked", Json::Bool(self.is_unsub_tracked));
        write_member(&mut m, "MessageSize", Json::Int(self.message_size as i128));
        write_member(&mut m, "SenderID", Json::Int(self.sender_id));
        write_member(&mut m, "SpamassassinScore", Json::Real(self.spamassassin_score.clone()));
        write_member(&mut m, "SpamassRules", Json::Text(self.spamass_rules.clone()));
        write_member(&mut m, "StateID", Json::Int(self.state_id as i128));
        write_member(&mut m, "StatePermanent", Json::Bool(self.state_permanent));
        write_member(&mut m, "Status", Json::Text(self.status.clone()));
        write_member(&mut m, "Subject", Json::Text(self.subject.clone()));
        write_member(&mut m, "UUID", Json::Text(self.uuid.clone()));
        Json::object(m)
    }

    fn from_json(j: &Json) -> (r: Option<Self>) {
        match j {
            Json::Object(_) => {},
            _ => {
                return None;
            },
        }
        let arrived_at = match read_text(j, "ArrivedAt") {
            Some(v) => v,
            None => {
                return None;
            },
        };
        let attachment_count = match read_long(j, "AttachmentCount") {
            Some(v) => v,
            None => {
                return None;
            },
        };
        let attempt_count = match read_long(j, "AttemptCount") {
            Some(v) => v,
            None => {
                return None;
            },
        };
        let campaign_id = match read_wide(j, "CampaignID") {
            Some(v) => v,
            None => {
                return None;
            },
        };
        let contact_alt = match read_text(j, "ContactAlt") {
            Some(v) => v,
            None => {
                return None;
            },
        };
        let contact_id = match read_wide(j, "ContactID") {
            Some(v) => v,
            None => {
                return None;
            },
        };
        let delay = match read_real(j, "Delay") {
            Some(v) => v,
            None => {
                return None;
            },
        };
        let destination_id = match read_wide(j, "DestinationID") {
            Some(v) => v,
            None => {
                return None;
            },
        };
        let filter_time = match read_long(j, "FilterTime") {
            Some(v) => v,
            None => {
                return None;
            },
        };
        let id = match read_wide(j, "ID") {
            Some(v) => v,
            None => {
                return None;
            },
        };
        let is_click_tracked = match read_flag(j, "IsClickTracked") {
            Some(v) => v,
            None => {
                return None;
            },
        };
        let is_html_part_included = match read_flag(j, "IsHTMLPartIncluded") {
            Some(v) => v,
            None => {
                return None;
            },
        };
        let is_open_tracked = match read_flag(j, "IsOpenTracked") {
            Some(v) => v,
            None => {
                return None;
            },
        };
        let is_text_part_included = match read_flag(j, "IsTextPartIncluded") {
            Some(v) => v,
            None => {
                return None;
            },
        };
        let is_unsub_tracked = match read_flag(j, "IsUnsubTracked") {
            Some(v) => v,
            None => {
                return None;
            },
        };
        let message_size = match read_long(j, "MessageSize") {
            Some(v) => v,
            None => {
                return None;
            },
        };
        let sender_id = match read_wide(j, "SenderID") {
            Some(v) => v,
            None => {
                return None;
            },
        };
        let spamassassin_score = match read_real(j, "SpamassassinScore") {
            Some(v) => v,
            None => {
                return None;
            },
        };
        let spamass_rules = match read_text(j, "SpamassRules") {
            Some(v) => v,
            None => {
                return None;
            },
        };
        let state_id = match read_long(j, "StateID") {
            Some(v) => v,
            None => {
                return None;
            },
        };
        let state_permanent = match read_flag(j, "StatePermanent") {
            Some(v) => v,
            None => {
                return None;
            },
        };
        let status = match read_text(j, "Status") {
            Some(v) => v,
            None => {
                return None;
            },
        };
        let subject = match read_text(j, "Subject") {
            Some(v) => v,
            None => {
                return None;
            },
        };
        let uuid = match read_text(j, "UUID") {
            Some(v) => v,
            None => {
                return None;
            },
        };
        let r = MessageData {
            arrived_at,
            attachment_count,
            attempt_count,
            campaign_id,
            contact_alt,
            contact_id,
            delay,
            destination_id,
            filter_time,
            id,
            is_click_tracked,
            is_html_part_included,
            is_open_tracked,
            is_text_part_included,
            is_unsub_tracked,
            message_size,
            sender_id,
            spamassassin_score,
            spamass_rules,
            state_id,
            state_permanent,
            status,
            subject,
            uuid,
        };
        proof {
            assert(Self::of_json(j@)->0 =~= r@);
            Self::read_is_valid(j@);
        }
        Some(r)
    }

    proof fn read_is_valid(j: JsonValue) {
        if let Some(JsonValue::Int(n)) = field(j, "Delay"@) {
            lemma_decimal_is_number(n);
        }
        if let Some(JsonValue::Int(n)) = field(j, "SpamassassinScore"@) {
            lemma_decimal_is_number(n);
        }
        lemma_zero_is_number();
    }

    proof fn round_trip(v: MessageDataView) {
        lemma_members_of_message_data(v);
        let j = Self::json_of(v);
        assert(text_at(j, "ArrivedAt"@) == Some(v.arrived_at));
        assert(long_at(j, "AttachmentCount"@) == Some(v.attachment_count));
        assert(long_at(j, "AttemptCount"@) == Some(v.attempt_count));
        assert(wide_at(j, "CampaignID"@) == Some(v.campaign_id));
        assert(text_at(j, "ContactAlt"@) == Some(v.contact_alt));
        assert(wide_at(j, "ContactID"@) == Some(v.contact_id));
        assert(real_at(j, "Delay"@) == Some(v.delay));
        assert(wide_at(j, "DestinationID"@) == Some(v.destination_id));
        assert(long_at(j, "FilterTime"@) == Some(v.filter_time));
        assert(wide_at(j, "ID"@) == Some(v.id));
        assert(flag_at(j, "IsClickTracked"@) == Some(v.is_click_tracked));
        assert(flag_at(j, "IsHTMLPartIncluded"@) == Some(v.is_html_part_included));
        assert(flag_at(j, "IsOpenTracked"@) == Some(v.is_open_tracked));
        assert(flag_at(j, "IsTextPartIncluded"@) == Some(v.is_text_part_included));
        assert(flag_at(j, "IsUnsubTracked"@) == Some(v.is_unsub_tracked));
        assert(long_at(j, "MessageSize"@) == Some(v.message_size));
        assert(wide_at(j, "SenderID"@) == Some(v.sender_id));
        assert(real_at(j, "SpamassassinScore"@) == Some(v.spamassassin_score));
        assert(text_at(j, "SpamassRules"@) == Some(v.spamass_rules));
        assert(long_at(j, "StateID"@) == Some(v.state_id));
        assert(flag_at(j, "StatePermanent"@) == Some(v.state_permanent));
        assert(text_at(j, "Status"@) == Some(v.status));
        assert(text_at(j, "Subject"@) == Some(v.subject));
        assert(text_at(j, "UUID"@) == Some(v.uuid));
    }
}

/// An object without members is read as the record in which every field
/// holds its default, and that record is one that comes back: a field that
/// is absent never makes a value unreadable.
pub proof fn lemma_blank_message_data()
    ensures
        MessageData::of_json(JsonValue::Object(Members::empty())) == Some(MessageDataView::blank()),
        MessageData::comes_back(MessageDataView::blank()),
{
    let j = JsonValue::Object(Members::empty());
    assert(MessageData::of_json(j)->0 =~= MessageDataView::blank());
    lemma_zero_is_number();
}

/// Each field that was written is found under its wire name, and a field
/// that was left out is not found.
pub proof fn lemma_members_of_message_data(v: MessageDataView)
    ensures
        field(MessageData::json_of(v), "ArrivedAt"@) == Some(JsonValue::Text(v.arrived_at)),
        field(MessageData::json_of(v), "AttachmentCount"@)
            == Some(JsonValue::Int(v.attachment_count as int)),
        field(MessageData::json_of(v), "AttemptCount"@)
            == Some(JsonValue::Int(v.attempt_count as int)),
        field(MessageData::json_of(v), "CampaignID"@) == Some(JsonValue::Int(v.campaign_id as int)),
        field(MessageData::json_of(v), "ContactAlt"@) == Some(JsonValue::Text(v.contact_alt)),
        field(MessageData::json_of(v), "ContactID"@) == Some(JsonValue::Int(v.contact_id as int)),
        field(MessageData::json_of(v), "Delay"@) == Some(JsonValue::Real(v.delay)),
        field(MessageData::json_of(v), "DestinationID"@)
            == Some(JsonValue::Int(v.destination_id as int)),
        field(MessageData::json_of(v), "FilterTime"@) == Some(JsonValue::Int(v.filter_time as int)),
        field(MessageData::json_of(v), "ID"@) == Some(JsonValue::Int(v.id as int)),
        field(MessageData::json_of(v), "IsClickTracked"@)
            == Some(JsonValue::Bool(v.is_click_tracked)),
        field(MessageData::json_of(v), "IsHTMLPartIncluded"@)
            == Some(JsonValue::Bool(v.is_html_part_included)),
        field(MessageData::json_of(v), "IsOpenTracked"@)
            == Some(JsonValue::Bool(v.is_open_tracked)),
        field(MessageData::json_of(v), "IsTextPartIncluded"@)
            == Some(JsonValue::Bool(v.is_text_part_included)),
        field(MessageData::json_of(v), "IsUnsubTracked"@)
            == Some(JsonValue::Bool(v.is_unsub_tracked)),
        field(MessageData::json_of(v), "MessageSize"@)
            == Some(JsonValue::Int(v.message_size as int)),
        field(MessageData::json_of(v), "SenderID"@) == Some(JsonValue::Int(v.sender_id as int)),
        field(MessageData::json_of(v), "SpamassassinScore"@)
            == Some(JsonValue::Real(v.spamassassin_score)),
        field(MessageData::json_of(v), "SpamassRules"@) == Some(JsonValue::Text(v.spamass_rules)),
        field(MessageData::json_of(v), "StateID"@) == Some(JsonValue::Int(v.state_id as int)),
        field(MessageData::json_of(v), "StatePermanent"@)
            == Some(JsonValue::Bool(v.state_permanent)),
        field(MessageData::json_of(v), "Status"@) == Some(JsonValue::Text(v.status)),
        field(MessageData::json_of(v), "Subject"@) == Some(JsonValue::Text(v.subject)),
        field(MessageData::json_of(v), "UUID"@) == Some(JsonValue::Text(v.uuid)),
{
    broadcast use lemma_field_with_member;

    reveal_strlit("ArrivedAt");
    reveal_strlit("AttachmentCount");
    reveal_strlit("AttemptCount");
    reveal_strlit("CampaignID");
    reveal_strlit("ContactAlt");
    reveal_strlit("ContactID");
    reveal_strlit("Delay");
    reveal_strlit("DestinationID");
    reveal_strlit("FilterTime");
    reveal_strlit("ID");
    reveal_strlit("IsClickTracked");
    reveal_strlit("IsHTMLPartIncluded");
    reveal_strlit("IsOpenTracked");
    reveal_strlit("IsTextPartIncluded");
    reveal_strlit("IsUnsubTracked");
    reveal_strlit("MessageSize");
    reveal_strlit("SenderID");
    reveal_strlit("SpamassassinScore");
    reveal_strlit("SpamassRules");
    reveal_strlit("StateID");
    reveal_strlit("StatePermanent");
    reveal_strlit("Status");
    reveal_strlit("Subject");
    reveal_strlit("UUID");
    assert(mark("ArrivedAt"@) == (9nat, 'A', 'r', 'v', 't'));
    assert(mark("AttachmentCount"@) == (15nat, 'A', 'a', 'e', 't'));
    assert(mark("AttemptCount"@) == (12nat, 'A', 'e', 't', 't'));
    assert(mark("CampaignID"@) == (10nat, 'C', 'm', 'i', 'D'));
    assert(mark("ContactAlt"@) == (10nat, 'C', 'n', 'c', 't'));
    assert(mark("ContactID"@) == (9nat, 'C', 'n', 'a', 'D'));
    assert(mark("Delay"@) == (5nat, 'D', 'e', 'l', 'y'));
    assert(mark("DestinationID"@) == (13nat, 'D', 't', 'a', 'D'));
    assert(mark("FilterTime"@) == (10nat, 'F', 'l', 'r', 'e'));
    assert(mark("ID"@) == (2nat, 'I', 'I', 'D', 'D'));
    assert(mark("IsClickTracked"@) == (14nat, 'I', 'l', 'T', 'd'));
    assert(mark("IsHTMLPartIncluded"@) == (18nat, 'I', 'M', 't', 'd'));
    assert(mark("IsOpenTracked"@) == (13nat, 'I', 'p', 'T', 'd'));
    assert(mark("IsTextPartIncluded"@) == (18nat, 'I', 'x', 't', 'd'));
    assert(mark("IsUnsubTracked"@) == (14nat, 'I', 'n', 'T', 'd'));
    assert(mark("MessageSize"@) == (11nat, 'M', 's', 'g', 'e'));
    assert(mark("SenderID"@) == (8nat, 'S', 'n', 'e', 'D'));
    assert(mark("SpamassassinScore"@) == (17nat, 'S', 'a', 's', 'e'));
    assert(mark("SpamassRules"@) == (12nat, 'S', 'm', 's', 's'));
    assert(mark("StateID"@) == (7nat, 'S', 't', 't', 'D'));
    assert(mark("StatePermanent"@) == (14nat, 'S', 't', 'r', 't'));
    assert(mark("Status"@) == (6nat, 'S', 't', 't', 's'));
    assert(mark("Subject"@) == (7nat, 'S', 'u', 'j', 't'));
    assert(mark("UUID"@) == (4nat, 'U', 'U', 'I', 'D'));
}

} // verus!
