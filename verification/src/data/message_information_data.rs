//! The sending, size and spam information of one message.

use crate::fields::{read_json, read_long, read_real, read_text, read_wide, write_member};
use crate::json::{
    field, is_number_text, is_writable, lemma_zero_is_number, members_of, Json, JsonValue,
    Member, Members,
};
use crate::record::{
    json_at, lemma_field_with_member, long_at, mark, real_at, text_at, wide_at, with_member,
    Record,
};
use crate::number::{is_number, lemma_decimal_is_number};
use vstd::prelude::*;

verus! {

/// The sending, size and spam information of one message. The spam score is
/// kept as the text of its number.
#[derive(Debug, PartialEq, Eq)]
pub struct MessageInformationData {
    /// The ID of the campaign that the message belongs to.
    pub campaign_id: i128,
    /// How many clicks were tracked.
    pub click_tracked_count: i64,
    /// The ID of the contact that the message went to.
    pub contact_id: i128,
    /// When the message was made.
    pub created_at: String,
    /// The ID of the message.
    pub id: i128,
    /// The size of the message, in bytes.
    pub message_size: i128,
    /// How many opens were tracked.
    pub open_tracked_count: i64,
    /// How many messages wait in the queue.
    pub queued_count: i64,
    /// When the sending ended.
    pub send_end_at: String,
    /// How many messages were sent.
    pub sent_count: i64,
    /// The SpamAssassin rules that the message matched, as free-form JSON.
    pub spam_assassin_rules: Json,
    /// The SpamAssassin score of the message, as the text of a JSON number.
    pub spam_assassin_score: String,
}

/// The sending, size and spam information of one message, as a mathematical object.
#[verifier::ext_equal]
pub struct MessageInformationDataView {
    pub campaign_id: i128,
    pub click_tracked_count: i64,
    pub contact_id: i128,
    pub created_at: Seq<char>,
    pub id: i128,
    pub message_size: i128,
    pub open_tracked_count: i64,
    pub queued_count: i64,
    pub send_end_at: Seq<char>,
    pub sent_count: i64,
    pub spam_assassin_rules: JsonValue,
    pub spam_assassin_score: Seq<char>,
}

impl MessageInformationDataView {
    /// The record in which every field holds its default.
    pub open spec fn blank() -> MessageInformationDataView {
        MessageInformationDataView {
            campaign_id: 0i128,
            click_tracked_count: 0i64,
            contact_id: 0i128,
            created_at: Seq::empty(),
            id: 0i128,
            message_size: 0i128,
            open_tracked_count: 0i64,
            queued_count: 0i64,
            send_end_at: Seq::empty(),
            sent_count: 0i64,
            spam_assassin_rules: JsonValue::Null,
            spam_assassin_score: "0.0"@,
        }
    }
}

impl View for MessageInformationData {
    type V = MessageInformationDataView;

    open spec fn view(&self) -> MessageInformationDataView {
        MessageInformationDataView {
            campaign_id: self.campaign_id,
            click_tracked_count: self.click_tracked_count,
            contact_id: self.contact_id,
            created_at: self.created_at@,
            id: self.id,
            message_size: self.message_size,
            open_tracked_count: self.open_tracked_count,
            queued_count: self.queued_count,
            send_end_at: self.send_end_at@,
            sent_count: self.sent_count,
            spam_assassin_rules: self.spam_assassin_rules@,
            spam_assassin_score: self.spam_assassin_score@,
        }
    }
}

impl Default for MessageInformationData {
    fn default() -> (r: Self)
        ensures
            r@ == MessageInformationDataView::blank(),
    {
        let r = MessageInformationData {
            campaign_id: 0,
            click_tracked_count: 0,
            contact_id: 0,
            created_at: String::new(),
            id: 0,
            message_size: 0,
            open_tracked_count: 0,
            queued_count: 0,
            send_end_at: String::new(),
            sent_count: 0,
            spam_assassin_rules: Json::Null,
            spam_assassin_score: String::from_str("0.0"),
        };
        assert(r@ =~= MessageInformationDataView::blank());
        r
    }
}

impl Record for MessageInformationData {
    open spec fn json_of(v: MessageInformationDataView) -> JsonValue {
        let m = Members::empty();
        let m = with_member(m, "CampaignID"@, JsonValue::Int(v.campaign_id as int));
        let m = with_member(m, "ClickTrackedCount"@, JsonValue::Int(v.click_tracked_count as int));
        let m = with_member(m, "ContactID"@, JsonValue::Int(v.contact_id as int));
        let m = with_member(m, "CreatedAt"@, JsonValue::Text(v.created_at));
        let m = with_member(m, "ID"@, JsonValue::Int(v.id as int));
        let m = with_member(m, "MessageSize"@, JsonValue::Int(v.message_size as int));
        let m = with_member(m, "OpenTrackedCount"@, JsonValue::Int(v.open_tracked_count as int));
        let m = with_member(m, "QueuedCount"@, JsonValue::Int(v.queued_count as int));
        let m = with_member(m, "SendEndAt"@, JsonValue::Text(v.send_end_at));
        let m = with_member(m, "SentCount"@, JsonValue::Int(v.sent_count as int));
        let m = with_member(m, "SpamAssassinRules"@, v.spam_assassin_rules);
        let m = with_member(m, "SpamAssassinScore"@, JsonValue::Real(v.spam_assassin_score));
        JsonValue::Object(m)
    }

    open spec fn of_json(j: JsonValue) -> Option<MessageInformationDataView> {
        if j is Object
            && wide_at(j, "CampaignID"@) is Some
            && long_at(j, "ClickTrackedCount"@) is Some
            && wide_at(j, "ContactID"@) is Some
            && text_at(j, "CreatedAt"@) is Some
            && wide_at(j, "ID"@) is Some
            && wide_at(j, "MessageSize"@) is Some
            && long_at(j, "OpenTrackedCount"@) is Some
            && long_at(j, "QueuedCount"@) is Some
            && text_at(j, "SendEndAt"@) is Some
            && long_at(j, "SentCount"@) is Some
            && json_at(j, "SpamAssassinRules"@) is Some
            && real_at(j, "SpamAssassinScore"@) is Some {
            Some(
                MessageInformationDataView {
                    campaign_id: wide_at(j, "CampaignID"@)->0,
                    click_tracked_count: long_at(j, "ClickTrackedCount"@)->0,
                    contact_id: wide_at(j, "ContactID"@)->0,
                    created_at: text_at(j, "CreatedAt"@)->0,
                    id: wide_at(j, "ID"@)->0,
                    message_size: wide_at(j, "MessageSize"@)->0,
                    open_tracked_count: long_at(j, "OpenTrackedCount"@)->0,
                    queued_count: long_at(j, "QueuedCount"@)->0,
                    send_end_at: text_at(j, "SendEndAt"@)->0,
                    sent_count: long_at(j, "SentCount"@)->0,
                    spam_assassin_rules: json_at(j, "SpamAssassinRules"@)->0,
                    spam_assassin_score: real_at(j, "SpamAssassinScore"@)->0,
                },
            )
        } else {
            None
        }
    }

    open spec fn comes_back(v: MessageInformationDataView) -> bool {
        is_writable(v.spam_assassin_rules)
        && is_number_text(v.spam_assassin_score)
    }

    fn is_valid(&self) -> (valid: bool) {
        if !self.spam_assassin_rules.can_be_written() {
            return false;
        }
        if !is_number(self.spam_assassin_score.as_str()) {
            return false;
        }
        true
    }

    fn to_json(&self) -> (j: Json) {
        let mut m: Vec<Member> = Vec::new();
        assert(members_of(m@) =~= Members::empty());
        write_member(&mut m, "CampaignID", Json::Int(self.campaign_id));
        write_member(&mut m, "ClickTrackedCount", Json::Int(self.click_tracked_count as i128));
        write_member(&mut m, "ContactID", Json::Int(self.contact_id));
        write_member(&mut m, "CreatedAt", Json::Text(self.created_at.clone()));
        write_member(&mut m, "ID", Json::Int(self.id));
        write_member(&mut m, "MessageSize", Json::Int(self.message_size));
        write_member(&mut m, "OpenTrackedCount", Json::Int(self.open_tracked_count as i128));
        write_member(&mut m, "QueuedCount", Json::Int(self.queued_count as i128));
        write_member(&mut m, "SendEndAt", Json::Text(self.send_end_at.clone()));
        write_member(&mut m, "SentCount", Json::Int(self.sent_count as i128));
        write_member(&mut m, "SpamAssassinRules", self.spam_assassin_rules.duplicate());
        write_member(&mut m, "SpamAssassinScore", Json::Real(self.spam_assassin_score.clone()));
        Json::object(m)
    }

    fn from_json(j: &Json) -> (r: Option<Self>) {
        match j {
            Json::Object(_) => {},
            _ => {
                return None;
            },
        }
        let campaign_id = match read_wide(j, "CampaignID") {
            Some(v) => v,
            None => {
                return None;
            },
        };
        let click_tracked_count = match read_long(j, "ClickTrackedCount") {
            Some(v) => v,
            None => {
                return None;
            },
        };
        let contact_id = match read_wide(j, "ContactID") {
            Some(v) => v,
            None => {
                return None;
            },
        };
        let created_at = match read_text(j, "CreatedAt") {
            Some(v) => v,
            None => {
                return None;
            },
        };
        let id = match read_wide(j, "ID") {
            Some(v) => v,
            None => {
                return None;
            },
        };
        let message_size = match read_wide(j, "MessageSize") {
            Some(v) => v,
            None => {
                return None;
            },
        };
        let open_tracked_count = match read_long(j, "OpenTrackedCount") {
            Some(v) => v,
            None => {
                return None;
            },
        };
        let queued_count = match read_long(j, "QueuedCount") {
            Some(v) => v,
            None => {
                return None;
            },
        };
        let send_end_at = match read_text(j, "SendEndAt") {
            Some(v) => v,
            None => {
                return None;
            },
        };
        let sent_count = match read_long(j, "SentCount") {
            Some(v) => v,
            None => {
                return None;
            },
        };
        let spam_assassin_rules = match read_json(j, "SpamAssassinRules") {
            Some(v) => v,
            None => {
                return None;
            },
        };
        let spam_assassin_score = match read_real(j, "SpamAssassinScore") {
            Some(v) => v,
            None => {
                return None;
            },
        };
        let r = MessageInformationData {
            campaign_id,
            click_tracked_count,
            contact_id,
            created_at,
            id,
            message_size,
            open_tracked_count,
            queued_count,
            send_end_at,
            sent_count,
            spam_assassin_rules,
            spam_assassin_score,
        };
        proof {
            assert(Self::of_json(j@)->0 =~= r@);
            Self::read_is_valid(j@);
        }
        Some(r)
    }

    proof fn read_is_valid(j: JsonValue) {
        if let Some(JsonValue::Int(n)) = field(j, "SpamAssassinScore"@) {
            lemma_decimal_is_number(n);
        }
        lemma_zero_is_number();
    }

    proof fn round_trip(v: MessageInformationDataView) {
        broadcast use lemma_field_with_member;

        reveal_strlit("CampaignID");
        reveal_strlit("ClickTrackedCount");
        reveal_strlit("ContactID");
        reveal_strlit("CreatedAt");
        reveal_strlit("ID");
        reveal_strlit("MessageSize");
        reveal_strlit("OpenTrackedCount");
        reveal_strlit("QueuedCount");
        reveal_strlit("SendEndAt");
        reveal_strlit("SentCount");
        reveal_strlit("SpamAssassinRules");
        reveal_strlit("SpamAssassinScore");
        assert(mark("CampaignID"@) == (10nat, 'C', 'm', 'i', 'D'));
        assert(mark("ClickTrackedCount"@) == (17nat, 'C', 'k', 'c', 't'));
        assert(mark("ContactID"@) == (9nat, 'C', 'n', 'a', 'D'));
        assert(mark("CreatedAt"@) == (9nat, 'C', 'e', 't', 't'));
        assert(mark("ID"@) == (2nat, 'I', 'I', 'D', 'D'));
        assert(mark("MessageSize"@) == (11nat, 'M', 's', 'g', 'e'));
        assert(mark("OpenTrackedCount"@) == (16nat, 'O', 'T', 'k', 't'));
        assert(mark("QueuedCount"@) == (11nat, 'Q', 'e', 'd', 't'));
        assert(mark("SendEndAt"@) == (9nat, 'S', 'n', 'E', 't'));
        assert(mark("SentCount"@) == (9nat, 'S', 'n', 'C', 't'));
        assert(mark("SpamAssassinRules"@) == (17nat, 'S', 'A', 's', 's'));
        assert(mark("SpamAssassinScore"@) == (17nat, 'S', 'A', 's', 'e'));
        assert(Self::of_json(Self::json_of(v))->0 =~= v);
    }
}

/// An object without members is read as the record in which every field
/// holds its default, and that record is one that comes back: a field that
/// is absent never makes a value unreadable.
pub proof fn lemma_blank_message_information_data()
    ensures
        MessageInformationData::of_json(JsonValue::Object(Members::empty()))
            == Some(MessageInformationDataView::blank()),
        MessageInformationData::comes_back(MessageInformationDataView::blank()),
{
    let j = JsonValue::Object(Members::empty());
    assert(MessageInformationData::of_json(j)->0 =~= MessageInformationDataView::blank());
    lemma_zero_is_number();
}

} // verus!
