//! The search for messages.

use crate::query::{
    chars, long, push_bool, push_long, push_short, push_text, push_wide, short, wide,
    with_bool, with_int, with_text, Pairs,
};
use crate::url::{
    add_pairs, pairs_of, url_host, url_params, url_port, url_protocol, url_routes, with_pairs,
    QueryParam,
};
use url_builder::URLBuilder;
use vstd::prelude::*;

verus! {

/// What to look for among the messages. A field that is absent asks for
/// nothing.
#[derive(Clone, Debug, PartialEq, Eq)]
pub struct MessageRequest {
    /// Only messages of this campaign.
    pub campaign: Option<i128>,
    /// Only messages sent to this contact.
    pub contact: Option<i128>,
    /// Only messages tagged with this custom ID.
    pub custom_id: Option<String>,
    /// Only messages sent to this destination, the ID of a domain.
    pub destination: Option<i128>,
    /// Only messages sent after this timestamp.
    pub from_ts: Option<String>,
    /// Only messages of this type.
    pub from_type: Option<i64>,
    /// Only undelivered messages in this state.
    pub message_state: Option<i64>,
    /// Only messages with this status.
    pub message_status: Option<i64>,
    /// Only messages of this plan subscription.
    pub plan_subscription: Option<i128>,
    /// Only messages sent from the sender address with this ID.
    pub sender_id: Option<i128>,
    /// Whether the answer shows the address of the recipient.
    pub show_contact_alt: Option<bool>,
    /// Whether the answer shows the custom ID of the message.
    pub show_custom_id: Option<bool>,
    /// Whether the answer shows the subject of the message.
    pub show_subject: Option<bool>,
    /// Only messages sent before this timestamp.
    pub to_ts: Option<String>,
    /// At most this many objects in the answer.
    pub limit: Option<i64>,
    /// Leave out this many objects at the start.
    pub offset: Option<i64>,
    /// With the value 1, ask for the number of objects only.
    pub count_only: Option<i8>,
    /// The property to sort by.
    pub sort: Option<String>,
}

impl Default for MessageRequest {
    fn default() -> (r: Self)
        ensures
            r.query_pairs() == Pairs::empty(),
    {
        MessageRequest {
            campaign: None,
            contact: None,
            custom_id: None,
            destination: None,
            from_ts: None,
            from_type: None,
            message_state: None,
            message_status: None,
            plan_subscription: None,
            sender_id: None,
            show_contact_alt: None,
            show_custom_id: None,
            show_subject: None,
            to_ts: None,
            limit: None,
            offset: None,
            count_only: None,
            sort: None,
        }
    }
}

impl MessageRequest {
    /// The query of this search: one pair for each field that is present, in
    /// the order of the fields.
    pub open spec fn query_pairs(&self) -> Pairs {
        let p = Pairs::empty();
        let p = with_int(p, "Campaign"@, wide(self.campaign));
        let p = with_int(p, "Contact"@, wide(self.contact));
        let p = with_text(p, "CustomID"@, chars(self.custom_id));
        let p = with_int(p, "Destination"@, wide(self.destination));
        let p = with_text(p, "FromTS"@, chars(self.from_ts));
        let p = with_int(p, "FromType"@, long(self.from_type));
        let p = with_int(p, "MessageState"@, long(self.message_state));
        let p = with_int(p, "MessageStatus"@, long(self.message_status));
        let p = with_int(p, "PlanSubscription"@, wide(self.plan_subscription));
        let p = with_int(p, "SenderID"@, wide(self.sender_id));
        let p = with_bool(p, "ShowContactAlt"@, self.show_contact_alt);
        let p = with_bool(p, "ShowCustomID"@, self.show_custom_id);
        let p = with_bool(p, "ShowSubject"@, self.show_subject);
        let p = with_text(p, "ToTS"@, chars(self.to_ts));
        let p = with_int(p, "Limit"@, long(self.limit));
        let p = with_int(p, "Offset"@, long(self.offset));
        let p = with_int(p, "countOnly"@, short(self.count_only));
        let p = with_text(p, "Sort"@, chars(self.sort));
        p
    }

    /// The query parameters of this search, in the order of the fields.
    pub fn parameters(&self) -> (params: Vec<QueryParam>)
        ensures
            pairs_of(params@) == self.query_pairs(),
    {
        let mut params: Vec<QueryParam> = Vec::new();
        assert(pairs_of(params@) =~= Pairs::empty());
        push_wide(&mut params, "Campaign", self.campaign);
        push_wide(&mut params, "Contact", self.contact);
        push_text(&mut params, "CustomID", &self.custom_id);
        push_wide(&mut params, "Destination", self.destination);
        push_text(&mut params, "FromTS", &self.from_ts);
        push_long(&mut params, "FromType", self.from_type);
        push_long(&mut params, "MessageState", self.message_state);
        push_long(&mut params, "MessageStatus", self.message_status);
        push_wide(&mut params, "PlanSubscription", self.plan_subscription);
        push_wide(&mut params, "SenderID", self.sender_id);
        push_bool(&mut params, "ShowContactAlt", self.show_contact_alt);
        push_bool(&mut params, "ShowCustomID", self.show_custom_id);
        push_bool(&mut params, "ShowSubject", self.show_subject);
        push_text(&mut params, "ToTS", &self.to_ts);
        push_long(&mut params, "Limit", self.limit);
        push_long(&mut params, "Offset", self.offset);
        push_short(&mut params, "countOnly", self.count_only);
        push_text(&mut params, "Sort", &self.sort);
        params
    }

    /// Adds the query parameters of this search to a URL builder and leaves
    /// the rest of the builder as it is.
    pub fn add_parameters_to_url(&self, url_builder: &mut URLBuilder)
        ensures
            url_protocol(*final(url_builder)) == url_protocol(*old(url_builder)),
            url_host(*final(url_builder)) == url_host(*old(url_builder)),
            url_port(*final(url_builder)) == url_port(*old(url_builder)),
            url_routes(*final(url_builder)) == url_routes(*old(url_builder)),
            url_params(*final(url_builder)) == with_pairs(
                url_params(*old(url_builder)),
                self.query_pairs(),
            ),
    {
        let params = self.parameters();
        add_pairs(url_builder, &params);
    }
}

} // verus!
