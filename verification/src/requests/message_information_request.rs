//! The search for message information.

use crate::query::{
    chars, long, push_bool, push_long, push_text, push_wide, wide, with_bool, with_int,
    with_text, Pairs,
};
use crate::url::{
    add_pairs, pairs_of, url_host, url_params, url_port, url_protocol, url_routes, with_pairs,
    QueryParam,
};
use url_builder::URLBuilder;
use vstd::prelude::*;

verus! {

/// What to look for among the sending, size and spam information of
/// messages. A field that is absent asks for nothing.
#[derive(Clone, Debug, PartialEq, Eq)]
pub struct MessageInformationRequest {
    /// Only messages of this campaign.
    pub campaign_id: Option<i128>,
    /// Only messages sent to this contact list.
    pub contacts_list: Option<i128>,
    /// Only messages of the campaign with this custom ID.
    pub custom_campaign: Option<String>,
    /// Only messages sent from this sender address.
    pub from: Option<String>,
    /// Only messages sent from this sender domain.
    pub from_domain: Option<String>,
    /// Only messages sent from the sender with this ID.
    pub from_id: Option<i128>,
    /// Only messages sent after this timestamp.
    pub from_ts: Option<String>,
    /// Only messages of this type.
    pub from_type: Option<i64>,
    /// Only messages of deleted campaigns, or only those of the others.
    pub is_deleted: Option<bool>,
    /// Only campaigns made with the legacy template builder, or only the others.
    pub is_newsletter_tool: Option<bool>,
    /// Only messages of starred campaigns, or only those of the others.
    pub is_starred: Option<bool>,
    /// Only messages with this status.
    pub message_status: Option<i64>,
    /// Only messages sent since the start of this period.
    pub period: Option<String>,
    /// Only messages sent before this timestamp.
    pub to_ts: Option<String>,
    /// At most this many objects in the answer.
    pub limit: Option<i64>,
    /// Leave out this many objects at the start.
    pub offset: Option<i64>,
    /// With the value 1, ask for the number of objects only.
    pub count_only: Option<i64>,
    /// The property to sort by.
    pub sort: Option<String>,
}

impl Default for MessageInformationRequest {
    fn default() -> (r: Self)
        ensures
            r.query_pairs() == Pairs::empty(),
    {
        MessageInformationRequest {
            campaign_id: None,
            contacts_list: None,
            custom_campaign: None,
            from: None,
            from_domain: None,
            from_id: None,
            from_ts: None,
            from_type: None,
            is_deleted: None,
            is_newsletter_tool: None,
            is_starred: None,
            message_status: None,
            period: None,
            to_ts: None,
            limit: None,
            offset: None,
            count_only: None,
            sort: None,
        }
    }
}

impl MessageInformationRequest {
    /// The query of this search: one pair for each field that is present, in
    /// the order of the fields.
    pub open spec fn query_pairs(&self) -> Pairs {
        let p = Pairs::empty();
        let p = with_int(p, "CampaignID"@, wide(self.campaign_id));
        let p = with_int(p, "ContactsList"@, wide(self.contacts_list));
        let p = with_text(p, "CustomCampaign"@, chars(self.custom_campaign));
        let p = with_text(p, "From"@, chars(self.from));
        let p = with_text(p, "FromDomain"@, chars(self.from_domain));
        let p = with_int(p, "FromID"@, wide(self.from_id));
        let p = with_text(p, "FromTS"@, chars(self.from_ts));
        let p = with_int(p, "FromType"@, long(self.from_type));
        let p = with_bool(p, "IsDeleted"@, self.is_deleted);
        let p = with_bool(p, "IsNewsletterTool"@, self.is_newsletter_tool);
        let p = with_bool(p, "IsStarred"@, self.is_starred);
        let p = with_int(p, "MessageStatus"@, long(self.message_status));
        let p = with_text(p, "Period"@, chars(self.period));
        let p = with_text(p, "ToTS"@, chars(self.to_ts));
        let p = with_int(p, "Limit"@, long(self.limit));
        let p = with_int(p, "Offset"@, long(self.offset));
        let p = with_int(p, "countOnly"@, long(self.count_only));
        let p = with_text(p, "Sort"@, chars(self.sort));
        p
    }

    /// The query parameters of this search, in the order of the fields.
    pub fn parameters(&self) -> (params: Vec<QueryParam>)
        ensures
            pairs_of(params@) == self.query_pairs(),
    {
        let mut params: Vec<QueryParam> = Vec::new();
        assert(pairs_of(params@) =~= Pairs::empty());
        push_wide(&mut params, "CampaignID", self.campaign_id);
        push_wide(&mut params, "ContactsList", self.contacts_list);
        push_text(&mut params, "CustomCampaign", &self.custom_campaign);
        push_text(&mut params, "From", &self.from);
        push_text(&mut params, "FromDomain", &self.from_domain);
        push_wide(&mut params, "FromID", self.from_id);
        push_text(&mut params, "FromTS", &self.from_ts);
        push_long(&mut params, "FromType", self.from_type);
        push_bool(&mut params, "IsDeleted", self.is_deleted);
        push_bool(&mut params, "IsNewsletterTool", self.is_newsletter_tool);
        push_bool(&mut params, "IsStarred", self.is_starred);
        push_long(&mut params, "MessageStatus", self.message_status);
        push_text(&mut params, "Period", &self.period);
        push_text(&mut params, "ToTS", &self.to_ts);
        push_long(&mut params, "Limit", self.limit);
        push_long(&mut params, "Offset", self.offset);
        push_long(&mut params, "countOnly", self.count_only);
        push_text(&mut params, "Sort", &self.sort);
        params
    }

    /// Adds the query parameters of this search to a URL builder and leaves
    /// the rest of the builder as it is.
    pub fn add_parameters_to_url(&self, url_builder: &mut URLBuilder)
        ensures
            url_protocol(*final(url_builder)) == url_protocol(*old(url_builder)),
            url_host(*final(url_builder)) == url_host(*old(url_builder)),
            url_port(*final(url_builder)) == url_port(*old(url_builder)),
            url_routes(*final(url_builder)) == url_routes(*old(url_builder)),
            url_params(*final(url_builder)) == with_pairs(
                url_params(*old(url_builder)),
                self.query_pairs(),
            ),
    {
        let params = self.parameters();
        add_pairs(url_builder, &params);
    }
}

} // verus!
