//! The search for contacts.

use crate::query::{
    chars, long, push_bool, push_long, push_text, push_wide, wide, with_bool, with_int, with_text,
    Pairs,
};
use crate::url::{
    add_pairs, pairs_of, url_host, url_params, url_port, url_protocol, url_routes, with_pairs,
    QueryParam,
};
use url_builder::URLBuilder;
use vstd::prelude::*;

verus! {

/// What to look for among the contacts. A field that is absent asks for
/// nothing.
#[derive(Clone, Debug, PartialEq, Eq)]
pub struct ContactSearchRequest {
    /// Only contacts that this campaign was sent to.
    pub campaign: Option<i128>,
    /// Only contacts that belong to this contact list.
    pub contacts_list: Option<i128>,
    /// Only contacts that are, or are not, excluded from campaigns.
    pub is_excluded_from_campaigns: Option<bool>,
    /// At most this many objects in the answer.
    pub limit: Option<i64>,
    /// Leave out this many objects at the start.
    pub offset: Option<i64>,
    /// With the value 1, ask for the number of objects only.
    pub count_only: Option<i64>,
    /// The property to sort by.
    pub sort: Option<String>,
}

impl Default for ContactSearchRequest {
    fn default() -> (r: Self)
        ensures
            r.query_pairs() == Pairs::empty(),
    {
        ContactSearchRequest {
            campaign: None,
            contacts_list: None,
            is_excluded_from_campaigns: None,
            limit: None,
            offset: None,
            count_only: None,
            sort: None,
        }
    }
}

impl ContactSearchRequest {
    /// The query of this search: one pair for each field that is present, in
    /// the order of the fields.
    pub open spec fn query_pairs(&self) -> Pairs {
        let p = Pairs::empty();
        let p = with_int(p, "Campaign"@, wide(self.campaign));
        let p = with_int(p, "ContactsList"@, wide(self.contacts_list));
        let p = with_bool(p, "IsExcludedFromCampaigns"@, self.is_excluded_from_campaigns);
        let p = with_int(p, "Limit"@, long(self.limit));
        let p = with_int(p, "Offset"@, long(self.offset));
        let p = with_int(p, "countOnly"@, long(self.count_only));
        let p = with_text(p, "Sort"@, chars(self.sort));
        p
    }

    /// The query parameters of this search, in the order of the fields.
    pub fn parameters(&self) -> (params: Vec<QueryParam>)
        ensures
            pairs_of(params@) == self.query_pairs(),
    {
        let mut params: Vec<QueryParam> = Vec::new();
        assert(pairs_of(params@) =~= Pairs::empty());
        push_wide(&mut params, "Campaign", self.campaign);
        push_wide(&mut params, "ContactsList", self.contacts_list);
        push_bool(&mut params, "IsExcludedFromCampaigns", self.is_excluded_from_campaigns);
        push_long(&mut params, "Limit", self.limit);
        push_long(&mut params, "Offset", self.offset);
        push_long(&mut params, "countOnly", self.count_only);
        push_text(&mut params, "Sort", &self.sort);
        params
    }

    /// Adds the query parameters of this search to a URL builder and leaves
    /// the rest of the builder as it is.
    pub fn add_parameters_to_url(&self, url_builder: &mut URLBuilder)
        ensures
            url_protocol(*final(url_builder)) == url_protocol(*old(url_builder)),
            url_host(*final(url_builder)) == url_host(*old(url_builder)),
            url_port(*final(url_builder)) == url_port(*old(url_builder)),
            url_routes(*final(url_builder)) == url_routes(*old(url_builder)),
            url_params(*final(url_builder)) == with_pairs(
                url_params(*old(url_builder)),
                self.query_pairs(),
            ),
    {
        let params = self.parameters();
        add_pairs(url_builder, &params);
    }
}

} // verus!
