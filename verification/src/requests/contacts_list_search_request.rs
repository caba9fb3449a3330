//! The search for contact lists.

use crate::query::{
    chars, long, push_bool, push_long, push_short, push_text, push_wide, short, wide,
    with_bool, with_int, with_text, Pairs,
};
use crate::url::{
    add_pairs, pairs_of, url_host, url_params, url_port, url_protocol, url_routes, with_pairs,
    QueryParam,
};
use url_builder::URLBuilder;
use vstd::prelude::*;

verus! {

/// What to look for among the contact lists. A field that is absent asks for
/// nothing. Each field goes out under its own wire name.
#[derive(Clone, Debug, PartialEq, Eq)]
pub struct ContactsListSearchRequest {
    /// Only the list with this address.
    pub address: Option<String>,
    /// Every list but the one with this ID.
    pub exclude_id: Option<i128>,
    /// Only deleted lists, or only lists that are not deleted.
    pub is_deleted: Option<bool>,
    /// Only the list with this name.
    pub name: Option<String>,
    /// At most this many objects in the answer.
    pub limit: Option<i64>,
    /// Leave out this many objects at the start.
    pub offset: Option<i64>,
    /// With the value 1, ask for the number of objects only.
    pub count_only: Option<i8>,
    /// The property to sort by.
    pub sort: Option<String>,
}

impl Default for ContactsListSearchRequest {
    fn default() -> (r: Self)
        ensures
            r.query_pairs() == Pairs::empty(),
    {
        ContactsListSearchRequest {
            address: None,
            exclude_id: None,
            is_deleted: None,
            name: None,
            limit: None,
            offset: None,
            count_only: None,
            sort: None,
        }
    }
}

impl ContactsListSearchRequest {
    /// The query of this search: one pair for each field that is present, in
    /// the order of the fields.
    pub open spec fn query_pairs(&self) -> Pairs {
        let p = Pairs::empty();
        let p = with_text(p, "Address"@, chars(self.address));
        let p = with_int(p, "ExcludeID"@, wide(self.exclude_id));
        let p = with_bool(p, "IsDeleted"@, self.is_deleted);
        let p = with_text(p, "Name"@, chars(self.name));
        let p = with_int(p, "Limit"@, long(self.limit));
        let p = with_int(p, "Offset"@, long(self.offset));
        let p = with_int(p, "countOnly"@, short(self.count_only));
        let p = with_text(p, "Sort"@, chars(self.sort));
        p
    }

    /// The query parameters of this search, in the order of the fields.
    pub fn parameters(&self) -> (params: Vec<QueryParam>)
        ensures
            pairs_of(params@) == self.query_pairs(),
    {
        let mut params: Vec<QueryParam> = Vec::new();
        assert(pairs_of(params@) =~= Pairs::empty());
        push_text(&mut params, "Address", &self.address);
        push_wide(&mut params, "ExcludeID", self.exclude_id);
        push_bool(&mut params, "IsDeleted", self.is_deleted);
        push_text(&mut params, "Name", &self.name);
        push_long(&mut params, "Limit", self.limit);
        push_long(&mut params, "Offset", self.offset);
        push_short(&mut params, "countOnly", self.count_only);
        push_text(&mut params, "Sort", &self.sort);
        params
    }

    /// Adds the query parameters of this search to a URL builder and leaves
    /// the rest of the builder as it is.
    pub fn add_parameters_to_url(&self, url_builder: &mut URLBuilder)
        ensures
            url_protocol(*final(url_builder)) == url_protocol(*old(url_builder)),
            url_host(*final(url_builder)) == url_host(*old(url_builder)),
            url_port(*final(url_builder)) == url_port(*old(url_builder)),
            url_routes(*final(url_builder)) == url_routes(*old(url_builder)),
            url_params(*final(url_builder)) == with_pairs(
                url_params(*old(url_builder)),
                self.query_pairs(),
            ),
    {
        let params = self.parameters();
        add_pairs(url_builder, &params);
    }
}

} // verus!
