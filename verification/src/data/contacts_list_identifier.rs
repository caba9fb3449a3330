//! The two ways to name one contact list.

use crate::text::{decimal, u128_to_string};
use vstd::prelude::*;

verus! {

/// Names one contact list, by its ID or by its address.
#[derive(Clone, Debug, PartialEq, Eq)]
pub enum ContactsListIdentifier {
    /// The ID of the list.
    ById(u128),
    /// The address of the list.
    ByAddress(String),
}

impl ContactsListIdentifier {
    /// The path segment that stands for the list in a URL: the decimal
    /// digits of the ID, or the address as it is.
    pub open spec fn path_segment(&self) -> Seq<char> {
        match self {
            ContactsListIdentifier::ById(id) => decimal(*id as int),
            ContactsListIdentifier::ByAddress(address) => address@,
        }
    }

    /// The path segment that stands for the list in a URL. Nothing is
    /// escaped, and the address is not looked at.
    pub fn render(&self) -> (segment: String)
        ensures
            segment@ == self.path_segment(),
    {
        match self {
            ContactsListIdentifier::ById(id) => u128_to_string(*id),
            ContactsListIdentifier::ByAddress(address) => address.clone(),
        }
    }

    /// The same text as [`ContactsListIdentifier::render`].
    pub fn to_string(&self) -> (segment: String)
        ensures
            segment@ == self.path_segment(),
    {
        self.render()
    }
}

} // verus!
