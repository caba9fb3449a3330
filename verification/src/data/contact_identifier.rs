//! The two ways to name one contact.

use crate::text::{decimal, u128_to_string};
use vstd::prelude::*;

verus! {

/// Names one contact, by its ID or by its address.
#[derive(Clone, Debug, PartialEq, Eq)]
pub enum ContactIdentifier {
    /// The ID of the contact.
    ById(u128),
    /// The email address of the contact.
    ByEmail(String),
}

impl ContactIdentifier {
    /// The path segment that stands for the contact in a URL: the decimal
    /// digits of the ID, or the address as it is.
    pub open spec fn path_segment(&self) -> Seq<char> {
        match self {
            ContactIdentifier::ById(id) => decimal(*id as int),
            ContactIdentifier::ByEmail(email) => email@,
        }
    }

    /// The path segment that stands for the contact in a URL. Nothing is
    /// escaped, and the address is not looked at.
    pub fn render(&self) -> (segment: String)
        ensures
            segment@ == self.path_segment(),
    {
        match self {
            ContactIdentifier::ById(id) => u128_to_string(*id),
            ContactIdentifier::ByEmail(email) => email.clone(),
        }
    }

    /// The same text as [`ContactIdentifier::render`].
    pub fn to_string(&self) -> (segment: String)
        ensures
            segment@ == self.path_segment(),
    {
        self.render()
    }
}

} // verus!
