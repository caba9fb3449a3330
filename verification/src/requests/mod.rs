//! The records that a caller fills in to ask for an operation.

mod contact_request;
mod contact_search_request;
mod contacts_list_request;
mod contacts_list_search_request;
mod message_information_request;
mod message_request;
mod send_request;

pub use contact_request::{ContactRequest, ContactRequestView};
pub use contact_search_request::ContactSearchRequest;
pub use contacts_list_request::{ContactsListRequest, ContactsListRequestView};
pub use contacts_list_search_request::ContactsListSearchRequest;
pub use message_information_request::MessageInformationRequest;
pub use message_request::MessageRequest;
pub use send_request::{SendRequest, SendRequestView};
