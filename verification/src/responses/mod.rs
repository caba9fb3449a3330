//! The answers of the service.

pub mod generic_response;
pub mod response;
mod send_response;

use crate::data::{
    Contact, ContactsList, MessageData, MessageHistoryData, MessageInformationData,
};
use vstd::prelude::*;

pub use response::Response;
pub use send_response::{SendResponse, SendResponseView};

verus! {

/// The answer to a question about the history of a message.
pub type MessageHistoryResponse = generic_response::GenericResponse<MessageHistoryData>;

/// The answer to a question about the sending, size and spam information of
/// messages.
pub type MessageInformationResponse = generic_response::GenericResponse<MessageInformationData>;

/// The answer to a question about messages.
pub type MessageResponse = generic_response::GenericResponse<MessageData>;

/// The answer to a question about contacts.
pub type ContactResponse = generic_response::GenericResponse<Contact>;

/// The answer to a question about contact lists.
pub type ContactsListResponse = generic_response::GenericResponse<ContactsList>;

} // verus!
