//! The records that the service sends and receives.

mod attachment;
mod contact;
mod contact_identifier;
mod contacts_list;
mod contacts_list_identifier;
mod email_address;
mod message;
mod message_data;
mod message_history_data;
mod message_history_information;
mod message_information_data;
mod response_error;
mod response_message;
mod response_success;

pub use attachment::{Attachment, AttachmentView};
pub use contact::{Contact, ContactView};
pub use contact_identifier::ContactIdentifier;
pub use contacts_list::{ContactsList, ContactsListView};
pub use contacts_list_identifier::ContactsListIdentifier;
pub use email_address::{EmailAddress, EmailAddressView};
pub use message::{Message, MessageView};
pub use message_data::{MessageData, MessageDataView};
pub use message_history_data::{MessageHistoryData, MessageHistoryDataView};
pub use message_history_information::{MessageHistoryInformation, MessageHistoryInformationView};
pub use message_information_data::{MessageInformationData, MessageInformationDataView};
pub use response_error::{ResponseError, ResponseErrorView};
pub use response_message::{ResponseMessage, ResponseMessageView};
pub use response_success::{ResponseSuccess, ResponseSuccessView};
