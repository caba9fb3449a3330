//! A typed client binding for the Mailjet REST API: request records, their
//! query parameters, the calls of each operation and the envelope of each
//! answer.

pub mod data;
pub mod fields;
pub mod json;
pub mod mailjet;
pub mod number;
pub mod parse;
pub mod query;
pub mod record;
pub mod requests;
pub mod responses;
pub mod text;
pub mod url;

pub use mailjet::{ApiCall, Mailjet, RequestType};
