//! What one call brought back: the status, the body as it came, and the
//! record that the body was read as.

use crate::json::Json;
use crate::parse::{parsed_json, DecodeError};
use crate::record::{view_of, Record};
use vstd::prelude::*;

verus! {

/// The result of one call.
#[derive(Clone, Debug, PartialEq, Eq)]
pub struct Response<T> {
    /// The HTTP status, where the transport could tell it.
    pub http_code: Option<u32>,
    /// The body of the answer, exactly as it came.
    pub raw_data: String,
    /// The record that the body was read as, where it could be read.
    pub object: Option<T>,
}

/// Whether an HTTP status says that the call succeeded: 200 to 299.
pub open spec fn is_success(code: u32) -> bool {
    200 <= code < 300
}

/// The status that counts where the transport could tell none: zero.
pub open spec fn status_or_zero(http_code: Option<u32>) -> u32 {
    match http_code {
        Some(code) => code,
        None => 0,
    }
}

/// The record that a body is read as: none where the body is not JSON, and
/// none where the JSON is not of the record's shape.
pub open spec fn decoded<T: Record>(raw: Seq<char>) -> Option<T::V> {
    match parsed_json(raw) {
        Some(j) => T::of_json(j),
        None => None,
    }
}

/// Whether a delete call succeeded: its status is known and lies in 200 to
/// 299. The body plays no part.
pub fn status_is_success(http_code: Option<u32>) -> (ok: bool)
    ensures
        ok == is_success(status_or_zero(http_code)),
{
    match http_code {
        Some(code) => 200 <= code && code < 300,
        None => false,
    }
}

/// Reads a body as a record, and says what went wrong where it cannot be
/// read.
pub fn decode_strict<T: Record>(raw: &str) -> (r: Result<T, DecodeError>)
    ensures
        r matches Ok(v) ==> decoded::<T>(raw@) == Some(v@),
        r matches Err(e) ==> decoded::<T>(raw@) is None && (e is Syntax <==> parsed_json(raw@)
            is None),
{
    match Json::parse(raw) {
        Ok(j) => match T::from_json(&j) {
            Some(v) => Ok(v),
            None => Err(DecodeError::Shape),
        },
        Err(_) => Err(DecodeError::Syntax),
    }
}

impl<T> Response<T> {
    /// A result made of its three parts.
    pub fn create_from_data(http_code: Option<u32>, raw_data: String, object: Option<T>) -> (r:
        Self)
        ensures
            r.http_code == http_code,
            r.raw_data == raw_data,
            r.object == object,
    {
        Response { http_code, raw_data, object }
    }
}

impl<T: Record> Response<T> {
    /// The result of a call whose body should hold a record. A body that
    /// cannot be read leaves the record absent and is kept as it came, with
    /// the status: nothing fails.
    pub fn decode(http_code: Option<u32>, raw_data: String) -> (r: Self)
        ensures
            r.http_code == http_code,
            r.raw_data == raw_data,
            view_of(r.object) == decoded::<T>(raw_data@),
    {
        let object = match Json::parse(raw_data.as_str()) {
            Ok(j) => T::from_json(&j),
            Err(_) => None,
        };
        Response { http_code, raw_data, object }
    }
}

impl Response<bool> {
    /// The result of a delete call: whether the status says that it
    /// succeeded, beside the status and the body as they came.
    pub fn from_status(http_code: Option<u32>, raw_data: String) -> (r: Self)
        ensures
            r.http_code == http_code,
            r.raw_data == raw_data,
            r.object == Some(is_success(status_or_zero(http_code))),
    {
        let ok = status_is_success(http_code);
        Response { http_code, raw_data, object: Some(ok) }
    }
}

} // verus!
