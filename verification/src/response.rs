//! The response envelopes the service returns: a status code, a message,
//! and an optional payload.  The HTTP layer serializes these; here they are
//! plain values with exact constructors.

use vstd::prelude::*;

verus! {

/// The response envelope (current shape).
#[derive(Debug, Clone, PartialEq)]
pub struct Response<T> {
    pub status: u16,
    pub message: String,
    pub data: Option<T>,
}

impl<T> Response<T> {
    /// A failure envelope: the given status, the given message, no payload.
    pub fn err(status: u16, message: &str) -> (r: Self)
        ensures
            r.status == status,
            r.message@ == message@,
            r.data matches Option::<T>::None,
    {
        Response { status, message: message.to_owned(), data: Option::None }
    }

    /// A success envelope: status 200, message `success`, the payload.
    pub fn ok(data: T) -> (r: Self)
        ensures
            r.status == 200,
            r.message@ == "success"@,
            r.data matches Option::Some(d) && d == data,
    {
        Response { status: 200, message: String::from_str("success"), data: Option::Some(data) }
    }
}

/// The response envelope (legacy shape).
#[derive(Debug, Clone, PartialEq)]
pub struct NecoResult<T> {
    pub status: u16,
    pub message: String,
    pub data: Option<T>,
}

impl<T> NecoResult<T> {
    /// An envelope with the given status, message and payload.
    pub fn new(status: u16, message: String, data: Option<T>) -> (r: Self)
        ensures
            r.status == status,
            r.message == message,
            r.data == data,
    {
        NecoResult { status, message, data }
    }
}

} // verus!
