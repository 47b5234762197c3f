//! An HTTP message: protocol version, header block, optional body.
use vstd::prelude::*;
use crate::headers::HTTPHeader;

verus! {

/// One HTTP message: the protocol version, the header block, and the raw
/// body bytes when one is present.
#[derive(Debug)]
pub struct HTTPMessage {
    /// The protocol version, as written on the first line.
    pub http_version: String,
    /// The header block of the message.
    pub headers: HTTPHeader,
    /// The body bytes, when the message carries a body.
    pub body: Option<Vec<u8>>,
}

/// The view of an optional body.
pub open spec fn body_view(b: Option<Vec<u8>>) -> Option<Seq<u8>> {
    match b {
        Some(v) => Some(v@),
        None => None,
    }
}

impl HTTPMessage {
    /// A message with the given version and headers, and no body.
    pub fn new(http_version: String, headers: HTTPHeader) -> (r: Self)
        ensures
            r.http_version@ == http_version@,
            r.headers == headers,
            r.body is None,
    {
        HTTPMessage { http_version, headers, body: None }
    }
}

} // verus!
