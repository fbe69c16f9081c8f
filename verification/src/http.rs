//! Plain descriptions of one HTTP exchange: the request the library decides
//! to make, the response facts it consumes, and the fault it reports when no
//! response was obtained.

use vstd::prelude::*;

verus! {

/// The HTTP method of a request.
#[derive(Debug, Clone, Copy, PartialEq, Eq, Structural)]
pub enum HttpMethod {
    Get,
    Post,
    Put,
    Delete,
}

/// A complete description of one HTTP request: everything the transport
/// needs to perform the exchange.  `body`, when present, is the exact JSON
/// text to send with a JSON content type.  `timeout_ms` bounds both
/// connection establishment and the request as a whole.
#[derive(Debug)]
pub struct HttpRequest {
    pub method: HttpMethod,
    pub url: String,
    pub authorization: String,
    pub body: Option<String>,
    pub timeout_ms: u64,
}

/// What the transport extracted from a delivered response: the HTTP status,
/// the body decoded into the expected payload type where it matched (absent
/// otherwise), and the body's conventional `message` field where present as
/// a string.
#[derive(Debug)]
pub struct RawResponse<T> {
    pub status: u16,
    pub decoded: Option<T>,
    pub message: Option<String>,
}

/// A fault that prevented any response from being interpreted: a network,
/// timeout or TLS failure, or a body that was not JSON at all.
#[derive(Debug)]
pub struct TransportError {
    pub message: String,
}

/// Whether an HTTP status is in the success range.
pub open spec fn spec_is_success_status(status: u16) -> bool {
    200 <= status < 300
}

/// Whether an HTTP status is in the success range.
#[verifier::when_used_as_spec(spec_is_success_status)]
pub fn is_success_status(status: u16) -> (r: bool)
    ensures
        r == spec_is_success_status(status),
{
    200 <= status && status < 300
}

} // verus!
