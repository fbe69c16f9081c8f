//! The dispatcher: builds one request description from the client
//! configuration, and maps a delivered response — or a transport fault —
//! into the common envelope.
//!
//! The network exchange itself sits between the two halves and is performed
//! by the embedding application: it executes the [`HttpRequest`] returned by
//! [`NodestyApiClient::prepare_request`], reduces the wire response to a
//! [`RawResponse`], and hands that to [`resolve_exchange`].

use crate::http::HttpMethod;
use crate::http::HttpRequest;
use crate::http::RawResponse;
use crate::http::TransportError;
use crate::http::is_success_status;
use crate::models::shared::ApiResponse;
use crate::models::shared::RestClientOptions;
use vstd::prelude::*;
use vstd::string::StringExecFns;

verus! {

/// The timeout applied when the options leave it unset, in milliseconds.
pub const DEFAULT_TIMEOUT_MS: u64 = 30000;

/// The shared dispatcher: holds the base URL, the ready-made authorization
/// header value, and the per-request timeout, all copied out of the options
/// at construction time and immutable afterwards.
#[derive(Debug, Clone)]
pub struct NodestyApiClient {
    pub base_url: String,
    pub auth_header: String,
    pub timeout_ms: u64,
}

impl NodestyApiClient {
    /// Builds the dispatcher from the options: the authorization header is
    /// `PAT <access_token>`, and a missing timeout falls back to the
    /// default.
    pub fn new(options: RestClientOptions) -> (r: Self)
        ensures
            r.base_url@ == options.base_url@,
            r.auth_header@ == "PAT "@ + options.access_token@,
            r.timeout_ms == (if options.timeout_ms is Some {
                options.timeout_ms->0
            } else {
                DEFAULT_TIMEOUT_MS
            }),
    {
        let mut auth_header = String::from_str("PAT ");
        auth_header.append(options.access_token.as_str());
        let timeout_ms = match options.timeout_ms {
            Some(t) => t,
            None => DEFAULT_TIMEOUT_MS,
        };
        Self { base_url: options.base_url, auth_header, timeout_ms }
    }

    /// What every facade method promises of the one request it returns: the
    /// documented method, the base URL with the documented path appended,
    /// this client's authorization header, and this client's timeout.
    pub open spec fn sends(self, r: HttpRequest, method: HttpMethod, path: Seq<char>) -> bool {
        &&& r.method == method
        &&& r.url@ == self.base_url@ + path
        &&& r.authorization@ == self.auth_header@
        &&& r.timeout_ms == self.timeout_ms
    }

    /// Describes one request: the URL is the base URL with the path appended
    /// verbatim, the authorization header and timeout are the client's, and
    /// the body is passed through unchanged.
    pub fn prepare_request(&self, method: HttpMethod, path: &str, body: Option<String>) -> (r:
        HttpRequest)
        ensures
            r.method == method,
            r.url@ == self.base_url@ + path@,
            r.authorization@ == self.auth_header@,
            r.body == body,
            r.timeout_ms == self.timeout_ms,
    {
        let url = self.base_url.clone().concat(path);
        HttpRequest {
            method,
            url,
            authorization: self.auth_header.clone(),
            body,
            timeout_ms: self.timeout_ms,
        }
    }
}

/// The envelope a delivered response maps to.
///
/// A status in the success range gives `success` with the decoded payload
/// (absent when the body did not match the expected shape) and no error; any
/// other status gives a failure with no payload and the body's `message`
/// field as the error, when present as a string.
pub open spec fn envelope_of<T>(raw: RawResponse<T>) -> ApiResponse<T> {
    if is_success_status(raw.status) {
        ApiResponse { success: true, error: None, data: raw.decoded }
    } else {
        ApiResponse { success: false, error: raw.message, data: None }
    }
}

/// A failed call never carries a payload and a successful one never carries
/// an error message, whatever the response was.
pub proof fn lemma_envelope_wf<T>(raw: RawResponse<T>)
    ensures
        envelope_of(raw).wf(),
{
}

/// Maps a delivered response into the envelope.  A status outside the
/// success range is a normal, handled outcome, not a fault.
pub fn interpret_response<T>(raw: RawResponse<T>) -> (r: ApiResponse<T>)
    ensures
        r == envelope_of(raw),
        r.wf(),
{
    if !is_success_status(raw.status) {
        ApiResponse { success: false, error: raw.message, data: None }
    } else {
        ApiResponse { success: true, error: None, data: raw.decoded }
    }
}

/// Completes one exchange: a transport fault propagates unchanged as a
/// fault, and a delivered response — whatever its status — becomes an
/// envelope, never a fault.
pub fn resolve_exchange<T>(outcome: Result<RawResponse<T>, TransportError>) -> (r: Result<
    ApiResponse<T>,
    TransportError,
>)
    ensures
        outcome is Ok ==> r is Ok && r->Ok_0 == envelope_of(outcome->Ok_0),
        outcome is Err ==> r is Err && r->Err_0 == outcome->Err_0,
{
    match outcome {
        Ok(raw) => Ok(interpret_response(raw)),
        Err(e) => Err(e),
    }
}

} // verus!
