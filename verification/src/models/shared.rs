//! The response envelope and the client configuration.

use vstd::prelude::*;
use vstd::string::StringExecFns;

verus! {

/// The common envelope every API call resolves to.
///
/// `success` mirrors whether the HTTP status was in the success range.
/// On a failed call `error` carries the body's conventional error-message
/// field (when present as a string) and `data` is absent.  On a successful
/// call `error` is absent and `data` holds the decoded payload, or is absent
/// when the body did not match the expected shape.
#[derive(Debug)]
pub struct ApiResponse<T> {
    pub success: bool,
    pub error: Option<String>,
    pub data: Option<T>,
}

impl<T> ApiResponse<T> {
    /// The envelope invariant: a failed call never carries a payload, and a
    /// successful one never carries an error message.
    pub open spec fn wf(self) -> bool {
        &&& !self.success ==> self.data is None
        &&& self.success ==> self.error is None
    }
}

/// The default of the envelope's `success` flag: a body that does not say
/// otherwise counts as successful.
pub fn default_success() -> (r: bool)
    ensures
        r == true,
{
    true
}

/// Configuration the client is built from.
///
/// `retry` and `rate_limit_offset_ms` are carried for callers that read them
/// back but have no effect on any request the library builds.
#[derive(Debug, Clone)]
pub struct RestClientOptions {
    pub access_token: String,
    pub base_url: String,
    pub retry: Option<u32>,
    pub timeout_ms: Option<u64>,
    pub rate_limit_offset_ms: Option<u64>,
}

impl RestClientOptions {
    /// Fresh options for the given access token, with the vendor's API origin
    /// and the default timeout, retry count and rate-limit offset.
    pub fn new(access_token: String) -> (r: Self)
        ensures
            r.access_token@ == access_token@,
            r.base_url@ == "https://nodesty.com/api"@,
            r.retry == Some(3u32),
            r.timeout_ms == Some(30000u64),
            r.rate_limit_offset_ms == Some(50u64),
    {
        Self {
            access_token,
            base_url: String::from_str("https://nodesty.com/api"),
            retry: Some(3),
            timeout_ms: Some(30_000),
            rate_limit_offset_ms: Some(50),
        }
    }

    /// The same options with the base URL replaced.
    pub fn with_base_url(self, base_url: String) -> (r: Self)
        ensures
            r.base_url@ == base_url@,
            r.access_token@ == self.access_token@,
            r.retry == self.retry,
            r.timeout_ms == self.timeout_ms,
            r.rate_limit_offset_ms == self.rate_limit_offset_ms,
    {
        Self { base_url, ..self }
    }

    /// The same options with the retry count replaced.
    pub fn with_retry(self, retry: u32) -> (r: Self)
        ensures
            r.retry == Some(retry),
            r.access_token@ == self.access_token@,
            r.base_url@ == self.base_url@,
            r.timeout_ms == self.timeout_ms,
            r.rate_limit_offset_ms == self.rate_limit_offset_ms,
    {
        Self { retry: Some(retry), ..self }
    }

    /// The same options with the timeout replaced.
    pub fn with_timeout_ms(self, timeout_ms: u64) -> (r: Self)
        ensures
            r.timeout_ms == Some(timeout_ms),
            r.access_token@ == self.access_token@,
            r.base_url@ == self.base_url@,
            r.retry == self.retry,
            r.rate_limit_offset_ms == self.rate_limit_offset_ms,
    {
        Self { timeout_ms: Some(timeout_ms), ..self }
    }

    /// The same options with the rate-limit offset replaced.
    pub fn with_rate_limit_offset_ms(self, rate_limit_offset_ms: u64) -> (r: Self)
        ensures
            r.rate_limit_offset_ms == Some(rate_limit_offset_ms),
            r.access_token@ == self.access_token@,
            r.base_url@ == self.base_url@,
            r.retry == self.retry,
            r.timeout_ms == self.timeout_ms,
    {
        Self { rate_limit_offset_ms: Some(rate_limit_offset_ms), ..self }
    }
}

} // verus!
