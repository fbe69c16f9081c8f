//! The client options and the configuration the dispatcher copies out of
//! them.

use nodesty_api::NodestyApiClient;
use nodesty_api::RestClientOptions;

#[test]
fn new_options_defaults() {
    let options = RestClientOptions::new("my-token".to_string());
    assert_eq!(options.access_token, "my-token");
    assert_eq!(options.base_url, "https://nodesty.com/api");
    assert_eq!(options.retry, Some(3));
    assert_eq!(options.timeout_ms, Some(30_000));
    assert_eq!(options.rate_limit_offset_ms, Some(50));
}

#[test]
fn builders_replace_one_field_each() {
    let options = RestClientOptions::new("t".to_string())
        .with_base_url("http://localhost:8080".to_string())
        .with_retry(7)
        .with_timeout_ms(1_000)
        .with_rate_limit_offset_ms(90);
    assert_eq!(options.access_token, "t");
    assert_eq!(options.base_url, "http://localhost:8080");
    assert_eq!(options.retry, Some(7));
    assert_eq!(options.timeout_ms, Some(1_000));
    assert_eq!(options.rate_limit_offset_ms, Some(90));
}

#[test]
fn client_copies_configuration() {
    let client = NodestyApiClient::new(RestClientOptions::new("abc".to_string()));
    assert_eq!(client.base_url, "https://nodesty.com/api");
    assert_eq!(client.auth_header, "PAT abc");
    assert_eq!(client.timeout_ms, 30_000);
}

#[test]
fn client_defaults_missing_timeout() {
    let options = RestClientOptions {
        access_token: "abc".to_string(),
        base_url: "https://example.test".to_string(),
        retry: None,
        timeout_ms: None,
        rate_limit_offset_ms: None,
    };
    let client = NodestyApiClient::new(options);
    assert_eq!(client.timeout_ms, 30_000);
    assert_eq!(client.base_url, "https://example.test");
}
