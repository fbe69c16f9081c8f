//! The envelope mapping: status ranges, error messages, silent decode
//! misses, and transport faults.

use nodesty_api::client::interpret_response;
use nodesty_api::client::resolve_exchange;
use nodesty_api::default_success;
use nodesty_api::http::RawResponse;
use nodesty_api::http::TransportError;

#[test]
fn success_with_matching_body() {
    let env = interpret_response(RawResponse { status: 200, decoded: Some(5u32), message: None });
    assert_eq!(env.success, true);
    assert_eq!(env.data, Some(5u32));
    assert_eq!(env.error, None);
}

#[test]
fn success_range_edges() {
    for status in [200u16, 204, 299] {
        let env = interpret_response(RawResponse { status, decoded: Some(1u8), message: None });
        assert!(env.success);
        assert_eq!(env.data, Some(1u8));
        assert_eq!(env.error, None);
    }
    for status in [100u16, 199, 300, 301, 404, 500] {
        let env = interpret_response(RawResponse { status, decoded: Some(1u8), message: None });
        assert!(!env.success);
        assert_eq!(env.data, None);
    }
}

#[test]
fn failure_keeps_message() {
    let env = interpret_response(RawResponse {
        status: 404,
        decoded: None::<u32>,
        message: Some("not found".to_string()),
    });
    assert_eq!(env.success, false);
    assert_eq!(env.data, None);
    assert_eq!(env.error, Some("not found".to_string()));
}

#[test]
fn failure_without_message() {
    let env = interpret_response(RawResponse { status: 500, decoded: None::<u32>, message: None });
    assert_eq!(env.success, false);
    assert_eq!(env.data, None);
    assert_eq!(env.error, None);
}

#[test]
fn success_with_mismatching_body() {
    // A success status whose body did not decode keeps success=true with no
    // payload and no error.
    let env = interpret_response(RawResponse { status: 200, decoded: None::<u32>, message: None });
    assert_eq!(env.success, true);
    assert_eq!(env.data, None);
    assert_eq!(env.error, None);
}

#[test]
fn success_ignores_message_field() {
    let env = interpret_response(RawResponse {
        status: 200,
        decoded: Some(9u8),
        message: Some("irrelevant".to_string()),
    });
    assert!(env.success);
    assert_eq!(env.error, None);
}

#[test]
fn fault_propagates_as_fault() {
    let outcome: Result<RawResponse<u32>, TransportError> =
        Err(TransportError { message: "connection refused".to_string() });
    let resolved = resolve_exchange(outcome);
    match resolved {
        Err(e) => assert_eq!(e.message, "connection refused"),
        Ok(_) => panic!("a transport fault must not become an envelope"),
    }
}

#[test]
fn delivered_response_never_faults() {
    let outcome: Result<RawResponse<u32>, TransportError> = Ok(RawResponse {
        status: 503,
        decoded: None,
        message: Some("overloaded".to_string()),
    });
    let resolved = resolve_exchange(outcome);
    match resolved {
        Ok(env) => {
            assert!(!env.success);
            assert_eq!(env.error, Some("overloaded".to_string()));
            assert_eq!(env.data, None);
        }
        Err(_) => panic!("a delivered response must not become a fault"),
    }
}

#[test]
fn success_defaults_to_true() {
    assert_eq!(default_success(), true);
}
