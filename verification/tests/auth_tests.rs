use copilot_proxy::auth::{bearer_token, is_authorized, unauthorized_error};

#[test]
fn no_key_lets_everything_through() {
    assert!(is_authorized("", None));
    assert!(is_authorized("", Some("Bearer wrong".into())));
}

#[test]
fn key_must_match_bearer_token() {
    assert!(is_authorized("sk", Some("Bearer sk".into())));
    assert!(is_authorized("sk", Some("bearer sk".into())));
    assert!(!is_authorized("sk", Some("BEARER sk".into())));
    assert!(!is_authorized("sk", Some("Bearer sk ".into())));
    assert!(!is_authorized("sk", Some("sk".into())));
    assert!(!is_authorized("sk", None));
}

#[test]
fn bearer_token_extraction() {
    assert_eq!(bearer_token("Bearer abc"), "abc");
    assert_eq!(bearer_token("bearer abc"), "abc");
    assert_eq!(bearer_token("Basic abc"), "");
    assert_eq!(bearer_token("Bearer "), "");
}

#[test]
fn unauthorized_body() {
    let e = unauthorized_error();
    assert_eq!(e.error.message, "invalid API key");
    assert_eq!(e.error.error_type, "invalid_request_error");
    assert_eq!(e.error.code.as_deref(), Some("401"));
    assert!(e.error.param.is_none());
}
