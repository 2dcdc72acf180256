use copilot_proxy::id::{chrono_timestamp, generate_chat_completion_id, generate_uuid, timestamp_from_secs};

#[test]
fn uuid_is_32_lowercase_hex_digits() {
    let u = generate_uuid();
    assert_eq!(u.len(), 32);
    assert!(u.chars().all(|c| c.is_ascii_digit() || ('a'..='f').contains(&c)), "{u}");
    assert_eq!(u.as_bytes()[12], b'4');
    assert!(matches!(u.as_bytes()[16], b'8' | b'9' | b'a' | b'b'), "{u}");
    assert_ne!(generate_uuid(), u);
}

#[test]
fn completion_id_has_prefix() {
    let id = generate_chat_completion_id();
    assert!(id.starts_with("chatcmpl-"));
    assert_eq!(id.len(), 41);
    assert!(!id[9..].contains('-'));
    assert_eq!(id.as_bytes()[21], b'4');
    assert!(matches!(id.as_bytes()[25], b'8' | b'9' | b'a' | b'b'), "{id}");
}

#[test]
fn timestamp_is_recent() {
    assert!(chrono_timestamp() > 1_600_000_000);
}

#[test]
fn timestamp_from_secs_casts_and_defaults() {
    assert_eq!(timestamp_from_secs(Some(1_700_000_000)), 1_700_000_000);
    assert_eq!(timestamp_from_secs(None), 0);
    assert_eq!(timestamp_from_secs(Some(u64::MAX)), -1);
    assert_eq!(timestamp_from_secs(Some(1u64 << 63)), i64::MIN);
}
