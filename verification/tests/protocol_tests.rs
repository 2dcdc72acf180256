use copilot_proxy::protocol::{JsonField, Payload, RawServerEvent, ServerEvent};

fn field(k: &str, v: Option<&str>) -> JsonField {
    JsonField { key: k.to_string(), text: v.map(|s| s.to_string()) }
}

fn raw(t: &str, fields: Vec<JsonField>) -> RawServerEvent {
    RawServerEvent { event_type: t.to_string(), payload: Payload { fields } }
}

#[test]
fn connected_reads_conversation_id_from_first_present_key() {
    let ev = ServerEvent::from_raw(raw(
        "connected",
        vec![field("conversationId", Some("c3")), field("current_conversation_id", Some("c2"))],
    ));
    match ev {
        ServerEvent::Connected { conversation_id } => assert_eq!(conversation_id, "c2"),
        other => panic!("{other:?}"),
    }
    match ServerEvent::from_raw(raw("connected", vec![])) {
        ServerEvent::Connected { conversation_id } => assert_eq!(conversation_id, ""),
        other => panic!("{other:?}"),
    }
}

#[test]
fn present_non_string_key_hides_later_keys() {
    // `currentConversationId` is present but not a string: the later key is not consulted.
    let ev = ServerEvent::from_raw(raw(
        "connected",
        vec![field("currentConversationId", None), field("conversationId", Some("c3"))],
    ));
    match ev {
        ServerEvent::Connected { conversation_id } => assert_eq!(conversation_id, ""),
        other => panic!("{other:?}"),
    }
}

#[test]
fn text_and_turn_events() {
    match ServerEvent::from_raw(raw("appendText", vec![field("text", Some("hel"))])) {
        ServerEvent::TextDelta { text } => assert_eq!(text, "hel"),
        other => panic!("{other:?}"),
    }
    assert!(matches!(ServerEvent::from_raw(raw("turnComplete", vec![])), ServerEvent::TurnComplete));
    assert!(matches!(ServerEvent::from_raw(raw("done", vec![])), ServerEvent::TurnComplete));
}

#[test]
fn error_event_defaults_and_code() {
    match ServerEvent::from_raw(raw("error", vec![field("error", Some("boom")), field("code", Some("E1"))])) {
        ServerEvent::Error { message, code } => {
            assert_eq!(message, "boom");
            assert_eq!(code.as_deref(), Some("E1"));
        }
        other => panic!("{other:?}"),
    }
    match ServerEvent::from_raw(raw("error", vec![])) {
        ServerEvent::Error { message, code } => {
            assert_eq!(message, "unknown error");
            assert!(code.is_none());
        }
        other => panic!("{other:?}"),
    }
}

#[test]
fn image_events() {
    assert!(matches!(ServerEvent::from_raw(raw("image_generating", vec![])), ServerEvent::ImageGenerating));
    match ServerEvent::from_raw(raw("image_generated", vec![field("image_url", Some("u"))])) {
        ServerEvent::ImageGenerated { url } => assert_eq!(url, "u"),
        other => panic!("{other:?}"),
    }
    match ServerEvent::from_raw(raw("image_generation_failed", vec![])) {
        ServerEvent::ImageFailed { reason } => assert_eq!(reason, "image generation failed"),
        other => panic!("{other:?}"),
    }
    match ServerEvent::from_raw(raw("image_failed", vec![field("message", Some("blocked"))])) {
        ServerEvent::ImageFailed { reason } => assert_eq!(reason, "blocked"),
        other => panic!("{other:?}"),
    }
    match ServerEvent::from_raw(raw("partialImageGenerated", vec![field("imageUrl", Some("p"))])) {
        ServerEvent::ImagePartial { url } => assert_eq!(url, "p"),
        other => panic!("{other:?}"),
    }
}

#[test]
fn unknown_event_keeps_payload() {
    match ServerEvent::from_raw(raw("suggestions", vec![field("x", Some("1"))])) {
        ServerEvent::Unknown { raw } => {
            assert_eq!(raw.fields.len(), 1);
            assert_eq!(raw.fields[0].key, "x");
        }
        other => panic!("{other:?}"),
    }
}

#[test]
fn payload_member_lookup() {
    let p = Payload { fields: vec![field("a", Some("1")), field("b", None), field("a", Some("2"))] };
    assert_eq!(p.member("a"), Some(Some("1".to_string())));
    assert_eq!(p.member("b"), Some(None));
    assert_eq!(p.member("c"), None);
}
