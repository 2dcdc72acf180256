use copilot_proxy::error::AppError;
use copilot_proxy::protocol::{JsonField, Payload, RawServerEvent, ServerEvent};
use copilot_proxy::ws::{handshake_step, read_step, HandshakeStep, ReadStep, WsMessage};

fn text(t: &str, k: &str, v: &str) -> WsMessage {
    WsMessage::Text(Some(RawServerEvent {
        event_type: t.into(),
        payload: Payload { fields: vec![JsonField { key: k.into(), text: Some(v.into()) }] },
    }))
}

#[test]
fn handshake_waits_for_connected() {
    match handshake_step(text("connected", "currentConversationId", "cid-1")) {
        HandshakeStep::Connected(c) => assert_eq!(c, "cid-1"),
        other => panic!("{other:?}"),
    }
    match handshake_step(text("error", "message", "denied")) {
        HandshakeStep::Failed(AppError::CopilotUpstream(m)) => assert_eq!(m, "denied"),
        other => panic!("{other:?}"),
    }
    match handshake_step(WsMessage::Close) {
        HandshakeStep::Failed(AppError::CopilotUpstream(m)) => assert_eq!(m, "WebSocket closed during handshake"),
        other => panic!("{other:?}"),
    }
    assert!(matches!(handshake_step(text("appendText", "text", "x")), HandshakeStep::Waiting));
    assert!(matches!(handshake_step(WsMessage::Text(None)), HandshakeStep::Waiting));
    assert!(matches!(handshake_step(WsMessage::Ping), HandshakeStep::Waiting));
}

#[test]
fn read_loop_forwards_events() {
    match read_step(Some(text("appendText", "text", "x"))) {
        ReadStep::Forward(ServerEvent::TextDelta { text }) => assert_eq!(text, "x"),
        other => panic!("{other:?}"),
    }
    assert!(matches!(read_step(Some(WsMessage::Close)), ReadStep::Stop));
    assert!(matches!(read_step(None), ReadStep::Stop));
    assert!(matches!(read_step(Some(WsMessage::Ping)), ReadStep::Skip));
    assert!(matches!(read_step(Some(WsMessage::Text(None))), ReadStep::Skip));
    assert!(matches!(read_step(Some(WsMessage::Other)), ReadStep::Skip));
}
