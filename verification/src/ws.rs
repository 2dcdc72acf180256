//! The decisions of the WebSocket connection: waiting for the `connected` event, and
//! forwarding events afterwards.
use vstd::prelude::*;

use crate::error::AppError;
use crate::image::is_upstream;
use crate::protocol::{interpret_event, EventView, RawServerEvent, ServerEvent};
use crate::text::owned;

verus! {

/// A message read from the Copilot WebSocket.
#[derive(Debug)]
pub enum WsMessage {
    /// A text frame, with the event it holds (`None`: not a JSON event object).
    Text(Option<RawServerEvent>),
    /// The server closed the connection.
    Close,
    /// A ping (answered by the WebSocket layer).
    Ping,
    /// Any other frame.
    Other,
}

/// What the handshake does after one message.
#[derive(Debug)]
pub enum HandshakeStep {
    /// The conversation is open, with this ID.
    Connected(String),
    /// The handshake failed.
    Failed(AppError),
    /// Keep waiting for the `connected` event.
    Waiting,
}

/// The handshake's answer to one message.
pub open spec fn handshake_step_is(r: HandshakeStep, msg: WsMessage) -> bool {
    match msg {
        WsMessage::Text(Some(raw)) => match interpret_event(raw.event_type@, raw.payload@) {
            EventView::Connected(cid) => r matches HandshakeStep::Connected(c) && c@ == cid,
            EventView::Error(m, _) => r matches HandshakeStep::Failed(e) && is_upstream(e, m),
            _ => r is Waiting,
        },
        WsMessage::Close => r matches HandshakeStep::Failed(e) && is_upstream(
            e,
            "WebSocket closed during handshake"@,
        ),
        _ => r is Waiting,
    }
}

/// Handles one message while waiting for the `connected` event.
pub fn handshake_step(msg: WsMessage) -> (r: HandshakeStep)
    ensures
        handshake_step_is(r, msg),
{
    match msg {
        WsMessage::Text(Some(raw)) => match ServerEvent::from_raw(raw) {
            ServerEvent::Connected { conversation_id } => HandshakeStep::Connected(conversation_id),
            ServerEvent::Error { message, .. } => HandshakeStep::Failed(
                AppError::CopilotUpstream(message),
            ),
            _ => HandshakeStep::Waiting,
        },
        WsMessage::Close => HandshakeStep::Failed(
            AppError::CopilotUpstream(owned("WebSocket closed during handshake")),
        ),
        _ => HandshakeStep::Waiting,
    }
}

/// What the read loop does with one message.
#[derive(Debug)]
pub enum ReadStep {
    /// Pass the event on.
    Forward(ServerEvent),
    /// Stop reading.
    Stop,
    /// Skip the message.
    Skip,
}

/// Handles one read from the WebSocket after the handshake (`None`: the read failed).
pub fn read_step(msg: Option<WsMessage>) -> (r: ReadStep)
    ensures
        match msg {
            Some(WsMessage::Text(Some(raw))) => r matches ReadStep::Forward(ev) && ev@
                == interpret_event(raw.event_type@, raw.payload@),
            Some(WsMessage::Close) | None => r is Stop,
            _ => r is Skip,
        },
{
    match msg {
        Some(WsMessage::Text(Some(raw))) => ReadStep::Forward(ServerEvent::from_raw(raw)),
        Some(WsMessage::Close) | None => ReadStep::Stop,
        _ => ReadStep::Skip,
    }
}

} // verus!
