use copilot_proxy::protocol::ServerEvent;
use copilot_proxy::stream::{collect_step, sse_role_chunk, sse_step, CollectStep, SseFrame};
use copilot_proxy::types::ChatCompletionChunk;

fn delta(t: &str) -> Option<ServerEvent> {
    Some(ServerEvent::TextDelta { text: t.to_string() })
}

fn content_of(c: &ChatCompletionChunk) -> String {
    c.choices[0].delta.content.clone().unwrap_or_default()
}

/// Runs the stream over events; returns the frames and whether it finished.
fn stream(events: Vec<Option<ServerEvent>>) -> (Vec<SseFrame>, bool) {
    let mut frames = Vec::new();
    for ev in events {
        let step = sse_step(ev, "chatcmpl-1", 7, "smart");
        frames.extend(step.frames);
        if step.finished {
            return (frames, true);
        }
    }
    (frames, false)
}

/// Collects events; `None` while still pending.
fn collect(events: Vec<Option<ServerEvent>>) -> Option<Result<String, String>> {
    let mut acc = String::new();
    for ev in events {
        match collect_step(acc, ev) {
            CollectStep::Pending(a) => acc = a,
            CollectStep::Finished(r) => return Some(r),
        }
    }
    None
}

fn streamed_text(frames: &[SseFrame]) -> String {
    frames
        .iter()
        .map(|f| match f {
            SseFrame::Chunk(c) => content_of(c),
            SseFrame::Done => String::new(),
        })
        .collect()
}

#[test]
fn role_chunk_opens_the_stream() {
    let c = sse_role_chunk("chatcmpl-1", 7, "smart");
    assert_eq!(c.id, "chatcmpl-1");
    assert_eq!(c.object, "chat.completion.chunk");
    assert_eq!(c.created, 7);
    assert_eq!(c.model, "smart");
    assert_eq!(c.choices.len(), 1);
    assert_eq!(c.choices[0].delta.role.as_deref(), Some("assistant"));
    assert!(c.choices[0].delta.content.is_none());
    assert!(c.choices[0].finish_reason.is_none());
}

#[test]
fn deltas_are_streamed_and_empty_ones_skipped() {
    let s = sse_step(delta("hi"), "id", 1, "m");
    assert!(!s.finished);
    assert_eq!(s.frames.len(), 1);
    match &s.frames[0] {
        SseFrame::Chunk(c) => {
            assert_eq!(content_of(c), "hi");
            assert!(c.choices[0].finish_reason.is_none());
        }
        SseFrame::Done => panic!("unexpected done"),
    }
    let s = sse_step(delta(""), "id", 1, "m");
    assert!(!s.finished && s.frames.is_empty());
    let s = sse_step(Some(ServerEvent::ImageGenerating), "id", 1, "m");
    assert!(!s.finished && s.frames.is_empty());
}

#[test]
fn turn_end_and_channel_close_finish_the_stream() {
    for ev in [Some(ServerEvent::TurnComplete), None] {
        let s = sse_step(ev, "id", 1, "m");
        assert!(s.finished);
        assert_eq!(s.frames.len(), 2);
        match &s.frames[0] {
            SseFrame::Chunk(c) => {
                assert!(c.choices[0].delta.content.is_none());
                assert_eq!(c.choices[0].finish_reason.as_deref(), Some("stop"));
            }
            SseFrame::Done => panic!("unexpected done"),
        }
        assert!(matches!(s.frames[1], SseFrame::Done));
    }
}

#[test]
fn error_is_streamed_as_content_then_done() {
    let s = sse_step(Some(ServerEvent::Error { message: "rate".into(), code: None }), "id", 1, "m");
    assert!(s.finished);
    match &s.frames[0] {
        SseFrame::Chunk(c) => {
            assert_eq!(content_of(c), "\n\nError: rate");
            assert_eq!(c.choices[0].finish_reason.as_deref(), Some("stop"));
        }
        SseFrame::Done => panic!("unexpected done"),
    }
    assert!(matches!(s.frames[1], SseFrame::Done));
}

#[test]
fn collecting_appends_deltas_until_turn_end() {
    let evs = vec![delta("Hel"), Some(ServerEvent::ImageGenerating), delta("lo"), Some(ServerEvent::TurnComplete), delta("x")];
    assert_eq!(collect(evs), Some(Ok("Hello".to_string())));
    assert_eq!(collect(vec![delta("a"), None]), Some(Ok("a".to_string())));
    assert_eq!(
        collect(vec![delta("a"), Some(ServerEvent::Error { message: "bad".into(), code: None })]),
        Some(Err("bad".to_string()))
    );
    assert_eq!(collect(vec![delta("a")]), None);
}

#[test]
fn streaming_and_collecting_agree() {
    let evs = || vec![delta("Hel"), delta(""), delta("lo"), Some(ServerEvent::TurnComplete)];
    let (frames, finished) = stream(evs());
    assert!(finished);
    assert!(matches!(frames.last(), Some(SseFrame::Done)));
    assert_eq!(Some(Ok(streamed_text(&frames))), collect(evs()));

    let evs = || vec![delta("ab"), Some(ServerEvent::Error { message: "oops".into(), code: None })];
    let (frames, finished) = stream(evs());
    assert!(finished);
    assert_eq!(collect(evs()), Some(Err("oops".to_string())));
    assert_eq!(streamed_text(&frames), "ab\n\nError: oops");
}
