//! Turning Copilot events into an OpenAI completion: streamed as SSE chunks, or collected whole.
use vstd::prelude::*;

use crate::protocol::{interpret_event, lemma_append_text_payload, opt_event, EventView, ServerEvent};
use crate::text::{concat, owned};
use crate::types::{opt_str, ChatCompletionChunk, ChunkChoice, Delta};

verus! {

/// One SSE message of a completion stream: a chunk, or the closing `[DONE]`.
#[derive(Debug)]
pub enum SseFrame {
    Chunk(ChatCompletionChunk),
    Done,
}

/// What the stream does on one Copilot event: the frames to send, and whether the stream ends.
#[derive(Debug)]
pub struct SseStep {
    pub frames: Vec<SseFrame>,
    pub finished: bool,
}

/// The plan of a frame: a content chunk, a `stop` chunk with optional content, or `[DONE]`.
pub enum FramePlan {
    Delta(Seq<char>),
    Finish(Option<Seq<char>>),
    Done,
}

/// The frames sent for one event, and whether the stream ends there.
pub open spec fn sse_plan(ev: Option<EventView>) -> (Seq<FramePlan>, bool) {
    match ev {
        Some(EventView::TextDelta(t)) => {
            if t.len() == 0 {
                (Seq::empty(), false)
            } else {
                (seq![FramePlan::Delta(t)], false)
            }
        },
        Some(EventView::TurnComplete) => (seq![FramePlan::Finish(None), FramePlan::Done], true),
        None => (seq![FramePlan::Finish(None), FramePlan::Done], true),
        Some(EventView::Error(m, _)) => (
            seq![FramePlan::Finish(Some("\n\nError: "@ + m)), FramePlan::Done],
            true,
        ),
        Some(_) => (Seq::empty(), false),
    }
}

/// `c` is the single-choice chunk with these fields.
pub open spec fn chunk_is(
    c: ChatCompletionChunk,
    id: Seq<char>,
    created: i64,
    model: Seq<char>,
    role: Option<Seq<char>>,
    content: Option<Seq<char>>,
    finish_reason: Option<Seq<char>>,
) -> bool {
    &&& c.id@ == id
    &&& c.object@ == "chat.completion.chunk"@
    &&& c.created == created
    &&& c.model@ == model
    &&& c.choices@.len() == 1
    &&& c.choices@[0].index == 0
    &&& opt_str(c.choices@[0].delta.role) == role
    &&& opt_str(c.choices@[0].delta.content) == content
    &&& opt_str(c.choices@[0].finish_reason) == finish_reason
}

/// `f` is the frame that `p` plans, in the stream `id` of `model` created at `created`.
pub open spec fn frame_is(f: SseFrame, p: FramePlan, id: Seq<char>, created: i64, model: Seq<char>) -> bool {
    match p {
        FramePlan::Delta(t) => f matches SseFrame::Chunk(c) && chunk_is(
            c,
            id,
            created,
            model,
            None,
            Some(t),
            None,
        ),
        FramePlan::Finish(content) => f matches SseFrame::Chunk(c) && chunk_is(
            c,
            id,
            created,
            model,
            None,
            content,
            Some("stop"@),
        ),
        FramePlan::Done => f is Done,
    }
}

/// A single-choice completion chunk.
fn make_chunk(
    id: &str,
    created: i64,
    model: &str,
    role: Option<String>,
    content: Option<String>,
    finish_reason: Option<String>,
) -> (r: ChatCompletionChunk)
    ensures
        chunk_is(r, id@, created, model@, opt_str(role), opt_str(content), opt_str(finish_reason)),
{
    let mut choices: Vec<ChunkChoice> = Vec::new();
    choices.push(ChunkChoice { index: 0, delta: Delta { role, content }, finish_reason });
    ChatCompletionChunk {
        id: owned(id),
        object: owned("chat.completion.chunk"),
        created,
        model: owned(model),
        choices,
    }
}

/// The first chunk of a stream, which announces the assistant role.
pub fn sse_role_chunk(id: &str, created: i64, model: &str) -> (r: ChatCompletionChunk)
    ensures
        chunk_is(r, id@, created, model@, Some("assistant"@), None, None),
{
    make_chunk(id, created, model, Some(owned("assistant")), None, None)
}

/// The frames to send for one Copilot event (`None`: the event channel closed).
pub fn sse_step(ev: Option<ServerEvent>, id: &str, created: i64, model: &str) -> (r: SseStep)
    ensures
        r.finished == sse_plan(opt_event(ev)).1,
        r.frames@.len() == sse_plan(opt_event(ev)).0.len(),
        forall|i: int|
            0 <= i < r.frames@.len() ==> frame_is(
                #[trigger] r.frames@[i],
                sse_plan(opt_event(ev)).0[i],
                id@,
                created,
                model@,
            ),
{
    let ghost plan = sse_plan(opt_event(ev));
    let mut frames: Vec<SseFrame> = Vec::new();
    match ev {
        Some(ServerEvent::TextDelta { text }) => {
            if text.as_str().is_empty() {
                SseStep { frames, finished: false }
            } else {
                frames.push(SseFrame::Chunk(make_chunk(id, created, model, None, Some(text), None)));
                SseStep { frames, finished: false }
            }
        },
        Some(ServerEvent::TurnComplete) | None => {
            frames.push(
                SseFrame::Chunk(make_chunk(id, created, model, None, None, Some(owned("stop")))),
            );
            frames.push(SseFrame::Done);
            SseStep { frames, finished: true }
        },
        Some(ServerEvent::Error { message, .. }) => {
            let content = concat("\n\nError: ", message.as_str());
            frames.push(
                SseFrame::Chunk(
                    make_chunk(id, created, model, None, Some(content), Some(owned("stop"))),
                ),
            );
            frames.push(SseFrame::Done);
            SseStep { frames, finished: true }
        },
        Some(_) => SseStep { frames, finished: false },
    }
}

/// The state of collecting a whole response: still collecting (with the text so far), or done.
#[derive(Debug)]
pub enum CollectStep {
    Pending(String),
    Finished(Result<String, String>),
}

/// The mathematical form of [`CollectStep`].
pub enum CollectView {
    Pending(Seq<char>),
    Finished(Result<Seq<char>, Seq<char>>),
}

impl View for CollectStep {
    type V = CollectView;

    open spec fn view(&self) -> CollectView {
        match self {
            CollectStep::Pending(s) => CollectView::Pending(s@),
            CollectStep::Finished(Ok(s)) => CollectView::Finished(Ok(s@)),
            CollectStep::Finished(Err(m)) => CollectView::Finished(Err(m@)),
        }
    }
}

/// One step of collecting: text deltas are appended, the end of the turn (or of the
/// channel) yields the text, an error yields its message.
pub open spec fn collect_plan(acc: Seq<char>, ev: Option<EventView>) -> CollectView {
    match ev {
        Some(EventView::TextDelta(t)) => CollectView::Pending(acc + t),
        Some(EventView::TurnComplete) => CollectView::Finished(Ok(acc)),
        None => CollectView::Finished(Ok(acc)),
        Some(EventView::Error(m, _)) => CollectView::Finished(Err(m)),
        Some(_) => CollectView::Pending(acc),
    }
}

/// Collects one event into the text gathered so far.
pub fn collect_step(acc: String, ev: Option<ServerEvent>) -> (r: CollectStep)
    ensures
        r@ == collect_plan(acc@, opt_event(ev)),
{
    match ev {
        Some(ServerEvent::TextDelta { text }) => {
            let mut acc = acc;
            acc.append(text.as_str());
            CollectStep::Pending(acc)
        },
        Some(ServerEvent::TurnComplete) | None => CollectStep::Finished(Ok(acc)),
        Some(ServerEvent::Error { message, .. }) => CollectStep::Finished(Err(message)),
        Some(_) => CollectStep::Pending(acc),
    }
}

/// The frames a stream sends for a sequence of events, and whether it ended.
pub open spec fn sse_run(evs: Seq<Option<EventView>>) -> (Seq<FramePlan>, bool)
    decreases evs.len(),
{
    if evs.len() == 0 {
        (Seq::empty(), false)
    } else {
        let (fs, fin) = sse_plan(evs[0]);
        if fin {
            (fs, true)
        } else {
            let (rest, f2) = sse_run(evs.drop_first());
            (fs + rest, f2)
        }
    }
}

/// The outcome of collecting a sequence of events, starting from `acc`.
pub open spec fn collect_run(acc: Seq<char>, evs: Seq<Option<EventView>>) -> CollectView
    decreases evs.len(),
{
    if evs.len() == 0 {
        CollectView::Pending(acc)
    } else {
        match collect_plan(acc, evs[0]) {
            CollectView::Pending(a) => collect_run(a, evs.drop_first()),
            CollectView::Finished(r) => CollectView::Finished(r),
        }
    }
}

/// The text gathered from `acc` on until the events end the turn.
pub open spec fn collected_text(acc: Seq<char>, evs: Seq<Option<EventView>>) -> Seq<char>
    decreases evs.len(),
{
    if evs.len() == 0 {
        acc
    } else {
        match collect_plan(acc, evs[0]) {
            CollectView::Pending(a) => collected_text(a, evs.drop_first()),
            CollectView::Finished(_) => acc,
        }
    }
}

/// The content that a frame carries.
pub open spec fn frame_content(f: FramePlan) -> Seq<char> {
    match f {
        FramePlan::Delta(t) => t,
        FramePlan::Finish(Some(c)) => c,
        FramePlan::Finish(None) => Seq::empty(),
        FramePlan::Done => Seq::empty(),
    }
}

/// The content of a sequence of frames, concatenated.
pub open spec fn streamed_text(fs: Seq<FramePlan>) -> Seq<char>
    decreases fs.len(),
{
    if fs.len() == 0 {
        Seq::empty()
    } else {
        frame_content(fs[0]) + streamed_text(fs.drop_first())
    }
}

proof fn lemma_streamed_text_append(a: Seq<FramePlan>, b: Seq<FramePlan>)
    ensures
        streamed_text(a + b) == streamed_text(a) + streamed_text(b),
    decreases a.len(),
{
    if a.len() == 0 {
        assert(a + b =~= b);
        assert(streamed_text(a) + streamed_text(b) =~= streamed_text(b));
    } else {
        assert((a + b).drop_first() =~= a.drop_first() + b);
        lemma_streamed_text_append(a.drop_first(), b);
        assert(streamed_text(a) + streamed_text(b) =~= frame_content(a[0]) + (streamed_text(
            a.drop_first(),
        ) + streamed_text(b)));
    }
}

proof fn lemma_stream_matches_collect_from(acc: Seq<char>, evs: Seq<Option<EventView>>)
    ensures
        sse_run(evs).1 == (collect_run(acc, evs) is Finished),
        sse_run(evs).1 ==> sse_run(evs).0.len() > 0 && sse_run(evs).0.last() is Done,
        acc + streamed_text(sse_run(evs).0) == match collect_run(acc, evs) {
            CollectView::Pending(a) => a,
            CollectView::Finished(Ok(t)) => t,
            CollectView::Finished(Err(m)) => collected_text(acc, evs) + "\n\nError: "@ + m,
        },
    decreases evs.len(),
{
    if evs.len() == 0 {
        assert(acc + Seq::<char>::empty() =~= acc);
    } else {
        let (fs, fin) = sse_plan(evs[0]);
        let rest = evs.drop_first();
        lemma_stream_matches_collect_from(acc, rest);
        match evs[0] {
            Some(EventView::TextDelta(t)) => {
                lemma_stream_matches_collect_from(acc + t, rest);
                lemma_streamed_text_append(fs, sse_run(rest).0);
                if t.len() == 0 {
                    assert(acc + t =~= acc);
                    assert(streamed_text(fs) =~= Seq::<char>::empty());
                } else {
                    assert(fs.drop_first() =~= Seq::<FramePlan>::empty());
                    assert(streamed_text(fs.drop_first()) == Seq::<char>::empty());
                    assert(frame_content(fs[0]) == t);
                    assert(streamed_text(fs) =~= t);
                }
                assert(acc + streamed_text(sse_run(evs).0) =~= (acc + t) + streamed_text(
                    sse_run(rest).0,
                ));
            },
            Some(EventView::TurnComplete) | None => {
                assert(fs.drop_first().drop_first() =~= Seq::<FramePlan>::empty());
                assert(streamed_text(fs.drop_first().drop_first()) == Seq::<char>::empty());
                assert(streamed_text(fs.drop_first()) =~= Seq::<char>::empty());
                assert(streamed_text(fs) =~= Seq::<char>::empty());
                assert(acc + streamed_text(fs) =~= acc);
            },
            Some(EventView::Error(m, _)) => {
                assert(fs.drop_first().drop_first() =~= Seq::<FramePlan>::empty());
                assert(streamed_text(fs.drop_first().drop_first()) == Seq::<char>::empty());
                assert(streamed_text(fs.drop_first()) =~= Seq::<char>::empty());
                assert(streamed_text(fs) =~= "\n\nError: "@ + m);
            },
            Some(_) => {
                lemma_streamed_text_append(fs, sse_run(rest).0);
                assert(fs + sse_run(rest).0 =~= sse_run(rest).0);
            },
        }
    }
}

/// A streamed completion carries the same text as a collected one: for every sequence
/// of events, the stream ends exactly when collecting ends, a finished stream closes
/// with `[DONE]`, and the content of its chunks is the collected text — followed, when
/// the turn ended in an error, by `"\n\nError: "` and the error message.
pub proof fn lemma_stream_matches_collect(evs: Seq<Option<EventView>>)
    ensures
        sse_run(evs).1 == (collect_run(Seq::empty(), evs) is Finished),
        sse_run(evs).1 ==> sse_run(evs).0.len() > 0 && sse_run(evs).0.last() is Done,
        collect_run(Seq::empty(), evs) matches CollectView::Pending(a) ==> streamed_text(
            sse_run(evs).0,
        ) == a,
        collect_run(Seq::empty(), evs) matches CollectView::Finished(Ok(t)) ==> streamed_text(
            sse_run(evs).0,
        ) == t,
        collect_run(Seq::empty(), evs) matches CollectView::Finished(Err(m)) ==> streamed_text(
            sse_run(evs).0,
        ) == collected_text(Seq::empty(), evs) + "\n\nError: "@ + m,
{
    lemma_stream_matches_collect_from(Seq::empty(), evs);
    assert(Seq::<char>::empty() + streamed_text(sse_run(evs).0) =~= streamed_text(sse_run(evs).0));
}

/// The text of an `appendText` event reaches the reply unchanged: collected, it is
/// appended to the reply as it is; streamed, it is sent as one content chunk as it is
/// (nothing is sent for an empty text).
pub proof fn lemma_append_text_reaches_reply(acc: Seq<char>, t: Seq<char>)
    ensures
        collect_plan(acc, Some(interpret_event("appendText"@, seq![("text"@, Some(t))])))
            == CollectView::Pending(acc + t),
        t.len() > 0 ==> sse_plan(Some(interpret_event("appendText"@, seq![("text"@, Some(t))])))
            == (seq![FramePlan::Delta(t)], false),
        streamed_text(sse_plan(Some(interpret_event("appendText"@, seq![("text"@, Some(t))]))).0)
            == t,
{
    lemma_append_text_payload(t);
    let fs = sse_plan(Some(EventView::TextDelta(t))).0;
    if t.len() > 0 {
        assert(fs.drop_first() =~= Seq::<FramePlan>::empty());
        assert(streamed_text(fs) == t + streamed_text(fs.drop_first()));
        assert(t + Seq::<char>::empty() =~= t);
    } else {
        assert(t =~= Seq::<char>::empty());
    }
}

} // verus!
