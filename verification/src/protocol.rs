//! The Copilot WebSocket event protocol: events we send and events we receive.
use vstd::prelude::*;

use crate::text::{owned, str_eq};
use crate::types::opt_str;

verus! {

// ─── Client -> Server Events ───

/// Events sent from the proxy to the Copilot backend.
#[derive(Debug)]
pub enum ClientEvent {
    /// Initialize connection settings.
    SetOptions {
        time_zone: String,
        start_new_conversation: bool,
        teen_support_enabled: bool,
        correct_personalization_setting: bool,
        deferred_data_use_capable: bool,
    },
    /// Send user text.
    AppendText { text: String },
    /// Reveal an uploaded attachment.
    TapToReveal { attachment_id: String },
}

impl ClientEvent {
    /// The `setOptions` event that starts a conversation.
    pub fn default_options() -> (r: Self)
        ensures
            r matches ClientEvent::SetOptions {
                time_zone,
                start_new_conversation,
                teen_support_enabled,
                correct_personalization_setting,
                deferred_data_use_capable,
            } && time_zone@ == "Asia/Shanghai"@ && start_new_conversation && teen_support_enabled
                && correct_personalization_setting && deferred_data_use_capable,
    {
        ClientEvent::SetOptions {
            time_zone: owned("Asia/Shanghai"),
            start_new_conversation: true,
            teen_support_enabled: true,
            correct_personalization_setting: true,
            deferred_data_use_capable: true,
        }
    }

    /// The `setOptions` event of a turn: the default options, starting a new
    /// conversation only when `start_new_conversation` holds.
    pub fn conversation_options(start_new_conversation: bool) -> (r: Self)
        ensures
            r matches ClientEvent::SetOptions {
                time_zone,
                start_new_conversation: s,
                teen_support_enabled,
                correct_personalization_setting,
                deferred_data_use_capable,
            } && time_zone@ == "Asia/Shanghai"@ && s == start_new_conversation && teen_support_enabled
                && correct_personalization_setting && deferred_data_use_capable,
    {
        ClientEvent::SetOptions {
            time_zone: owned("Asia/Shanghai"),
            start_new_conversation,
            teen_support_enabled: true,
            correct_personalization_setting: true,
            deferred_data_use_capable: true,
        }
    }
}

// ─── Server -> Client Events ───

/// One member of a JSON object: its key, and its value's text when that value is a JSON string.
#[derive(Debug)]
pub struct JsonField {
    pub key: String,
    pub text: Option<String>,
}

/// The members of a JSON object, in order.
#[derive(Debug)]
pub struct Payload {
    pub fields: Vec<JsonField>,
}

/// The view of a JSON object: its (key, string value) members.
pub type PayloadView = Seq<(Seq<char>, Option<Seq<char>>)>;

impl View for Payload {
    type V = PayloadView;

    open spec fn view(&self) -> PayloadView {
        self.fields@.map_values(|f: JsonField| (f.key@, opt_str(f.text)))
    }
}

/// The member of `p` named `key` (its string value, if the value is a string), as `Value::get` finds it.
pub open spec fn member(p: PayloadView, key: Seq<char>) -> Option<Option<Seq<char>>>
    decreases p.len(),
{
    if p.len() == 0 {
        None
    } else if p[0].0 == key {
        Some(p[0].1)
    } else {
        member(p.drop_first(), key)
    }
}

/// The string value of the first of `keys` that `p` has a member for
/// (`get(k1).or_else(|| get(k2))...and_then(as_str)`).
pub open spec fn str_of_first(p: PayloadView, keys: Seq<Seq<char>>) -> Option<Seq<char>>
    decreases keys.len(),
{
    if keys.len() == 0 {
        None
    } else {
        match member(p, keys[0]) {
            Some(v) => v,
            None => str_of_first(p, keys.drop_first()),
        }
    }
}

/// `o`, or `d` when absent.
pub open spec fn or_default(o: Option<Seq<char>>, d: Seq<char>) -> Seq<char> {
    match o {
        Some(s) => s,
        None => d,
    }
}

/// Events received from the Copilot backend, before interpretation.
#[derive(Debug)]
pub struct RawServerEvent {
    pub event_type: String,
    pub payload: Payload,
}

/// Parsed server events.
#[derive(Debug)]
pub enum ServerEvent {
    /// Connection confirmed, with the conversation ID.
    Connected { conversation_id: String },
    /// Text delta (partial response).
    TextDelta { text: String },
    /// Turn is complete.
    TurnComplete,
    /// Error from upstream.
    Error { message: String, code: Option<String> },
    /// Image generation started.
    ImageGenerating,
    /// Image generated successfully.
    ImageGenerated { url: String },
    /// Image generation failed.
    ImageFailed { reason: String },
    /// Partial image generated.
    ImagePartial { url: String },
    /// Unknown event type.
    Unknown { raw: Payload },
}

/// The mathematical form of a server event.
pub enum EventView {
    Connected(Seq<char>),
    TextDelta(Seq<char>),
    TurnComplete,
    Error(Seq<char>, Option<Seq<char>>),
    ImageGenerating,
    ImageGenerated(Seq<char>),
    ImageFailed(Seq<char>),
    ImagePartial(Seq<char>),
    Unknown(PayloadView),
}

impl View for ServerEvent {
    type V = EventView;

    open spec fn view(&self) -> EventView {
        match self {
            ServerEvent::Connected { conversation_id } => EventView::Connected(conversation_id@),
            ServerEvent::TextDelta { text } => EventView::TextDelta(text@),
            ServerEvent::TurnComplete => EventView::TurnComplete,
            ServerEvent::Error { message, code } => EventView::Error(message@, opt_str(*code)),
            ServerEvent::ImageGenerating => EventView::ImageGenerating,
            ServerEvent::ImageGenerated { url } => EventView::ImageGenerated(url@),
            ServerEvent::ImageFailed { reason } => EventView::ImageFailed(reason@),
            ServerEvent::ImagePartial { url } => EventView::ImagePartial(url@),
            ServerEvent::Unknown { raw } => EventView::Unknown(raw@),
        }
    }
}

/// The view of an event received from a channel (`None`: the channel closed).
pub open spec fn opt_event(o: Option<ServerEvent>) -> Option<EventView> {
    match o {
        Some(e) => Some(e@),
        None => None,
    }
}

/// How a raw event of type `t` with payload `p` is interpreted.
pub open spec fn interpret_event(t: Seq<char>, p: PayloadView) -> EventView {
    if t == "connected"@ {
        EventView::Connected(
            or_default(
                str_of_first(
                    p,
                    seq!["currentConversationId"@, "current_conversation_id"@, "conversationId"@],
                ),
                Seq::empty(),
            ),
        )
    } else if t == "appendText"@ {
        EventView::TextDelta(or_default(str_of_first(p, seq!["text"@]), Seq::empty()))
    } else if t == "turnComplete"@ || t == "done"@ {
        EventView::TurnComplete
    } else if t == "error"@ {
        EventView::Error(
            or_default(str_of_first(p, seq!["message"@, "error"@]), "unknown error"@),
            str_of_first(p, seq!["code"@]),
        )
    } else if t == "image_generating"@ {
        EventView::ImageGenerating
    } else if t == "image_generated"@ {
        EventView::ImageGenerated(
            or_default(str_of_first(p, seq!["url"@, "imageUrl"@, "image_url"@]), Seq::empty()),
        )
    } else if t == "image_failed"@ || t == "image_generation_failed"@ {
        EventView::ImageFailed(
            or_default(str_of_first(p, seq!["reason"@, "message"@]), "image generation failed"@),
        )
    } else if t == "image_partial"@ || t == "partialImageGenerated"@ {
        EventView::ImagePartial(
            or_default(str_of_first(p, seq!["url"@, "imageUrl"@]), Seq::empty()),
        )
    } else {
        EventView::Unknown(p)
    }
}

impl Payload {
    /// The member named `key`: `Some(Some(s))` for a string `s`, `Some(None)` for another value.
    pub fn member(&self, key: &str) -> (r: Option<Option<String>>)
        ensures
            match r {
                Some(v) => member(self@, key@) == Some(opt_str(v)),
                None => member(self@, key@) is None,
            },
    {
        let ghost p = self@;
        let mut i: usize = 0;
        assert(p.subrange(0, p.len() as int) =~= p);
        while i < self.fields.len()
            invariant
                p == self@,
                p.len() == self.fields@.len(),
                0 <= i <= p.len(),
                member(p, key@) == member(p.subrange(i as int, p.len() as int), key@),
            decreases self.fields.len() - i,
        {
            assert(p.subrange(i as int, p.len() as int)[0] == p[i as int]);
            if str_eq(self.fields[i].key.as_str(), key) {
                return Some(self.fields[i].text.clone());
            }
            assert(p.subrange(i as int, p.len() as int).drop_first() =~= p.subrange(
                i + 1,
                p.len() as int,
            ));
            i = i + 1;
        }
        None
    }

    /// The string value of `key`, if `key` is present.
    pub(crate) fn str_of1(&self, k1: &str) -> (r: Option<String>)
        ensures
            opt_str(r) == str_of_first(self@, seq![k1@]),
    {
        let ghost keys = seq![k1@];
        assert(keys.drop_first() =~= Seq::<Seq<char>>::empty());
        assert(str_of_first(self@, keys.drop_first()) is None);
        match self.member(k1) {
            Some(v) => v,
            None => None,
        }
    }

    /// The string value of the first present of two keys.
    pub(crate) fn str_of2(&self, k1: &str, k2: &str) -> (r: Option<String>)
        ensures
            opt_str(r) == str_of_first(self@, seq![k1@, k2@]),
    {
        let ghost keys = seq![k1@, k2@];
        assert(keys.drop_first() =~= seq![k2@]);
        match self.member(k1) {
            Some(v) => v,
            None => self.str_of1(k2),
        }
    }

    /// The string value of the first present of three keys.
    pub(crate) fn str_of3(&self, k1: &str, k2: &str, k3: &str) -> (r: Option<String>)
        ensures
            opt_str(r) == str_of_first(self@, seq![k1@, k2@, k3@]),
    {
        let ghost keys = seq![k1@, k2@, k3@];
        assert(keys.drop_first() =~= seq![k2@, k3@]);
        match self.member(k1) {
            Some(v) => v,
            None => self.str_of2(k2, k3),
        }
    }
}

/// `o`, or an owned copy of `d` when absent.
fn unwrap_or_str(o: Option<String>, d: &str) -> (r: String)
    ensures
        r@ == or_default(opt_str(o), d@),
{
    match o {
        Some(s) => s,
        None => owned(d),
    }
}

impl ServerEvent {
    /// Interprets a raw server event.
    pub fn from_raw(raw: RawServerEvent) -> (r: Self)
        ensures
            r@ == interpret_event(raw.event_type@, raw.payload@),
    {
        let t = raw.event_type.as_str();
        let p = &raw.payload;
        proof {
            reveal_strlit("");
            assert(""@ =~= Seq::<char>::empty());
        }
        if str_eq(t, "connected") {
            let cid = p.str_of3("currentConversationId", "current_conversation_id", "conversationId");
            ServerEvent::Connected { conversation_id: unwrap_or_str(cid, "") }
        } else if str_eq(t, "appendText") {
            ServerEvent::TextDelta { text: unwrap_or_str(p.str_of1("text"), "") }
        } else if str_eq(t, "turnComplete") || str_eq(t, "done") {
            ServerEvent::TurnComplete
        } else if str_eq(t, "error") {
            let message = unwrap_or_str(p.str_of2("message", "error"), "unknown error");
            let code = p.str_of1("code");
            ServerEvent::Error { message, code }
        } else if str_eq(t, "image_generating") {
            ServerEvent::ImageGenerating
        } else if str_eq(t, "image_generated") {
            ServerEvent::ImageGenerated {
                url: unwrap_or_str(p.str_of3("url", "imageUrl", "image_url"), ""),
            }
        } else if str_eq(t, "image_failed") || str_eq(t, "image_generation_failed") {
            ServerEvent::ImageFailed {
                reason: unwrap_or_str(p.str_of2("reason", "message"), "image generation failed"),
            }
        } else if str_eq(t, "image_partial") || str_eq(t, "partialImageGenerated") {
            ServerEvent::ImagePartial { url: unwrap_or_str(p.str_of2("url", "imageUrl"), "") }
        } else {
            ServerEvent::Unknown { raw: raw.payload }
        }
    }
}

/// An `appendText` event carries its text as it is, white space included: whatever the
/// string `t` of its `text` member, the event is the text delta `t`.
pub proof fn lemma_append_text_is_verbatim(p: PayloadView, t: Seq<char>)
    requires
        member(p, "text"@) == Some(Some(t)),
    ensures
        interpret_event("appendText"@, p) == EventView::TextDelta(t),
{
    reveal_strlit("appendText");
    reveal_strlit("connected");
    assert("appendText"@ != "connected"@) by {
        assert("appendText"@[0] != "connected"@[0]);
    }
    let keys = seq!["text"@];
    assert(keys[0] == "text"@);
}

/// The payload `{"text": t}` of an `appendText` event gives the text delta `t`, for
/// every string `t`.
pub proof fn lemma_append_text_payload(t: Seq<char>)
    ensures
        interpret_event("appendText"@, seq![("text"@, Some(t))]) == EventView::TextDelta(t),
{
    let p: PayloadView = seq![("text"@, Some(t))];
    assert(p[0].0 == "text"@);
    lemma_append_text_is_verbatim(p, t);
}

} // verus!
