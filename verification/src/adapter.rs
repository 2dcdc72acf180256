//! Converting OpenAI chat messages into what the Copilot protocol sends.
use vstd::prelude::*;

use crate::protocol::ClientEvent;
use crate::text::{concat, join, join_spec};
use crate::types::{ChatMessage, ContentPart, MessageContent};

verus! {

/// The texts of the text parts, in order.
pub open spec fn part_texts(parts: Seq<ContentPart>) -> Seq<Seq<char>>
    decreases parts.len(),
{
    if parts.len() == 0 {
        Seq::empty()
    } else {
        let prev = part_texts(parts.drop_last());
        match parts.last() {
            ContentPart::Text { text } => prev.push(text@),
            ContentPart::ImageUrl { .. } => prev,
        }
    }
}

/// The URLs of the image parts, in order.
pub open spec fn part_image_urls(parts: Seq<ContentPart>) -> Seq<Seq<char>>
    decreases parts.len(),
{
    if parts.len() == 0 {
        Seq::empty()
    } else {
        let prev = part_image_urls(parts.drop_last());
        match parts.last() {
            ContentPart::ImageUrl { image_url } => prev.push(image_url.url@),
            ContentPart::Text { .. } => prev,
        }
    }
}

/// The text of a message: plain text as is, the text parts joined by newlines.
pub open spec fn message_text(m: ChatMessage) -> Seq<char> {
    match m.content {
        MessageContent::Text(t) => t@,
        MessageContent::Parts(ps) => join_spec(part_texts(ps@), "\n"@),
    }
}

/// The image URLs of a message.
pub open spec fn message_image_urls(m: ChatMessage) -> Seq<Seq<char>> {
    match m.content {
        MessageContent::Text(_) => Seq::empty(),
        MessageContent::Parts(ps) => part_image_urls(ps@),
    }
}

/// `role: text` for each message whose text is not empty, in order.
pub open spec fn prompt_lines(msgs: Seq<ChatMessage>) -> Seq<Seq<char>>
    decreases msgs.len(),
{
    if msgs.len() == 0 {
        Seq::empty()
    } else {
        let prev = prompt_lines(msgs.drop_last());
        let t = message_text(msgs.last());
        if t.len() == 0 {
            prev
        } else {
            prev.push(msgs.last().role@ + ": "@ + t)
        }
    }
}

/// The prompt for a conversation: nothing for no message, the text alone for one
/// message, and otherwise the `role: text` lines joined by newlines.
pub open spec fn prompt_of(msgs: Seq<ChatMessage>) -> Seq<char> {
    if msgs.len() == 0 {
        Seq::empty()
    } else if msgs.len() == 1 {
        message_text(msgs[0])
    } else {
        join_spec(prompt_lines(msgs), "\n"@)
    }
}

/// Converts OpenAI chat messages into a single text prompt for Copilot.
pub fn build_prompt(messages: &[ChatMessage]) -> (r: String)
    ensures
        r@ == prompt_of(messages@),
{
    if messages.len() == 0 {
        return String::new();
    }
    if messages.len() == 1 {
        return extract_text_from_message(&messages[0]);
    }
    let mut parts: Vec<String> = Vec::new();
    let mut i: usize = 0;
    while i < messages.len()
        invariant
            0 <= i <= messages@.len(),
            parts@.map_values(|x: String| x@) == prompt_lines(messages@.take(i as int)),
        decreases messages.len() - i,
    {
        let msg = &messages[i];
        let text = extract_text_from_message(msg);
        assert(messages@.take(i + 1).drop_last() =~= messages@.take(i as int));
        assert(messages@.take(i + 1).last() == messages@[i as int]);
        if !text.as_str().is_empty() {
            let head = concat(msg.role.as_str(), ": ");
            let line = concat(head.as_str(), text.as_str());
            parts.push(line);
            assert(parts@.map_values(|x: String| x@) =~= prompt_lines(messages@.take(i as int)).push(
                msg.role@ + ": "@ + text@,
            ));
        } else {
            assert(text@.len() == 0);
        }
        i = i + 1;
    }
    assert(messages@.take(messages@.len() as int) =~= messages@);
    join(&parts, "\n")
}

/// The text content of a message; image parts are left out.
pub fn extract_text_from_message(msg: &ChatMessage) -> (r: String)
    ensures
        r@ == message_text(*msg),
{
    match &msg.content {
        MessageContent::Text(t) => t.clone(),
        MessageContent::Parts(parts) => {
            let mut texts: Vec<String> = Vec::new();
            let mut i: usize = 0;
            while i < parts.len()
                invariant
                    0 <= i <= parts@.len(),
                    texts@.map_values(|x: String| x@) == part_texts(parts@.take(i as int)),
                decreases parts.len() - i,
            {
                assert(parts@.take(i + 1).drop_last() =~= parts@.take(i as int));
                assert(parts@.take(i + 1).last() == parts@[i as int]);
                match &parts[i] {
                    ContentPart::Text { text } => {
                        texts.push(text.clone());
                        assert(texts@.map_values(|x: String| x@) =~= part_texts(
                            parts@.take(i as int),
                        ).push(text@));
                    },
                    ContentPart::ImageUrl { .. } => {},
                }
                i = i + 1;
            }
            assert(parts@.take(parts@.len() as int) =~= parts@);
            join(&texts, "\n")
        },
    }
}

/// The image URLs of a message's content parts.
pub fn extract_image_urls(msg: &ChatMessage) -> (r: Vec<String>)
    ensures
        r@.map_values(|x: String| x@) == message_image_urls(*msg),
{
    match &msg.content {
        MessageContent::Text(_) => {
            let v: Vec<String> = Vec::new();
            assert(v@.map_values(|x: String| x@) =~= Seq::<Seq<char>>::empty());
            v
        },
        MessageContent::Parts(parts) => {
            let mut urls: Vec<String> = Vec::new();
            let mut i: usize = 0;
            while i < parts.len()
                invariant
                    0 <= i <= parts@.len(),
                    urls@.map_values(|x: String| x@) == part_image_urls(parts@.take(i as int)),
                decreases parts.len() - i,
            {
                assert(parts@.take(i + 1).drop_last() =~= parts@.take(i as int));
                assert(parts@.take(i + 1).last() == parts@[i as int]);
                match &parts[i] {
                    ContentPart::ImageUrl { image_url } => {
                        urls.push(image_url.url.clone());
                        assert(urls@.map_values(|x: String| x@) =~= part_image_urls(
                            parts@.take(i as int),
                        ).push(image_url.url@));
                    },
                    ContentPart::Text { .. } => {},
                }
                i = i + 1;
            }
            assert(parts@.take(parts@.len() as int) =~= parts@);
            urls
        },
    }
}

/// The `appendText` event that sends `text`.
pub fn build_append_text(text: String) -> (r: ClientEvent)
    ensures
        r matches ClientEvent::AppendText { text: t } && t == text,
{
    ClientEvent::AppendText { text }
}

/// The `tapToReveal` event for an uploaded attachment.
pub fn build_tap_to_reveal(attachment_id: String) -> (r: ClientEvent)
    ensures
        r matches ClientEvent::TapToReveal { attachment_id: a } && a == attachment_id,
{
    ClientEvent::TapToReveal { attachment_id }
}

/// The image URLs of all messages, in order.
pub open spec fn request_image_urls_of(msgs: Seq<ChatMessage>) -> Seq<Seq<char>>
    decreases msgs.len(),
{
    if msgs.len() == 0 {
        Seq::empty()
    } else {
        request_image_urls_of(msgs.drop_last()) + message_image_urls(msgs.last())
    }
}

/// The image URLs of a request's messages, in order: the images to fetch and upload
/// before the prompt is sent.
pub fn request_image_urls(messages: &[ChatMessage]) -> (r: Vec<String>)
    ensures
        r@.map_values(|x: String| x@) == request_image_urls_of(messages@),
{
    let mut urls: Vec<String> = Vec::new();
    let mut i: usize = 0;
    while i < messages.len()
        invariant
            0 <= i <= messages@.len(),
            urls@.map_values(|x: String| x@) == request_image_urls_of(messages@.take(i as int)),
        decreases messages.len() - i,
    {
        assert(messages@.take(i + 1).drop_last() =~= messages@.take(i as int));
        assert(messages@.take(i + 1).last() == messages@[i as int]);
        let ghost before = urls@.map_values(|x: String| x@);
        let found = extract_image_urls(&messages[i]);
        let mut j: usize = 0;
        while j < found.len()
            invariant
                0 <= j <= found@.len(),
                urls@.map_values(|x: String| x@) == before + found@.map_values(|x: String| x@).take(
                    j as int,
                ),
            decreases found.len() - j,
        {
            let ghost prev = urls@;
            urls.push(found[j].clone());
            assert(urls@.map_values(|x: String| x@) =~= prev.map_values(|x: String| x@).push(
                found@[j as int]@,
            ));
            assert(found@.map_values(|x: String| x@).take(j + 1) =~= found@.map_values(
                |x: String| x@,
            ).take(j as int).push(found@[j as int]@));
            j = j + 1;
        }
        assert(found@.map_values(|x: String| x@).take(found@.len() as int) =~= found@.map_values(
            |x: String| x@,
        ));
        i = i + 1;
    }
    assert(messages@.take(messages@.len() as int) =~= messages@);
    urls
}

/// The events that send one chat turn, in order: the options, starting a new
/// conversation only in a fresh session; a `tapToReveal` for each uploaded attachment;
/// and the prompt.
pub fn turn_events(fresh_session: bool, attachment_ids: Vec<String>, prompt: String) -> (r: Vec<ClientEvent>)
    ensures
        r@.len() == attachment_ids@.len() + 2,
        r@[0] matches ClientEvent::SetOptions {
            time_zone,
            start_new_conversation,
            teen_support_enabled,
            correct_personalization_setting,
            deferred_data_use_capable,
        } && time_zone@ == "Asia/Shanghai"@ && start_new_conversation == fresh_session
            && teen_support_enabled && correct_personalization_setting && deferred_data_use_capable,
        forall|i: int|
            0 <= i < attachment_ids@.len() ==> (#[trigger] r@[i + 1] matches ClientEvent::TapToReveal {
                attachment_id,
            } && attachment_id == attachment_ids@[i]),
        r@.last() matches ClientEvent::AppendText { text } && text == prompt,
{
    let mut events: Vec<ClientEvent> = Vec::new();
    events.push(ClientEvent::conversation_options(fresh_session));
    let ids = attachment_ids;
    let ghost all = ids@;
    let mut k: usize = 0;
    let n = ids.len();
    while k < n
        invariant
            n == all.len(),
            0 <= k <= n,
            ids@ == all,
            events@.len() == k + 1,
            events@[0] matches ClientEvent::SetOptions {
                time_zone,
                start_new_conversation,
                teen_support_enabled,
                correct_personalization_setting,
                deferred_data_use_capable,
            } && time_zone@ == "Asia/Shanghai"@ && start_new_conversation == fresh_session
                && teen_support_enabled && correct_personalization_setting
                && deferred_data_use_capable,
            forall|i: int|
                0 <= i < k ==> (#[trigger] events@[i + 1] matches ClientEvent::TapToReveal {
                    attachment_id,
                } && attachment_id == all[i]),
        decreases n - k,
    {
        let id = ids[k].clone();
        events.push(build_tap_to_reveal(id));
        k = k + 1;
    }
    events.push(build_append_text(prompt));
    events
}

/// A message of plain text has that text as its text, whatever its role.
pub proof fn lemma_plain_text_message(m: ChatMessage)
    requires
        m.content is Text,
    ensures
        message_text(m) == m.content->Text_0@,
{
}

/// When every message has text, the conversation prompt lists every message, whatever
/// its role, in order: one `role: text` line per message.
pub proof fn lemma_prompt_lines_list_every_message(msgs: Seq<ChatMessage>)
    requires
        forall|i: int| 0 <= i < msgs.len() ==> message_text(#[trigger] msgs[i]).len() > 0,
    ensures
        prompt_lines(msgs) == Seq::new(msgs.len(), |i: int| msgs[i].role@ + ": "@ + message_text(msgs[i])),
        prompt_lines(msgs).len() == msgs.len(),
    decreases msgs.len(),
{
    if msgs.len() > 0 {
        let init = msgs.drop_last();
        assert forall|i: int| 0 <= i < init.len() implies message_text(#[trigger] init[i]).len() > 0 by {
            assert(init[i] == msgs[i]);
        }
        lemma_prompt_lines_list_every_message(init);
        assert(message_text(msgs[msgs.len() - 1]).len() > 0);
        assert(prompt_lines(msgs) =~= Seq::new(msgs.len(), |i: int| msgs[i].role@ + ": "@ + message_text(msgs[i])));
    }
}

/// The prompt of a conversation of two or more messages that all have text: the
/// `role: text` line of every message, whatever its role, in order, joined by newlines.
pub proof fn lemma_prompt_of_conversation(msgs: Seq<ChatMessage>)
    requires
        msgs.len() >= 2,
        forall|i: int| 0 <= i < msgs.len() ==> message_text(#[trigger] msgs[i]).len() > 0,
    ensures
        prompt_of(msgs) == join_spec(Seq::new(msgs.len(), |i: int| msgs[i].role@ + ": "@ + message_text(msgs[i])), "\n"@),
{
    lemma_prompt_lines_list_every_message(msgs);
}

/// A conversation of two plain-text messages with text, whatever their roles, is sent as
/// `role1: text1`, a newline, and `role2: text2`.
pub proof fn lemma_prompt_two_messages(m1: ChatMessage, m2: ChatMessage)
    requires
        m1.content matches MessageContent::Text(t1) && t1@.len() > 0,
        m2.content matches MessageContent::Text(t2) && t2@.len() > 0,
    ensures
        prompt_of(seq![m1, m2]) == m1.role@ + ": "@ + m1.content->Text_0@ + "\n"@ + m2.role@ + ": "@
            + m2.content->Text_0@,
{
    let msgs = seq![m1, m2];
    assert(msgs[0] == m1 && msgs[1] == m2);
    lemma_prompt_lines_list_every_message(msgs);
    let lines = prompt_lines(msgs);
    assert(lines.drop_last().len() == 1);
    assert(join_spec(lines.drop_last(), "\n"@) == lines[0]);
}

/// Adding a plain-text message with text to a conversation of two or more messages adds a
/// newline and its `role: text` line to the prompt, whatever its role.
pub proof fn lemma_prompt_extend(msgs: Seq<ChatMessage>, m: ChatMessage)
    requires
        msgs.len() >= 2,
        message_text(msgs[0]).len() > 0,
        m.content matches MessageContent::Text(t) && t@.len() > 0,
    ensures
        prompt_of(msgs.push(m)) == prompt_of(msgs) + "\n"@ + m.role@ + ": "@ + m.content->Text_0@,
{
    let p = msgs.push(m);
    assert(p.drop_last() =~= msgs);
    assert(p.last() == m);
    lemma_prompt_lines_concat(seq![msgs[0]], msgs.drop_first());
    assert(seq![msgs[0]] + msgs.drop_first() =~= msgs);
    lemma_prompt_lines_list_every_message(seq![msgs[0]]);
    let lines = prompt_lines(msgs);
    assert(lines.len() > 0);
    let t = m.content->Text_0@;
    assert(message_text(m) == t);
    let line = m.role@ + ": "@ + t;
    assert(prompt_lines(p) == lines.push(line));
    assert(lines.push(line).drop_last() =~= lines);
    assert(join_spec(lines.push(line), "\n"@) == join_spec(lines, "\n"@) + "\n"@ + line);
    assert(join_spec(lines, "\n"@) + "\n"@ + line =~= join_spec(lines, "\n"@) + "\n"@ + m.role@
        + ": "@ + t);
}

/// The prompt lines of two conversations one after the other are the lines of the first
/// followed by the lines of the second: each message's line depends on that message alone.
pub proof fn lemma_prompt_lines_concat(a: Seq<ChatMessage>, b: Seq<ChatMessage>)
    ensures
        prompt_lines(a + b) == prompt_lines(a) + prompt_lines(b),
    decreases b.len(),
{
    if b.len() == 0 {
        assert(a + b =~= a);
        assert(prompt_lines(a) + prompt_lines(b) =~= prompt_lines(a));
    } else {
        assert((a + b).drop_last() =~= a + b.drop_last());
        assert((a + b).last() == b.last());
        lemma_prompt_lines_concat(a, b.drop_last());
        if message_text(b.last()).len() == 0 {
        } else {
            assert(prompt_lines(a + b) =~= prompt_lines(a) + prompt_lines(b));
        }
    }
}

/// The image URLs of parts one after the other are those of the first parts followed by
/// those of the second.
pub proof fn lemma_part_image_urls_concat(a: Seq<ContentPart>, b: Seq<ContentPart>)
    ensures
        part_image_urls(a + b) == part_image_urls(a) + part_image_urls(b),
    decreases b.len(),
{
    if b.len() == 0 {
        assert(a + b =~= a);
        assert(part_image_urls(a) + part_image_urls(b) =~= part_image_urls(a));
    } else {
        assert((a + b).drop_last() =~= a + b.drop_last());
        assert((a + b).last() == b.last());
        lemma_part_image_urls_concat(a, b.drop_last());
        assert(part_image_urls(a + b) =~= part_image_urls(a) + part_image_urls(b));
    }
}

/// An image part gives its URL, whatever the URL (a data URL or a remote one), and a
/// text part gives no URL.
pub proof fn lemma_part_image_urls_single(part: ContentPart)
    ensures
        part matches ContentPart::ImageUrl { image_url } ==> part_image_urls(seq![part])
            == seq![image_url.url@],
        part is Text ==> part_image_urls(seq![part]) == Seq::<Seq<char>>::empty(),
{
    let one = seq![part];
    assert(one.drop_last() =~= Seq::<ContentPart>::empty());
    assert(one.last() == part);
    assert(part_image_urls(one.drop_last()).len() == 0);
    match part {
        ContentPart::ImageUrl { image_url } => {
            assert(part_image_urls(one) =~= seq![image_url.url@]);
        },
        ContentPart::Text { .. } => {
            assert(part_image_urls(one) =~= Seq::<Seq<char>>::empty());
        },
    }
}

/// When every part is an image, the image URLs are the URL of every part, in order:
/// as many as there are parts.
pub proof fn lemma_image_parts_all_listed(parts: Seq<ContentPart>)
    requires
        forall|i: int| 0 <= i < parts.len() ==> #[trigger] parts[i] is ImageUrl,
    ensures
        part_image_urls(parts).len() == parts.len(),
        forall|i: int|
            0 <= i < parts.len() ==> part_image_urls(parts)[i] == (#[trigger] parts[i])->image_url.url@,
    decreases parts.len(),
{
    if parts.len() > 0 {
        let init = parts.drop_last();
        assert forall|i: int| 0 <= i < init.len() implies #[trigger] init[i] is ImageUrl by {
            assert(init[i] == parts[i]);
        }
        lemma_image_parts_all_listed(init);
        assert(parts.last() is ImageUrl);
        assert forall|i: int| 0 <= i < parts.len() implies part_image_urls(parts)[i] == (
        #[trigger] parts[i])->image_url.url@ by {
            if i < init.len() {
                assert(init[i] == parts[i]);
            }
        }
    }
}

/// The image URLs of a request are those of its first messages followed by those of the
/// rest.
pub proof fn lemma_request_image_urls_concat(a: Seq<ChatMessage>, b: Seq<ChatMessage>)
    ensures
        request_image_urls_of(a + b) == request_image_urls_of(a) + request_image_urls_of(b),
    decreases b.len(),
{
    if b.len() == 0 {
        assert(a + b =~= a);
        assert(request_image_urls_of(a) + request_image_urls_of(b) =~= request_image_urls_of(a));
    } else {
        assert((a + b).drop_last() =~= a + b.drop_last());
        assert((a + b).last() == b.last());
        lemma_request_image_urls_concat(a, b.drop_last());
        assert(request_image_urls_of(a + b) =~= request_image_urls_of(a) + request_image_urls_of(b));
    }
}

/// A message's image URLs are the URL of each of its image parts, in order, whatever the
/// URL: when all its parts are images, as many URLs as parts; plain text has none.
pub proof fn lemma_message_image_urls(m: ChatMessage)
    ensures
        m.content is Text ==> message_image_urls(m).len() == 0,
        m.content matches MessageContent::Parts(ps) ==> ((forall|i: int|
            0 <= i < ps@.len() ==> #[trigger] ps@[i] is ImageUrl) ==> (message_image_urls(m).len()
            == ps@.len() && forall|i: int|
            0 <= i < ps@.len() ==> message_image_urls(m)[i] == (#[trigger] ps@[i])->image_url.url@)),
{
    match m.content {
        MessageContent::Parts(ps) => {
            if forall|i: int| 0 <= i < ps@.len() ==> #[trigger] ps@[i] is ImageUrl {
                lemma_image_parts_all_listed(ps@);
            }
        },
        MessageContent::Text(_) => {},
    }
}

} // verus!
