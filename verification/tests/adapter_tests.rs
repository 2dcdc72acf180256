use copilot_proxy::adapter::{
    build_append_text, build_prompt, build_tap_to_reveal, extract_image_urls, extract_text_from_message,
    request_image_urls, turn_events,
};
use copilot_proxy::protocol::ClientEvent;
use copilot_proxy::types::{ChatMessage, ContentPart, ImageUrl, MessageContent};

fn text_msg(role: &str, text: &str) -> ChatMessage {
    ChatMessage { role: role.to_string(), content: MessageContent::Text(text.to_string()) }
}

fn parts_msg(role: &str, parts: Vec<ContentPart>) -> ChatMessage {
    ChatMessage { role: role.to_string(), content: MessageContent::Parts(parts) }
}

fn tpart(t: &str) -> ContentPart {
    ContentPart::Text { text: t.to_string() }
}

fn ipart(u: &str) -> ContentPart {
    ContentPart::ImageUrl { image_url: ImageUrl { url: u.to_string() } }
}

#[test]
fn empty_conversation_gives_empty_prompt() {
    assert_eq!(build_prompt(&[]), "");
}

#[test]
fn single_message_is_sent_as_is() {
    assert_eq!(build_prompt(&[text_msg("user", "hello")]), "hello");
    assert_eq!(build_prompt(&[text_msg("system", "")]), "");
}

#[test]
fn several_messages_become_role_lines() {
    let msgs = [text_msg("system", "be brief"), text_msg("user", ""), text_msg("user", "hi")];
    assert_eq!(build_prompt(&msgs), "system: be brief\nuser: hi");
}

#[test]
fn parts_are_joined_and_images_left_out() {
    let m = parts_msg("user", vec![tpart("a"), ipart("https://x/1.png"), tpart("b")]);
    assert_eq!(extract_text_from_message(&m), "a\nb");
    let msgs = [text_msg("system", "s"), m];
    assert_eq!(build_prompt(&msgs), "system: s\nuser: a\nb");
}

#[test]
fn image_urls_are_extracted_in_order() {
    let m = parts_msg("user", vec![ipart("u1"), tpart("t"), ipart("u2")]);
    assert_eq!(extract_image_urls(&m), vec!["u1", "u2"]);
    assert!(extract_image_urls(&text_msg("user", "x")).is_empty());
    assert_eq!(extract_text_from_message(&parts_msg("user", vec![ipart("u")])), "");
}

#[test]
fn client_event_builders() {
    match build_append_text("hi".to_string()) {
        ClientEvent::AppendText { text } => assert_eq!(text, "hi"),
        other => panic!("{other:?}"),
    }
    match build_tap_to_reveal("att-1".to_string()) {
        ClientEvent::TapToReveal { attachment_id } => assert_eq!(attachment_id, "att-1"),
        other => panic!("{other:?}"),
    }
    match ClientEvent::default_options() {
        ClientEvent::SetOptions {
            time_zone,
            start_new_conversation,
            teen_support_enabled,
            correct_personalization_setting,
            deferred_data_use_capable,
        } => {
            assert_eq!(time_zone, "Asia/Shanghai");
            assert!(start_new_conversation && teen_support_enabled);
            assert!(correct_personalization_setting && deferred_data_use_capable);
        }
        other => panic!("{other:?}"),
    }
}

#[test]
fn request_image_urls_collects_all_messages_in_order() {
    let msgs = [
        parts_msg("user", vec![ipart("a.png"), tpart("look"), ipart("b.png")]),
        text_msg("assistant", "ok"),
        parts_msg("user", vec![ipart("c.png")]),
    ];
    assert_eq!(request_image_urls(&msgs), vec!["a.png", "b.png", "c.png"]);
    assert!(request_image_urls(&[text_msg("user", "hi")]).is_empty());
}

#[test]
fn turn_events_reveal_attachments_before_the_prompt() {
    let events = turn_events(true, vec!["att1".into(), "att2".into()], "hello".into());
    assert_eq!(events.len(), 4);
    match &events[0] {
        ClientEvent::SetOptions { start_new_conversation, time_zone, .. } => {
            assert!(*start_new_conversation);
            assert_eq!(time_zone, "Asia/Shanghai");
        }
        other => panic!("{other:?}"),
    }
    match (&events[1], &events[2]) {
        (ClientEvent::TapToReveal { attachment_id: a }, ClientEvent::TapToReveal { attachment_id: b }) => {
            assert_eq!((a.as_str(), b.as_str()), ("att1", "att2"));
        }
        other => panic!("{other:?}"),
    }
    assert!(matches!(&events[3], ClientEvent::AppendText { text } if text == "hello"));
}

#[test]
fn turn_events_in_a_reused_session_continue_the_conversation() {
    let events = turn_events(false, vec![], "again".into());
    assert_eq!(events.len(), 2);
    assert!(matches!(&events[0], ClientEvent::SetOptions { start_new_conversation: false, .. }));
    assert!(matches!(&events[1], ClientEvent::AppendText { text } if text == "again"));
}
