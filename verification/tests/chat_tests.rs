use copilot_proxy::chat::{
    build_chat_response, listen_address, model_list, session_deleted_message, session_id_or_default,
    validate_chat_request,
};
use copilot_proxy::error::AppError;
use copilot_proxy::model::CopilotModel;
use copilot_proxy::types::{ChatCompletionRequest, ChatMessage, MessageContent};

fn req(model: Option<&str>, msgs: &[(&str, &str)]) -> ChatCompletionRequest {
    ChatCompletionRequest {
        model: model.map(|s| s.into()),
        messages: msgs
            .iter()
            .map(|(r, t)| ChatMessage { role: r.to_string(), content: MessageContent::Text(t.to_string()) })
            .collect(),
        stream: false,
    }
}

#[test]
fn chat_request_checks() {
    match validate_chat_request(&req(None, &[])) {
        Err(AppError::InvalidRequest(m)) => assert_eq!(m, "messages cannot be empty"),
        other => panic!("{other:?}"),
    }
    match validate_chat_request(&req(Some("gpt-4o"), &[("user", "")])) {
        Err(AppError::UnsupportedModel(m)) => assert!(m.starts_with("unsupported model \"gpt-4o\"")),
        other => panic!("{other:?}"),
    }
    match validate_chat_request(&req(None, &[("user", "")])) {
        Err(AppError::InvalidRequest(m)) => assert_eq!(m, "prompt cannot be empty"),
        other => panic!("{other:?}"),
    }
    let (name, m, prompt) = validate_chat_request(&req(Some("think-x"), &[("system", "s"), ("user", "u")])).unwrap();
    assert_eq!(name, "think-x");
    assert_eq!(m, CopilotModel::Reasoning);
    assert_eq!(prompt, "system: s\nuser: u");
    let (name, m, _) = validate_chat_request(&req(None, &[("user", "hi")])).unwrap();
    assert_eq!((name.as_str(), m), ("default", CopilotModel::Default));
}

#[test]
fn chat_response_body() {
    let r = build_chat_response("chatcmpl-1".into(), 9, "smart".into(), "Hello".into());
    assert_eq!(r.id, "chatcmpl-1");
    assert_eq!(r.object, "chat.completion");
    assert_eq!(r.created, 9);
    assert_eq!(r.model, "smart");
    assert_eq!(r.choices.len(), 1);
    assert_eq!(r.choices[0].index, 0);
    assert_eq!(r.choices[0].message.role, "assistant");
    assert_eq!(r.choices[0].message.content, "Hello");
    assert_eq!(r.choices[0].finish_reason.as_deref(), Some("stop"));
}

#[test]
fn models_listing() {
    let l = model_list(3);
    assert_eq!(l.object, "list");
    let ids: Vec<&str> = l.data.iter().map(|e| e.id.as_str()).collect();
    assert_eq!(ids, vec!["smart", "chat", "reasoning", "coco"]);
    assert!(l.data.iter().all(|e| e.object == "model" && e.created == 3 && e.owned_by == "copilot"));
}

#[test]
fn session_helpers() {
    assert_eq!(session_id_or_default(None), "default");
    assert_eq!(session_id_or_default(Some("my-session".into())), "my-session");
    assert_eq!(session_deleted_message("my-session"), "session my-session deleted");
    assert_eq!(listen_address("0.0.0.0", "8080"), "0.0.0.0:8080");
}
