//! The decisions of the HTTP endpoints: request checks and response bodies.
use vstd::prelude::*;

use crate::adapter::{build_prompt, prompt_of};
use crate::error::AppError;
use crate::image::{is_invalid_request, model_name_or_default, requested_model};
use crate::model::{available_model_names, available_models, model_of_name, unsupported_model_message, CopilotModel};
use crate::protocol::or_default;
use crate::text::{concat, owned};
use crate::types::{
    opt_str, AssistantMessage, ChatCompletionRequest, ChatCompletionResponse, Choice, ModelEntry,
    ModelListResponse,
};

verus! {

/// Checks a chat completion request: it must have messages, a known model and a
/// non-empty prompt. On success, the requested model name, the model and the prompt.
pub fn validate_chat_request(req: &ChatCompletionRequest) -> (r: Result<(String, CopilotModel, String), AppError>)
    ensures
        req.messages@.len() == 0 ==> (r matches Err(e) && is_invalid_request(
            e,
            "messages cannot be empty"@,
        )),
        req.messages@.len() > 0 ==> match model_of_name(requested_model(req.model)) {
            None => (r matches Err(e) && (e matches AppError::UnsupportedModel(m) && m@
                == unsupported_model_message(requested_model(req.model)))),
            Some(model) => if prompt_of(req.messages@).len() == 0 {
                (r matches Err(e) && is_invalid_request(e, "prompt cannot be empty"@))
            } else {
                (r matches Ok((name, m, prompt)) && name@ == requested_model(req.model) && m == model
                    && prompt@ == prompt_of(req.messages@))
            },
        },
{
    if req.messages.len() == 0 {
        return Err(AppError::InvalidRequest(owned("messages cannot be empty")));
    }
    let name = model_name_or_default(&req.model);
    let model = match CopilotModel::from_openai_name(name.as_str()) {
        Ok(m) => m,
        Err(e) => return Err(e),
    };
    let prompt = build_prompt(req.messages.as_slice());
    if prompt.as_str().is_empty() {
        return Err(AppError::InvalidRequest(owned("prompt cannot be empty")));
    }
    Ok((name, model, prompt))
}

/// The non-streaming completion response carrying `content`.
pub fn build_chat_response(id: String, created: i64, model: String, content: String) -> (r: ChatCompletionResponse)
    ensures
        r.id == id,
        r.object@ == "chat.completion"@,
        r.created == created,
        r.model == model,
        r.choices@.len() == 1,
        r.choices@[0].index == 0,
        r.choices@[0].message.role@ == "assistant"@,
        r.choices@[0].message.content == content,
        opt_str(r.choices@[0].finish_reason) == Some("stop"@),
{
    let mut choices: Vec<Choice> = Vec::new();
    choices.push(
        Choice {
            index: 0,
            message: AssistantMessage { role: owned("assistant"), content },
            finish_reason: Some(owned("stop")),
        },
    );
    ChatCompletionResponse { id, object: owned("chat.completion"), created, model, choices }
}

/// `GET /v1/models`: one `model` entry, owned by `copilot`, per available model name.
pub fn model_list(created: i64) -> (r: ModelListResponse)
    ensures
        r.object@ == "list"@,
        r.data@.len() == available_model_names().len(),
        forall|i: int|
            0 <= i < r.data@.len() ==> (#[trigger] r.data@[i]).id@ == available_model_names()[i]
                && r.data@[i].object@ == "model"@ && r.data@[i].created == created
                && r.data@[i].owned_by@ == "copilot"@,
{
    let names = available_models();
    let ghost views = names@.map_values(|s: String| s@);
    let mut data: Vec<ModelEntry> = Vec::new();
    let mut i: usize = 0;
    while i < names.len()
        invariant
            views == names@.map_values(|s: String| s@),
            views == available_model_names(),
            0 <= i <= names@.len(),
            data@.len() == i,
            forall|j: int|
                0 <= j < i ==> (#[trigger] data@[j]).id@ == views[j] && data@[j].object@
                    == "model"@ && data@[j].created == created && data@[j].owned_by@ == "copilot"@,
        decreases names.len() - i,
    {
        assert(views[i as int] == names@[i as int]@);
        data.push(
            ModelEntry {
                id: names[i].clone(),
                object: owned("model"),
                created,
                owned_by: owned("copilot"),
            },
        );
        i = i + 1;
    }
    ModelListResponse { object: owned("list"), data }
}

/// The session named by an `X-Session-Id` header, or `default`.
pub fn session_id_or_default(header: Option<String>) -> (r: String)
    ensures
        r@ == or_default(opt_str(header), "default"@),
{
    match header {
        Some(h) => h,
        None => owned("default"),
    }
}

/// The message that confirms a session's deletion.
pub fn session_deleted_message(session_id: &str) -> (r: String)
    ensures
        r@ == "session "@ + session_id@ + " deleted"@,
{
    let head = concat("session ", session_id);
    concat(head.as_str(), " deleted")
}

/// The address to listen on: `host:port`.
pub fn listen_address(host: &str, port: &str) -> (r: String)
    ensures
        r@ == host@ + ":"@ + port@,
{
    let head = concat(host, ":");
    concat(head.as_str(), port)
}

} // verus!
