//! The OpenAI-compatible request and response shapes that the proxy reads and writes.
use vstd::prelude::*;

verus! {

/// An image reference inside a multimodal message.
#[derive(Debug)]
pub struct ImageUrl {
    pub url: String,
}

/// One part of a multimodal message content.
#[derive(Debug)]
pub enum ContentPart {
    Text { text: String },
    ImageUrl { image_url: ImageUrl },
}

/// Message content: plain text, or a list of parts.
#[derive(Debug)]
pub enum MessageContent {
    Text(String),
    Parts(Vec<ContentPart>),
}

/// A chat message of the OpenAI API.
#[derive(Debug)]
pub struct ChatMessage {
    pub role: String,
    pub content: MessageContent,
}

/// `POST /v1/chat/completions` request body.
#[derive(Debug)]
pub struct ChatCompletionRequest {
    pub model: Option<String>,
    pub messages: Vec<ChatMessage>,
    pub stream: bool,
}

/// The assistant message of a non-streaming completion.
#[derive(Debug)]
pub struct AssistantMessage {
    pub role: String,
    pub content: String,
}

/// One choice of a non-streaming completion.
#[derive(Debug)]
pub struct Choice {
    pub index: u32,
    pub message: AssistantMessage,
    pub finish_reason: Option<String>,
}

/// Non-streaming completion response.
#[derive(Debug)]
pub struct ChatCompletionResponse {
    pub id: String,
    pub object: String,
    pub created: i64,
    pub model: String,
    pub choices: Vec<Choice>,
}

/// The incremental part of a streamed chunk.
#[derive(Debug)]
pub struct Delta {
    pub role: Option<String>,
    pub content: Option<String>,
}

/// One choice of a streamed chunk.
#[derive(Debug)]
pub struct ChunkChoice {
    pub index: u32,
    pub delta: Delta,
    pub finish_reason: Option<String>,
}

/// A streamed (SSE) completion chunk.
#[derive(Debug)]
pub struct ChatCompletionChunk {
    pub id: String,
    pub object: String,
    pub created: i64,
    pub model: String,
    pub choices: Vec<ChunkChoice>,
}

/// `POST /v1/images/generations` request body.
#[derive(Debug)]
pub struct ImageGenerationRequest {
    pub model: Option<String>,
    pub prompt: String,
    pub n: i64,
    pub response_format: Option<String>,
}

/// One generated image.
#[derive(Debug)]
pub struct ImageData {
    pub url: String,
}

/// Image generation response.
#[derive(Debug)]
pub struct ImageGenerationResponse {
    pub created: i64,
    pub data: Vec<ImageData>,
}

/// One entry of `GET /v1/models`.
#[derive(Debug)]
pub struct ModelEntry {
    pub id: String,
    pub object: String,
    pub created: i64,
    pub owned_by: String,
}

/// `GET /v1/models` response.
#[derive(Debug)]
pub struct ModelListResponse {
    pub object: String,
    pub data: Vec<ModelEntry>,
}

/// The body of an OpenAI-format error.
#[derive(Debug)]
pub struct OpenAIErrorBody {
    pub message: String,
    pub error_type: String,
    pub param: Option<String>,
    pub code: Option<String>,
}

/// An OpenAI-format error response: `{"error": {...}}`.
#[derive(Debug)]
pub struct OpenAIError {
    pub error: OpenAIErrorBody,
}

/// The view of an optional string.
pub open spec fn opt_str(o: Option<String>) -> Option<Seq<char>> {
    match o {
        Some(s) => Some(s@),
        None => None,
    }
}

} // verus!
