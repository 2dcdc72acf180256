//! The proxy's error type and its OpenAI-format rendering.
use vstd::prelude::*;

use crate::text::concat;
use crate::types::{opt_str, OpenAIError, OpenAIErrorBody};

verus! {

/// Errors of the proxy. Errors that come from the transport libraries are held
/// by their message.
#[derive(Debug)]
pub enum AppError {
    InvalidRequest(String),
    CopilotUpstream(String),
    SessionNotFound(String),
    UnsupportedModel(String),
    WebSocket(String),
    Http(String),
    Json(String),
    Internal(String),
}

/// The OpenAI error `type` of an error.
pub open spec fn error_type_of(e: AppError) -> Seq<char> {
    match e {
        AppError::InvalidRequest(_) | AppError::UnsupportedModel(_) | AppError::SessionNotFound(_) => "invalid_request_error"@,
        AppError::CopilotUpstream(_) => "upstream_error"@,
        _ => "server_error"@,
    }
}

/// The HTTP status of an error.
pub open spec fn status_of(e: AppError) -> u16 {
    match e {
        AppError::InvalidRequest(_) | AppError::UnsupportedModel(_) | AppError::SessionNotFound(_) => 400,
        AppError::CopilotUpstream(_) => 502,
        _ => 500,
    }
}

/// The decimal digit character for a digit value below ten.
pub open spec fn digit_char(d: nat) -> char {
    ('0' as nat + d) as char
}

/// A natural number written in decimal, without leading zeros.
pub open spec fn decimal_text(n: nat) -> Seq<char>
    decreases n,
{
    if n < 10 {
        seq![digit_char(n)]
    } else {
        decimal_text(n / 10).push(digit_char(n % 10))
    }
}

/// The human-readable message of an error.
pub open spec fn message_of(e: AppError) -> Seq<char> {
    match e {
        AppError::InvalidRequest(m) => m@,
        AppError::CopilotUpstream(m) => m@,
        AppError::SessionNotFound(m) => "session not found: "@ + m@,
        AppError::UnsupportedModel(m) => m@,
        AppError::WebSocket(m) => "websocket error: "@ + m@,
        AppError::Http(m) => "http error: "@ + m@,
        AppError::Json(m) => "json error: "@ + m@,
        AppError::Internal(m) => "internal error: "@ + m@,
    }
}

impl AppError {
    /// The OpenAI error `type` string.
    pub fn error_type(&self) -> (r: &'static str)
        ensures
            r@ == error_type_of(*self),
    {
        match self {
            AppError::InvalidRequest(_) | AppError::UnsupportedModel(_) => "invalid_request_error",
            AppError::CopilotUpstream(_) => "upstream_error",
            AppError::SessionNotFound(_) => "invalid_request_error",
            _ => "server_error",
        }
    }

    /// The HTTP status code.
    pub fn status_code(&self) -> (r: u16)
        ensures
            r == status_of(*self),
    {
        match self {
            AppError::InvalidRequest(_) | AppError::UnsupportedModel(_) | AppError::SessionNotFound(
                _,
            ) => 400,
            AppError::CopilotUpstream(_) => 502,
            _ => 500,
        }
    }

    /// The HTTP status code as decimal text.
    pub fn status_text(&self) -> (r: &'static str)
        ensures
            r@ == decimal_text(status_of(*self) as nat),
    {
        proof {
            reveal_with_fuel(decimal_text, 3);
            reveal_strlit("400");
            reveal_strlit("502");
            reveal_strlit("500");
        }
        match self {
            AppError::InvalidRequest(_) | AppError::UnsupportedModel(_) | AppError::SessionNotFound(
                _,
            ) => "400",
            AppError::CopilotUpstream(_) => "502",
            _ => "500",
        }
    }

    /// The error message, as the error displays itself.
    pub fn message(&self) -> (r: String)
        ensures
            r@ == message_of(*self),
    {
        match self {
            AppError::InvalidRequest(m) => m.clone(),
            AppError::CopilotUpstream(m) => m.clone(),
            AppError::SessionNotFound(m) => concat("session not found: ", m.as_str()),
            AppError::UnsupportedModel(m) => m.clone(),
            AppError::WebSocket(m) => concat("websocket error: ", m.as_str()),
            AppError::Http(m) => concat("http error: ", m.as_str()),
            AppError::Json(m) => concat("json error: ", m.as_str()),
            AppError::Internal(m) => concat("internal error: ", m.as_str()),
        }
    }

    /// The OpenAI-format error body for this error.
    pub fn to_openai_error(&self) -> (r: OpenAIError)
        ensures
            r.error.message@ == message_of(*self),
            r.error.error_type@ == error_type_of(*self),
            r.error.param is None,
            opt_str(r.error.code) == Some(decimal_text(status_of(*self) as nat)),
    {
        OpenAIError {
            error: OpenAIErrorBody {
                message: self.message(),
                error_type: String::from_str(self.error_type()),
                param: None,
                code: Some(String::from_str(self.status_text())),
            },
        }
    }
}

/// Every error is answered with a status and a type that agree: 400 with
/// `invalid_request_error`, 502 with `upstream_error`, 500 with `server_error`.
pub proof fn lemma_status_agrees_with_type(e: AppError)
    ensures
        (status_of(e) == 400) == (error_type_of(e) == "invalid_request_error"@),
        (status_of(e) == 502) == (error_type_of(e) == "upstream_error"@),
        (status_of(e) == 500) == (error_type_of(e) == "server_error"@),
        status_of(e) == 400 || status_of(e) == 502 || status_of(e) == 500,
{
    reveal_strlit("invalid_request_error");
    reveal_strlit("upstream_error");
    reveal_strlit("server_error");
    assert("invalid_request_error"@[0] != "upstream_error"@[0]);
    assert("invalid_request_error"@[0] != "server_error"@[0]);
    assert("upstream_error"@[0] != "server_error"@[0]);
}

} // verus!
