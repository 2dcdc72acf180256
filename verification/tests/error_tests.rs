use copilot_proxy::error::AppError;

fn all() -> Vec<AppError> {
    vec![
        AppError::InvalidRequest("bad".into()),
        AppError::CopilotUpstream("up".into()),
        AppError::SessionNotFound("s1".into()),
        AppError::UnsupportedModel("m".into()),
        AppError::WebSocket("ws".into()),
        AppError::Http("h".into()),
        AppError::Json("j".into()),
        AppError::Internal("i".into()),
    ]
}

#[test]
fn status_and_type_per_variant() {
    let expected = [
        (400, "invalid_request_error"),
        (502, "upstream_error"),
        (400, "invalid_request_error"),
        (400, "invalid_request_error"),
        (500, "server_error"),
        (500, "server_error"),
        (500, "server_error"),
        (500, "server_error"),
    ];
    for (e, (status, ty)) in all().iter().zip(expected) {
        assert_eq!(e.status_code(), status);
        assert_eq!(e.error_type(), ty);
    }
}

#[test]
fn status_agrees_with_type() {
    for e in all() {
        let pair = (e.status_code(), e.error_type());
        assert!(matches!(
            pair,
            (400, "invalid_request_error") | (502, "upstream_error") | (500, "server_error")
        ));
    }
}

#[test]
fn messages_as_displayed() {
    let msgs: Vec<String> = all().iter().map(|e| e.message()).collect();
    assert_eq!(
        msgs,
        vec![
            "bad",
            "up",
            "session not found: s1",
            "m",
            "websocket error: ws",
            "http error: h",
            "json error: j",
            "internal error: i"
        ]
    );
}

#[test]
fn openai_error_body() {
    let body = AppError::SessionNotFound("abc".into()).to_openai_error();
    assert_eq!(body.error.message, "session not found: abc");
    assert_eq!(body.error.error_type, "invalid_request_error");
    assert!(body.error.param.is_none());
    assert_eq!(body.error.code.as_deref(), Some("400"));
}

#[test]
fn openai_error_code_is_status_text() {
    let cases = [
        (AppError::InvalidRequest("a".into()), "400"),
        (AppError::UnsupportedModel("m".into()), "400"),
        (AppError::CopilotUpstream("u".into()), "502"),
        (AppError::Internal("i".into()), "500"),
        (AppError::Json("j".into()), "500"),
    ];
    for (e, code) in cases {
        assert_eq!(e.status_text(), code);
        assert_eq!(e.status_code().to_string(), code);
        assert_eq!(e.to_openai_error().error.code.as_deref(), Some(code));
    }
}
