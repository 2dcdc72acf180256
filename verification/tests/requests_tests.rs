use copilot_proxy::requests::{
    anon_cookie_value, history_delete_headers, upload_headers, ws_request_headers, COPILOT_USER_AGENT,
};

#[test]
fn anon_cookie_is_found_among_cookies() {
    assert_eq!(
        anon_cookie_value("a=1; __Host-copilot-anon=tok123;b=2").as_deref(),
        Some("tok123")
    );
    assert_eq!(anon_cookie_value("__Host-copilot-anon=x").as_deref(), Some("x"));
    assert_eq!(anon_cookie_value("  __Host-copilot-anon=  ;").as_deref(), Some(""));
    assert_eq!(anon_cookie_value("a=1; b=2"), None);
    assert_eq!(anon_cookie_value(""), None);
    assert_eq!(anon_cookie_value("x__Host-copilot-anon=y"), None);
}

#[test]
fn first_anon_cookie_wins() {
    assert_eq!(
        anon_cookie_value("__Host-copilot-anon=first; __Host-copilot-anon=second").as_deref(),
        Some("first")
    );
}

fn pairs(h: &[(String, String)]) -> Vec<(&str, &str)> {
    h.iter().map(|(a, b)| (a.as_str(), b.as_str())).collect()
}

#[test]
fn websocket_request_headers() {
    let h = ws_request_headers("tok", "KEY==");
    assert_eq!(
        pairs(&h),
        vec![
            ("User-Agent", COPILOT_USER_AGENT),
            ("Cookie", "__Host-copilot-anon=tok"),
            ("Origin", "https://copilot.microsoft.com"),
            ("Accept-Language", "zh-CN,zh;q=0.9,en;q=0.8"),
            ("Connection", "Upgrade"),
            ("Upgrade", "websocket"),
            ("Sec-WebSocket-Version", "13"),
            ("Sec-WebSocket-Key", "KEY=="),
            ("Host", "copilot.microsoft.com"),
        ]
    );
}

#[test]
fn history_deletion_headers_and_skip() {
    assert!(history_delete_headers("c=1", "").is_none());
    let h = history_delete_headers("c=1", "conv-9").unwrap();
    assert_eq!(
        pairs(&h),
        vec![
            ("Cookie", "c=1"),
            ("User-Agent", COPILOT_USER_AGENT),
            ("Referer", "https://copilot.microsoft.com/"),
            ("Origin", "https://copilot.microsoft.com"),
            ("X-Copilot-Conversation-Id", "conv-9"),
            ("short-conversation-action", "deleteHistory"),
        ]
    );
    assert_eq!(pairs(&upload_headers("c=1")), pairs(&h)[..4].to_vec());
}
