//! The HTTP side of the Copilot protocol: endpoints, request headers, and reading the
//! anonymous session cookie.
use vstd::prelude::*;

use crate::text::{
    concat, has_prefix, is_white_space, lemma_first_index_of_char, lemma_first_index_of_none, owned, split,
    split_spec, starts_with, substring, trim, trim_end_spec, trim_spec, trim_start_spec,
};

verus! {

/// The Copilot User-Agent that requests present.
pub const COPILOT_USER_AGENT: &'static str = "CopilotNative/30.0.440527002-prod (Android 9; Xiaomi; Redmi Note 7)";

/// The Copilot site, where the anonymous cookie is issued.
pub const COPILOT_BASE_URL: &'static str = "https://copilot.microsoft.com";

/// The chat WebSocket endpoint.
pub const WS_CHAT_URL: &'static str = "wss://copilot.microsoft.com/c/api/chat";

/// The conversation history endpoint.
pub const CONVERSATIONS_HISTORY_URL: &'static str = "https://copilot.microsoft.com/conversations/history";

/// The attachment upload endpoint.
pub const ATTACHMENTS_URL: &'static str = "https://copilot.microsoft.com/c/api/attachments";

/// A list of (name, value) headers, as character sequences.
pub open spec fn headers_view(h: Seq<(String, String)>) -> Seq<(Seq<char>, Seq<char>)> {
    h.map_values(|p: (String, String)| (p.0@, p.1@))
}

fn header(name: &str, value: &str) -> (r: (String, String))
    ensures
        r.0@ == name@,
        r.1@ == value@,
{
    (owned(name), owned(value))
}

/// The name of the anonymous session cookie, with its `=`.
pub open spec fn anon_cookie_prefix() -> Seq<char> {
    "__Host-copilot-anon="@
}

/// The value of the first `;`-separated part that, trimmed, starts with `__Host-copilot-anon=`.
pub open spec fn anon_cookie_in(parts: Seq<Seq<char>>) -> Option<Seq<char>>
    decreases parts.len(),
{
    if parts.len() == 0 {
        None
    } else {
        let p = trim_spec(parts[0]);
        if has_prefix(p, anon_cookie_prefix()) {
            Some(p.subrange(anon_cookie_prefix().len() as int, p.len() as int))
        } else {
            anon_cookie_in(parts.drop_first())
        }
    }
}

/// The anonymous session cookie's value in a `Cookie` header string.
pub open spec fn anon_cookie_of(cookie_header: Seq<char>) -> Option<Seq<char>> {
    anon_cookie_in(split_spec(cookie_header, ';'))
}

/// Extracts the `__Host-copilot-anon` cookie value from a `Cookie` header string.
pub fn anon_cookie_value(cookie_header: &str) -> (r: Option<String>)
    ensures
        match r {
            Some(v) => anon_cookie_of(cookie_header@) == Some(v@),
            None => anon_cookie_of(cookie_header@) is None,
        },
{
    let parts = split(cookie_header, ';');
    let ghost views = parts@.map_values(|x: String| x@);
    let mut i: usize = 0;
    assert(views.subrange(0, views.len() as int) =~= views);
    while i < parts.len()
        invariant
            views == parts@.map_values(|x: String| x@),
            views == split_spec(cookie_header@, ';'),
            0 <= i <= parts@.len(),
            anon_cookie_in(views) == anon_cookie_in(views.subrange(i as int, views.len() as int)),
        decreases parts.len() - i,
    {
        let ghost sub = views.subrange(i as int, views.len() as int);
        assert(sub[0] == parts@[i as int]@);
        let part = trim(parts[i].as_str());
        if starts_with(part.as_str(), "__Host-copilot-anon=") {
            proof {
                reveal_strlit("__Host-copilot-anon=");
            }
            let value = substring(part.as_str(), 20, part.as_str().unicode_len());
            return Some(value);
        }
        assert(sub.drop_first() =~= views.subrange(i + 1, views.len() as int));
        i = i + 1;
    }
    None
}

/// A string without `;` is one part.
proof fn lemma_split_single(s: Seq<char>)
    requires
        forall|j: int| 0 <= j < s.len() ==> s[j] != ';',
    ensures
        split_spec(s, ';') == seq![s],
{
    lemma_first_index_of_none(s, ';');
}

/// A part without `;` followed by `;` is split off as the first part.
proof fn lemma_split_first(a: Seq<char>, rest: Seq<char>)
    requires
        forall|j: int| 0 <= j < a.len() ==> a[j] != ';',
    ensures
        split_spec(a + ";"@ + rest, ';') == seq![a] + split_spec(rest, ';'),
{
    reveal_strlit(";");
    let s = a + ";"@ + rest;
    assert(s[a.len() as int] == ';');
    assert forall|j: int| 0 <= j < a.len() implies s[j] != ';' by {
        assert(s[j] == a[j]);
    }
    lemma_first_index_of_char(s, ';', a.len() as int);
    assert(s.subrange(0, a.len() as int) =~= a);
    assert(s.subrange(a.len() as int + 1, s.len() as int) =~= rest);
}

/// Trimming leaves a string alone that neither starts nor ends with white space.
proof fn lemma_trim_unchanged(s: Seq<char>)
    requires
        s.len() > 0,
        !is_white_space(s[0]),
        !is_white_space(s.last()),
    ensures
        trim_spec(s) == s,
{
    assert(trim_start_spec(s) == s);
    assert(trim_end_spec(s) == s);
}

/// The cookie `__Host-copilot-anon=v`, trimmed, is itself, when `v` does not end with
/// white space.
proof fn lemma_anon_part_trimmed(v: Seq<char>)
    requires
        v.len() > 0 ==> !is_white_space(v.last()),
    ensures
        trim_spec(anon_cookie_prefix() + v) == anon_cookie_prefix() + v,
        trim_spec(" "@ + anon_cookie_prefix() + v) == anon_cookie_prefix() + v,
{
    reveal_strlit("__Host-copilot-anon=");
    reveal_strlit(" ");
    let s = anon_cookie_prefix() + v;
    assert(s[0] == '_');
    if v.len() > 0 {
        assert(s.last() == v.last());
    } else {
        assert(s.last() == '=');
    }
    lemma_trim_unchanged(s);
    let sp = " "@ + anon_cookie_prefix() + v;
    assert(sp[0] == ' ');
    assert(is_white_space(sp[0]));
    assert(sp.drop_first() =~= s);
    assert(trim_start_spec(s) == s);
    assert(trim_start_spec(sp) == trim_start_spec(s));
    assert(trim_end_spec(s) == s);
}

/// The anonymous cookie read from the header `__Host-copilot-anon=v` is exactly `v`, for
/// every value `v` without `;` that does not end with white space (`=` characters, as in
/// base64, included).
pub proof fn lemma_anon_cookie_exact(v: Seq<char>)
    requires
        forall|j: int| 0 <= j < v.len() ==> v[j] != ';',
        v.len() > 0 ==> !is_white_space(v.last()),
    ensures
        anon_cookie_of("__Host-copilot-anon="@ + v) == Some(v),
{
    reveal_strlit("__Host-copilot-anon=");
    let s = anon_cookie_prefix() + v;
    assert forall|j: int| 0 <= j < s.len() implies s[j] != ';' by {
        if j >= 20 {
            assert(s[j] == v[j - 20]);
        }
    }
    lemma_split_single(s);
    lemma_anon_part_trimmed(v);
    let parts = seq![s];
    assert(parts[0] == s);
    assert(s.subrange(0, 20) =~= anon_cookie_prefix());
    assert(s.subrange(20, s.len() as int) =~= v);
}

/// A cookie `__Host-copilot-anon=v` at the head of a header, after a space and before
/// further `;`-separated cookies, is read as exactly `v`.
pub proof fn lemma_anon_cookie_first(v: Seq<char>, rest: Seq<char>)
    requires
        forall|j: int| 0 <= j < v.len() ==> v[j] != ';',
        v.len() > 0 ==> !is_white_space(v.last()),
    ensures
        anon_cookie_of(" "@ + "__Host-copilot-anon="@ + v + ";"@ + rest) == Some(v),
{
    reveal_strlit("__Host-copilot-anon=");
    reveal_strlit(" ");
    let a = " "@ + anon_cookie_prefix() + v;
    assert forall|j: int| 0 <= j < a.len() implies a[j] != ';' by {
        if j >= 21 {
            assert(a[j] == v[j - 21]);
        }
    }
    lemma_split_first(a, rest);
    lemma_anon_part_trimmed(v);
    let parts = seq![a] + split_spec(rest, ';');
    assert(parts[0] == a);
    let s = anon_cookie_prefix() + v;
    assert(s.subrange(0, 20) =~= anon_cookie_prefix());
    assert(s.subrange(20, s.len() as int) =~= v);
}

/// A cookie that, trimmed, is not the anonymous one is passed over: the anonymous cookie
/// of `a; rest` is that of `rest`.
pub proof fn lemma_anon_cookie_skips_other(a: Seq<char>, rest: Seq<char>)
    requires
        forall|j: int| 0 <= j < a.len() ==> a[j] != ';',
        !has_prefix(trim_spec(a), "__Host-copilot-anon="@),
    ensures
        anon_cookie_of(a + ";"@ + rest) == anon_cookie_of(rest),
{
    lemma_split_first(a, rest);
    let parts = seq![a] + split_spec(rest, ';');
    assert(parts[0] == a);
    assert(parts.drop_first() =~= split_spec(rest, ';'));
}

/// The cookie value that the WebSocket request presents is read back unchanged from its
/// `Cookie` header.
pub proof fn lemma_ws_cookie_round_trip(v: Seq<char>, ws_key: Seq<char>)
    requires
        forall|j: int| 0 <= j < v.len() ==> v[j] != ';',
        v.len() > 0 ==> !is_white_space(v.last()),
    ensures
        ws_headers_spec(v, ws_key)[1].0 == "Cookie"@,
        anon_cookie_of(ws_headers_spec(v, ws_key)[1].1) == Some(v),
{
    lemma_anon_cookie_exact(v);
}

/// The headers of the WebSocket upgrade request, for a cookie value and a handshake key.
pub open spec fn ws_headers_spec(cookie_value: Seq<char>, ws_key: Seq<char>) -> Seq<(Seq<char>, Seq<char>)> {
    seq![
        ("User-Agent"@, COPILOT_USER_AGENT@),
        ("Cookie"@, "__Host-copilot-anon="@ + cookie_value),
        ("Origin"@, "https://copilot.microsoft.com"@),
        ("Accept-Language"@, "zh-CN,zh;q=0.9,en;q=0.8"@),
        ("Connection"@, "Upgrade"@),
        ("Upgrade"@, "websocket"@),
        ("Sec-WebSocket-Version"@, "13"@),
        ("Sec-WebSocket-Key"@, ws_key),
        ("Host"@, "copilot.microsoft.com"@),
    ]
}

/// The headers of the WebSocket upgrade request to the chat endpoint.
pub fn ws_request_headers(cookie_value: &str, ws_key: &str) -> (r: Vec<(String, String)>)
    ensures
        headers_view(r@) == ws_headers_spec(cookie_value@, ws_key@),
{
    let mut h: Vec<(String, String)> = Vec::new();
    h.push(header("User-Agent", COPILOT_USER_AGENT));
    let cookie = concat("__Host-copilot-anon=", cookie_value);
    h.push(header("Cookie", cookie.as_str()));
    h.push(header("Origin", "https://copilot.microsoft.com"));
    h.push(header("Accept-Language", "zh-CN,zh;q=0.9,en;q=0.8"));
    h.push(header("Connection", "Upgrade"));
    h.push(header("Upgrade", "websocket"));
    h.push(header("Sec-WebSocket-Version", "13"));
    h.push(header("Sec-WebSocket-Key", ws_key));
    h.push(header("Host", "copilot.microsoft.com"));
    assert(headers_view(h@) =~= ws_headers_spec(cookie_value@, ws_key@));
    h
}

/// The headers common to requests to the Copilot site.
pub open spec fn site_headers_spec(cookie_header: Seq<char>) -> Seq<(Seq<char>, Seq<char>)> {
    seq![
        ("Cookie"@, cookie_header),
        ("User-Agent"@, COPILOT_USER_AGENT@),
        ("Referer"@, "https://copilot.microsoft.com/"@),
        ("Origin"@, "https://copilot.microsoft.com"@),
    ]
}

/// The headers of an attachment upload.
pub fn upload_headers(cookie_header: &str) -> (r: Vec<(String, String)>)
    ensures
        headers_view(r@) == site_headers_spec(cookie_header@),
{
    let mut h: Vec<(String, String)> = Vec::new();
    h.push(header("Cookie", cookie_header));
    h.push(header("User-Agent", COPILOT_USER_AGENT));
    h.push(header("Referer", "https://copilot.microsoft.com/"));
    h.push(header("Origin", "https://copilot.microsoft.com"));
    assert(headers_view(h@) =~= site_headers_spec(cookie_header@));
    h
}

/// The headers of a history deletion for a conversation.
pub open spec fn history_headers_spec(cookie_header: Seq<char>, conversation_id: Seq<char>) -> Seq<(Seq<char>, Seq<char>)> {
    site_headers_spec(cookie_header) + seq![
        ("X-Copilot-Conversation-Id"@, conversation_id),
        ("short-conversation-action"@, "deleteHistory"@),
    ]
}

/// The headers of the request that deletes a conversation's history on the server;
/// `None` for an empty conversation ID, whose deletion is skipped.
pub fn history_delete_headers(cookie_header: &str, conversation_id: &str) -> (r: Option<Vec<(String, String)>>)
    ensures
        r is None <==> conversation_id@.len() == 0,
        r matches Some(h) ==> headers_view(h@) == history_headers_spec(cookie_header@, conversation_id@),
{
    if conversation_id.is_empty() {
        return None;
    }
    let mut h = upload_headers(cookie_header);
    h.push(header("X-Copilot-Conversation-Id", conversation_id));
    h.push(header("short-conversation-action", "deleteHistory"));
    assert(headers_view(h@) =~= history_headers_spec(cookie_header@, conversation_id@));
    Some(h)
}

} // verus!
