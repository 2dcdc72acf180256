//! API key checking for the `Authorization: Bearer <key>` header.
use vstd::prelude::*;

use crate::protocol::or_default;
use crate::text::{has_prefix, owned, starts_with, str_eq, substring};
use crate::types::{opt_str, OpenAIError, OpenAIErrorBody};

verus! {

/// The token of an `Authorization` header: what follows `Bearer ` or `bearer `, else nothing.
pub open spec fn bearer_token_of(h: Seq<char>) -> Seq<char> {
    if has_prefix(h, "Bearer "@) {
        h.subrange(7, h.len() as int)
    } else if has_prefix(h, "bearer "@) {
        h.subrange(7, h.len() as int)
    } else {
        Seq::empty()
    }
}

/// A request is let through when no API key is configured, or when its bearer token is the key.
pub open spec fn authorized(api_key: Seq<char>, authorization: Option<Seq<char>>) -> bool {
    api_key.len() == 0 || bearer_token_of(or_default(authorization, Seq::empty())) == api_key
}

/// The token of an `Authorization` header value.
pub fn bearer_token(header: &str) -> (r: String)
    ensures
        r@ == bearer_token_of(header@),
{
    proof {
        reveal_strlit("Bearer ");
        reveal_strlit("bearer ");
        reveal_strlit("");
    }
    if starts_with(header, "Bearer ") {
        substring(header, 7, header.unicode_len())
    } else if starts_with(header, "bearer ") {
        substring(header, 7, header.unicode_len())
    } else {
        let r = owned("");
        assert(r@ =~= Seq::<char>::empty());
        r
    }
}

/// Decides whether a request may pass, given the configured API key and the request's
/// `Authorization` header (`None` when absent or not valid text).
pub fn is_authorized(api_key: &str, authorization: Option<String>) -> (r: bool)
    ensures
        r == authorized(api_key@, opt_str(authorization)),
{
    if api_key.is_empty() {
        return true;
    }
    let header = match authorization {
        Some(h) => h,
        None => String::new(),
    };
    let token = bearer_token(header.as_str());
    str_eq(token.as_str(), api_key)
}

/// The body of the answer to a request with a wrong or missing API key (status 401).
pub fn unauthorized_error() -> (r: OpenAIError)
    ensures
        r.error.message@ == "invalid API key"@,
        r.error.error_type@ == "invalid_request_error"@,
        r.error.param is None,
        opt_str(r.error.code) == Some("401"@),
{
    OpenAIError {
        error: OpenAIErrorBody {
            message: owned("invalid API key"),
            error_type: owned("invalid_request_error"),
            param: None,
            code: Some(owned("401")),
        },
    }
}

/// With an API key configured, exactly the headers `Bearer <key>` and `bearer <key>` are
/// let through, and a request without the header is refused; with none configured,
/// every request is let through.
pub proof fn lemma_authorized_exactly(api_key: Seq<char>, h: Seq<char>)
    ensures
        api_key.len() == 0 ==> authorized(api_key, Some(h)) && authorized(api_key, None),
        api_key.len() > 0 ==> (authorized(api_key, Some(h)) <==> (h == "Bearer "@ + api_key || h
            == "bearer "@ + api_key)),
        api_key.len() > 0 ==> !authorized(api_key, None),
{
    reveal_strlit("Bearer ");
    reveal_strlit("bearer ");
    if api_key.len() > 0 {
        let b1 = "Bearer "@ + api_key;
        let b2 = "bearer "@ + api_key;
        assert(b1.subrange(0, 7) =~= "Bearer "@);
        assert(b1.subrange(7, b1.len() as int) =~= api_key);
        assert(b2.subrange(0, 7) =~= "bearer "@);
        assert(b2.subrange(7, b2.len() as int) =~= api_key);
        if has_prefix(h, "Bearer "@) {
            assert(h =~= h.subrange(0, 7) + h.subrange(7, h.len() as int));
        }
        if has_prefix(h, "bearer "@) {
            assert(h =~= h.subrange(0, 7) + h.subrange(7, h.len() as int));
        }
        assert(!has_prefix(Seq::<char>::empty(), "Bearer "@));
        assert(!has_prefix(Seq::<char>::empty(), "bearer "@));
    }
}

} // verus!
