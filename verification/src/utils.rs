//! Shared pieces of request handling: the JSON reply body, reading the bearer
//! token from an `Authorization` header, and choosing the signing secret.
use vstd::prelude::*;
use crate::text::{
    lemma_strip_leading_pattern, lemma_strip_prefixes_idempotent, strip_prefixes,
    trim_start_matches,
};

verus! {

/// The JSON body of a reply: either a freshly issued token or a message.
#[derive(Debug, PartialEq, Eq)]
pub enum JsonResponseToken<'a> {
    Success { token: String },
    Error { message: &'a str },
}

/// A reply body as mathematical values.
pub enum ResponseView {
    Success(Seq<char>),
    Error(Seq<char>),
}

impl<'a> View for JsonResponseToken<'a> {
    type V = ResponseView;

    open spec fn view(&self) -> ResponseView {
        match self {
            JsonResponseToken::Success { token } => ResponseView::Success(token@),
            JsonResponseToken::Error { message } => ResponseView::Error(message@),
        }
    }
}

/// An optional piece of text as an optional character sequence.
pub open spec fn text_view(text: Option<&str>) -> Option<Seq<char>> {
    match text {
        Some(t) => Some(t@),
        None => None,
    }
}

/// The bearer token carried by an `Authorization` header value: the value
/// with every leading "Bearer " removed.
pub open spec fn bearer_token(authorization: Option<Seq<char>>) -> Option<Seq<char>> {
    match authorization {
        Some(h) => Some(strip_prefixes(h, "Bearer "@)),
        None => None,
    }
}

/// The `Authorization` header value (as text), if the request had a readable
/// one, with every leading "Bearer " removed.
pub fn get_bearer_token<'a>(authorization: Option<&'a str>) -> (token: Option<&'a str>)
    ensures
        text_view(token) == bearer_token(text_view(authorization)),
{
    match authorization {
        Some(h) => Some(trim_start_matches(h, "Bearer ")),
        None => None,
    }
}

/// The secret tokens are signed with: the configured one, or "secret" when
/// none is configured.
pub fn get_jwt_secret(configured: Option<String>) -> (secret: String)
    ensures
        secret@ == match configured {
            Some(s) => s@,
            None => "secret"@,
        },
{
    match configured {
        Some(s) => s,
        None => "secret".to_owned(),
    }
}

/// A header "Bearer <t>" carries the same token as the bare value <t>; in
/// particular it carries <t> itself when <t> does not start with "Bearer ".
pub proof fn lemma_bearer_header(t: Seq<char>)
    ensures
        bearer_token(Some("Bearer "@ + t)) == bearer_token(Some(t)),
        !(t.len() >= 7 && t.subrange(0, 7) == "Bearer "@) ==> bearer_token(Some("Bearer "@ + t))
            == Some(t),
{
    reveal_strlit("Bearer ");
    lemma_strip_leading_pattern("Bearer "@, t);
}

/// Reading the bearer token out of an already extracted token changes
/// nothing.
pub proof fn lemma_bearer_token_idempotent(authorization: Option<Seq<char>>)
    ensures
        bearer_token(bearer_token(authorization)) == bearer_token(authorization),
{
    if let Some(h) = authorization {
        lemma_strip_prefixes_idempotent(h, "Bearer "@);
    }
}

} // verus!
