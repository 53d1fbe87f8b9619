//! Issuing and checking HS256 JSON Web Tokens through `jsonwebtoken`.
use vstd::prelude::*;
use jsonwebtoken::{DecodingKey, EncodingKey, Header, Validation};
use serde_json::Value;

verus! {

/// The expiry (seconds since the Unix epoch) written into every issued token.
pub const TOKEN_EXPIRY: u64 = 10000000000;

/// How many seconds past its `exp` a token is still accepted.
pub const EXPIRY_LEEWAY: u64 = 60;

/// The claims a token carries: the user it was issued to, the user's roles,
/// and when it expires.
#[derive(Debug, PartialEq, Eq)]
pub struct Claims {
    pub sub: String,
    pub roles: Vec<String>,
    pub exp: u64,
}

/// The claims as mathematical values.
pub struct ClaimsView {
    pub sub: Seq<char>,
    pub roles: Seq<Seq<char>>,
    pub exp: u64,
}

impl View for Claims {
    type V = ClaimsView;

    open spec fn view(&self) -> ClaimsView {
        ClaimsView { sub: self.sub@, roles: self.roles.deep_view(), exp: self.exp }
    }
}

/// Why a token was not accepted.
#[derive(Debug, Clone, Copy, PartialEq, Eq, Structural)]
pub enum TokenError {
    /// The token's `exp` claim lies in the past.
    ExpiredSignature,
    /// Any other reason: malformed token, wrong signature or algorithm,
    /// missing or mistyped claims.
    Invalid,
}

/// The claims of a token issued now for `sub` with `roles`.
pub open spec fn issued_claims(sub: Seq<char>, roles: Seq<Seq<char>>) -> ClaimsView {
    ClaimsView { sub, roles, exp: TOKEN_EXPIRY }
}

/// The compact HS256 token that `jsonwebtoken::encode` produces for these
/// claims (serialized in the order sub, roles, exp) under the default header
/// and this secret.
pub uninterp spec fn jwt_hs256(claims: ClaimsView, secret: Seq<char>) -> Seq<char>;

/// The number of '.' characters in `s`.
pub open spec fn dot_count(s: Seq<char>) -> nat
    decreases s.len(),
{
    if s.len() == 0 {
        0
    } else {
        (if s[0] == '.' {
            1nat
        } else {
            0nat
        }) + dot_count(s.drop_first())
    }
}

/// The claims `jsonwebtoken::decode` reads from `token` under `secret` when
/// the expiry is not checked (signature, algorithm, required `exp` and claim
/// types are), or `None` when it rejects the token.
pub uninterp spec fn jwt_hs256_claims(token: Seq<char>, secret: Seq<char>) -> Option<ClaimsView>;

/// A token whose `exp` is `exp` counts as expired at time `now` (seconds
/// since the Unix epoch) when `exp` lies before `now` minus the leeway, the
/// subtraction wrapping around as `u64` arithmetic does.
pub open spec fn is_expired(exp: u64, now: u64) -> bool {
    exp < (if now >= EXPIRY_LEEWAY {
        now - EXPIRY_LEEWAY
    } else {
        now + 0x1_0000_0000_0000_0000 - EXPIRY_LEEWAY
    })
}

/// The answer of validating claims read from a token at time `now`.
pub open spec fn checked_at(claims: ClaimsView, now: u64) -> Result<ClaimsView, TokenError> {
    if is_expired(claims.exp, now) {
        Err(TokenError::ExpiredSignature)
    } else {
        Ok(claims)
    }
}

/// What a validation of `token` with `secret` at time `now` answers: a token
/// rejected apart from its expiry is invalid, an accepted one gives its
/// claims unless they have expired at `now`. In particular a token that is
/// the encoding of some claims under that secret gives exactly those claims
/// unless they have expired, and a token with fewer than two '.' is invalid.
pub open spec fn validation_outcome(
    token: Seq<char>,
    secret: Seq<char>,
    now: u64,
    outcome: Result<ClaimsView, TokenError>,
) -> bool {
    &&& match jwt_hs256_claims(token, secret) {
        None => outcome == Err::<ClaimsView, TokenError>(TokenError::Invalid),
        Some(c) => outcome == checked_at(c, now),
    }
    &&& forall|c: ClaimsView| #[trigger] jwt_hs256(c, secret) == token ==> outcome == checked_at(c, now)
    &&& dot_count(token) < 2 ==> outcome == Err::<ClaimsView, TokenError>(TokenError::Invalid)
}

/// A character of a compact token: base64url (no padding) or the '.' that
/// separates its parts.
pub open spec fn is_token_char(c: char) -> bool {
    ||| 'A' <= c <= 'Z'
    ||| 'a' <= c <= 'z'
    ||| '0' <= c <= '9'
    ||| c == '-'
    ||| c == '_'
    ||| c == '.'
}

/// `t` has the shape of a compact JWT: three parts of base64url characters
/// separated by two '.'.
pub open spec fn is_compact_token(t: Seq<char>) -> bool {
    &&& forall|i: int| 0 <= i < t.len() ==> is_token_char(#[trigger] t[i])
    &&& dot_count(t) == 2
}

/// Optional claims taken as mathematical values.
pub open spec fn claims_view(claims: Result<Claims, TokenError>) -> Option<ClaimsView> {
    match claims {
        Ok(c) => Some(c@),
        Err(_) => None,
    }
}

/// A validation result with its claims taken as mathematical values.
pub open spec fn outcome_view(outcome: Result<Claims, TokenError>) -> Result<ClaimsView, TokenError> {
    match outcome {
        Ok(c) => Ok(c@),
        Err(e) => Err(e),
    }
}

/// Calls `jsonwebtoken::encode` with `Header::default()` (HS256), the claims
/// as a JSON object with the fields sub, roles and exp in that order, and
/// `EncodingKey::from_secret` of the secret's bytes. Trusted: the result is
/// the token named by `jwt_hs256`, it is always `Ok`, since an HMAC key
/// matches the HS256 header and serializing these values cannot fail, and it
/// is the base64url (no padding) encodings of header, payload and signature
/// joined by '.'.
#[verifier::external_body]
fn encode_claims(claims: &Claims, secret: &str) -> (token: Result<String, TokenError>)
    ensures
        token is Ok,
        token matches Ok(t) ==> t@ == jwt_hs256(claims@, secret@),
        token matches Ok(t) ==> is_compact_token(t@),
{
    let payload: Value = vec![
        ("sub", Value::from(claims.sub.clone())),
        ("roles", Value::from(claims.roles.clone())),
        ("exp", Value::from(claims.exp)),
    ].into_iter().collect();
    let key = EncodingKey::from_secret(secret.as_bytes());
    jsonwebtoken::encode(&Header::default(), &payload, &key).map_err(|_| TokenError::Invalid)
}

/// Calls `jsonwebtoken::decode` with `DecodingKey::from_secret` of the
/// secret's bytes and `Validation::default()` with the expiry check turned
/// off (HS256 signature, `exp` still required), then reads the fields sub,
/// roles and exp of the payload with `serde_json::from_value`. Trusted: the
/// answer is the one named by `jwt_hs256_claims`, every rejection is
/// `Invalid`, a token that `jwt_hs256` produced under this secret comes back
/// with exactly its claims, and a token with fewer than two '.' is rejected
/// (it does not have the three parts of a JWT).
#[verifier::external_body]
fn decode_claims(token: &str, secret: &str) -> (claims: Result<Claims, TokenError>)
    ensures
        claims_view(claims) == jwt_hs256_claims(token@, secret@),
        claims matches Err(e) ==> e == TokenError::Invalid,
        forall|c: ClaimsView|
            #[trigger] jwt_hs256(c, secret@) == token@ ==> claims_view(claims) == Some(c),
        dot_count(token@) < 2 ==> claims is Err,
{
    let key = DecodingKey::from_secret(secret.as_bytes());
    let mut validation = Validation::default();
    validation.validate_exp = false;
    let data = jsonwebtoken::decode::<Value>(token, &key, &validation).map_err(|_| TokenError::Invalid)?;
    let payload = data.claims;
    Ok(Claims {
        sub: serde_json::from_value(payload["sub"].clone()).map_err(|_| TokenError::Invalid)?,
        roles: serde_json::from_value(payload["roles"].clone()).map_err(|_| TokenError::Invalid)?,
        exp: serde_json::from_value(payload["exp"].clone()).map_err(|_| TokenError::Invalid)?,
    })
}

/// Calls `jsonwebtoken::get_current_timestamp`, the clock that the crate's
/// own validation reads (seconds since the Unix epoch). Nothing is promised
/// of the value. It panics when the machine clock is set before 1970, as
/// `jsonwebtoken::decode` does.
#[verifier::external_body]
fn current_timestamp() -> (now: u64) {
    jsonwebtoken::get_current_timestamp()
}

/// Issues a token for `username` carrying `roles`, expiring at
/// `TOKEN_EXPIRY`, signed with `secret`.
pub fn create_jwt(username: &str, roles: Vec<String>, secret: &str) -> (token: String)
    ensures
        token@ == jwt_hs256(issued_claims(username@, roles.deep_view()), secret@),
        is_compact_token(token@),
{
    let claims = Claims { sub: username.to_owned(), roles, exp: TOKEN_EXPIRY };
    match encode_claims(&claims, secret) {
        Ok(token) => token,
        Err(_) => String::new(),
    }
}

/// Whether claims with expiry `exp` have expired at time `now`, as
/// `jsonwebtoken`'s validation decides it.
pub fn expired_at(exp: u64, now: u64) -> (expired: bool)
    ensures
        expired == is_expired(exp, now),
{
    exp < now.wrapping_sub(EXPIRY_LEEWAY)
}

/// Checks `token` against `secret`, reads its claims, then checks their
/// expiry against the time `now`, and returns the claims.
pub fn validate_jwt_at(token: &str, secret: &str, now: u64) -> (outcome: Result<Claims, TokenError>)
    ensures
        validation_outcome(token@, secret@, now, outcome_view(outcome)),
{
    let claims = match decode_claims(token, secret) {
        Ok(claims) => claims,
        Err(e) => return Err(e),
    };
    if expired_at(claims.exp, now) {
        Err(TokenError::ExpiredSignature)
    } else {
        Ok(claims)
    }
}

/// Checks `token` against `secret` and the current time, and returns its
/// claims.
pub fn validate_jwt(token: &str, secret: &str) -> (outcome: Result<Claims, TokenError>)
    ensures
        exists|now: u64| validation_outcome(token@, secret@, now, outcome_view(outcome)),
{
    let now = current_timestamp();
    let outcome = validate_jwt_at(token, secret, now);
    assert(validation_outcome(token@, secret@, now, outcome_view(outcome)));
    outcome
}

/// A token issued for `sub` and `roles` under `secret` is given back by a
/// validation with the same secret at time `now` with exactly those claims,
/// unless `now` is past their expiry plus the leeway.
pub proof fn lemma_issued_token_round_trip(
    sub: Seq<char>,
    roles: Seq<Seq<char>>,
    secret: Seq<char>,
    now: u64,
    outcome: Result<ClaimsView, TokenError>,
)
    requires
        validation_outcome(jwt_hs256(issued_claims(sub, roles), secret), secret, now, outcome),
    ensures
        is_expired(TOKEN_EXPIRY, now) ==> outcome == Err::<ClaimsView, TokenError>(
            TokenError::ExpiredSignature,
        ),
        !is_expired(TOKEN_EXPIRY, now) ==> outcome == Ok::<ClaimsView, TokenError>(
            issued_claims(sub, roles),
        ),
{
    let c = issued_claims(sub, roles);
    assert(jwt_hs256(c, secret) == jwt_hs256(c, secret));
}

} // verus!
