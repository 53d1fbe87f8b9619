//! The login route: checking the submitted fields, and answering with a
//! token once the user lookup has come back.
use vstd::prelude::*;
use crate::admin::{admin_reply, grants_admin, lemma_issued_token_admin, request_outcome, user_reply};
use crate::auth::{
    create_jwt, is_compact_token, is_expired, is_token_char, issued_claims, jwt_hs256,
    lemma_issued_token_round_trip, validation_outcome, ClaimsView, TokenError, TOKEN_EXPIRY,
};
use crate::utils::{bearer_token, lemma_bearer_header};
use crate::models::Roles;
use crate::text::seq_contains;
use crate::models::User;
use crate::utils::{JsonResponseToken, ResponseView};

verus! {

/// The text of a submitted form field, empty when the field is missing.
pub open spec fn field_text(field: Option<String>) -> Seq<char> {
    match field {
        Some(s) => s@,
        None => Seq::empty(),
    }
}

/// The text of an optional field, empty when it is missing.
pub(crate) fn field_or_empty(field: Option<String>) -> (text: String)
    ensures
        text@ == field_text(field),
        field matches Some(s) ==> text@ == s@,
        field is None ==> text@.len() == 0,
{
    match field {
        Some(s) => s,
        None => String::new(),
    }
}

/// What the login route does next with the submitted fields.
pub enum LoginStep<'a> {
    /// Answer right away with this status and body.
    Respond(u16, JsonResponseToken<'a>),
    /// Look up the user with this name and password.
    FindUser { username: String, password: String },
}

/// Checks the username and password fields of a login request: either
/// missing or empty makes the request too generic (400), otherwise the user
/// is looked up with both.
pub fn login_request<'a>(username: Option<String>, password: Option<String>) -> (step: LoginStep<'a>)
    ensures
        (field_text(username).len() == 0 || field_text(password).len() == 0) ==> (step matches LoginStep::Respond(code, body) && code == 400 && body@ == ResponseView::Error(
            "Search query is too generic. Missing either username or password"@,
        )),
        (field_text(username).len() != 0 && field_text(password).len() != 0) ==> (step matches LoginStep::FindUser { username: u, password: p } && u@ == field_text(username) && p@ == field_text(password)),
        (username is Some && password is Some && username->0@.len() > 0 && password->0@.len() > 0) ==> (step matches LoginStep::FindUser { username: a, password: b } && a@ == username->0@ && b@ == password->0@),
        (username is None || password is None || (username matches Some(u) && u@.len() == 0) || (password matches Some(p) && p@.len() == 0)) ==> (step matches LoginStep::Respond(code, body) && code == 400 && body@ == ResponseView::Error(
            "Search query is too generic. Missing either username or password"@,
        )),
{
    let username_val = field_or_empty(username);
    let password_val = field_or_empty(password);
    if username_val.as_str().is_empty() || password_val.as_str().is_empty() {
        return LoginStep::Respond(
            400,
            JsonResponseToken::Error {
                message: "Search query is too generic. Missing either username or password",
            },
        );
    }
    LoginStep::FindUser { username: username_val, password: password_val }
}

/// The role of the user a lookup found (the first one), if it found any.
pub open spec fn found_role(lookup: Result<Vec<User>, String>) -> Option<Seq<char>> {
    match lookup {
        Ok(users) => if users.len() > 0 {
            Some(users[0].roles@)
        } else {
            None
        },
        Err(_) => None,
    }
}

/// The answer to a login: a token for the user with the role found (200), or
/// "Unauthorized" (401) when no user was found.
pub open spec fn login_reply(role: Option<Seq<char>>, username: Seq<char>, secret: Seq<char>) -> (
    u16,
    ResponseView,
) {
    match role {
        Some(r) => (200, ResponseView::Success(jwt_hs256(issued_claims(username, seq![r]), secret))),
        None => (401, ResponseView::Error("Unauthorized"@)),
    }
}

/// Answers a login for `username` once it is known whether the user is valid
/// and which role they hold.
pub fn get_login_response<'a>(is_valid_user: bool, username: &str, role: &str, secret: &str) -> (reply: (
    u16,
    JsonResponseToken<'a>,
))
    ensures
        reply.0 == login_reply(if is_valid_user { Some(role@) } else { None }, username@, secret@).0,
        reply.1@ == login_reply(if is_valid_user { Some(role@) } else { None }, username@, secret@).1,
        reply.1@ matches ResponseView::Success(t) ==> is_compact_token(t),
        is_valid_user ==> reply.0 == 200 && reply.1@ == ResponseView::Success(
            jwt_hs256(issued_claims(username@, seq![role@]), secret@),
        ),
        !is_valid_user ==> reply.0 == 401 && reply.1@ == ResponseView::Error("Unauthorized"@),
{
    if is_valid_user {
        let mut roles: Vec<String> = Vec::new();
        roles.push(role.to_owned());
        assert(roles.deep_view() =~= seq![role@]);
        let token = create_jwt(username, roles, secret);
        return (200, JsonResponseToken::Success { token });
    }
    (401, JsonResponseToken::Error { message: "Unauthorized" })
}

/// Answers a login for `username` from the result of looking the user up
/// with the submitted name and password: the first user found is valid and
/// their role goes into the token.
pub fn get_user_and_response<'a>(lookup: Result<Vec<User>, String>, username: &str, secret: &str) -> (reply: (
    u16,
    JsonResponseToken<'a>,
))
    ensures
        reply.0 == login_reply(found_role(lookup), username@, secret@).0,
        reply.1@ == login_reply(found_role(lookup), username@, secret@).1,
        reply.1@ matches ResponseView::Success(t) ==> is_compact_token(t),
        (lookup matches Ok(users) && users.len() > 0) ==> reply.0 == 200 && reply.1@ == ResponseView::Success(
            jwt_hs256(issued_claims(username@, seq![lookup->Ok_0[0].roles@]), secret@),
        ),
        !(lookup matches Ok(users) && users.len() > 0) ==> reply.0 == 401 && reply.1@ == ResponseView::Error(
            "Unauthorized"@,
        ),
{
    let mut is_valid_user = false;
    let mut user_role = String::new();
    match &lookup {
        Ok(users) => {
            if users.len() > 0 {
                is_valid_user = true;
                user_role = users[0].roles.clone();
            }
        },
        Err(_) => {},
    }
    get_login_response(is_valid_user, username, user_role.as_str(), secret)
}

/// A present field is passed on exactly as it was sent; a missing one counts
/// as empty.
pub proof fn lemma_field_text(field: Option<String>)
    ensures
        field matches Some(s) ==> field_text(field) == s@,
        field is None ==> field_text(field) == Seq::<char>::empty(),
{
}

/// Whatever role a found user holds, the login succeeds (200) and hands out a
/// token issued for that user with exactly that role; a login that found no
/// user is refused (401) without a token.
pub proof fn lemma_found_user_gets_token(role: Seq<char>, username: Seq<char>, secret: Seq<char>)
    ensures
        login_reply(Some(role), username, secret) == (
            200u16,
            ResponseView::Success(jwt_hs256(issued_claims(username, seq![role]), secret)),
        ),
        login_reply(None, username, secret) == (401u16, ResponseView::Error("Unauthorized"@)),
{
}

/// The first user a lookup returns decides the login: any non-empty lookup
/// makes the login succeed with that user's role, an empty or failed one makes
/// it fail.
pub proof fn lemma_lookup_decides_login(lookup: Result<Vec<User>, String>)
    ensures
        (lookup matches Ok(users) && users.len() > 0) ==> found_role(lookup) == Some(
            lookup->Ok_0[0].roles@,
        ),
        !(lookup matches Ok(users) && users.len() > 0) ==> found_role(lookup) is None,
{
}

/// The token a successful login hands out is given back by a validation with
/// the same secret at time `now` as the user's name and role, unless it has
/// expired; and it grants admin rights exactly when it has not expired and
/// that role contains "Admin". A failed login hands out no token.
pub proof fn lemma_login_token(
    role: Option<Seq<char>>,
    username: Seq<char>,
    secret: Seq<char>,
    token: Seq<char>,
    now: u64,
    outcome: Result<ClaimsView, TokenError>,
)
    requires
        login_reply(role, username, secret).1 == ResponseView::Success(token),
        validation_outcome(token, secret, now, outcome),
    ensures
        role is Some,
        !is_expired(TOKEN_EXPIRY, now) ==> outcome == Ok::<ClaimsView, TokenError>(
            issued_claims(username, seq![role->0]),
        ),
        is_expired(TOKEN_EXPIRY, now) ==> outcome == Err::<ClaimsView, TokenError>(
            TokenError::ExpiredSignature,
        ),
        grants_admin(outcome) <==> (!is_expired(TOKEN_EXPIRY, now) && seq_contains(
            role->0,
            Roles::Admin.spec_name(),
        )),
{
    let r = role->0;
    lemma_issued_token_round_trip(username, seq![r], secret, now, outcome);
    lemma_issued_token_admin(username, r, secret, now, outcome);
}

/// The token a successful login hands out, sent back as "Bearer <token>"
/// before it expires, opens the user route, and opens the admin route exactly
/// when the user's role contains "Admin".
pub proof fn lemma_login_token_opens_routes(
    role: Seq<char>,
    username: Seq<char>,
    secret: Seq<char>,
    token: Seq<char>,
    now: u64,
    outcome: Result<ClaimsView, TokenError>,
)
    requires
        login_reply(Some(role), username, secret).1 == ResponseView::Success(token),
        is_compact_token(token),
        request_outcome(Some("Bearer "@ + token), secret, now, outcome),
        !is_expired(TOKEN_EXPIRY, now),
    ensures
        bearer_token(Some("Bearer "@ + token)) == Some(token),
        user_reply(bearer_token(Some("Bearer "@ + token)) is Some && outcome is Ok) == (
            200u16,
            "User access granted!"@,
        ),
        admin_reply(bearer_token(Some("Bearer "@ + token)) is Some && grants_admin(outcome))
            == admin_reply(seq_contains(role, Roles::Admin.spec_name())),
{
    reveal_strlit("Bearer ");
    if token.len() >= 7 && token.subrange(0, 7) == "Bearer "@ {
        assert(token[6] == token.subrange(0, 7)[6]);
        assert(!is_token_char(token[6]));
    }
    lemma_bearer_header(token);
    lemma_login_token(Some(role), username, secret, token, now, outcome);
}

} // verus!
