//! Access decisions for the protected routes: who counts as an admin, and
//! what the admin and user routes answer.
use vstd::prelude::*;
use crate::auth::{
    is_expired, issued_claims, jwt_hs256, outcome_view, validate_jwt, validation_outcome, Claims,
    ClaimsView, TokenError, TOKEN_EXPIRY,
};
use crate::models::Roles;
use crate::text::{occurs_at, seq_contains, str_contains};
use crate::utils::{bearer_token, get_bearer_token, text_view};

verus! {

/// A validation outcome grants admin rights when the token was accepted and
/// its first role contains the admin role's name.
pub open spec fn grants_admin(outcome: Result<ClaimsView, TokenError>) -> bool {
    match outcome {
        Ok(c) => c.roles.len() > 0 && seq_contains(c.roles[0], Roles::Admin.spec_name()),
        Err(_) => false,
    }
}

/// Decides admin rights from the result of validating a token.
pub fn admin_from_validation(outcome: &Result<Claims, TokenError>) -> (admin: bool)
    ensures
        admin == grants_admin(outcome_view(*outcome)),
{
    match outcome {
        Ok(claims) => {
            if claims.roles.len() > 0 {
                let admin_name = Roles::Admin.as_str();
                let first_role = &claims.roles[0];
                str_contains(first_role.as_str(), admin_name.as_str())
            } else {
                false
            }
        },
        Err(_) => false,
    }
}

/// Whether `token`, checked against `secret`, grants admin rights. The answer
/// is the admin decision on the validation outcome at the time the clock
/// was read.
pub fn is_admin(token: &str, secret: &str) -> (admin: bool)
    ensures
        exists|now: u64, outcome: Result<ClaimsView, TokenError>|
            validation_outcome(token@, secret@, now, outcome) && admin == grants_admin(outcome),
{
    let outcome = validate_jwt(token, secret);
    let admin = admin_from_validation(&outcome);
    let ghost now = choose|now: u64| validation_outcome(token@, secret@, now, outcome_view(outcome));
    assert(validation_outcome(token@, secret@, now, outcome_view(outcome)));
    admin
}

/// What validating the bearer token of a request at time `now` answers
/// (anything, when the request carries no token).
pub open spec fn request_outcome(
    authorization: Option<Seq<char>>,
    secret: Seq<char>,
    now: u64,
    outcome: Result<ClaimsView, TokenError>,
) -> bool {
    match bearer_token(authorization) {
        Some(t) => validation_outcome(t, secret, now, outcome),
        None => true,
    }
}

/// Status and body text of the admin route for a request whose bearer token
/// was (or was not) found to grant admin rights.
pub open spec fn admin_reply(granted: bool) -> (u16, Seq<char>) {
    if granted {
        (200, "Admin access granted!"@)
    } else {
        (403, "Forbidden"@)
    }
}

/// Status and body text of the user route for a request whose bearer token
/// was (or was not) accepted.
pub open spec fn user_reply(accepted: bool) -> (u16, Seq<char>) {
    if accepted {
        (200, "User access granted!"@)
    } else {
        (403, "Forbidden"@)
    }
}

/// Answers a request to the admin route, given its `Authorization` header
/// value (if readable) and the signing secret.
pub fn admin_response(authorization: Option<&str>, secret: &str) -> (reply: (u16, &'static str))
    ensures
        exists|now: u64, outcome: Result<ClaimsView, TokenError>|
            {
                &&& #[trigger] request_outcome(text_view(authorization), secret@, now, outcome)
                &&& reply.0 == admin_reply(
                    bearer_token(text_view(authorization)) is Some && grants_admin(outcome),
                ).0
                &&& reply.1@ == admin_reply(
                    bearer_token(text_view(authorization)) is Some && grants_admin(outcome),
                ).1
            },
{
    let token = get_bearer_token(authorization);
    match token {
        Some(t) => {
            let outcome = validate_jwt(t, secret);
            let ghost now = choose|now: u64| validation_outcome(t@, secret@, now, outcome_view(outcome));
            assert(request_outcome(text_view(authorization), secret@, now, outcome_view(outcome)));
            if admin_from_validation(&outcome) {
                (200, "Admin access granted!")
            } else {
                (403, "Forbidden")
            }
        },
        None => {
            assert(request_outcome(text_view(authorization), secret@, 0, Err(TokenError::Invalid)));
            (403, "Forbidden")
        },
    }
}

/// Answers a request to the user route, given its `Authorization` header
/// value (if readable) and the signing secret.
pub fn user_response(authorization: Option<&str>, secret: &str) -> (reply: (u16, &'static str))
    ensures
        exists|now: u64, outcome: Result<ClaimsView, TokenError>|
            {
                &&& #[trigger] request_outcome(text_view(authorization), secret@, now, outcome)
                &&& reply.0 == user_reply(
                    bearer_token(text_view(authorization)) is Some && outcome is Ok,
                ).0
                &&& reply.1@ == user_reply(
                    bearer_token(text_view(authorization)) is Some && outcome is Ok,
                ).1
            },
{
    let token = get_bearer_token(authorization);
    match token {
        Some(t) => {
            let outcome = validate_jwt(t, secret);
            let ghost now = choose|now: u64| validation_outcome(t@, secret@, now, outcome_view(outcome));
            assert(request_outcome(text_view(authorization), secret@, now, outcome_view(outcome)));
            match outcome {
                Ok(_) => (200, "User access granted!"),
                Err(_) => (403, "Forbidden"),
            }
        },
        None => {
            assert(request_outcome(text_view(authorization), secret@, 0, Err(TokenError::Invalid)));
            (403, "Forbidden")
        },
    }
}

/// A token issued with a single role grants admin rights under the same
/// secret at time `now` exactly when it has not expired and the role contains
/// "Admin".
pub proof fn lemma_issued_token_admin(
    sub: Seq<char>,
    role: Seq<char>,
    secret: Seq<char>,
    now: u64,
    outcome: Result<ClaimsView, TokenError>,
)
    requires
        validation_outcome(jwt_hs256(issued_claims(sub, seq![role]), secret), secret, now, outcome),
    ensures
        grants_admin(outcome) <==> (!is_expired(TOKEN_EXPIRY, now) && seq_contains(
            role,
            Roles::Admin.spec_name(),
        )),
{
    let c = issued_claims(sub, seq![role]);
    assert(jwt_hs256(c, secret) == jwt_hs256(c, secret));
}

/// A token issued for the plain user role never grants admin rights.
pub proof fn lemma_user_role_never_admin(
    sub: Seq<char>,
    secret: Seq<char>,
    now: u64,
    outcome: Result<ClaimsView, TokenError>,
)
    requires
        validation_outcome(
            jwt_hs256(issued_claims(sub, seq![Roles::User.spec_name()]), secret),
            secret,
            now,
            outcome,
        ),
    ensures
        !grants_admin(outcome),
{
    lemma_issued_token_admin(sub, Roles::User.spec_name(), secret, now, outcome);
    reveal_strlit("User");
    reveal_strlit("Admin");
    assert(!seq_contains(Roles::User.spec_name(), Roles::Admin.spec_name()));
}

/// A token issued for the admin role grants admin rights as long as it has
/// not expired.
pub proof fn lemma_admin_role_is_admin(
    sub: Seq<char>,
    secret: Seq<char>,
    now: u64,
    outcome: Result<ClaimsView, TokenError>,
)
    requires
        validation_outcome(
            jwt_hs256(issued_claims(sub, seq![Roles::Admin.spec_name()]), secret),
            secret,
            now,
            outcome,
        ),
    ensures
        !is_expired(TOKEN_EXPIRY, now) ==> grants_admin(outcome),
{
    lemma_issued_token_admin(sub, Roles::Admin.spec_name(), secret, now, outcome);
    let name = Roles::Admin.spec_name();
    assert(name.subrange(0, name.len() as int) =~= name);
    assert(occurs_at(name, name, 0));
    assert(seq_contains(name, name));
}

/// Whoever the admin route lets in, the user route lets in too: for one
/// request and one validation outcome, an admin grant means the token was
/// accepted.
pub proof fn lemma_admin_implies_user(
    authorization: Option<Seq<char>>,
    outcome: Result<ClaimsView, TokenError>,
)
    ensures
        grants_admin(outcome) ==> outcome is Ok,
        admin_reply(bearer_token(authorization) is Some && grants_admin(outcome)).0 == 200
            ==> user_reply(bearer_token(authorization) is Some && outcome is Ok) == (
            200u16,
            "User access granted!"@,
        ),
{
}

} // verus!
