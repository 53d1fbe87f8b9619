//! The registration route: checking the submitted fields, and answering once
//! the new user has (or has not) been stored.
use vstd::prelude::*;
use crate::login::{field_or_empty, field_text};
use crate::utils::{JsonResponseToken, ResponseView};

verus! {

/// What the registration route does next with the submitted fields.
pub enum RegisterStep<'a> {
    /// Answer right away with this status and body.
    Respond(u16, JsonResponseToken<'a>),
    /// Store a new user with these fields.
    AddUser { username: String, password: String, role: String },
}

/// Checks the username, password and role fields of a registration request:
/// any of them missing or empty is a bad request (400), otherwise a user with
/// these three is stored.
pub fn register_request<'a>(
    username: Option<String>,
    password: Option<String>,
    role: Option<String>,
) -> (step: RegisterStep<'a>)
    ensures
        (field_text(username).len() == 0 || field_text(password).len() == 0 || field_text(role).len() == 0) ==> (step matches RegisterStep::Respond(code, body) && code == 400 && body@ == ResponseView::Error(
            "Missing either username, password, or role in request"@,
        )),
        (field_text(username).len() != 0 && field_text(password).len() != 0 && field_text(role).len() != 0) ==> (step matches RegisterStep::AddUser { username: u, password: p, role: r } && u@ == field_text(username) && p@ == field_text(password) && r@ == field_text(role)),
        (username is Some && password is Some && role is Some && username->0@.len() > 0 && password->0@.len() > 0 && role->0@.len() > 0) ==> (step matches RegisterStep::AddUser { username: a, password: b, role: c } && a@ == username->0@ && b@ == password->0@ && c@ == role->0@),
        (username is None || password is None || role is None || (username matches Some(u) && u@.len() == 0) || (password matches Some(p) && p@.len() == 0) || (role matches Some(r) && r@.len() == 0)) ==> (step matches RegisterStep::Respond(code, body) && code == 400 && body@ == ResponseView::Error(
            "Missing either username, password, or role in request"@,
        )),
{
    let username_val = field_or_empty(username);
    let password_val = field_or_empty(password);
    let role_val = field_or_empty(role);
    if username_val.as_str().is_empty() || password_val.as_str().is_empty() || role_val.as_str().is_empty() {
        return RegisterStep::Respond(
            400,
            JsonResponseToken::Error {
                message: "Missing either username, password, or role in request",
            },
        );
    }
    RegisterStep::AddUser { username: username_val, password: password_val, role: role_val }
}

/// The answer to a registration whose insertion succeeded (200, "User added")
/// or failed (500).
pub open spec fn register_reply(inserted: bool) -> (u16, ResponseView) {
    if inserted {
        (200, ResponseView::Error("User added"@))
    } else {
        (500, ResponseView::Error("Error while inserting new user"@))
    }
}

/// Answers a registration from the result of storing the new user.
pub fn call_add_user<'a>(inserted: Result<(), String>) -> (reply: (u16, JsonResponseToken<'a>))
    ensures
        reply.0 == register_reply(inserted is Ok).0,
        reply.1@ == register_reply(inserted is Ok).1,
        inserted is Ok ==> reply.0 == 200 && reply.1@ == ResponseView::Error("User added"@),
        inserted is Err ==> reply.0 == 500 && reply.1@ == ResponseView::Error(
            "Error while inserting new user"@,
        ),
{
    match inserted {
        Ok(_) => (200, JsonResponseToken::Error { message: "User added" }),
        Err(_) => (500, JsonResponseToken::Error { message: "Error while inserting new user" }),
    }
}

/// A stored user is answered 200 "User added", a failed insertion 500.
pub proof fn lemma_register_reply()
    ensures
        register_reply(true) == (200u16, ResponseView::Error("User added"@)),
        register_reply(false) == (500u16, ResponseView::Error("Error while inserting new user"@)),
{
}

} // verus!
