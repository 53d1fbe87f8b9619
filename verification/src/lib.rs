//! Authentication logic of a small JWT-protected user API: roles and user
//! records, token issuing and checking, and the decisions the HTTP handlers
//! make for login, registration and the protected routes.
pub mod admin;
pub mod auth;
pub mod login;
pub mod models;
pub mod register;
pub mod text;
pub mod utils;
