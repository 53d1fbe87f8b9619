use vstd::prelude::*;
use vstd::string::*;

verus! {

/// The roles a user of the API can hold.
#[derive(Debug, Clone, Copy, PartialEq, Eq)]
pub enum Roles {
    Admin,
    User,
}

impl Roles {
    /// The role's name as it is stored with a user and carried in tokens.
    pub open spec fn spec_name(self) -> Seq<char> {
        match self {
            Roles::Admin => "Admin"@,
            Roles::User => "User"@,
        }
    }

    /// Returns the role's name as an owned string.
    pub fn as_str(&self) -> (name: String)
        ensures
            name@ == self.spec_name(),
    {
        match self {
            Roles::Admin => String::from_str("Admin"),
            Roles::User => String::from_str("User"),
        }
    }
}

/// A stored user account. `roles` holds the text that was registered as the
/// user's role.
#[derive(Debug, PartialEq, Eq)]
pub struct User {
    pub id: i32,
    pub username: String,
    pub password: String,
    pub roles: String,
}

} // verus!
