//! Accounts.
use vstd::prelude::*;
use crate::models::Timestamp;

verus! {

/// A stored account, password hash included.
#[derive(Debug, Clone, PartialEq, Eq)]
pub struct User {
    pub id: u128,
    pub email: String,
    pub name: String,
    pub password_hash: String,
    pub created_at: Timestamp,
    pub updated_at: Timestamp,
}

/// What the service shows of an account: never its password hash.
#[derive(Debug, Clone, PartialEq, Eq)]
pub struct UserResponse {
    pub id: u128,
    pub email: String,
    pub name: String,
    pub created_at: Timestamp,
}

/// What may be shown of an account: everything but the password hash and
/// the update time.
pub open spec fn shown(user: User) -> UserResponse {
    UserResponse { id: user.id, email: user.email, name: user.name, created_at: user.created_at }
}

impl From<User> for UserResponse {
    fn from(user: User) -> (r: UserResponse) {
        UserResponse { id: user.id, email: user.email, name: user.name, created_at: user.created_at }
    }
}

impl vstd::std_specs::convert::FromSpecImpl<User> for UserResponse {
    open spec fn obeys_from_spec() -> bool {
        true
    }

    open spec fn from_spec(user: User) -> UserResponse {
        shown(user)
    }
}

} // verus!
