//! `GET /users/me`.
use vstd::prelude::*;
use crate::error::AppError;
use crate::models::user::{shown, User, UserResponse};

verus! {

/// The answer to `GET /users/me`, given the caller's account as looked up by
/// identifier: what may be shown of it, or `NotFound` when it is gone.
pub fn me_response(found: Option<User>) -> (r: Result<UserResponse, AppError>)
    ensures
        match found {
            Some(user) => r == Ok::<UserResponse, AppError>(shown(user)),
            None => r matches Err(AppError::NotFound(m)) && m@ == "user not found"@,
        },
{
    match found {
        Some(user) => Ok(UserResponse::from(user)),
        None => Err(AppError::NotFound(String::from_str("user not found"))),
    }
}

} // verus!
