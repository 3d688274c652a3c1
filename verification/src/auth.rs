//! Accounts and authentication: registration, access tokens, and reading
//! the caller's identity from a request.
pub mod handlers;
pub mod jwt;
pub mod middleware;
