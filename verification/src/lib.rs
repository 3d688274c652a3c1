//! A task-tracking service's logic, verified: accounts and access tokens,
//! projects and their tasks, and the errors requests end in. The HTTP
//! server and the database calls stand around it.
pub mod auth;
pub mod clock;
pub mod error;
pub mod ids;
pub mod models;
pub mod routes;
pub mod text;
