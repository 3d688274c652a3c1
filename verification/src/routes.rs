//! The decisions of the request handlers between their database steps.
pub mod projects;
pub mod tasks;
pub mod users;
