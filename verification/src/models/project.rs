//! Projects: named containers of tasks, each owned by one user.
use vstd::prelude::*;
use crate::models::Timestamp;

verus! {

/// A stored project.
#[derive(Debug, Clone, PartialEq, Eq)]
pub struct Project {
    pub id: u128,
    pub user_id: u128,
    pub name: String,
    pub description: Option<String>,
    pub created_at: Timestamp,
    pub updated_at: Timestamp,
}

/// The body of a request that creates a project.
#[derive(Debug, Clone, PartialEq, Eq)]
pub struct CreateProjectRequest {
    pub name: String,
    pub description: Option<String>,
}

/// The body of a request that changes a project; an absent field is left as it is.
#[derive(Debug, Clone, PartialEq, Eq)]
pub struct UpdateProjectRequest {
    pub name: Option<String>,
    pub description: Option<String>,
}

} // verus!
