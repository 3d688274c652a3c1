//! Tasks: the items of a project.
use vstd::prelude::*;
use crate::models::Timestamp;

verus! {

/// Where a task stands.
#[derive(Debug, Clone, Copy, PartialEq, Eq, Structural)]
pub enum TaskStatus {
    Todo,
    InProgress,
    Done,
}

/// How urgent a task is.
#[derive(Debug, Clone, Copy, PartialEq, Eq, Structural)]
pub enum TaskPriority {
    Low,
    Medium,
    High,
}

/// A stored task.
#[derive(Debug, Clone, PartialEq, Eq)]
pub struct Task {
    pub id: u128,
    pub project_id: u128,
    pub title: String,
    pub description: Option<String>,
    pub status: TaskStatus,
    pub priority: TaskPriority,
    pub due_date: Option<Timestamp>,
    pub created_at: Timestamp,
    pub updated_at: Timestamp,
}

/// The body of a request that creates a task.
#[derive(Debug, Clone, PartialEq, Eq)]
pub struct CreateTaskRequest {
    pub title: String,
    pub description: Option<String>,
    pub priority: Option<TaskPriority>,
    pub due_date: Option<Timestamp>,
}

/// The body of a request that changes a task; an absent field is left as it is.
#[derive(Debug, Clone, PartialEq, Eq)]
pub struct UpdateTaskRequest {
    pub title: Option<String>,
    pub description: Option<String>,
    pub status: Option<TaskStatus>,
    pub priority: Option<TaskPriority>,
    pub due_date: Option<Timestamp>,
}

} // verus!
