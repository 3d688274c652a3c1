//! `/projects/{id}/tasks` and `/tasks/{id}`: the tasks of a user's projects.
use vstd::prelude::*;
use crate::error::AppError;
use crate::ids::{new_id, uuid_nibble, uuid_text, uuid_to_string};
use crate::models::task::{
    CreateTaskRequest, Task, TaskPriority, TaskStatus, UpdateTaskRequest,
};
use crate::models::Timestamp;
use crate::text::{join3, trim, trimmed, trimmed_is_trimmed};

verus! {

/// The row that `POST /projects/{id}/tasks` inserts.
#[derive(Debug, Clone, PartialEq, Eq)]
pub struct TaskInsert {
    pub id: u128,
    pub project_id: u128,
    pub title: String,
    pub description: Option<String>,
    pub priority: TaskPriority,
    pub due_date: Option<Timestamp>,
}

/// The values that `PUT /tasks/{id}` writes.
#[derive(Debug, Clone, PartialEq, Eq)]
pub struct TaskChanges {
    pub title: String,
    pub description: String,
    pub status: TaskStatus,
    pub priority: TaskPriority,
    pub due_date: Option<Timestamp>,
}

/// Whether a requested task title is blank (empty once trimmed).
pub open spec fn blank_title(title: Option<String>) -> bool {
    match title {
        Some(t) => trimmed(t@).len() == 0,
        None => false,
    }
}

/// The title a task has after an update that asks for `requested`: the
/// requested title trimmed, unless it is absent.
pub open spec fn updated_title(current: Seq<char>, requested: Option<String>) -> Seq<char> {
    match requested {
        Some(t) => trimmed(t@),
        None => current,
    }
}

/// The value a field has after an update that asks for `requested`: the
/// requested value, unless it is absent.
pub open spec fn updated<T>(current: T, requested: Option<T>) -> T {
    match requested {
        Some(v) => v,
        None => current,
    }
}

/// The value of an optional field after an update that asks for
/// `requested`: the requested value, unless it is absent.
pub open spec fn updated_option<T>(current: Option<T>, requested: Option<T>) -> Option<T> {
    match requested {
        Some(v) => Some(v),
        None => current,
    }
}

/// An update of a task can be carried out: the task has a description or
/// the update gives one. (Otherwise the handler stops, as the stored
/// description it would keep is missing.)
pub open spec fn update_possible(existing: Task, body: UpdateTaskRequest) -> bool {
    body.description is Some || existing.description is Some
}

/// The message of the `NotFound` for a task that is not among the caller's.
pub open spec fn task_not_found_message(task_id: u128) -> Seq<char> {
    "Task not found : "@ + uuid_text(task_id) + ""@
}

/// The first check of `POST /projects/{id}/tasks`: a blank title is a `BadRequest`.
pub fn check_new_task(body: &CreateTaskRequest) -> (r: Result<(), AppError>)
    ensures
        trimmed(body.title@).len() == 0 ==> (r matches Err(AppError::BadRequest(m)) && m@
            == "Task title cannot be empty"@),
        trimmed(body.title@).len() > 0 ==> r is Ok,
{
    if trim(body.title.as_str()).unicode_len() == 0 {
        return Err(AppError::BadRequest(String::from_str("Task title cannot be empty")));
    }
    Ok(())
}

/// The row to insert for `POST /projects/{id}/tasks`, given the project as
/// looked up among the caller's: `NotFound` when it is not there; otherwise a
/// fresh identifier, the project, the trimmed title, the description and due
/// date as given, and the priority asked for (`Medium` when none is).
pub fn new_task(project_id: u128, project: Option<u128>, body: CreateTaskRequest) -> (r: Result<
    TaskInsert,
    AppError,
>)
    ensures
        project is None ==> (r matches Err(AppError::NotFound(m)) && m@ == "Project "@ + uuid_text(
            project_id,
        ) + " not found"@),
        project is Some ==> (r matches Ok(row) && row.project_id == project_id && row.title@
            == trimmed(body.title@) && row.description == body.description && row.priority
            == updated(TaskPriority::Medium, body.priority) && row.due_date == body.due_date
            && uuid_nibble(row.id, 12) == 4 && 8 <= uuid_nibble(row.id, 16) <= 11),
{
    if project.is_none() {
        return Err(
            AppError::NotFound(join3("Project ", uuid_to_string(project_id).as_str(), " not found")),
        );
    }
    let title = String::from_str(trim(body.title.as_str()));
    let priority = match body.priority {
        Some(p) => p,
        None => TaskPriority::Medium,
    };
    let id = new_id();
    Ok(TaskInsert { id, project_id, title, description: body.description, priority, due_date: body.due_date })
}

/// Whether `GET /projects/{id}/tasks` may list, given the project as looked
/// up among the caller's: `NotFound` when it is not there.
pub fn task_list_allowed(project_id: u128, project: Option<u128>) -> (r: Result<(), AppError>)
    ensures
        project is Some ==> r is Ok,
        project is None ==> (r matches Err(AppError::NotFound(m)) && m@ == "project does not exist: "@
            + uuid_text(project_id) + ""@),
{
    if project.is_none() {
        return Err(
            AppError::NotFound(join3("project does not exist: ", uuid_to_string(project_id).as_str(), "")),
        );
    }
    Ok(())
}

/// The answer to `GET /tasks/{id}`, given the task as looked up among the
/// caller's projects: the task, or `NotFound`.
pub fn task_found(task_id: u128, found: Option<Task>) -> (r: Result<Task, AppError>)
    ensures
        match found {
            Some(t) => r == Ok::<Task, AppError>(t),
            None => r matches Err(AppError::NotFound(m)) && m@ == task_not_found_message(task_id),
        },
{
    match found {
        Some(t) => Ok(t),
        None => Err(AppError::NotFound(join3("Task not found : ", uuid_to_string(task_id).as_str(), ""))),
    }
}

/// Whether `task_update` can carry out this update: false only when the task
/// is there, the title is not blank, and neither the task nor the update
/// has a description (where the handler stops).
pub fn task_update_possible(existing: &Option<Task>, body: &UpdateTaskRequest) -> (r: bool)
    ensures
        r == (*existing matches Some(t) ==> (!blank_title(body.title) ==> update_possible(t, *body))),
{
    match existing {
        Some(t) => {
            let blank = match &body.title {
                Some(title) => trim(title.as_str()).unicode_len() == 0,
                None => false,
            };
            blank || body.description.is_some() || t.description.is_some()
        },
        None => true,
    }
}

/// What `PUT /tasks/{id}` writes, given the task as looked up among the
/// caller's projects: `NotFound` when it is not there, `BadRequest` for a
/// blank title; otherwise every field the update gives (the title trimmed),
/// and the task's own value for every field it leaves out.
pub fn task_update(task_id: u128, existing: Option<Task>, body: UpdateTaskRequest) -> (r: Result<
    TaskChanges,
    AppError,
>)
    requires
        existing matches Some(t) ==> (!blank_title(body.title) ==> update_possible(t, body)),
    ensures
        match existing {
            None => r matches Err(AppError::NotFound(m)) && m@ == task_not_found_message(task_id),
            Some(t) => if blank_title(body.title) {
                r matches Err(AppError::BadRequest(m)) && m@ == "Task title cannot be empty"@
            } else {
                r matches Ok(c) && c.title@ == updated_title(t.title@, body.title) && Some(c.description)
                    == updated_option(t.description, body.description) && c.status == updated(
                    t.status,
                    body.status,
                ) && c.priority == updated(t.priority, body.priority) && c.due_date == updated_option(
                    t.due_date,
                    body.due_date,
                )
            },
        },
        r matches Ok(c) ==> (body.title matches Some(t) ==> c.title@ == trimmed(t@)),
        r matches Ok(c) ==> (body.description matches Some(d) ==> c.description == d),
        r matches Ok(c) ==> (body.status matches Some(s) ==> c.status == s),
        r matches Ok(c) ==> (body.priority matches Some(p) ==> c.priority == p),
        r matches Ok(c) ==> (body.due_date matches Some(d) ==> c.due_date == Some(d)),
        r matches Ok(c) ==> (existing matches Some(t) && (body.title is None ==> c.title == t.title)
            && (body.description is None ==> t.description == Some(c.description)) && (
        body.status is None ==> c.status == t.status) && (body.priority is None ==> c.priority
            == t.priority) && (body.due_date is None ==> c.due_date == t.due_date)),
{
    let t = match existing {
        Some(t) => t,
        None => {
            return Err(AppError::NotFound(join3("Task not found : ", uuid_to_string(task_id).as_str(), "")));
        },
    };
    let title = match &body.title {
        Some(requested) => {
            let trimmed_title = trim(requested.as_str());
            if trimmed_title.unicode_len() == 0 {
                return Err(AppError::BadRequest(String::from_str("Task title cannot be empty")));
            }
            String::from_str(trimmed_title)
        },
        None => t.title,
    };
    let description = match body.description {
        Some(d) => d,
        None => t.description.unwrap(),
    };
    let status = match body.status {
        Some(s) => s,
        None => t.status,
    };
    let priority = match body.priority {
        Some(p) => p,
        None => t.priority,
    };
    let due_date = match body.due_date {
        Some(d) => Some(d),
        None => t.due_date,
    };
    Ok(TaskChanges { title, description, status, priority, due_date })
}

/// The answer to `DELETE /tasks/{id}`, given how many of the caller's tasks
/// the deletion removed: none is `NotFound`.
pub fn task_deleted(task_id: u128, rows_affected: u64) -> (r: Result<(), AppError>)
    ensures
        rows_affected > 0 ==> r is Ok,
        rows_affected == 0 ==> (r matches Err(AppError::NotFound(m)) && m@ == "Task "@ + uuid_text(
            task_id,
        ) + " not found"@),
{
    if rows_affected == 0 {
        return Err(AppError::NotFound(join3("Task ", uuid_to_string(task_id).as_str(), " not found")));
    }
    Ok(())
}

/// Sending the same `PUT /tasks/{id}` twice leaves the task as the first one
/// left it: every field the update gives is written again with the same value.
pub proof fn task_update_is_idempotent(task: Task, body: UpdateTaskRequest)
    ensures
        updated_title(updated_title(task.title@, body.title), body.title) == updated_title(
            task.title@,
            body.title,
        ),
        updated_option(updated_option(task.description, body.description), body.description)
            == updated_option(task.description, body.description),
        updated(updated(task.status, body.status), body.status) == updated(task.status, body.status),
        updated(updated(task.priority, body.priority), body.priority) == updated(
            task.priority,
            body.priority,
        ),
        updated_option(updated_option(task.due_date, body.due_date), body.due_date)
            == updated_option(task.due_date, body.due_date),
{
}

/// An update that asks for nothing writes the task's own values back.
pub proof fn empty_task_update_changes_nothing(task: Task)
    ensures
        updated_title(task.title@, None) == task.title@,
        updated_option(task.description, None) == task.description,
        updated(task.status, None) == task.status,
        updated(task.priority, None) == task.priority,
        updated_option(task.due_date, None) == task.due_date,
{
}

/// A task title as stored (by creation or update, from a trimmed title) has
/// no white space at either end: trimming it again changes nothing.
pub proof fn stored_task_titles_are_trimmed(current: Seq<char>, requested: Option<String>)
    requires
        trimmed(current) == current,
    ensures
        trimmed(updated_title(current, requested)) == updated_title(current, requested),
{
    if let Some(t) = requested {
        trimmed_is_trimmed(t@);
    }
}

/// An update writes every value it gives, whatever the task held: the
/// requested title trimmed, and the requested description, status,
/// priority and due date as they are.
pub proof fn task_updates_write_requested_values(
    task: Task,
    title: String,
    description: String,
    status: TaskStatus,
    priority: TaskPriority,
    due_date: Timestamp,
)
    ensures
        updated_title(task.title@, Some(title)) == trimmed(title@),
        updated_option(task.description, Some(description)) == Some(description),
        updated(task.status, Some(status)) == status,
        updated(task.priority, Some(priority)) == priority,
        updated_option(task.due_date, Some(due_date)) == Some(due_date),
{
}

} // verus!
