//! `/projects`: creating, reading, changing and deleting a user's projects.
use vstd::prelude::*;
use crate::error::AppError;
use crate::ids::{new_id, uuid_nibble, uuid_text, uuid_to_string};
use crate::models::project::{CreateProjectRequest, Project, UpdateProjectRequest};
use crate::text::{join3, trim, trimmed, trimmed_is_trimmed};

verus! {

/// The row that `POST /projects` inserts.
#[derive(Debug, Clone, PartialEq, Eq)]
pub struct ProjectInsert {
    pub id: u128,
    pub user_id: u128,
    pub name: String,
    pub description: Option<String>,
}

/// The values that `PUT /projects/{id}` writes.
#[derive(Debug, Clone, PartialEq, Eq)]
pub struct ProjectChanges {
    pub name: String,
    pub description: Option<String>,
}

/// The name a project has after an update that asks for `requested`: the
/// requested name trimmed, unless it is absent or blank.
pub open spec fn updated_name(current: Seq<char>, requested: Option<String>) -> Seq<char> {
    match requested {
        Some(n) => if trimmed(n@).len() > 0 {
            trimmed(n@)
        } else {
            current
        },
        None => current,
    }
}

/// The description a project has after an update that asks for `requested`:
/// the requested one, unless it is absent.
pub open spec fn updated_description(current: Option<String>, requested: Option<String>) -> Option<
    String,
> {
    match requested {
        Some(d) => Some(d),
        None => current,
    }
}

/// The row to insert for `POST /projects` by `user_id`: a blank name is a
/// `BadRequest`; otherwise a fresh identifier, the owner, the trimmed name
/// and the description as given.
pub fn new_project(user_id: u128, body: CreateProjectRequest) -> (r: Result<ProjectInsert, AppError>)
    ensures
        trimmed(body.name@).len() == 0 ==> (r matches Err(AppError::BadRequest(m)) && m@
            == "Project name cannot be empty"@),
        trimmed(body.name@).len() > 0 ==> (r matches Ok(row) && row.user_id == user_id && row.name@
            == trimmed(body.name@) && row.description == body.description && uuid_nibble(row.id, 12)
            == 4 && 8 <= uuid_nibble(row.id, 16) <= 11),
{
    let name = trim(body.name.as_str());
    if name.unicode_len() == 0 {
        return Err(AppError::BadRequest(String::from_str("Project name cannot be empty")));
    }
    let name = String::from_str(name);
    let id = new_id();
    Ok(ProjectInsert { id, user_id, name, description: body.description })
}

/// The answer to `GET /projects/{id}`, given the project as looked up among
/// the caller's: the project, or `NotFound`.
pub fn project_found(project_id: u128, found: Option<Project>) -> (r: Result<Project, AppError>)
    ensures
        match found {
            Some(p) => r == Ok::<Project, AppError>(p),
            None => r matches Err(AppError::NotFound(m)) && m@ == "Project "@ + uuid_text(project_id)
                + " not found"@,
        },
{
    match found {
        Some(p) => Ok(p),
        None => Err(
            AppError::NotFound(join3("Project ", uuid_to_string(project_id).as_str(), " not found")),
        ),
    }
}

/// What `PUT /projects/{id}` writes, given the project as looked up among the
/// caller's: `NotFound` when it is not there; otherwise the updated name and
/// description.
pub fn project_update(project_id: u128, existing: Option<Project>, body: UpdateProjectRequest) -> (r:
    Result<ProjectChanges, AppError>)
    ensures
        match existing {
            Some(p) => r matches Ok(c) && c.name@ == updated_name(p.name@, body.name)
                && c.description == updated_description(p.description, body.description),
            None => r matches Err(AppError::NotFound(m)) && m@ == "Project not found : "@ + uuid_text(
                project_id,
            ) + ""@,
        },
        r matches Ok(c) ==> (body.description matches Some(d) ==> c.description == Some(d)),
        r matches Ok(c) ==> (body.name matches Some(n) ==> (trimmed(n@).len() > 0 ==> c.name@
            == trimmed(n@))),
        r matches Ok(c) ==> (existing matches Some(p) && (body.description is None
            ==> c.description == p.description) && (body.name is None ==> c.name == p.name) && (
        body.name matches Some(n) && trimmed(n@).len() == 0 ==> c.name == p.name)),
{
    let p = match existing {
        Some(p) => p,
        None => {
            return Err(
                AppError::NotFound(join3("Project not found : ", uuid_to_string(project_id).as_str(), "")),
            );
        },
    };
    let name = match &body.name {
        Some(n) => {
            let t = trim(n.as_str());
            if t.unicode_len() > 0 {
                String::from_str(t)
            } else {
                p.name
            }
        },
        None => p.name,
    };
    let description = match body.description {
        Some(d) => Some(d),
        None => p.description,
    };
    Ok(ProjectChanges { name, description })
}

/// The answer to `DELETE /projects/{id}`, given how many of the caller's
/// projects the deletion removed: none is `NotFound`.
pub fn project_deleted(project_id: u128, rows_affected: u64) -> (r: Result<(), AppError>)
    ensures
        rows_affected > 0 ==> r is Ok,
        rows_affected == 0 ==> (r matches Err(AppError::NotFound(m)) && m@ == "Project "@ + uuid_text(
            project_id,
        ) + " not found"@),
{
    if rows_affected == 0 {
        return Err(
            AppError::NotFound(join3("Project ", uuid_to_string(project_id).as_str(), " not found")),
        );
    }
    Ok(())
}

/// Sending the same `PUT /projects/{id}` twice leaves the project as the
/// first one left it.
pub proof fn project_update_is_idempotent(
    name: Seq<char>,
    description: Option<String>,
    body: UpdateProjectRequest,
)
    ensures
        updated_name(updated_name(name, body.name), body.name) == updated_name(name, body.name),
        updated_description(updated_description(description, body.description), body.description)
            == updated_description(description, body.description),
{
}

/// An update that asks for nothing leaves the project as it is.
pub proof fn empty_project_update_changes_nothing(name: Seq<char>, description: Option<String>)
    ensures
        updated_name(name, None) == name,
        updated_description(description, None) == description,
{
}

/// A project name as stored (by creation or update, from a trimmed name) has
/// no white space at either end: trimming it again changes nothing.
pub proof fn stored_project_names_are_trimmed(current: Seq<char>, requested: Option<String>)
    requires
        trimmed(current) == current,
    ensures
        trimmed(updated_name(current, requested)) == updated_name(current, requested),
{
    if let Some(n) = requested {
        trimmed_is_trimmed(n@);
    }
}

/// An update that gives a description writes exactly that description,
/// and one that gives a non-blank name writes that name trimmed, whatever
/// the project held.
pub proof fn project_updates_write_requested_values(
    name: Seq<char>,
    description: Option<String>,
    requested_name: String,
    requested_description: String,
)
    ensures
        updated_description(description, Some(requested_description)) == Some(requested_description),
        trimmed(requested_name@).len() > 0 ==> updated_name(name, Some(requested_name)) == trimmed(
            requested_name@,
        ),
        trimmed(requested_name@).len() == 0 ==> updated_name(name, Some(requested_name)) == name,
{
}

} // verus!
