use task_api::error::AppError;
use task_api::models::project::{CreateProjectRequest, Project, UpdateProjectRequest};
use task_api::models::task::{
    CreateTaskRequest, Task, TaskPriority, TaskStatus, UpdateTaskRequest,
};
use task_api::models::user::{User, UserResponse};
use task_api::models::Timestamp;
use task_api::routes::projects::{
    new_project, project_deleted, project_found, project_update, ProjectChanges,
};
use task_api::routes::tasks::{
    check_new_task, new_task, task_deleted, task_found, task_list_allowed, task_update,
    task_update_possible, TaskChanges,
};
use task_api::routes::users::me_response;

const ID: u128 = 0x67e5_5044_10b1_426f_9247_bb68_0e5f_e0c8;
const ID_TEXT: &str = "67e55044-10b1-426f-9247-bb680e5fe0c8";
const OWNER: u128 = 7;
const T0: Timestamp = Timestamp { secs: 1_700_000_000, nanos: 0 };

fn project() -> Project {
    Project {
        id: ID,
        user_id: OWNER,
        name: "Garden".into(),
        description: Some("Spring work".into()),
        created_at: T0,
        updated_at: T0,
    }
}

fn task() -> Task {
    Task {
        id: ID,
        project_id: 3,
        title: "Dig".into(),
        description: Some("Beds".into()),
        status: TaskStatus::Todo,
        priority: TaskPriority::Low,
        due_date: None,
        created_at: T0,
        updated_at: T0,
    }
}

fn no_change() -> UpdateTaskRequest {
    UpdateTaskRequest { title: None, description: None, status: None, priority: None, due_date: None }
}

fn apply(t: &Task, c: TaskChanges) -> Task {
    Task {
        title: c.title,
        description: Some(c.description),
        status: c.status,
        priority: c.priority,
        due_date: c.due_date,
        ..t.clone()
    }
}

#[test]
fn me_shows_the_account_without_its_hash() {
    let u = User {
        id: ID,
        email: "a@b.c".into(),
        name: "Ada".into(),
        password_hash: "h".into(),
        created_at: T0,
        updated_at: Timestamp { secs: 5, nanos: 1 },
    };
    assert_eq!(
        me_response(Some(u)),
        Ok(UserResponse { id: ID, email: "a@b.c".into(), name: "Ada".into(), created_at: T0 })
    );
    assert_eq!(me_response(None), Err(AppError::NotFound("user not found".into())));
}

#[test]
fn new_projects_get_a_trimmed_name_and_a_fresh_id() {
    let row = new_project(OWNER, CreateProjectRequest { name: "  Garden ".into(), description: None }).unwrap();
    assert_eq!((row.user_id, row.name.as_str(), row.description), (OWNER, "Garden", None));
    let other = new_project(OWNER, CreateProjectRequest { name: "Garden".into(), description: None }).unwrap();
    assert_ne!(row.id, other.id);
    assert_eq!(&uuid::Uuid::from_u128(row.id).to_string()[14..15], "4");
}

#[test]
fn a_blank_project_name_is_refused() {
    assert_eq!(
        new_project(OWNER, CreateProjectRequest { name: " \n".into(), description: Some("d".into()) }),
        Err(AppError::BadRequest("Project name cannot be empty".into()))
    );
}

#[test]
fn a_missing_project_is_not_found_with_its_id() {
    assert_eq!(project_found(ID, Some(project())), Ok(project()));
    assert_eq!(
        project_found(ID, None),
        Err(AppError::NotFound(format!("Project {} not found", ID_TEXT)))
    );
    assert_eq!(
        project_update(ID, None, UpdateProjectRequest { name: None, description: None }),
        Err(AppError::NotFound(format!("Project not found : {}", ID_TEXT)))
    );
}

#[test]
fn project_updates_keep_what_they_do_not_give() {
    let empty = UpdateProjectRequest { name: None, description: None };
    assert_eq!(
        project_update(ID, Some(project()), empty),
        Ok(ProjectChanges { name: "Garden".into(), description: Some("Spring work".into()) })
    );
    let blank = UpdateProjectRequest { name: Some("   ".into()), description: Some("Autumn".into()) };
    assert_eq!(
        project_update(ID, Some(project()), blank),
        Ok(ProjectChanges { name: "Garden".into(), description: Some("Autumn".into()) })
    );
    let renamed = UpdateProjectRequest { name: Some(" Orchard ".into()), description: None };
    assert_eq!(
        project_update(ID, Some(project()), renamed),
        Ok(ProjectChanges { name: "Orchard".into(), description: Some("Spring work".into()) })
    );
}

#[test]
fn repeating_a_project_update_changes_nothing_more() {
    let body = UpdateProjectRequest { name: Some(" Orchard ".into()), description: Some("x".into()) };
    let first = project_update(ID, Some(project()), body.clone()).unwrap();
    let after = Project { name: first.name.clone(), description: first.description.clone(), ..project() };
    let second = project_update(ID, Some(after), body).unwrap();
    assert_eq!(first, second);
}

#[test]
fn deleting_nothing_is_not_found() {
    assert_eq!(project_deleted(ID, 1), Ok(()));
    assert_eq!(project_deleted(ID, 0), Err(AppError::NotFound(format!("Project {} not found", ID_TEXT))));
    assert_eq!(task_deleted(ID, 2), Ok(()));
    assert_eq!(task_deleted(ID, 0), Err(AppError::NotFound(format!("Task {} not found", ID_TEXT))));
}

#[test]
fn new_tasks_default_to_medium_priority() {
    let body = CreateTaskRequest { title: " Dig ".into(), description: None, priority: None, due_date: Some(T0) };
    assert_eq!(check_new_task(&body), Ok(()));
    let row = new_task(ID, Some(ID), body).unwrap();
    assert_eq!(
        (row.project_id, row.title.as_str(), row.priority, row.due_date),
        (ID, "Dig", TaskPriority::Medium, Some(T0))
    );
    let high = CreateTaskRequest { title: "Dig".into(), description: Some("d".into()), priority: Some(TaskPriority::High), due_date: None };
    let row = new_task(ID, Some(ID), high).unwrap();
    assert_eq!((row.priority, row.description), (TaskPriority::High, Some("d".into())));
}

#[test]
fn new_tasks_need_a_title_and_a_project() {
    let blank = CreateTaskRequest { title: "\t".into(), description: None, priority: None, due_date: None };
    assert_eq!(check_new_task(&blank), Err(AppError::BadRequest("Task title cannot be empty".into())));
    let body = CreateTaskRequest { title: "Dig".into(), description: None, priority: None, due_date: None };
    assert_eq!(new_task(ID, None, body), Err(AppError::NotFound(format!("Project {} not found", ID_TEXT))));
}

#[test]
fn listing_tasks_needs_the_project() {
    assert_eq!(task_list_allowed(ID, Some(ID)), Ok(()));
    assert_eq!(
        task_list_allowed(ID, None),
        Err(AppError::NotFound(format!("project does not exist: {}", ID_TEXT)))
    );
}

#[test]
fn a_missing_task_is_not_found() {
    assert_eq!(task_found(ID, Some(task())), Ok(task()));
    let e = Err(AppError::NotFound(format!("Task not found : {}", ID_TEXT)));
    assert_eq!(task_found(ID, None), e);
    assert_eq!(task_update(ID, None, no_change()), e.map(|_: Task| unreachable!()));
}

#[test]
fn task_updates_replace_given_fields_and_keep_the_rest() {
    let body = UpdateTaskRequest {
        title: Some("  Rake ".into()),
        description: None,
        status: Some(TaskStatus::Done),
        priority: None,
        due_date: Some(T0),
    };
    assert_eq!(
        task_update(ID, Some(task()), body),
        Ok(TaskChanges {
            title: "Rake".into(),
            description: "Beds".into(),
            status: TaskStatus::Done,
            priority: TaskPriority::Low,
            due_date: Some(T0),
        })
    );
}

#[test]
fn a_blank_task_title_is_refused_on_update() {
    let body = UpdateTaskRequest { title: Some("  ".into()), ..no_change() };
    assert_eq!(
        task_update(ID, Some(task()), body),
        Err(AppError::BadRequest("Task title cannot be empty".into()))
    );
}

#[test]
fn an_empty_task_update_writes_the_task_back() {
    let c = task_update(ID, Some(task()), no_change()).unwrap();
    assert_eq!(apply(&task(), c), task());
}

#[test]
fn repeating_a_task_update_changes_nothing_more() {
    let body = UpdateTaskRequest {
        title: Some(" Rake ".into()),
        description: Some("Leaves".into()),
        status: Some(TaskStatus::InProgress),
        priority: Some(TaskPriority::High),
        due_date: None,
    };
    let once = apply(&task(), task_update(ID, Some(task()), body.clone()).unwrap());
    let twice = apply(&once, task_update(ID, Some(once.clone()), body).unwrap());
    assert_eq!(once, twice);
}

#[test]
fn an_update_without_any_description_cannot_be_carried_out() {
    let bare = Task { description: None, ..task() };
    assert!(!task_update_possible(&Some(bare.clone()), &no_change()));
    let blank = UpdateTaskRequest { title: Some(" ".into()), ..no_change() };
    assert!(task_update_possible(&Some(bare.clone()), &blank));
    let described = UpdateTaskRequest { description: Some("New".into()), ..no_change() };
    assert!(task_update_possible(&Some(bare.clone()), &described));
    assert_eq!(task_update(ID, Some(bare), described).unwrap().description, "New");
    assert!(task_update_possible(&Some(task()), &no_change()));
    assert!(task_update_possible(&None, &no_change()));
}
