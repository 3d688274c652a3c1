use task_api::error::AppError;

fn reply(e: AppError) -> (u16, String, String) {
    let r = e.into_response();
    (r.status, r.code, r.message)
}

#[test]
fn each_error_gets_its_status_code_and_message() {
    assert_eq!(reply(AppError::NotFound("gone".into())), (404, "NOT_FOUND".into(), "gone".into()));
    assert_eq!(
        reply(AppError::Unauthorized),
        (401, "UNAUTHORIZED".into(), "Authentication required".into())
    );
    assert_eq!(reply(AppError::Forbidden("no".into())), (403, "FORBIDDEN".into(), "no".into()));
    assert_eq!(reply(AppError::Conflict("dup".into())), (409, "CONFLICT".into(), "dup".into()));
    assert_eq!(reply(AppError::BadRequest("bad".into())), (400, "BAD_REQUEST".into(), "bad".into()));
    assert_eq!(
        reply(AppError::Internal),
        (500, "INTERNAL_ERROR".into(), "An unexpected error occured".into())
    );
}

#[test]
fn database_errors_reveal_nothing_of_the_failure() {
    let a = reply(AppError::Database("connection refused at 10.0.0.3".into()));
    let b = reply(AppError::Database(String::new()));
    assert_eq!(a, (500, "DATABASE_ERROR".into(), "A database error occured".into()));
    assert_eq!(a, b);
}
