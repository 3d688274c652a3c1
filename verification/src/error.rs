//! The errors that a request can end in, and the reply each one is answered with.
use vstd::prelude::*;

verus! {

/// Why a request failed.
#[derive(Debug, Clone, PartialEq, Eq)]
pub enum AppError {
    /// The thing asked for does not exist (for this user).
    NotFound(String),
    /// No valid credentials came with the request.
    Unauthorized,
    /// The user may not do this.
    Forbidden(String),
    /// The request clashes with what is stored.
    Conflict(String),
    /// The request itself is malformed.
    BadRequest(String),
    /// The database failed; the text describes the failure for the log only.
    Database(String),
    /// Something else failed on the server's side.
    Internal,
}

/// What a failed request is answered with: an HTTP status and the body
/// `{"error": {"code": code, "message": message}}`.
#[derive(Debug, Clone, PartialEq, Eq)]
pub struct ErrorReply {
    pub status: u16,
    pub code: String,
    pub message: String,
}

/// The HTTP status an error is answered with.
pub open spec fn error_status(e: AppError) -> u16 {
    match e {
        AppError::NotFound(_) => 404,
        AppError::Unauthorized => 401,
        AppError::Forbidden(_) => 403,
        AppError::Conflict(_) => 409,
        AppError::BadRequest(_) => 400,
        AppError::Database(_) => 500,
        AppError::Internal => 500,
    }
}

/// The machine-readable code of an error's reply.
pub open spec fn error_code(e: AppError) -> Seq<char> {
    match e {
        AppError::NotFound(_) => "NOT_FOUND"@,
        AppError::Unauthorized => "UNAUTHORIZED"@,
        AppError::Forbidden(_) => "FORBIDDEN"@,
        AppError::Conflict(_) => "CONFLICT"@,
        AppError::BadRequest(_) => "BAD_REQUEST"@,
        AppError::Database(_) => "DATABASE_ERROR"@,
        AppError::Internal => "INTERNAL_ERROR"@,
    }
}

/// The human-readable message of an error's reply: the error's own text for
/// client errors, a fixed text otherwise.
pub open spec fn error_message(e: AppError) -> Seq<char> {
    match e {
        AppError::NotFound(m) => m@,
        AppError::Unauthorized => "Authentication required"@,
        AppError::Forbidden(m) => m@,
        AppError::Conflict(m) => m@,
        AppError::BadRequest(m) => m@,
        AppError::Database(_) => "A database error occured"@,
        AppError::Internal => "An unexpected error occured"@,
    }
}

impl AppError {
    /// The reply this error is answered with.
    pub fn into_response(self) -> (r: ErrorReply)
        ensures
            r.status == error_status(self),
            r.code@ == error_code(self),
            r.message@ == error_message(self),
    {
        match self {
            AppError::NotFound(msg) => ErrorReply {
                status: 404,
                code: String::from_str("NOT_FOUND"),
                message: msg,
            },
            AppError::Unauthorized => ErrorReply {
                status: 401,
                code: String::from_str("UNAUTHORIZED"),
                message: String::from_str("Authentication required"),
            },
            AppError::Forbidden(msg) => ErrorReply {
                status: 403,
                code: String::from_str("FORBIDDEN"),
                message: msg,
            },
            AppError::Conflict(msg) => ErrorReply {
                status: 409,
                code: String::from_str("CONFLICT"),
                message: msg,
            },
            AppError::BadRequest(msg) => ErrorReply {
                status: 400,
                code: String::from_str("BAD_REQUEST"),
                message: msg,
            },
            AppError::Database(_) => ErrorReply {
                status: 500,
                code: String::from_str("DATABASE_ERROR"),
                message: String::from_str("A database error occured"),
            },
            AppError::Internal => ErrorReply {
                status: 500,
                code: String::from_str("INTERNAL_ERROR"),
                message: String::from_str("An unexpected error occured"),
            },
        }
    }
}

} // verus!
