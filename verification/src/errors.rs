use vstd::prelude::*;
use vstd::string::StringExecFns;
use crate::response::StandardResponse;
use crate::text::{join_strings, join_with, str_eq};

verus! {

/// What the database driver reported, reduced to what the error handling
/// reads: the not-found outcome, a database error with its optional
/// database-specific code, or anything else.
#[derive(Debug)]
pub enum DbError {
    RowNotFound,
    Database(Option<String>),
    Other(String),
}

/// The database code that signals a unique-constraint violation.
pub open spec fn spec_unique_violation_code() -> Seq<char> {
    "23505"@
}

/// A `DbError` carrying the unique-violation code.
pub fn unique_violation() -> (r: DbError)
    ensures
        (r matches DbError::Database(c) && c matches Some(code) && code@
            == spec_unique_violation_code()),
{
    DbError::Database(Some("23505".to_owned()))
}

/// Maps a database error onto the uniform envelope, leaking no internal
/// detail: not-found becomes 404, a unique-constraint violation becomes
/// 409, anything else a generic 500.
pub fn handle_database_error(error: &DbError, _operation: &str) -> (r: (
    u16,
    StandardResponse<()>,
))
    ensures
        !r.1.success,
        r.1.data is None,
        match error {
            DbError::RowNotFound => {
                &&& r.0 == 404
                &&& r.1.message@ == "Resource not found"@
                &&& (r.1.error_code matches Some(c) && c@ == "NOT_FOUND"@)
            },
            DbError::Database(code_opt) => {
                if code_opt matches Some(code) && code@ == spec_unique_violation_code() {
                    &&& r.0 == 409
                    &&& r.1.message@ == "Resource already exists"@
                    &&& (r.1.error_code matches Some(c) && c@ == "CONFLICT"@)
                } else {
                    &&& r.0 == 500
                    &&& r.1.message@ == "An internal error occurred"@
                    &&& (r.1.error_code matches Some(c) && c@ == "INTERNAL_ERROR"@)
                }
            },
            DbError::Other(_) => {
                &&& r.0 == 500
                &&& r.1.message@ == "An internal error occurred"@
                &&& (r.1.error_code matches Some(c) && c@ == "INTERNAL_ERROR"@)
            },
        },
{
    match error {
        DbError::RowNotFound => (
            404,
            StandardResponse::error("Resource not found".to_owned(), Some("NOT_FOUND".to_owned())),
        ),
        DbError::Database(code_opt) => {
            let conflict = match code_opt {
                Some(code) => str_eq(code.as_str(), "23505"),
                None => false,
            };
            if conflict {
                (
                    409,
                    StandardResponse::error(
                        "Resource already exists".to_owned(),
                        Some("CONFLICT".to_owned()),
                    ),
                )
            } else {
                (
                    500,
                    StandardResponse::error(
                        "An internal error occurred".to_owned(),
                        Some("INTERNAL_ERROR".to_owned()),
                    ),
                )
            }
        },
        DbError::Other(_) => (
            500,
            StandardResponse::error(
                "An internal error occurred".to_owned(),
                Some("INTERNAL_ERROR".to_owned()),
            ),
        ),
    }
}

/// Maps a list of validation messages onto a 400 envelope whose message
/// joins them after a fixed prefix.
pub fn handle_validation_error(errors: Vec<String>) -> (r: (u16, StandardResponse<()>))
    ensures
        r.0 == 400,
        !r.1.success,
        r.1.data is None,
        r.1.message@ == "Validation failed: "@ + join_with(errors.deep_view(), ", "@),
        (r.1.error_code matches Some(c) && c@ == "VALIDATION_ERROR"@),
{
    let joined = join_strings(&errors, ", ");
    let mut message = "Validation failed: ".to_owned();
    message.append(joined.as_str());
    (400, StandardResponse::error(message, Some("VALIDATION_ERROR".to_owned())))
}

/// The uniform 401 envelope for a failed login.
pub fn handle_invalid_credentials() -> (r: (u16, StandardResponse<()>))
    ensures
        r.0 == 401,
        !r.1.success,
        r.1.data is None,
        r.1.message@ == "Invalid credentials"@,
        (r.1.error_code matches Some(c) && c@ == "INVALID_CREDENTIALS"@),
{
    (
        401,
        StandardResponse::error(
            "Invalid credentials".to_owned(),
            Some("INVALID_CREDENTIALS".to_owned()),
        ),
    )
}

/// The generic 500 envelope for an unclassified failure; the cause is kept
/// server-side.
pub fn handle_error(_operation: &str) -> (r: (u16, StandardResponse<()>))
    ensures
        r.0 == 500,
        !r.1.success,
        r.1.data is None,
        r.1.message@ == "An internal error occurred"@,
        (r.1.error_code matches Some(c) && c@ == "INTERNAL_ERROR"@),
{
    (
        500,
        StandardResponse::error(
            "An internal error occurred".to_owned(),
            Some("INTERNAL_ERROR".to_owned()),
        ),
    )
}

/// The application-level error taxonomy.
pub enum AppError {
    ValidationError(String),
    InvalidCredentials,
    Unauthorized,
    Forbidden,
    NotFound(String),
    Conflict(String),
    DatabaseError(String),
    InternalServerError,
}

impl AppError {
    /// The HTTP status each variant maps to.
    pub fn status_code(&self) -> (r: u16)
        ensures
            r == match self {
                AppError::ValidationError(_) => 400u16,
                AppError::InvalidCredentials => 401u16,
                AppError::Unauthorized => 401u16,
                AppError::Forbidden => 403u16,
                AppError::NotFound(_) => 404u16,
                AppError::Conflict(_) => 409u16,
                AppError::DatabaseError(_) => 500u16,
                AppError::InternalServerError => 500u16,
            },
    {
        match self {
            AppError::ValidationError(_) => 400,
            AppError::InvalidCredentials => 401,
            AppError::Unauthorized => 401,
            AppError::Forbidden => 403,
            AppError::NotFound(_) => 404,
            AppError::Conflict(_) => 409,
            AppError::DatabaseError(_) => 500,
            AppError::InternalServerError => 500,
        }
    }

    /// The envelope each variant maps to; database and internal failures
    /// surface only a generic message.
    pub fn error_response(&self) -> (r: (u16, StandardResponse<()>))
        ensures
            !r.1.success,
            r.1.data is None,
            match self {
                AppError::ValidationError(msg) => {
                    &&& r.0 == 400
                    &&& r.1.message == msg
                    &&& (r.1.error_code matches Some(c) && c@ == "VALIDATION_ERROR"@)
                },
                AppError::InvalidCredentials => {
                    &&& r.0 == 401
                    &&& r.1.message@ == "Invalid credentials"@
                    &&& (r.1.error_code matches Some(c) && c@ == "INVALID_CREDENTIALS"@)
                },
                AppError::Unauthorized => {
                    &&& r.0 == 401
                    &&& r.1.message@ == "Unauthorized access"@
                    &&& (r.1.error_code matches Some(c) && c@ == "UNAUTHORIZED"@)
                },
                AppError::Forbidden => {
                    &&& r.0 == 403
                    &&& r.1.message@ == "Access forbidden"@
                    &&& (r.1.error_code matches Some(c) && c@ == "FORBIDDEN"@)
                },
                AppError::NotFound(resource) => {
                    &&& r.0 == 404
                    &&& r.1.message@ == resource@ + " not found"@
                    &&& (r.1.error_code matches Some(c) && c@ == "NOT_FOUND"@)
                },
                AppError::Conflict(resource) => {
                    &&& r.0 == 409
                    &&& r.1.message@ == resource@ + " already exists"@
                    &&& (r.1.error_code matches Some(c) && c@ == "CONFLICT"@)
                },
                AppError::DatabaseError(_) => {
                    &&& r.0 == 500
                    &&& r.1.message@ == "An internal error occurred"@
                    &&& (r.1.error_code matches Some(c) && c@ == "INTERNAL_ERROR"@)
                },
                AppError::InternalServerError => {
                    &&& r.0 == 500
                    &&& r.1.message@ == "An internal error occurred"@
                    &&& (r.1.error_code matches Some(c) && c@ == "INTERNAL_ERROR"@)
                },
            },
    {
        match self {
            AppError::ValidationError(msg) => (
                400,
                StandardResponse::error(msg.clone(), Some("VALIDATION_ERROR".to_owned())),
            ),
            AppError::InvalidCredentials => (
                401,
                StandardResponse::error(
                    "Invalid credentials".to_owned(),
                    Some("INVALID_CREDENTIALS".to_owned()),
                ),
            ),
            AppError::Unauthorized => (
                401,
                StandardResponse::error(
                    "Unauthorized access".to_owned(),
                    Some("UNAUTHORIZED".to_owned()),
                ),
            ),
            AppError::Forbidden => (
                403,
                StandardResponse::error(
                    "Access forbidden".to_owned(),
                    Some("FORBIDDEN".to_owned()),
                ),
            ),
            AppError::NotFound(resource) => {
                let mut message = resource.clone();
                message.append(" not found");
                (404, StandardResponse::error(message, Some("NOT_FOUND".to_owned())))
            },
            AppError::Conflict(resource) => {
                let mut message = resource.clone();
                message.append(" already exists");
                (409, StandardResponse::error(message, Some("CONFLICT".to_owned())))
            },
            AppError::DatabaseError(_) => (
                500,
                StandardResponse::error(
                    "An internal error occurred".to_owned(),
                    Some("INTERNAL_ERROR".to_owned()),
                ),
            ),
            AppError::InternalServerError => (
                500,
                StandardResponse::error(
                    "An internal error occurred".to_owned(),
                    Some("INTERNAL_ERROR".to_owned()),
                ),
            ),
        }
    }
}

/// The error taxonomy of the older authentication handlers.
pub enum AuthError {
    InvalidCredentials,
    UserNotFound,
    UsernameAlreadyExists,
    EmailAlreadyExists,
    InternalServerError,
    Unauthorized,
}

impl AuthError {
    /// The HTTP status each variant maps to.
    pub fn status_code(&self) -> (r: u16)
        ensures
            r == match self {
                AuthError::InvalidCredentials => 401u16,
                AuthError::UserNotFound => 404u16,
                AuthError::UsernameAlreadyExists => 400u16,
                AuthError::EmailAlreadyExists => 400u16,
                AuthError::InternalServerError => 500u16,
                AuthError::Unauthorized => 401u16,
            },
    {
        match self {
            AuthError::InvalidCredentials => 401,
            AuthError::UserNotFound => 404,
            AuthError::UsernameAlreadyExists => 400,
            AuthError::EmailAlreadyExists => 400,
            AuthError::InternalServerError => 500,
            AuthError::Unauthorized => 401,
        }
    }

    /// The display text of each variant.
    pub fn message(&self) -> (r: String)
        ensures
            r@ == match self {
                AuthError::InvalidCredentials => "Invalid credentials"@,
                AuthError::UserNotFound => "User not found"@,
                AuthError::UsernameAlreadyExists => "Username already exists"@,
                AuthError::EmailAlreadyExists => "Email already exists"@,
                AuthError::InternalServerError => "Internal server error"@,
                AuthError::Unauthorized => "Unauthorized"@,
            },
    {
        match self {
            AuthError::InvalidCredentials => "Invalid credentials".to_owned(),
            AuthError::UserNotFound => "User not found".to_owned(),
            AuthError::UsernameAlreadyExists => "Username already exists".to_owned(),
            AuthError::EmailAlreadyExists => "Email already exists".to_owned(),
            AuthError::InternalServerError => "Internal server error".to_owned(),
            AuthError::Unauthorized => "Unauthorized".to_owned(),
        }
    }

    /// The status and display text together.
    pub fn error_response(&self) -> (r: (u16, String))
        ensures
            r.0 == match self {
                AuthError::InvalidCredentials => 401u16,
                AuthError::UserNotFound => 404u16,
                AuthError::UsernameAlreadyExists => 400u16,
                AuthError::EmailAlreadyExists => 400u16,
                AuthError::InternalServerError => 500u16,
                AuthError::Unauthorized => 401u16,
            },
            r.1@ == match self {
                AuthError::InvalidCredentials => "Invalid credentials"@,
                AuthError::UserNotFound => "User not found"@,
                AuthError::UsernameAlreadyExists => "Username already exists"@,
                AuthError::EmailAlreadyExists => "Email already exists"@,
                AuthError::InternalServerError => "Internal server error"@,
                AuthError::Unauthorized => "Unauthorized"@,
            },
    {
        (self.status_code(), self.message())
    }
}

} // verus!
