//! The service's error type, its HTTP status, its message and the body
//! that an error response carries.

use vstd::prelude::*;

verus! {

/// Body of every error response: the HTTP status code and the message.
pub struct ErrorBody {
    pub code: u16,
    pub message: String,
}

/// Everything a request can fail with.
#[derive(Debug, Clone, PartialEq, Eq)]
pub enum AppError {
    BadRequest(String),
    Validation(String),
    Unauthorized,
    InvalidCredentials,
    NotFound,
    Conflict(String),
    Config(String),
    /// An unexpected failure; the text describes it for the logs only.
    Internal(String),
}

/// The kinds of database failure that the service tells apart.
#[derive(Debug, Clone, PartialEq, Eq)]
pub enum DbError {
    /// The query expected a row and found none.
    RowNotFound,
    /// A unique constraint refused the write.
    UniqueViolation,
    /// A foreign key constraint refused the write.
    ForeignKeyViolation,
    /// Any other failure, described for the logs.
    Other(String),
}

pub const STATUS_BAD_REQUEST: u16 = 400;
pub const STATUS_UNAUTHORIZED: u16 = 401;
pub const STATUS_NOT_FOUND: u16 = 404;
pub const STATUS_CONFLICT: u16 = 409;
pub const STATUS_INTERNAL_SERVER_ERROR: u16 = 500;

impl AppError {
    /// The HTTP status that answers the error.
    pub open spec fn spec_status(&self) -> u16 {
        match self {
            AppError::BadRequest(_) | AppError::Validation(_) => STATUS_BAD_REQUEST,
            AppError::Unauthorized | AppError::InvalidCredentials => STATUS_UNAUTHORIZED,
            AppError::NotFound => STATUS_NOT_FOUND,
            AppError::Conflict(_) => STATUS_CONFLICT,
            AppError::Config(_) | AppError::Internal(_) => STATUS_INTERNAL_SERVER_ERROR,
        }
    }

    /// The text that describes the error to a client.
    pub open spec fn spec_message(&self) -> Seq<char> {
        match self {
            AppError::BadRequest(m) => "bad request: "@ + m@,
            AppError::Validation(m) => "validation failed: "@ + m@,
            AppError::Unauthorized => "unauthorized"@,
            AppError::InvalidCredentials => "email or password is incorrect"@,
            AppError::NotFound => "not found"@,
            AppError::Conflict(m) => "conflict: "@ + m@,
            AppError::Config(m) => "configuration error: "@ + m@,
            AppError::Internal(_) => "internal error"@,
        }
    }

    /// The HTTP status code of the error.
    pub fn status(&self) -> (r: u16)
        ensures
            r == self.spec_status(),
    {
        match self {
            AppError::BadRequest(_) | AppError::Validation(_) => STATUS_BAD_REQUEST,
            AppError::Unauthorized | AppError::InvalidCredentials => STATUS_UNAUTHORIZED,
            AppError::NotFound => STATUS_NOT_FOUND,
            AppError::Conflict(_) => STATUS_CONFLICT,
            AppError::Config(_) | AppError::Internal(_) => STATUS_INTERNAL_SERVER_ERROR,
        }
    }

    /// The message of the error, as its `Display` shows it.
    pub fn message(&self) -> (r: String)
        ensures
            r@ == self.spec_message(),
    {
        match self {
            AppError::BadRequest(m) => String::from_str("bad request: ").concat(m.as_str()),
            AppError::Validation(m) => String::from_str("validation failed: ").concat(m.as_str()),
            AppError::Unauthorized => String::from_str("unauthorized"),
            AppError::InvalidCredentials => String::from_str("email or password is incorrect"),
            AppError::NotFound => String::from_str("not found"),
            AppError::Conflict(m) => String::from_str("conflict: ").concat(m.as_str()),
            AppError::Config(m) => String::from_str("configuration error: ").concat(m.as_str()),
            AppError::Internal(_) => String::from_str("internal error"),
        }
    }

    /// The body of the error response: its status code and its message.
    pub fn error_body(&self) -> (b: ErrorBody)
        ensures
            b.code == self.spec_status(),
            b.message@ == self.spec_message(),
    {
        ErrorBody { code: self.status(), message: self.message() }
    }
}

impl AppError {
    /// How a database failure is answered: a missing row is `NotFound`, a
    /// unique violation a `Conflict`, a foreign key violation a `BadRequest`,
    /// anything else `Internal`.
    pub fn from_db_error(e: DbError) -> (r: AppError)
        ensures
            e is RowNotFound ==> r is NotFound,
            e is UniqueViolation ==> (r matches AppError::Conflict(m) && m@
                == "resource already exists"@),
            e is ForeignKeyViolation ==> (r matches AppError::BadRequest(m) && m@
                == "related resource missing"@),
            e is Other ==> r == AppError::Internal(e->Other_0),
    {
        match e {
            DbError::RowNotFound => AppError::NotFound,
            DbError::UniqueViolation => AppError::Conflict(
                String::from_str("resource already exists"),
            ),
            DbError::ForeignKeyViolation => AppError::BadRequest(
                String::from_str("related resource missing"),
            ),
            DbError::Other(d) => AppError::Internal(d),
        }
    }
}

} // verus!
