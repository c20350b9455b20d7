//! The errors that request handlers answer with, and how they are rendered.

use vstd::prelude::*;
use vstd::string::*;

verus! {

/// The JSON body of an error answer: the HTTP status code and a message.
#[derive(Debug, Clone, PartialEq, Eq)]
pub struct AppErrorMessage {
    pub code: u16,
    pub message: String,
}

/// The errors that request handlers answer with.
#[derive(Debug, Clone, PartialEq, Eq)]
pub enum AppError {
    InternalError { message: String },
    BadRequest { message: String },
    NotFound { message: String },
    Unauthorized,
}

/// The error type of `sqlx`, which database calls fail with. It is only
/// carried through: nothing here looks inside it.
#[verifier::external_type_specification]
#[verifier::external_body]
pub struct ExSqlxError(sqlx::Error);

/// The media type of every error body.
pub open spec fn json_media_type() -> Seq<char> {
    "application/json"@
}

/// A JSON error body together with the media type it is sent under.
#[derive(Debug, Clone, PartialEq, Eq)]
pub struct ErrorBody {
    pub content_type: String,
    pub message: AppErrorMessage,
}

/// A complete error answer: its status and its body.
#[derive(Debug, Clone, PartialEq, Eq)]
pub struct ErrorResponse {
    pub status: u16,
    pub body: ErrorBody,
}

impl ErrorBody {
    /// The body is JSON and carries exactly this code and message text.
    pub open spec fn body_is(&self, code: u16, text: Seq<char>) -> bool {
        &&& self.content_type@ == json_media_type()
        &&& self.message.code == code
        &&& self.message.message@ == text
    }
}

impl AppError {
    /// The text an error displays: the message it holds, or "Unauthorized".
    pub open spec fn text(&self) -> Seq<char> {
        match self {
            AppError::InternalError { message } => message@,
            AppError::BadRequest { message } => message@,
            AppError::NotFound { message } => message@,
            AppError::Unauthorized => "Unauthorized"@,
        }
    }

    /// The HTTP status an error is answered with.
    pub open spec fn status(&self) -> u16 {
        match self {
            AppError::InternalError { .. } => 500,
            AppError::BadRequest { .. } => 400,
            AppError::NotFound { .. } => 404,
            AppError::Unauthorized => 401,
        }
    }

    /// The error's name: the message it holds, or "Unauthorized".
    pub fn name(&self) -> (res: String)
        ensures
            res@ == self.text(),
    {
        match self {
            AppError::NotFound { message: m } => m.clone(),
            AppError::BadRequest { message: m } => m.clone(),
            AppError::InternalError { message: m } => m.clone(),
            AppError::Unauthorized => String::from_str("Unauthorized"),
        }
    }

    /// The text the error displays.
    pub fn to_string(&self) -> (res: String)
        ensures
            res@ == self.text(),
    {
        match self {
            AppError::InternalError { message } => message.clone(),
            AppError::BadRequest { message } => message.clone(),
            AppError::NotFound { message } => message.clone(),
            AppError::Unauthorized => String::from_str("Unauthorized"),
        }
    }

    /// The HTTP status code the error is answered with.
    pub fn status_code(&self) -> (res: u16)
        ensures
            res == self.status(),
    {
        match self {
            AppError::InternalError { .. } => 500,
            AppError::BadRequest { .. } => 400,
            AppError::NotFound { .. } => 404,
            AppError::Unauthorized => 401,
        }
    }

    /// The answer to a request that failed with this error: its status, and a
    /// JSON body with the status code and the error's text.
    pub fn error_response(&self) -> (res: ErrorResponse)
        ensures
            res.status == self.status(),
            res.body.body_is(self.status(), self.text()),
    {
        let code = self.status_code();
        ErrorResponse {
            status: code,
            body: ErrorBody {
                content_type: String::from_str("application/json"),
                message: AppErrorMessage { code, message: self.to_string() },
            },
        }
    }
}


/// An internal error with this message.
pub open spec fn is_internal_error(e: AppError, message: Seq<char>) -> bool {
    e matches AppError::InternalError { message: m } && m@ == message
}

/// The error that a failed database call is answered with.
pub open spec fn is_database_error(e: AppError) -> bool {
    is_internal_error(e, "Database Error"@)
}

impl AppError {
    /// Turns a database failure into an error: whatever the failure, it is an
    /// internal error with the message "Database Error".
    pub fn from_database_error(error: sqlx::Error) -> (res: AppError)
        ensures
            is_database_error(res),
    {
        AppError::InternalError { message: String::from_str("Database Error") }
    }
}

/// Every error is answered with a client error (4xx) or a server error (5xx)
/// status, and only internal errors are server errors.
pub proof fn lemma_error_statuses(e: AppError)
    ensures
        400 <= e.status() < 600,
        e.status() >= 500 <==> e is InternalError,
{
}

/// The status of an error depends on its variant alone, whatever its
/// message: every internal error is 500, every bad request 400, every
/// not-found 404, and unauthorized 401. Errors of one variant with different
/// messages share their status, and so does the code in their bodies.
pub proof fn lemma_status_depends_on_variant_only(m: String, n: String)
    ensures
        (AppError::InternalError { message: m }).status() == 500,
        (AppError::BadRequest { message: m }).status() == 400,
        (AppError::NotFound { message: m }).status() == 404,
        AppError::Unauthorized.status() == 401,
        (AppError::InternalError { message: m }).status() == (AppError::InternalError {
            message: n,
        }).status(),
        (AppError::BadRequest { message: m }).status() == (AppError::BadRequest {
            message: n,
        }).status(),
        (AppError::NotFound { message: m }).status() == (AppError::NotFound {
            message: n,
        }).status(),
{
}

/// The text of an error that holds a message is that message, unchanged.
pub proof fn lemma_text_is_the_message(m: String)
    ensures
        (AppError::InternalError { message: m }).text() == m@,
        (AppError::BadRequest { message: m }).text() == m@,
        (AppError::NotFound { message: m }).text() == m@,
{
}

} // verus!
