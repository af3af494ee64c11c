//! The closed set of domain errors and the response that each one becomes.
//!
//! An error response is a status code and a flat body with one field,
//! `error`. Errors caused by the client echo their detail; errors caused by
//! the server answer with a fixed text, whatever detail they carry.

use vstd::prelude::*;
use vstd::string::StringExecFns;

verus! {

/// Status of a request that created a resource.
pub const CREATED: u16 = 201;

/// Status of a request for a resource that does not exist.
pub const NOT_FOUND: u16 = 404;

/// Status of a request whose content breaks a validation rule.
pub const UNPROCESSABLE_ENTITY: u16 = 422;

/// Status of a failure on the server's side.
pub const INTERNAL_SERVER_ERROR: u16 = 500;

/// A domain error.
#[derive(Debug)]
pub enum AppError {
    /// The resource does not exist; the detail is shown to the client.
    NotFound(String),
    /// The input breaks a rule; the detail is shown to the client.
    Validation(String),
    /// The store failed; the detail stays on the server.
    Database(String),
    /// Any other failure of the server.
    Internal,
}

/// The mathematical value of an `AppError`.
pub enum AppErrorView {
    NotFound(Seq<char>),
    Validation(Seq<char>),
    Database(Seq<char>),
    Internal,
}

impl View for AppError {
    type V = AppErrorView;

    open spec fn view(&self) -> AppErrorView {
        match self {
            AppError::NotFound(detail) => AppErrorView::NotFound(detail@),
            AppError::Validation(detail) => AppErrorView::Validation(detail@),
            AppError::Database(detail) => AppErrorView::Database(detail@),
            AppError::Internal => AppErrorView::Internal,
        }
    }
}

/// The body of an error response.
#[derive(Debug)]
pub struct ErrorBody {
    pub error: String,
}

/// What the client is sent for an error.
#[derive(Debug)]
pub struct ErrorResponse {
    pub status: u16,
    pub body: ErrorBody,
}

/// The mathematical value of an `ErrorResponse`.
pub struct ErrorResponseView {
    pub status: u16,
    pub error: Seq<char>,
}

impl View for ErrorResponse {
    type V = ErrorResponseView;

    open spec fn view(&self) -> ErrorResponseView {
        ErrorResponseView { status: self.status, error: self.body.error@ }
    }
}

impl AppErrorView {
    /// The status code that the error is answered with.
    pub open spec fn status(self) -> u16 {
        match self {
            AppErrorView::NotFound(_) => NOT_FOUND,
            AppErrorView::Validation(_) => UNPROCESSABLE_ENTITY,
            AppErrorView::Database(_) => INTERNAL_SERVER_ERROR,
            AppErrorView::Internal => INTERNAL_SERVER_ERROR,
        }
    }

    /// The text that the client is shown.
    pub open spec fn client_message(self) -> Seq<char> {
        match self {
            AppErrorView::NotFound(detail) => detail,
            AppErrorView::Validation(detail) => detail,
            AppErrorView::Database(_) => "Database error"@,
            AppErrorView::Internal => "Internal server error"@,
        }
    }

    /// The whole response.
    pub open spec fn response(self) -> ErrorResponseView {
        ErrorResponseView { status: self.status(), error: self.client_message() }
    }

    /// The text that describes the error in full, detail included.
    pub open spec fn description(self) -> Seq<char> {
        match self {
            AppErrorView::NotFound(detail) => "Resource not found: "@ + detail,
            AppErrorView::Validation(detail) => "Validation error: "@ + detail,
            AppErrorView::Database(detail) => "Database error: "@ + detail,
            AppErrorView::Internal => "Internal server error"@,
        }
    }

    /// Whether the client caused the error.
    pub open spec fn is_client_error(self) -> bool {
        self is NotFound || self is Validation
    }
}

impl AppError {
    /// The status code that the error is answered with.
    pub fn status_code(&self) -> (code: u16)
        ensures
            code == self@.status(),
    {
        match self {
            AppError::NotFound(_) => NOT_FOUND,
            AppError::Validation(_) => UNPROCESSABLE_ENTITY,
            AppError::Database(_) => INTERNAL_SERVER_ERROR,
            AppError::Internal => INTERNAL_SERVER_ERROR,
        }
    }

    /// The text that the client is shown.
    pub fn client_message(&self) -> (message: String)
        ensures
            message@ == self@.client_message(),
    {
        match self {
            AppError::NotFound(detail) => detail.clone(),
            AppError::Validation(detail) => detail.clone(),
            AppError::Database(_) => String::from_str("Database error"),
            AppError::Internal => String::from_str("Internal server error"),
        }
    }

    /// Turns the error into the response that the client is sent.
    pub fn into_response(self) -> (response: ErrorResponse)
        ensures
            response@ == self@.response(),
    {
        let status = self.status_code();
        let error = match self {
            AppError::NotFound(detail) => detail,
            AppError::Validation(detail) => detail,
            AppError::Database(_) => String::from_str("Database error"),
            AppError::Internal => String::from_str("Internal server error"),
        };
        ErrorResponse { status, body: ErrorBody { error } }
    }

    /// The text that describes the error in full, for logs.
    pub fn description(&self) -> (text: String)
        ensures
            text@ == self@.description(),
    {
        match self {
            AppError::NotFound(detail) => String::from_str("Resource not found: ").concat(
                detail.as_str(),
            ),
            AppError::Validation(detail) => String::from_str("Validation error: ").concat(
                detail.as_str(),
            ),
            AppError::Database(detail) => String::from_str("Database error: ").concat(
                detail.as_str(),
            ),
            AppError::Internal => String::from_str("Internal server error"),
        }
    }
}

/// Each kind of error has its one status, and the body carries the detail
/// for the kinds that the client caused and a fixed text for the others.
pub proof fn lemma_response_by_kind(e: AppErrorView)
    ensures
        e matches AppErrorView::NotFound(detail) ==> e.response() == (ErrorResponseView {
            status: 404,
            error: detail,
        }),
        e matches AppErrorView::Validation(detail) ==> e.response() == (ErrorResponseView {
            status: 422,
            error: detail,
        }),
        e is Database ==> e.response() == (ErrorResponseView {
            status: 500,
            error: "Database error"@,
        }),
        e is Internal ==> e.response() == (ErrorResponseView {
            status: 500,
            error: "Internal server error"@,
        }),
{
}

/// The detail of a database error never reaches the client: two such errors
/// are answered alike, whatever they carry.
pub proof fn lemma_database_detail_is_hidden(a: Seq<char>, b: Seq<char>)
    ensures
        AppErrorView::Database(a).response() == AppErrorView::Database(b).response(),
{
}

/// The status keeps errors of the client and errors of the server apart.
pub proof fn lemma_status_tells_who_is_at_fault(e: AppErrorView)
    ensures
        e.is_client_error() <==> 400 <= e.status() < 500,
        !e.is_client_error() <==> e.status() == 500,
{
}

} // verus!
