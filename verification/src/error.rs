//! The errors of the store and what a caller gets to see of each.

use crate::text::join2;
use vstd::prelude::*;
use vstd::string::*;

verus! {

/// Why an operation did not succeed.
#[derive(Debug, Clone, PartialEq, Eq)]
pub enum AppError {
    /// The vector engine failed or answered in an unexpected shape; holds the
    /// engine's own words, which stay in the logs.
    Qdrant(String),
    /// The one entity asked for does not exist.
    NotFound(String),
    /// The caller's request is at fault.
    InvalidRequest(String),
    /// The store itself is at fault: a stored payload that does not decode, a
    /// reply without its result.
    Internal(String),
}

/// The mathematical form of an error.
pub ghost enum ErrorView {
    Qdrant(Seq<char>),
    NotFound(Seq<char>),
    InvalidRequest(Seq<char>),
    Internal(Seq<char>),
}

impl View for AppError {
    type V = ErrorView;

    open spec fn view(&self) -> ErrorView {
        match self {
            AppError::Qdrant(m) => ErrorView::Qdrant(m@),
            AppError::NotFound(m) => ErrorView::NotFound(m@),
            AppError::InvalidRequest(m) => ErrorView::InvalidRequest(m@),
            AppError::Internal(m) => ErrorView::Internal(m@),
        }
    }
}

/// The full text of an error: its kind, then its message.
pub open spec fn error_text(e: ErrorView) -> Seq<char> {
    match e {
        ErrorView::Qdrant(m) => "Qdrant error: "@ + m,
        ErrorView::NotFound(m) => "Not found: "@ + m,
        ErrorView::InvalidRequest(m) => "Invalid request: "@ + m,
        ErrorView::Internal(m) => "Internal error: "@ + m,
    }
}

/// The status that an error is answered with: 404 for what does not exist,
/// 400 for a request at fault, 500 for everything else.
pub open spec fn error_status(e: ErrorView) -> u16 {
    match e {
        ErrorView::NotFound(_) => 404,
        ErrorView::InvalidRequest(_) => 400,
        ErrorView::Qdrant(_) => 500,
        ErrorView::Internal(_) => 500,
    }
}

/// The message that an error is answered with. An engine failure is
/// answered in general words: its detail is not for the caller.
pub open spec fn error_reply(e: ErrorView) -> Seq<char> {
    match e {
        ErrorView::NotFound(m) => m,
        ErrorView::InvalidRequest(m) => m,
        ErrorView::Qdrant(_) => "Database operation failed"@,
        ErrorView::Internal(m) => m,
    }
}

impl AppError {
    /// The full text of the error.
    pub fn to_string(&self) -> (text: String)
        ensures
            text@ == error_text(self@),
    {
        match self {
            AppError::Qdrant(m) => join2("Qdrant error: ", m.as_str()),
            AppError::NotFound(m) => join2("Not found: ", m.as_str()),
            AppError::InvalidRequest(m) => join2("Invalid request: ", m.as_str()),
            AppError::Internal(m) => join2("Internal error: ", m.as_str()),
        }
    }

    /// The status to answer with.
    pub fn status_code(&self) -> (status: u16)
        ensures
            status == error_status(self@),
    {
        match self {
            AppError::NotFound(_) => 404,
            AppError::InvalidRequest(_) => 400,
            AppError::Qdrant(_) => 500,
            AppError::Internal(_) => 500,
        }
    }

    /// The message to answer with.
    pub fn response_message(&self) -> (message: String)
        ensures
            message@ == error_reply(self@),
    {
        match self {
            AppError::NotFound(m) => m.clone(),
            AppError::InvalidRequest(m) => m.clone(),
            AppError::Qdrant(_) => String::from_str("Database operation failed"),
            AppError::Internal(m) => m.clone(),
        }
    }
}

} // verus!
