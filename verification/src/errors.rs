//! Failures that the service answers a request with.

use vstd::prelude::*;
use vstd::string::*;
use crate::models::{CodeRunnerError, ErrorView};
use crate::text::concat2;

verus! {

/// A failure of a request.
#[derive(Debug, Clone, PartialEq, Eq)]
pub enum AppError {
    NotFound,
    BadRequest(String),
    /// A value could not be encoded or decoded; holds the cause as text.
    Serialization(String),
    /// The metadata store failed; holds the cause as text.
    Redis(String),
    /// The engine client failed; holds the cause as text.
    Docker(String),
    ExecutionFailed(CodeRunnerError),
    Server(String),
}

/// Model of an `AppError`.
pub enum AppErrorView {
    NotFound,
    BadRequest(Seq<char>),
    Serialization(Seq<char>),
    Redis(Seq<char>),
    Docker(Seq<char>),
    ExecutionFailed(ErrorView),
    Server(Seq<char>),
}

impl View for AppError {
    type V = AppErrorView;

    open spec fn view(&self) -> AppErrorView {
        match self {
            AppError::NotFound => AppErrorView::NotFound,
            AppError::BadRequest(m) => AppErrorView::BadRequest(m@),
            AppError::Serialization(m) => AppErrorView::Serialization(m@),
            AppError::Redis(m) => AppErrorView::Redis(m@),
            AppError::Docker(m) => AppErrorView::Docker(m@),
            AppError::ExecutionFailed(e) => AppErrorView::ExecutionFailed(e@),
            AppError::Server(m) => AppErrorView::Server(m@),
        }
    }
}

impl AppErrorView {
    /// The failure in words.
    pub open spec fn text(self) -> Seq<char> {
        match self {
            AppErrorView::NotFound => "Not found"@,
            AppErrorView::BadRequest(m) => "Bad request: "@ + m,
            AppErrorView::Serialization(m) => "Serialization error: "@ + m,
            AppErrorView::Redis(m) => "Redis error: "@ + m,
            AppErrorView::Docker(m) => "Docker client error: "@ + m,
            AppErrorView::ExecutionFailed(e) => "Execution failed: "@ + e.message(),
            AppErrorView::Server(m) => "Server error: "@ + m,
        }
    }

    /// The HTTP status of the answer.
    pub open spec fn status(self) -> u16 {
        match self {
            AppErrorView::NotFound => 404,
            AppErrorView::BadRequest(_) => 400,
            _ => 500,
        }
    }

    /// The body of the answer. Only a bad request and a failed execution
    /// tell the client their cause.
    pub open spec fn body(self) -> Seq<char> {
        match self {
            AppErrorView::NotFound => "Not Found"@,
            AppErrorView::BadRequest(m) => m,
            AppErrorView::ExecutionFailed(e) => "Code execution failed: "@ + e.message(),
            _ => "Internal Server Error"@,
        }
    }
}

impl AppError {
    /// The failure in words.
    pub fn to_string(&self) -> (s: String)
        ensures
            s@ == self@.text(),
    {
        match self {
            AppError::NotFound => "Not found".to_owned(),
            AppError::BadRequest(m) => concat2("Bad request: ", m.as_str()),
            AppError::Serialization(m) => concat2("Serialization error: ", m.as_str()),
            AppError::Redis(m) => concat2("Redis error: ", m.as_str()),
            AppError::Docker(m) => concat2("Docker client error: ", m.as_str()),
            AppError::ExecutionFailed(e) => concat2("Execution failed: ", e.message().as_str()),
            AppError::Server(m) => concat2("Server error: ", m.as_str()),
        }
    }

    /// The HTTP status and body that answer the request.
    pub fn into_response(self) -> (r: (u16, String))
        ensures
            r.0 == self@.status(),
            r.1@ == self@.body(),
    {
        match self {
            AppError::NotFound => (404, "Not Found".to_owned()),
            AppError::BadRequest(m) => (400, m),
            AppError::ExecutionFailed(e) => (
                500,
                concat2("Code execution failed: ", e.message().as_str()),
            ),
            _ => (500, "Internal Server Error".to_owned()),
        }
    }
}

} // verus!
