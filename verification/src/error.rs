//! The errors of the inventory service.

use vstd::prelude::*;
use crate::text::concat2;

verus! {

/// What can go wrong in the inventory service.
#[derive(Debug)]
pub enum AppError {
    /// A rule of the business was broken.
    BusinessError(String),
    /// The store failed.
    DatabaseError(String),
    /// A value did not pass validation.
    ValidationError(String),
    /// What was asked for is not there.
    NotFound(String),
    /// Anything else.
    InternalError(String),
}

/// The mathematical content of an `AppError`.
pub enum AppErrorView {
    BusinessError(Seq<char>),
    DatabaseError(Seq<char>),
    ValidationError(Seq<char>),
    NotFound(Seq<char>),
    InternalError(Seq<char>),
}

impl View for AppError {
    type V = AppErrorView;

    open spec fn view(&self) -> AppErrorView {
        match self {
            AppError::BusinessError(m) => AppErrorView::BusinessError(m@),
            AppError::DatabaseError(m) => AppErrorView::DatabaseError(m@),
            AppError::ValidationError(m) => AppErrorView::ValidationError(m@),
            AppError::NotFound(m) => AppErrorView::NotFound(m@),
            AppError::InternalError(m) => AppErrorView::InternalError(m@),
        }
    }
}

impl AppErrorView {
    /// The message the error carries.
    pub open spec fn message(self) -> Seq<char> {
        match self {
            AppErrorView::BusinessError(m) => m,
            AppErrorView::DatabaseError(m) => m,
            AppErrorView::ValidationError(m) => m,
            AppErrorView::NotFound(m) => m,
            AppErrorView::InternalError(m) => m,
        }
    }

    /// The HTTP status the error is answered with: 400 for what the caller
    /// got wrong, 404 for what is not there, 500 for what the service got
    /// wrong.
    pub open spec fn status(self) -> u16 {
        match self {
            AppErrorView::BusinessError(_) => 400,
            AppErrorView::ValidationError(_) => 400,
            AppErrorView::NotFound(_) => 404,
            AppErrorView::DatabaseError(_) => 500,
            AppErrorView::InternalError(_) => 500,
        }
    }

    /// The words that name the error's kind.
    pub open spec fn heading(self) -> Seq<char> {
        match self {
            AppErrorView::BusinessError(_) => "Business Error: "@,
            AppErrorView::DatabaseError(_) => "Database Error: "@,
            AppErrorView::ValidationError(_) => "Validation Error: "@,
            AppErrorView::NotFound(_) => "Not Found: "@,
            AppErrorView::InternalError(_) => "Internal Error: "@,
        }
    }

    /// The error in one line: its kind, then its message.
    pub open spec fn text(self) -> Seq<char> {
        self.heading() + self.message()
    }

    /// The body the error is answered with.
    pub open spec fn response(self) -> ErrorResponseView {
        ErrorResponseView { status: self.status(), if_success: false, message: self.message() }
    }
}

/// The body of an answer that reports an error.
#[derive(Debug)]
pub struct ErrorResponse {
    pub status: u16,
    pub if_success: bool,
    pub message: String,
}

/// The mathematical content of an `ErrorResponse`.
pub struct ErrorResponseView {
    pub status: u16,
    pub if_success: bool,
    pub message: Seq<char>,
}

impl View for ErrorResponse {
    type V = ErrorResponseView;

    open spec fn view(&self) -> ErrorResponseView {
        ErrorResponseView {
            status: self.status,
            if_success: self.if_success,
            message: self.message@,
        }
    }
}

impl AppError {
    /// The HTTP status the error is answered with.
    pub fn status_code(&self) -> (r: u16)
        ensures
            r == self@.status(),
            r == 400 || r == 404 || r == 500,
    {
        match self {
            AppError::BusinessError(_) => 400,
            AppError::ValidationError(_) => 400,
            AppError::NotFound(_) => 404,
            AppError::DatabaseError(_) => 500,
            AppError::InternalError(_) => 500,
        }
    }

    /// The body the error is answered with: its status, no success, and its
    /// message.
    pub fn into_response(self) -> (r: ErrorResponse)
        ensures
            r@ == self@.response(),
    {
        let status = self.status_code();
        let message = match self {
            AppError::BusinessError(m) => m,
            AppError::ValidationError(m) => m,
            AppError::NotFound(m) => m,
            AppError::DatabaseError(m) => m,
            AppError::InternalError(m) => m,
        };
        ErrorResponse { status, if_success: false, message }
    }

    /// The error in one line: its kind, then its message.
    pub fn describe(&self) -> (r: String)
        ensures
            r@ == self@.text(),
    {
        match self {
            AppError::BusinessError(m) => concat2("Business Error: ", m.as_str()),
            AppError::DatabaseError(m) => concat2("Database Error: ", m.as_str()),
            AppError::ValidationError(m) => concat2("Validation Error: ", m.as_str()),
            AppError::NotFound(m) => concat2("Not Found: ", m.as_str()),
            AppError::InternalError(m) => concat2("Internal Error: ", m.as_str()),
        }
    }
}

} // verus!
