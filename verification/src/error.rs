//! Error responses.

use vstd::prelude::*;
use vstd::string::*;

use crate::numbers::{int_decimal, push_i64};

verus! {

/// HTTP status codes this crate answers with.
pub const STATUS_BAD_REQUEST: u16 = 400;
pub const STATUS_NOT_FOUND: u16 = 404;
pub const STATUS_CONFLICT: u16 = 409;
pub const STATUS_INTERNAL_SERVER_ERROR: u16 = 500;

/// What an `AppError` holds: its status, the message sent to the client,
/// and the internal detail that is only logged.
pub struct AppErrorView {
    pub status: u16,
    pub message: Seq<char>,
    pub internal: Option<Seq<char>>,
}

/// Application error with an HTTP status code. Internal errors carry the
/// underlying detail for the log, and a generic message for the client.
#[derive(Debug)]
pub struct AppError {
    status: u16,
    message: String,
    internal: Option<String>,
}

impl View for AppError {
    type V = AppErrorView;

    closed spec fn view(&self) -> AppErrorView {
        AppErrorView {
            status: self.status,
            message: self.message@,
            internal: crate::text::opt_view(self.internal),
        }
    }
}

/// The generic message sent for internal errors.
pub open spec fn generic_internal_message() -> Seq<char> {
    "An internal error occurred"@
}

impl AppError {
    pub fn bad_request(msg: &str) -> (r: Self)
        ensures
            r@.status == STATUS_BAD_REQUEST,
            r@.message == msg@,
            r@.internal is None,
    {
        AppError { status: STATUS_BAD_REQUEST, message: String::from_str(msg), internal: None }
    }

    pub fn not_found(msg: &str) -> (r: Self)
        ensures
            r@.status == STATUS_NOT_FOUND,
            r@.message == msg@,
            r@.internal is None,
    {
        AppError { status: STATUS_NOT_FOUND, message: String::from_str(msg), internal: None }
    }

    pub fn internal(msg: &str) -> (r: Self)
        ensures
            r@.status == STATUS_INTERNAL_SERVER_ERROR,
            r@.message == msg@,
            r@.internal is None,
    {
        AppError {
            status: STATUS_INTERNAL_SERVER_ERROR,
            message: String::from_str(msg),
            internal: None,
        }
    }

    pub fn conflict(msg: &str) -> (r: Self)
        ensures
            r@.status == STATUS_CONFLICT,
            r@.message == msg@,
            r@.internal is None,
    {
        AppError { status: STATUS_CONFLICT, message: String::from_str(msg), internal: None }
    }

    /// An internal error from an underlying failure: the client sees only
    /// a generic message, the detail is kept for the log.
    pub fn from(detail: String) -> (r: Self)
        ensures
            r@.status == STATUS_INTERNAL_SERVER_ERROR,
            r@.message == generic_internal_message(),
            r@.internal == Some(detail@),
    {
        AppError {
            status: STATUS_INTERNAL_SERVER_ERROR,
            message: String::from_str("An internal error occurred"),
            internal: Some(detail),
        }
    }

    /// A bad request whose message is `prefix` followed by `detail`.
    pub fn bad_request_detail(prefix: &str, detail: &str) -> (r: Self)
        ensures
            r@.status == STATUS_BAD_REQUEST,
            r@.message == prefix@ + detail@,
            r@.internal is None,
    {
        let mut m = String::from_str(prefix);
        m.append(detail);
        AppError { status: STATUS_BAD_REQUEST, message: m, internal: None }
    }

    /// An internal error whose message is `prefix` followed by `detail`.
    pub fn internal_detail_message(prefix: &str, detail: &str) -> (r: Self)
        ensures
            r@.status == STATUS_INTERNAL_SERVER_ERROR,
            r@.message == prefix@ + detail@,
            r@.internal is None,
    {
        let mut m = String::from_str(prefix);
        m.append(detail);
        AppError { status: STATUS_INTERNAL_SERVER_ERROR, message: m, internal: None }
    }

    /// "`kind` `id` not found", as for "Account 7 not found".
    pub fn not_found_id(kind: &str, id: i64) -> (r: Self)
        ensures
            r@.status == STATUS_NOT_FOUND,
            r@.message == kind@ + " "@ + int_decimal(id as int) + " not found"@,
            r@.internal is None,
    {
        let mut m = String::from_str(kind);
        m.append(" ");
        push_i64(&mut m, id);
        m.append(" not found");
        AppError { status: STATUS_NOT_FOUND, message: m, internal: None }
    }

    pub fn status(&self) -> (r: u16)
        ensures
            r == self@.status,
    {
        self.status
    }

    pub fn message(&self) -> (r: &str)
        ensures
            r@ == self@.message,
    {
        self.message.as_str()
    }

    /// The detail to log, if any.
    pub fn internal_detail(&self) -> (r: Option<&str>)
        ensures
            match r {
                Some(s) => self@.internal == Some(s@),
                None => self@.internal is None,
            },
    {
        match &self.internal {
            Some(s) => Some(s.as_str()),
            None => None,
        }
    }

    /// The response for this error: its status and `{"error": message}`.
    pub fn into_response(self) -> (r: ErrorResponse)
        ensures
            r.status == self@.status,
            r.error@ == self@.message,
    {
        ErrorResponse { status: self.status, error: self.message }
    }
}

/// An error response: the status and the `error` field of the JSON body.
#[derive(Debug)]
pub struct ErrorResponse {
    pub status: u16,
    pub error: String,
}

/// Success response.
#[derive(Debug)]
pub struct SuccessResponse {
    pub success: bool,
}

} // verus!
