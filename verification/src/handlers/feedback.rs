//! User feedback listing and creation.

use vstd::prelude::*;
use vstd::string::*;

use crate::error::{AppError, STATUS_BAD_REQUEST};
use crate::paging::cap_limit;

verus! {

/// Query parameters for listing feedback.
#[derive(Debug)]
pub struct FeedbackQuery {
    pub target_type: Option<String>,
    pub feedback_type: Option<String>,
    pub include_reverted: bool,
    pub limit: i64,
    pub offset: i64,
}

/// Default number of feedback records listed.
pub fn default_limit() -> (r: i64)
    ensures
        r == 100,
{
    100
}

/// Records listed: the requested number, capped at `MAX_PAGE_LIMIT`.
pub fn feedback_limit(q: &FeedbackQuery) -> (r: i64)
    ensures
        r == if q.limit > 1000 {
            1000
        } else {
            q.limit
        },
{
    cap_limit(q.limit)
}

/// Request body for simple helpful / not helpful feedback.
#[derive(Debug)]
pub struct SimpleFeedbackRequest {
    pub helpful: bool,
    pub reason: Option<String>,
}

/// The error for an unknown feedback type.
pub fn invalid_feedback_type(value: &str) -> (r: AppError)
    ensures
        r@.status == STATUS_BAD_REQUEST,
        r@.message == "Invalid feedback_type: "@ + value@,
{
    AppError::bad_request_detail("Invalid feedback_type: ", value)
}

/// The error for an unknown feedback target type.
pub fn invalid_target_type(value: &str) -> (r: AppError)
    ensures
        r@.status == STATUS_BAD_REQUEST,
        r@.message == "Invalid target_type: "@ + value@,
{
    AppError::bad_request_detail("Invalid target_type: ", value)
}

} // verus!
