//! Insights: listing, snoozing and feedback.

use vstd::prelude::*;

use crate::error::{AppError, STATUS_BAD_REQUEST};

verus! {

/// Query parameters for listing insights.
#[derive(Debug)]
pub struct InsightQuery {
    pub status: Option<String>,
    pub insight_type: Option<String>,
    pub limit: usize,
}

/// Default number of top insights.
pub fn default_limit() -> (r: usize)
    ensures
        r == 5,
{
    5
}

/// Request to snooze an insight.
#[derive(Debug)]
pub struct SnoozeRequest {
    pub days: u32,
}

/// An insight can be snoozed for 1 to 90 days.
pub fn check_snooze(req: &SnoozeRequest) -> (r: Result<(), AppError>)
    ensures
        r is Ok <==> 1 <= req.days <= 90,
        r matches Err(e) ==> e@.status == STATUS_BAD_REQUEST && e@.message
            == "Days must be between 1 and 90"@,
{
    if req.days < 1 || req.days > 90 {
        Err(AppError::bad_request("Days must be between 1 and 90"))
    } else {
        Ok(())
    }
}

/// Feedback text on an insight.
#[derive(Debug)]
pub struct InsightFeedbackRequest {
    pub feedback: String,
}

/// Response of an insight refresh.
#[derive(Debug)]
pub struct RefreshResponse {
    pub count: usize,
}

} // verus!
