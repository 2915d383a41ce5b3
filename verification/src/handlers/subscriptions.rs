//! Subscription listing and cancellation.

use vstd::prelude::*;

verus! {

/// Query parameters for listing subscriptions.
#[derive(Debug)]
pub struct ListSubscriptionsQuery {
    pub account_id: Option<i64>,
}

/// Response of a subscription cancellation.
#[derive(Debug)]
pub struct CancelResponse {
    pub success: bool,
    pub id: i64,
}

} // verus!
