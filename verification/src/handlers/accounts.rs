//! Bank accounts.

use vstd::prelude::*;

use crate::error::{AppError, STATUS_BAD_REQUEST};

verus! {

/// Request to create an account.
#[derive(Debug)]
pub struct CreateAccountRequest {
    pub name: String,
    pub bank: String,
}

/// Request to update an account.
#[derive(Debug)]
pub struct UpdateAccountRequest {
    pub name: String,
    pub bank: String,
}

/// Request to set or clear an account's entity.
#[derive(Debug)]
pub struct UpdateAccountEntityRequest {
    pub entity_id: Option<i64>,
}

/// The error for a bank format the importer does not know.
pub fn unknown_bank(bank: &str) -> (r: AppError)
    ensures
        r@.status == STATUS_BAD_REQUEST,
        r@.message == "Unknown bank format: "@ + bank@,
{
    AppError::bad_request_detail("Unknown bank format: ", bank)
}

} // verus!
