//! Transaction splits.

use vstd::prelude::*;
use vstd::string::*;

use crate::error::{AppError, STATUS_BAD_REQUEST};

verus! {

/// The split type when none is given.
pub fn default_split_type() -> (r: String)
    ensures
        r@ == "item"@,
{
    String::from_str("item")
}

/// The error for an unknown split type.
pub fn invalid_split_type() -> (r: AppError)
    ensures
        r@.status == STATUS_BAD_REQUEST,
        r@.message == "Invalid split_type. Valid: item, tax, tip, fee, discount, rewards"@,
{
    AppError::bad_request("Invalid split_type. Valid: item, tax, tip, fee, discount, rewards")
}

} // verus!
