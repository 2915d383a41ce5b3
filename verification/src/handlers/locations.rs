//! Locations and mileage logs.

use vstd::prelude::*;

use crate::error::{AppError, STATUS_BAD_REQUEST};
use crate::periods::{parse_date_field, parsed_ymd, CalendarDate};

verus! {

/// The error for an unknown location type.
pub fn invalid_location_type() -> (r: AppError)
    ensures
        r@.status == STATUS_BAD_REQUEST,
        r@.message == "Invalid location_type. Valid: home, work, store, online, travel"@,
{
    AppError::bad_request("Invalid location_type. Valid: home, work, store, online, travel")
}

/// The date of a mileage log entry, which must be `YYYY-MM-DD`.
pub fn mileage_date(date: &str) -> (r: Result<CalendarDate, AppError>)
    ensures
        match parsed_ymd(date@) {
            Some(d) => r == Ok::<CalendarDate, AppError>(d),
            None => r matches Err(e) && e@.status == STATUS_BAD_REQUEST && e@.message
                == "Invalid date format (use YYYY-MM-DD)"@,
        },
{
    match parse_date_field(Some(date), "Invalid date format (use YYYY-MM-DD)")? {
        Some(d) => Ok(d),
        None => Err(AppError::bad_request("Invalid date format (use YYYY-MM-DD)")),
    }
}

} // verus!
