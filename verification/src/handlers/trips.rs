//! Trips and events.

use vstd::prelude::*;

use crate::error::{AppError, STATUS_BAD_REQUEST};
use crate::periods::{parse_date_field, parsed_ymd, CalendarDate};

verus! {

/// Query parameters for listing trips.
#[derive(Debug)]
pub struct ListTripsQuery {
    pub include_archived: Option<bool>,
}

/// Archived trips are listed only on request.
pub fn include_archived(q: &ListTripsQuery) -> (r: bool)
    ensures
        r == (q.include_archived == Some(true)),
{
    match q.include_archived {
        Some(b) => b,
        None => false,
    }
}

/// The dates of a new trip; each must parse when given (start first).
pub fn new_trip_dates(start: Option<&str>, end: Option<&str>) -> (r: Result<
    (Option<CalendarDate>, Option<CalendarDate>),
    AppError,
>)
    ensures
        match r {
            Ok((s, e)) => (match start {
                Some(t) => parsed_ymd(t@) is Some && s == parsed_ymd(t@),
                None => s is None,
            }) && (match end {
                Some(t) => parsed_ymd(t@) is Some && e == parsed_ymd(t@),
                None => e is None,
            }),
            Err(x) => x@.status == STATUS_BAD_REQUEST && if start matches Some(t) && parsed_ymd(
                t@,
            ) is None {
                x@.message == "Invalid start_date format (use YYYY-MM-DD)"@
            } else {
                end matches Some(t) && parsed_ymd(t@) is None && x@.message
                    == "Invalid end_date format (use YYYY-MM-DD)"@
            },
        },
{
    let s = parse_date_field(start, "Invalid start_date format (use YYYY-MM-DD)")?;
    let e = parse_date_field(end, "Invalid end_date format (use YYYY-MM-DD)")?;
    Ok((s, e))
}

/// The date changes of a trip update: an absent field is left alone,
/// a present one must parse (start first).
pub fn updated_trip_dates(start: Option<&str>, end: Option<&str>) -> (r: Result<
    (Option<Option<CalendarDate>>, Option<Option<CalendarDate>>),
    AppError,
>)
    ensures
        match r {
            Ok((s, e)) => (match start {
                Some(t) => parsed_ymd(t@) is Some && s == Some(parsed_ymd(t@)),
                None => s is None,
            }) && (match end {
                Some(t) => parsed_ymd(t@) is Some && e == Some(parsed_ymd(t@)),
                None => e is None,
            }),
            Err(x) => x@.status == STATUS_BAD_REQUEST && if start matches Some(t) && parsed_ymd(
                t@,
            ) is None {
                x@.message == "Invalid start_date format"@
            } else {
                end matches Some(t) && parsed_ymd(t@) is None && x@.message
                    == "Invalid end_date format"@
            },
        },
{
    let s = match start {
        Some(_) => Some(parse_date_field(start, "Invalid start_date format")?),
        None => None,
    };
    let e = match end {
        Some(_) => Some(parse_date_field(end, "Invalid end_date format")?),
        None => None,
    };
    Ok((s, e))
}

} // verus!
