//! Reporting periods: presets such as `this-month` and custom date ranges.

use vstd::prelude::*;
use vstd::string::*;

use crate::auth::str_eq;
use crate::error::{AppError, STATUS_BAD_REQUEST, STATUS_INTERNAL_SERVER_ERROR};
use crate::jwt::has_prefix;
use crate::oauth::unix_now_secs;

verus! {

/// A calendar date (proleptic Gregorian), as `chrono::NaiveDate` holds one.
#[derive(Clone, Copy, Debug, PartialEq, Eq, Structural)]
pub struct CalendarDate {
    pub year: i32,
    pub month: u32,
    pub day: u32,
}

/// Earliest year `chrono::NaiveDate` represents.
pub const MIN_CHRONO_YEAR: i32 = -262143;

/// Latest year `chrono::NaiveDate` represents.
pub const MAX_CHRONO_YEAR: i32 = 262142;

pub open spec fn is_leap_year(y: int) -> bool {
    y % 4 == 0 && (y % 100 != 0 || y % 400 == 0)
}

pub open spec fn spec_days_in_month(y: int, m: int) -> int {
    if m == 2 {
        if is_leap_year(y) {
            29
        } else {
            28
        }
    } else if m == 4 || m == 6 || m == 9 || m == 11 {
        30
    } else {
        31
    }
}

/// A real date within the range `chrono::NaiveDate` represents.
pub open spec fn valid_date(d: CalendarDate) -> bool {
    &&& MIN_CHRONO_YEAR <= d.year <= MAX_CHRONO_YEAR
    &&& 1 <= d.month <= 12
    &&& 1 <= d.day <= spec_days_in_month(d.year as int, d.month as int)
}

/// `a` is not after `b`.
pub open spec fn date_le(a: CalendarDate, b: CalendarDate) -> bool {
    a.year < b.year || (a.year == b.year && (a.month < b.month || (a.month == b.month && a.day
        <= b.day)))
}

/// `a` is before `b`.
pub open spec fn date_lt(a: CalendarDate, b: CalendarDate) -> bool {
    date_le(a, b) && a != b
}

/// Whether `year` is a leap year, computed on a non-negative year with
/// the same remainders (shifted by a multiple of 400).
fn leap_year(year: i32) -> (r: bool)
    ensures
        r == is_leap_year(year as int),
{
    let y: u64 = (year as i64 + 2_400_000_000i64) as u64;
    assert(y as int == year as int + 400 * 6_000_000);
    assert((y as int) % 4 == (year as int) % 4) by (nonlinear_arith)
        requires
            y as int == year as int + 400 * 6_000_000,
    ;
    assert((y as int) % 100 == (year as int) % 100) by (nonlinear_arith)
        requires
            y as int == year as int + 400 * 6_000_000,
    ;
    assert((y as int) % 400 == (year as int) % 400) by (nonlinear_arith)
        requires
            y as int == year as int + 400 * 6_000_000,
    ;
    y % 4 == 0 && (y % 100 != 0 || y % 400 == 0)
}

#[verifier::spinoff_prover]
pub fn days_in_month(year: i32, month: u32) -> (r: u32)
    requires
        1 <= month <= 12,
    ensures
        r == spec_days_in_month(year as int, month as int),
{
    if month == 2 {
        if leap_year(year) {
            29
        } else {
            28
        }
    } else if month == 4 || month == 6 || month == 9 || month == 11 {
        30
    } else {
        31
    }
}

/// What `chrono::NaiveDate::parse_from_str(s, "%Y-%m-%d")` gives for `s`.
pub uninterp spec fn parsed_ymd(s: Seq<char>) -> Option<CalendarDate>;

/// What `chrono::NaiveDate::checked_sub_signed(TimeDelta::days(n))` gives.
pub uninterp spec fn days_before(d: CalendarDate, n: u32) -> Option<CalendarDate>;

/// What `str::to_lowercase` gives for `s`.
pub uninterp spec fn lowercased(s: Seq<char>) -> Seq<char>;

/// `chrono::NaiveDate::parse_from_str(s, "%Y-%m-%d")`, read back as year,
/// month and day. Claims that the result is the named parse of `s`, and
/// that a parsed date is a date `NaiveDate` can hold.
#[verifier::external_body]
fn parse_ymd(s: &str) -> (r: Option<CalendarDate>)
    ensures
        r == parsed_ymd(s@),
        r matches Some(d) ==> valid_date(d),
{
    chrono::NaiveDate::parse_from_str(s, "%Y-%m-%d").ok().map(
        |d| CalendarDate {
            year: chrono::Datelike::year(&d),
            month: chrono::Datelike::month(&d),
            day: chrono::Datelike::day(&d),
        },
    )
}

/// `chrono::NaiveDate::checked_sub_signed(TimeDelta::days(n))` on the
/// date. Claims the named result, and, for a date from the third year
/// `NaiveDate` represents on and at most a year of days, that the result
/// exists, is a representable date, and is not after the date (before it
/// when `n > 0`).
#[verifier::external_body]
pub(crate) fn date_minus_days(d: CalendarDate, n: u32) -> (r: Option<CalendarDate>)
    requires
        valid_date(d),
    ensures
        r == days_before(d, n),
        (d.year > MIN_CHRONO_YEAR + 1 && n <= 366) ==> (r is Some && valid_date(r->0) && date_le(
            r->0,
            d,
        ) && (n > 0 ==> date_lt(r->0, d))),
{
    chrono::NaiveDate::from_ymd_opt(d.year, d.month, d.day).and_then(
        |nd| nd.checked_sub_signed(chrono::TimeDelta::days(n as i64)),
    ).map(
        |e| CalendarDate {
            year: chrono::Datelike::year(&e),
            month: chrono::Datelike::month(&e),
            day: chrono::Datelike::day(&e),
        },
    )
}

/// `str::to_lowercase`; claims only the named result.
#[verifier::external_body]
pub(crate) fn lowercase(s: &str) -> (r: String)
    ensures
        r@ == lowercased(s@),
{
    s.to_lowercase()
}

/// The UTC calendar date of the instant `secs` seconds after the Unix
/// epoch, as `chrono` computes it.
pub uninterp spec fn utc_date_of(secs: i64) -> Option<CalendarDate>;

/// `chrono::DateTime::from_timestamp(secs, 0)` and `date_naive`, read back
/// as year, month and day. Claimed: the result is `utc_date_of(secs)`; a
/// date it gives is one `NaiveDate` holds, from 1970 on for an instant not
/// before the epoch; an instant within the next 8 * 10^12 seconds has a
/// date (`NaiveDate` reaches the year 262142).
#[verifier::external_body]
fn utc_date_at(secs: i64) -> (r: Option<CalendarDate>)
    ensures
        r == utc_date_of(secs),
        r matches Some(d) ==> valid_date(d) && (secs >= 0 ==> d.year >= 1970),
        0 <= secs <= 8_000_000_000_000 ==> r is Some,
{
    chrono::DateTime::from_timestamp(secs, 0).map(
        |t| CalendarDate {
            year: chrono::Datelike::year(&t.date_naive()),
            month: chrono::Datelike::month(&t.date_naive()),
            day: chrono::Datelike::day(&t.date_naive()),
        },
    )
}

/// "clock error: " followed by `detail`.
fn clock_error(detail: &str) -> (r: String)
    ensures
        r@ == "clock error: "@ + detail@,
        has_prefix(r@, "clock error: "@),
{
    let mut m = String::from_str("clock error: ");
    m.append(detail);
    proof {
        assert(m@.subrange(0, "clock error: "@.len() as int) =~= "clock error: "@);
    }
    m
}

/// Today's date in UTC, read from the system clock; an error when the
/// clock is before the Unix epoch or too far ahead for a calendar date.
fn utc_today() -> (r: Result<CalendarDate, String>)
    ensures
        r matches Ok(d) ==> valid_date(d) && d.year >= 1970,
        r matches Err(e) ==> has_prefix(e@, "clock error: "@),
{
    match unix_now_secs() {
        Err(e) => Err(clock_error(e.as_str())),
        Ok(secs) => {
            if secs > 8_000_000_000_000 {
                return Err(clock_error("the clock is beyond the calendar"));
            }
            match utc_date_at(secs as i64) {
                Some(d) => Ok(d),
                None => Err(clock_error("the clock is beyond the calendar")),
            }
        },
    }
}

/// The names of the presets, in the order of the error message.
pub open spec fn available_periods() -> Seq<char> {
    "this-month, last-month, this-year, last-year, last-30-days, last-90-days, last-12-months, all"@
}

/// The date range of a preset (already lowercased) on `today`, or `None`
/// for an unknown preset.
pub open spec fn spec_preset_range(p: Seq<char>, today: CalendarDate) -> Option<
    (CalendarDate, CalendarDate),
> {
    let y = today.year;
    let m = today.month;
    if p == "this-month"@ {
        Some((CalendarDate { year: y, month: m, day: 1 }, today))
    } else if p == "last-month"@ {
        if m == 1 {
            Some(
                (
                    CalendarDate { year: (y - 1) as i32, month: 12, day: 1 },
                    CalendarDate { year: (y - 1) as i32, month: 12, day: 31 },
                ),
            )
        } else {
            Some(
                (
                    CalendarDate { year: y, month: (m - 1) as u32, day: 1 },
                    CalendarDate {
                        year: y,
                        month: (m - 1) as u32,
                        day: spec_days_in_month(y as int, m - 1) as u32,
                    },
                ),
            )
        }
    } else if p == "this-year"@ {
        Some((CalendarDate { year: y, month: 1, day: 1 }, today))
    } else if p == "last-year"@ {
        Some(
            (
                CalendarDate { year: (y - 1) as i32, month: 1, day: 1 },
                CalendarDate { year: (y - 1) as i32, month: 12, day: 31 },
            ),
        )
    } else if p == "last-30-days"@ {
        Some((days_before(today, 30)->0, today))
    } else if p == "last-90-days"@ {
        Some((days_before(today, 90)->0, today))
    } else if p == "last-12-months"@ {
        if m == 1 {
            Some((CalendarDate { year: (y - 1) as i32, month: 1, day: 1 }, today))
        } else {
            Some((CalendarDate { year: (y - 1) as i32, month: m, day: 1 }, today))
        }
    } else if p == "all"@ {
        Some((CalendarDate { year: 2000, month: 1, day: 1 }, today))
    } else {
        None
    }
}

/// The outcome of resolving a period, as plain values: the range, or the
/// status and message of the error.
pub open spec fn period_outcome(r: Result<(CalendarDate, CalendarDate), AppError>) -> Result<
    (CalendarDate, CalendarDate),
    (u16, Seq<char>),
> {
    match r {
        Ok(v) => Ok(v),
        Err(e) => Err((e@.status, e@.message)),
    }
}

/// The range given by two custom dates, each of which must parse as
/// `YYYY-MM-DD` (`from` checked first); no clock is involved.
pub open spec fn spec_custom_range(from: Seq<char>, to: Seq<char>) -> Result<
    (CalendarDate, CalendarDate),
    (u16, Seq<char>),
> {
    match parsed_ymd(from) {
        None => Err((STATUS_BAD_REQUEST, "Invalid from date format (use YYYY-MM-DD)"@)),
        Some(f) => match parsed_ymd(to) {
            None => Err((STATUS_BAD_REQUEST, "Invalid to date format (use YYYY-MM-DD)"@)),
            Some(t) => Ok((f, t)),
        },
    }
}

/// Resolve a reporting period on `today`. Custom dates win when both are
/// given (each must parse as `YYYY-MM-DD`, `from` checked first);
/// otherwise the preset, case-insensitively, or a 400 naming the presets.
pub open spec fn spec_resolve_period(
    period: Seq<char>,
    custom_from: Option<Seq<char>>,
    custom_to: Option<Seq<char>>,
    today: CalendarDate,
) -> Result<(CalendarDate, CalendarDate), (u16, Seq<char>)> {
    if custom_from is Some && custom_to is Some {
        spec_custom_range(custom_from->0, custom_to->0)
    } else {
        match spec_preset_range(lowercased(period), today) {
            Some(range) => Ok(range),
            None => Err(
                (
                    STATUS_BAD_REQUEST,
                    "Unknown period: "@ + period + ". Available: "@ + available_periods(),
                ),
            ),
        }
    }
}

/// Resolve a reporting period relative to `today`.
pub fn resolve_period_on(
    period: &str,
    custom_from: Option<&str>,
    custom_to: Option<&str>,
    today: CalendarDate,
) -> (r: Result<(CalendarDate, CalendarDate), AppError>)
    requires
        valid_date(today),
        today.year > MIN_CHRONO_YEAR + 1,
    ensures
        period_outcome(r) == spec_resolve_period(
            period@,
            crate::auth::opt_str(custom_from),
            crate::auth::opt_str(custom_to),
            today,
        ),
        r matches Ok((f, t)) ==> valid_date(f) && valid_date(t),
        !(custom_from is Some && custom_to is Some) && date_le(
            CalendarDate { year: 2000, month: 1, day: 1 },
            today,
        ) ==> (r matches Ok((f, t)) ==> date_le(f, t) && date_le(t, today)),
{
    if let (Some(from), Some(to)) = (custom_from, custom_to) {
        let from_date = match parse_ymd(from) {
            Some(d) => d,
            None => return Err(AppError::bad_request("Invalid from date format (use YYYY-MM-DD)")),
        };
        let to_date = match parse_ymd(to) {
            Some(d) => d,
            None => return Err(AppError::bad_request("Invalid to date format (use YYYY-MM-DD)")),
        };
        return Ok((from_date, to_date));
    }
    let lower = lowercase(period);
    let p = lower.as_str();
    let y = today.year;
    let m = today.month;
    if str_eq(p, "this-month") {
        Ok((CalendarDate { year: y, month: m, day: 1 }, today))
    } else if str_eq(p, "last-month") {
        if m == 1 {
            Ok(
                (
                    CalendarDate { year: y - 1, month: 12, day: 1 },
                    CalendarDate { year: y - 1, month: 12, day: 31 },
                ),
            )
        } else {
            let last_day = days_in_month(y, m - 1);
            Ok(
                (
                    CalendarDate { year: y, month: m - 1, day: 1 },
                    CalendarDate { year: y, month: m - 1, day: last_day },
                ),
            )
        }
    } else if str_eq(p, "this-year") {
        Ok((CalendarDate { year: y, month: 1, day: 1 }, today))
    } else if str_eq(p, "last-year") {
        Ok(
            (
                CalendarDate { year: y - 1, month: 1, day: 1 },
                CalendarDate { year: y - 1, month: 12, day: 31 },
            ),
        )
    } else if str_eq(p, "last-30-days") {
        let from = date_minus_days(today, 30);
        Ok((from.unwrap(), today))
    } else if str_eq(p, "last-90-days") {
        let from = date_minus_days(today, 90);
        Ok((from.unwrap(), today))
    } else if str_eq(p, "last-12-months") {
        if m == 1 {
            Ok((CalendarDate { year: y - 1, month: 1, day: 1 }, today))
        } else {
            Ok((CalendarDate { year: y - 1, month: m, day: 1 }, today))
        }
    } else if str_eq(p, "all") {
        Ok((CalendarDate { year: 2000, month: 1, day: 1 }, today))
    } else {
        let mut msg = String::from_str("Unknown period: ");
        msg.append(period);
        msg.append(". Available: ");
        msg.append(
            "this-month, last-month, this-year, last-year, last-30-days, last-90-days, last-12-months, all",
        );
        Err(AppError::bad_request(msg.as_str()))
    }
}

/// Resolve a reporting period relative to today's date in UTC. Two
/// custom dates give their range without reading the clock. Otherwise
/// the result is what `resolve_period_on` gives for some date from 1970
/// on (so a preset range ends no later than today and starts no later
/// than it ends, once today is past 2000-01-01); a clock that cannot be
/// read is a 500.
pub fn resolve_period(period: &str, custom_from: Option<&str>, custom_to: Option<&str>) -> (r:
    Result<(CalendarDate, CalendarDate), AppError>)
    ensures
        custom_from is Some && custom_to is Some ==> period_outcome(r) == spec_custom_range(
            custom_from->0@,
            custom_to->0@,
        ),
        !(custom_from is Some && custom_to is Some) ==> ((r matches Err(e) && e@.status
            == STATUS_INTERNAL_SERVER_ERROR && has_prefix(e@.message, "clock error: "@))
            || exists|today: CalendarDate|
            #[trigger] valid_date(today) && today.year >= 1970 && period_outcome(r)
                == spec_resolve_period(
                period@,
                crate::auth::opt_str(custom_from),
                crate::auth::opt_str(custom_to),
                today,
            ) && (date_le(CalendarDate { year: 2000, month: 1, day: 1 }, today) ==> (r matches Ok(
                (f, t),
            ) ==> date_le(f, t) && date_le(t, today)))),
{
    if custom_from.is_some() && custom_to.is_some() {
        let any_day = CalendarDate { year: 2000, month: 1, day: 1 };
        return resolve_period_on(period, custom_from, custom_to, any_day);
    }
    let today = match utc_today() {
        Ok(d) => d,
        Err(e) => {
            return Err(AppError::internal(e.as_str()));
        },
    };
    resolve_period_on(period, custom_from, custom_to, today)
}

proof fn lemma_presets_distinct()
    ensures
        "this-month"@ != "last-month"@,
        "this-year"@ != "last-month"@,
        "this-year"@ != "this-month"@,
        "this-month"@ != "this-year"@,
        "last-year"@ != "this-month"@,
        "last-year"@ != "last-month"@,
        "last-year"@ != "this-year"@,
        "last-30-days"@ != "this-month"@,
        "last-30-days"@ != "last-month"@,
        "last-30-days"@ != "this-year"@,
        "last-30-days"@ != "last-year"@,
        "last-90-days"@ != "this-month"@,
        "last-90-days"@ != "last-month"@,
        "last-90-days"@ != "this-year"@,
        "last-90-days"@ != "last-year"@,
        "last-90-days"@ != "last-30-days"@,
        "last-12-months"@ != "this-month"@,
        "last-12-months"@ != "last-month"@,
        "last-12-months"@ != "this-year"@,
        "last-12-months"@ != "last-year"@,
        "last-12-months"@ != "last-30-days"@,
        "last-12-months"@ != "last-90-days"@,
        "all"@ != "this-month"@,
        "all"@ != "last-month"@,
        "all"@ != "this-year"@,
        "all"@ != "last-year"@,
        "all"@ != "last-30-days"@,
        "all"@ != "last-90-days"@,
        "all"@ != "last-12-months"@,
{
    reveal_strlit("this-month");
    reveal_strlit("last-month");
    reveal_strlit("this-year");
    reveal_strlit("last-year");
    reveal_strlit("last-30-days");
    reveal_strlit("last-90-days");
    reveal_strlit("last-12-months");
    reveal_strlit("all");
    assert("this-month"@[0] != "last-month"@[0]);
    assert("this-year"@[0] != "last-year"@[0]);
    assert("last-30-days"@[5] != "last-90-days"@[5]);
    assert("this-month"@.len() == 10);
    assert("last-month"@.len() == 10);
    assert("this-year"@.len() == 9);
    assert("last-year"@.len() == 9);
    assert("last-30-days"@.len() == 12);
    assert("last-90-days"@.len() == 12);
    assert("last-12-months"@.len() == 14);
    assert("all"@.len() == 3);
}

/// "last-month" is the whole previous calendar month: from its first day
/// to its last (31 for July), the month before January being December of
/// the previous year.
pub proof fn law_last_month_is_whole_month(period: Seq<char>, today: CalendarDate)
    requires
        valid_date(today),
        lowercased(period) == "last-month"@,
    ensures
        spec_resolve_period(period, None, None, today) matches Ok((f, t)) && f.day == 1 && t.year
            == f.year && t.month == f.month && t.day == spec_days_in_month(
            t.year as int,
            t.month as int,
        ) && (today.month > 1 ==> t.year == today.year && t.month + 1 == today.month) && (
        today.month == 1 ==> t.year + 1 == today.year && t.month == 12),
{
    lemma_presets_distinct();
}

/// "this-month" and "this-year" run from the first of the month or year to
/// today.
pub proof fn law_current_periods_end_today(period: Seq<char>, today: CalendarDate)
    requires
        valid_date(today),
    ensures
        lowercased(period) == "this-month"@ ==> spec_resolve_period(period, None, None, today)
            == Ok::<(CalendarDate, CalendarDate), (u16, Seq<char>)>(
            (CalendarDate { year: today.year, month: today.month, day: 1 }, today),
        ),
        lowercased(period) == "this-year"@ ==> spec_resolve_period(period, None, None, today)
            == Ok::<(CalendarDate, CalendarDate), (u16, Seq<char>)>(
            (CalendarDate { year: today.year, month: 1, day: 1 }, today),
        ),
{
    lemma_presets_distinct();
}

/// The other presets: "last-year" is the whole previous calendar year;
/// "last-30-days" and "last-90-days" run from that many days before today
/// to today; "last-12-months" from the first of this month a year ago
/// (January 1 of last year in January) to today; "all" from 2000-01-01 to
/// today.
pub proof fn law_other_presets(period: Seq<char>, today: CalendarDate)
    requires
        valid_date(today),
    ensures
        lowercased(period) == "last-year"@ ==> spec_resolve_period(period, None, None, today)
            == Ok::<(CalendarDate, CalendarDate), (u16, Seq<char>)>(
            (
                CalendarDate { year: (today.year - 1) as i32, month: 1, day: 1 },
                CalendarDate { year: (today.year - 1) as i32, month: 12, day: 31 },
            ),
        ),
        lowercased(period) == "last-30-days"@ ==> spec_resolve_period(period, None, None, today)
            == Ok::<(CalendarDate, CalendarDate), (u16, Seq<char>)>(
            (days_before(today, 30)->0, today),
        ),
        lowercased(period) == "last-90-days"@ ==> spec_resolve_period(period, None, None, today)
            == Ok::<(CalendarDate, CalendarDate), (u16, Seq<char>)>(
            (days_before(today, 90)->0, today),
        ),
        lowercased(period) == "last-12-months"@ ==> spec_resolve_period(period, None, None, today)
            == Ok::<(CalendarDate, CalendarDate), (u16, Seq<char>)>(
            (
                CalendarDate {
                    year: (today.year - 1) as i32,
                    month: if today.month == 1 {
                        1
                    } else {
                        today.month
                    },
                    day: 1,
                },
                today,
            ),
        ),
        lowercased(period) == "all"@ ==> spec_resolve_period(period, None, None, today) == Ok::<
            (CalendarDate, CalendarDate),
            (u16, Seq<char>),
        >((CalendarDate { year: 2000, month: 1, day: 1 }, today)),
{
    lemma_presets_distinct();
}

/// A lone custom date, whatever its text, is ignored: the period resolves
/// as if neither custom date were given.
pub proof fn law_lone_custom_date_ignored(period: Seq<char>, date: Seq<char>, today: CalendarDate)
    ensures
        spec_resolve_period(period, Some(date), None, today) == spec_resolve_period(
            period,
            None,
            None,
            today,
        ),
        spec_resolve_period(period, None, Some(date), today) == spec_resolve_period(
            period,
            None,
            None,
            today,
        ),
{
}

/// An optional `YYYY-MM-DD` field: absent is `None`; present, it must
/// parse, or the request is refused with `error`.
pub fn parse_date_field(s: Option<&str>, error: &str) -> (r: Result<Option<CalendarDate>, AppError>)
    ensures
        match s {
            None => r == Ok::<Option<CalendarDate>, AppError>(None),
            Some(t) => match parsed_ymd(t@) {
                Some(d) => r == Ok::<Option<CalendarDate>, AppError>(Some(d)),
                None => r matches Err(e) && e@.status == STATUS_BAD_REQUEST && e@.message
                    == error@,
            },
        },
        r matches Ok(Some(d)) ==> valid_date(d),
{
    match s {
        None => Ok(None),
        Some(t) => match parse_ymd(t) {
            Some(d) => Ok(Some(d)),
            None => Err(AppError::bad_request(error)),
        },
    }
}

} // verus!
