//! Report query parameters and their default periods.

use vstd::prelude::*;
use vstd::string::*;

use crate::error::{AppError, STATUS_BAD_REQUEST};
use crate::paging::limit_or;
use crate::periods::{parse_date_field, parsed_ymd, CalendarDate};

verus! {

/// `p`, or `default` when absent.
pub open spec fn period_or(p: Option<String>, default: Seq<char>) -> Seq<char> {
    match p {
        Some(s) => s@,
        None => default,
    }
}

fn period_or_else<'a>(p: &'a Option<String>, default: &'a str) -> (r: &'a str)
    ensures
        r@ == period_or(*p, default@),
{
    match p {
        Some(s) => s.as_str(),
        None => default,
    }
}

/// Query parameters for the spending-by-tag report.
#[derive(Debug)]
pub struct SpendingByTagQuery {
    pub from: Option<String>,
    pub to: Option<String>,
}

/// The optional bounds of the spending-by-tag report; each must parse
/// when given (`from` checked first).
pub fn spending_by_tag_range(q: &SpendingByTagQuery) -> (r: Result<
    (Option<CalendarDate>, Option<CalendarDate>),
    AppError,
>)
    ensures
        match r {
            Ok((f, t)) => (match q.from {
                Some(s) => parsed_ymd(s@) is Some && f == parsed_ymd(s@),
                None => f is None,
            }) && (match q.to {
                Some(s) => parsed_ymd(s@) is Some && t == parsed_ymd(s@),
                None => t is None,
            }),
            Err(e) => e@.status == STATUS_BAD_REQUEST && if q.from matches Some(s) && parsed_ymd(
                s@,
            ) is None {
                e@.message == "Invalid from date format (use YYYY-MM-DD)"@
            } else {
                q.to matches Some(s) && parsed_ymd(s@) is None && e@.message
                    == "Invalid to date format (use YYYY-MM-DD)"@
            },
        },
{
    let from_s: Option<&str> = match &q.from {
        Some(f) => Some(f.as_str()),
        None => None,
    };
    let to_s: Option<&str> = match &q.to {
        Some(t) => Some(t.as_str()),
        None => None,
    };
    let from = parse_date_field(from_s, "Invalid from date format (use YYYY-MM-DD)")?;
    let to = parse_date_field(to_s, "Invalid to date format (use YYYY-MM-DD)")?;
    Ok((from, to))
}

/// Query parameters for the spending summary.
#[derive(Debug)]
pub struct ReportSpendingQuery {
    pub period: Option<String>,
    pub from: Option<String>,
    pub to: Option<String>,
    pub tag: Option<String>,
    pub expand: Option<bool>,
    pub entity_id: Option<i64>,
    pub card_member: Option<String>,
}

impl ReportSpendingQuery {
    /// The period, "this-month" by default.
    pub fn period_name(&self) -> (r: &str)
        ensures
            r@ == period_or(self.period, "this-month"@),
    {
        period_or_else(&self.period, "this-month")
    }

    /// Whether child categories are expanded (not by default).
    pub fn expand_children(&self) -> (r: bool)
        ensures
            r == (self.expand == Some(true)),
    {
        match self.expand {
            Some(e) => e,
            None => false,
        }
    }
}

/// Query parameters for the trends report.
#[derive(Debug)]
pub struct ReportTrendsQuery {
    pub granularity: Option<String>,
    pub period: Option<String>,
    pub tag: Option<String>,
    pub entity_id: Option<i64>,
    pub card_member: Option<String>,
}

impl ReportTrendsQuery {
    /// The period, "last-12-months" by default.
    pub fn period_name(&self) -> (r: &str)
        ensures
            r@ == period_or(self.period, "last-12-months"@),
    {
        period_or_else(&self.period, "last-12-months")
    }

    /// The granularity, "monthly" by default.
    pub fn granularity_name(&self) -> (r: &str)
        ensures
            r@ == period_or(self.granularity, "monthly"@),
    {
        period_or_else(&self.granularity, "monthly")
    }
}

/// Query parameters for the top merchants report.
#[derive(Debug)]
pub struct ReportMerchantsQuery {
    pub limit: Option<i64>,
    pub period: Option<String>,
    pub tag: Option<String>,
    pub entity_id: Option<i64>,
    pub card_member: Option<String>,
}

impl ReportMerchantsQuery {
    /// The period, "this-month" by default.
    pub fn period_name(&self) -> (r: &str)
        ensures
            r@ == period_or(self.period, "this-month"@),
    {
        period_or_else(&self.period, "this-month")
    }

    /// Merchants listed: the requested number (10 by default), at most 100.
    pub fn merchant_limit(&self) -> (r: i64)
        ensures
            r == match self.limit {
                Some(l) => if l > 100 {
                    100
                } else {
                    l
                },
                None => 10,
            },
    {
        limit_or(self.limit, 10, 100)
    }
}

/// Query parameters for the by-entity report.
#[derive(Debug)]
pub struct ReportByEntityQuery {
    pub period: Option<String>,
    pub from: Option<String>,
    pub to: Option<String>,
}

impl ReportByEntityQuery {
    /// The period, "this-month" by default.
    pub fn period_name(&self) -> (r: &str)
        ensures
            r@ == period_or(self.period, "this-month"@),
    {
        period_or_else(&self.period, "this-month")
    }
}

/// Query parameters for the by-location report.
#[derive(Debug)]
pub struct ReportByLocationQuery {
    pub period: Option<String>,
    pub from: Option<String>,
    pub to: Option<String>,
}

impl ReportByLocationQuery {
    /// The period, "this-month" by default.
    pub fn period_name(&self) -> (r: &str)
        ensures
            r@ == period_or(self.period, "this-month"@),
    {
        period_or_else(&self.period, "this-month")
    }
}

/// Query parameters for the vehicle cost report.
#[derive(Debug)]
pub struct ReportVehicleCostsQuery {
    pub period: Option<String>,
    pub from: Option<String>,
    pub to: Option<String>,
}

impl ReportVehicleCostsQuery {
    /// The period, "all" by default.
    pub fn period_name(&self) -> (r: &str)
        ensures
            r@ == period_or(self.period, "all"@),
    {
        period_or_else(&self.period, "all")
    }
}

/// Query parameters for the property expense report.
#[derive(Debug)]
pub struct ReportPropertyExpensesQuery {
    pub period: Option<String>,
    pub from: Option<String>,
    pub to: Option<String>,
}

impl ReportPropertyExpensesQuery {
    /// The period, "all" by default.
    pub fn period_name(&self) -> (r: &str)
        ensures
            r@ == period_or(self.period, "all"@),
    {
        period_or_else(&self.period, "all")
    }
}

} // verus!
