//! Alerts, and the re-analysis of spending anomalies.

use vstd::prelude::*;
use vstd::string::*;

use crate::error::{AppError, STATUS_BAD_REQUEST};
use crate::periods::{date_minus_days, days_before, lowercase, lowercased, valid_date, CalendarDate};
use crate::text::{str_is, strings_view, to_chars};

verus! {

/// Query parameters for listing alerts.
#[derive(Debug)]
pub struct AlertQuery {
    pub include_dismissed: bool,
}

/// Only a spending-anomaly alert with its anomaly data can be
/// re-analyzed, and only with an AI backend (checked in that order).
pub fn check_reanalyze(is_spending_anomaly: bool, has_anomaly_data: bool, has_ai: bool) -> (r:
    Result<(), AppError>)
    ensures
        r is Ok <==> is_spending_anomaly && has_anomaly_data && has_ai,
        r matches Err(e) ==> e@.status == STATUS_BAD_REQUEST && if !is_spending_anomaly {
            e@.message == "Only spending anomaly alerts can be reanalyzed"@
        } else if !has_anomaly_data {
            e@.message == "Alert missing spending anomaly data"@
        } else {
            e@.message == "AI backend not configured"@
        },
{
    if !is_spending_anomaly {
        return Err(AppError::bad_request("Only spending anomaly alerts can be reanalyzed"));
    }
    if !has_anomaly_data {
        return Err(AppError::bad_request("Alert missing spending anomaly data"));
    }
    if !has_ai {
        return Err(AppError::bad_request("AI backend not configured"));
    }
    Ok(())
}

/// The periods an anomaly is explained over: the current month so far
/// (from its first day), and the 90 days before it ending the day before
/// the month began, as (current start, baseline start, baseline end).
pub open spec fn spec_anomaly_windows(today: CalendarDate) -> Option<
    (CalendarDate, CalendarDate, CalendarDate),
> {
    let start = CalendarDate { year: today.year, month: today.month, day: 1 };
    match days_before(start, 1) {
        Some(end) => match days_before(end, 90) {
            Some(base) => Some((start, base, end)),
            None => None,
        },
        None => None,
    }
}

pub fn anomaly_windows(today: CalendarDate) -> (r: Option<(CalendarDate, CalendarDate, CalendarDate)>)
    requires
        valid_date(today),
        today.year > crate::periods::MIN_CHRONO_YEAR + 1,
    ensures
        r == spec_anomaly_windows(today),
{
    let start = CalendarDate { year: today.year, month: today.month, day: 1 };
    match date_minus_days(start, 1) {
        Some(end) => {
            match date_minus_days(end, 90) {
                Some(base) => Some((start, base, end)),
                None => None,
            }
        },
        None => None,
    }
}

/// Does some name of `baseline` equal `l` once lowercased?
pub open spec fn seen_before(baseline: Seq<Seq<char>>, l: Seq<char>) -> bool {
    exists|j: int| 0 <= j < baseline.len() && lowercased(#[trigger] baseline[j]) == l
}

/// The merchants of `current`, in order, whose lowercased name is not the
/// lowercased name of a baseline merchant.
pub open spec fn spec_new_merchants(current: Seq<Seq<char>>, baseline: Seq<Seq<char>>) -> Seq<
    Seq<char>,
>
    decreases current.len(),
{
    if current.len() == 0 {
        Seq::empty()
    } else {
        let rest = spec_new_merchants(current.drop_last(), baseline);
        if seen_before(baseline, lowercased(current.last())) {
            rest
        } else {
            rest.push(current.last())
        }
    }
}

pub fn new_merchants(current: &Vec<String>, baseline: &Vec<String>) -> (r: Vec<String>)
    ensures
        strings_view(r@) == spec_new_merchants(strings_view(current@), strings_view(baseline@)),
{
    let ghost bv = strings_view(baseline@);
    let mut lowered: Vec<Vec<char>> = Vec::new();
    let mut k: usize = 0;
    while k < baseline.len()
        invariant
            k <= baseline@.len(),
            bv == strings_view(baseline@),
            lowered@.len() == k,
            forall|j: int| 0 <= j < k ==> #[trigger] lowered@[j]@ == lowercased(bv[j]),
        decreases baseline.len() - k,
    {
        let l = lowercase(baseline[k].as_str());
        lowered.push(to_chars(l.as_str()));
        k = k + 1;
    }
    let mut out: Vec<String> = Vec::new();
    let mut i: usize = 0;
    while i < current.len()
        invariant
            i <= current@.len(),
            bv == strings_view(baseline@),
            lowered@.len() == bv.len(),
            forall|j: int| 0 <= j < bv.len() ==> #[trigger] lowered@[j]@ == lowercased(bv[j]),
            strings_view(out@) == spec_new_merchants(
                strings_view(current@.take(i as int)),
                bv,
            ),
        decreases current.len() - i,
    {
        let name = lowercase(current[i].as_str());
        let mut seen = false;
        let mut j: usize = 0;
        while j < lowered.len()
            invariant
                j <= lowered@.len(),
                lowered@.len() == bv.len(),
                forall|q: int| 0 <= q < bv.len() ==> #[trigger] lowered@[q]@ == lowercased(bv[q]),
                seen <==> exists|q: int| 0 <= q < j && lowercased(#[trigger] bv[q]) == name@,
            decreases lowered.len() - j,
        {
            if str_is(name.as_str(), &lowered[j]) {
                seen = true;
            }
            j = j + 1;
        }
        let ghost cur = strings_view(current@.take(i + 1));
        assert(cur.drop_last() =~= strings_view(current@.take(i as int)));
        assert(cur.last() == current@[i as int]@);
        if !seen {
            out.push(current[i].clone());
            assert(strings_view(out@) =~= spec_new_merchants(
                strings_view(current@.take(i as int)),
                bv,
            ).push(current@[i as int]@));
        }
        i = i + 1;
    }
    assert(current@.take(current@.len() as int) =~= current@);
    out
}

/// Sum of the first `k` values of `s`.
pub open spec fn prefix_sum(s: Seq<i32>, k: int) -> int
    decreases k,
{
    if k <= 0 {
        0
    } else {
        prefix_sum(s, k - 1) + s[k - 1]
    }
}

/// The total transaction count of a merchant report, summed as `i32`s.
pub fn total_count(counts: &Vec<i32>) -> (r: i32)
    requires
        forall|k: int| 0 <= k <= counts@.len() ==> i32::MIN <= #[trigger] prefix_sum(counts@, k)
            <= i32::MAX,
    ensures
        r == prefix_sum(counts@, counts@.len() as int),
{
    let mut total: i32 = 0;
    let mut i: usize = 0;
    while i < counts.len()
        invariant
            i <= counts@.len(),
            total == prefix_sum(counts@, i as int),
            forall|k: int| 0 <= k <= counts@.len() ==> i32::MIN <= #[trigger] prefix_sum(
                counts@,
                k,
            ) <= i32::MAX,
        decreases counts.len() - i,
    {
        assert(prefix_sum(counts@, i + 1) == prefix_sum(counts@, i as int) + counts@[i as int]);
        total = total + counts[i];
        i = i + 1;
    }
    total
}

} // verus!
