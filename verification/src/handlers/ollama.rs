//! AI backend metrics queries.

use vstd::prelude::*;
use vstd::string::*;

use crate::paging::limit_or;

verus! {

/// Query parameters for AI metrics.
#[derive(Debug)]
pub struct OllamaStatsQuery {
    pub period: Option<String>,
}

/// The metrics period: the requested one, the last 30 days by default.
pub fn stats_period(q: &OllamaStatsQuery) -> (r: &str)
    ensures
        match q.period {
            Some(p) => r@ == p@,
            None => r@ == "last-30-days"@,
        },
{
    match &q.period {
        Some(p) => p.as_str(),
        None => "last-30-days",
    }
}

/// Query parameters for recent AI calls.
#[derive(Debug)]
pub struct OllamaCallsQuery {
    pub limit: Option<i64>,
}

/// Calls listed: the requested number (50 by default), at most 200.
pub fn calls_limit(q: &OllamaCallsQuery) -> (r: i64)
    ensures
        r == match q.limit {
            Some(l) => if l > 200 {
                200
            } else {
                l
            },
            None => 50,
        },
{
    limit_or(q.limit, 50, 200)
}

} // verus!
