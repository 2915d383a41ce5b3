//! Pagination limits: what the list endpoints accept of a client's
//! `limit` and `offset`.

use vstd::prelude::*;

verus! {

/// Maximum page size of the list endpoints.
pub const MAX_PAGE_LIMIT: i64 = 1000;

/// `limit` clamped to `1..=MAX_PAGE_LIMIT`.
pub open spec fn spec_clamp_limit(limit: int) -> int {
    if limit < 1 {
        1
    } else if limit > MAX_PAGE_LIMIT {
        MAX_PAGE_LIMIT as int
    } else {
        limit
    }
}

/// A page size within `1..=MAX_PAGE_LIMIT`, as `limit.max(1).min(MAX_PAGE_LIMIT)`.
pub fn clamp_limit(limit: i64) -> (r: i64)
    ensures
        r == spec_clamp_limit(limit as int),
        1 <= r <= MAX_PAGE_LIMIT,
{
    let at_least_one = if limit < 1 {
        1
    } else {
        limit
    };
    if at_least_one > MAX_PAGE_LIMIT {
        MAX_PAGE_LIMIT
    } else {
        at_least_one
    }
}

/// An offset that is not negative, as `offset.max(0)`.
pub fn clamp_offset(offset: i64) -> (r: i64)
    ensures
        r == if offset < 0 {
            0
        } else {
            offset
        },
{
    if offset < 0 {
        0
    } else {
        offset
    }
}

/// A page size capped at `MAX_PAGE_LIMIT` only, as `limit.min(MAX_PAGE_LIMIT)`.
pub fn cap_limit(limit: i64) -> (r: i64)
    ensures
        r == if limit > MAX_PAGE_LIMIT {
            MAX_PAGE_LIMIT
        } else {
            limit
        },
{
    if limit > MAX_PAGE_LIMIT {
        MAX_PAGE_LIMIT
    } else {
        limit
    }
}

/// `limit` or `default`, capped at `cap`: `limit.unwrap_or(default).min(cap)`.
pub fn limit_or(limit: Option<i64>, default: i64, cap: i64) -> (r: i64)
    ensures
        r == match limit {
            Some(l) => if l > cap {
                cap
            } else {
                l
            },
            None => if default > cap {
                cap
            } else {
                default
            },
        },
{
    let l = match limit {
        Some(l) => l,
        None => default,
    };
    if l > cap {
        cap
    } else {
        l
    }
}

/// Clamping never leaves `1..=MAX_PAGE_LIMIT`, changes nothing inside it,
/// and clamping twice is clamping once.
pub proof fn law_clamp_limit(limit: int)
    ensures
        1 <= spec_clamp_limit(limit) <= MAX_PAGE_LIMIT,
        1 <= limit <= MAX_PAGE_LIMIT ==> spec_clamp_limit(limit) == limit,
        spec_clamp_limit(spec_clamp_limit(limit)) == spec_clamp_limit(limit),
{
}

} // verus!
