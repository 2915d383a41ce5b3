//! The audit log listing.

use vstd::prelude::*;

use crate::paging::{clamp_limit, spec_clamp_limit};

verus! {

/// Query parameters for the audit log.
#[derive(Debug)]
pub struct AuditQuery {
    pub limit: i64,
}

/// Default number of audit entries listed.
pub fn default_audit_limit() -> (r: i64)
    ensures
        r == 100,
{
    100
}

/// Entries listed: the requested number clamped to `1..=MAX_PAGE_LIMIT`.
pub fn audit_limit(q: &AuditQuery) -> (r: i64)
    ensures
        r == spec_clamp_limit(q.limit as int),
{
    clamp_limit(q.limit)
}

} // verus!
