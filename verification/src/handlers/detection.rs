//! Waste detection requests.

use vstd::prelude::*;
use vstd::string::*;

use crate::numbers::{nat_digits, push_u64};
use crate::text::{str_is, to_chars};

verus! {

/// Detection request parameters.
#[derive(Debug)]
pub struct DetectRequest {
    pub kind: String,
}

/// The kind run when none is given.
pub fn default_kind() -> (r: String)
    ensures
        r@ == "all"@,
{
    String::from_str("all")
}

/// The request used when the body cannot be read as one: all kinds.
pub fn default_detect_request() -> (r: DetectRequest)
    ensures
        r.kind@ == "all"@,
{
    DetectRequest { kind: default_kind() }
}

/// Which detections run.
#[derive(Debug)]
pub enum DetectionKind {
    Zombies,
    Increases,
    Duplicates,
    All,
}

/// "zombies", "increases" and "duplicates" run one detection; anything
/// else runs all of them.
pub fn detection_kind(kind: &str) -> (r: DetectionKind)
    ensures
        kind@ == "zombies"@ ==> r is Zombies,
        kind@ == "increases"@ ==> r is Increases,
        kind@ == "duplicates"@ ==> r is Duplicates,
        kind@ != "zombies"@ && kind@ != "increases"@ && kind@ != "duplicates"@ ==> r is All,
{
    let k = to_chars(kind);
    proof {
        reveal_strlit("zombies");
        reveal_strlit("increases");
        reveal_strlit("duplicates");
        assert("zombies"@.len() == 7);
        assert("increases"@.len() == 9);
        assert("duplicates"@.len() == 10);
    }
    if str_is("zombies", &k) {
        DetectionKind::Zombies
    } else if str_is("increases", &k) {
        DetectionKind::Increases
    } else if str_is("duplicates", &k) {
        DetectionKind::Duplicates
    } else {
        DetectionKind::All
    }
}

/// Detection response.
#[derive(Debug)]
pub struct DetectResponse {
    pub subscriptions_found: usize,
    pub zombies_detected: usize,
    pub price_increases_detected: usize,
    pub duplicates_detected: usize,
}

/// The audit detail of a detection run.
pub fn detect_audit_details(kind: &str, r: &DetectResponse) -> (s: String)
    ensures
        s@ == "kind="@ + kind@ + ", subscriptions="@ + nat_digits(r.subscriptions_found as nat)
            + ", zombies="@ + nat_digits(r.zombies_detected as nat) + ", increases="@ + nat_digits(
            r.price_increases_detected as nat,
        ) + ", duplicates="@ + nat_digits(r.duplicates_detected as nat),
{
    let mut s = String::from_str("kind=");
    s.append(kind);
    s.append(", subscriptions=");
    push_u64(&mut s, r.subscriptions_found as u64);
    s.append(", zombies=");
    push_u64(&mut s, r.zombies_detected as u64);
    s.append(", increases=");
    push_u64(&mut s, r.price_increases_detected as u64);
    s.append(", duplicates=");
    push_u64(&mut s, r.duplicates_detected as u64);
    s
}

} // verus!
