//! Listing and editing transactions: query parameters, tag-id lists and
//! merchant renames.

use vstd::prelude::*;
use vstd::string::*;

use crate::jwt::has_prefix;
use crate::error::{AppError, STATUS_BAD_REQUEST};
use crate::numbers::{parse_i64, spec_parse_i64};
use crate::paging::{clamp_limit, clamp_offset, spec_clamp_limit};
use crate::periods::{
    resolve_period, spec_custom_range, spec_resolve_period, valid_date, CalendarDate,
};
use crate::text::{split_bounds, split_on, substring, to_chars, trim_bounds, trim_str, trimmed};

verus! {

/// Query parameters for listing transactions.
#[derive(Debug)]
pub struct TransactionQuery {
    pub limit: i64,
    pub offset: i64,
    pub account_id: Option<i64>,
    pub entity_id: Option<i64>,
    pub card_member: Option<String>,
    pub search: Option<String>,
    pub tag_ids: Option<String>,
    pub untagged: Option<bool>,
    pub period: Option<String>,
    pub from: Option<String>,
    pub to: Option<String>,
    pub sort: Option<String>,
    pub order: Option<String>,
}

/// Default page size of the transaction list.
pub fn default_limit() -> (r: i64)
    ensures
        r == 50,
{
    50
}

/// The identifiers of a comma-separated list: each piece trimmed, and the
/// pieces that are not decimal `i64`s left out.
pub open spec fn parsed_ids(pieces: Seq<Seq<char>>) -> Seq<i64>
    decreases pieces.len(),
{
    if pieces.len() == 0 {
        Seq::empty()
    } else {
        let rest = parsed_ids(pieces.drop_last());
        match spec_parse_i64(trimmed(pieces.last())) {
            Some(v) => rest.push(v),
            None => rest,
        }
    }
}

pub open spec fn spec_id_list(s: Seq<char>) -> Seq<i64> {
    parsed_ids(split_on(s, ','))
}

/// Parse a comma-separated list of identifiers, skipping invalid pieces.
pub fn parse_id_list(s: &str) -> (r: Vec<i64>)
    ensures
        r@ == spec_id_list(s@),
{
    let cs = to_chars(s);
    let bounds = split_bounds(&cs, ',');
    let ghost pieces = split_on(s@, ',');
    let mut out: Vec<i64> = Vec::new();
    let mut i: usize = 0;
    while i < bounds.len()
        invariant
            cs@ == s@,
            pieces == split_on(cs@, ','),
            bounds@.len() == pieces.len(),
            forall|j: int|
                #![trigger bounds@[j]]
                0 <= j < bounds@.len() ==> bounds@[j].0 <= bounds@[j].1 <= cs@.len()
                    && cs@.subrange(bounds@[j].0 as int, bounds@[j].1 as int) == pieces[j],
            i <= bounds@.len(),
            out@ == parsed_ids(pieces.take(i as int)),
        decreases bounds.len() - i,
    {
        let (a, b) = bounds[i];
        let (ta, tb) = trim_bounds(&cs, a, b);
        let piece = substring(s, ta, tb);
        assert(pieces.take(i + 1).drop_last() =~= pieces.take(i as int));
        assert(pieces.take(i + 1).last() == pieces[i as int]);
        match parse_i64(piece.as_str()) {
            Some(v) => {
                out.push(v);
            },
            None => {},
        }
        i = i + 1;
    }
    assert(pieces.take(bounds@.len() as int) =~= pieces);
    out
}

/// The tag filter of a transaction list: the listed identifiers, or no
/// filter when none of them parses.
pub fn tag_filter(tag_ids: Option<&str>) -> (r: Option<Vec<i64>>)
    ensures
        match tag_ids {
            None => r is None,
            Some(s) => if spec_id_list(s@).len() == 0 {
                r is None
            } else {
                r matches Some(v) && v@ == spec_id_list(s@)
            },
        },
{
    match tag_ids {
        None => None,
        Some(s) => {
            let ids = parse_id_list(s);
            if ids.len() == 0 {
                None
            } else {
                Some(ids)
            }
        },
    }
}

/// The page, tag filter and untagged flag of a transaction list.
#[derive(Debug)]
pub struct ListPage {
    pub limit: i64,
    pub offset: i64,
    pub tag_ids: Option<Vec<i64>>,
    pub untagged: bool,
}

/// The paging and filters of a transaction list: the page size clamped to
/// `1..=MAX_PAGE_LIMIT`, a non-negative offset, the parsed tag filter, and
/// `untagged` defaulting to false.
pub fn list_page(q: &TransactionQuery) -> (r: ListPage)
    ensures
        r.limit == spec_clamp_limit(q.limit as int),
        r.offset == if q.offset < 0 {
            0
        } else {
            q.offset
        },
        match q.tag_ids {
            None => r.tag_ids is None,
            Some(s) => if spec_id_list(s@).len() == 0 {
                r.tag_ids is None
            } else {
                r.tag_ids matches Some(v) && v@ == spec_id_list(s@)
            },
        },
        r.untagged == match q.untagged {
            Some(u) => u,
            None => false,
        },
{
    let tags = match &q.tag_ids {
        Some(s) => tag_filter(Some(s.as_str())),
        None => tag_filter(None),
    };
    ListPage {
        limit: clamp_limit(q.limit),
        offset: clamp_offset(q.offset),
        tag_ids: tags,
        untagged: match q.untagged {
            Some(u) => u,
            None => false,
        },
    }
}

/// Does the list filter by date? When a period is given, or both custom
/// dates are.
pub open spec fn wants_date_range(q: TransactionQuery) -> bool {
    q.period is Some || (q.from is Some && q.to is Some)
}

pub open spec fn opt_string(o: Option<String>) -> Option<Seq<char>> {
    match o {
        Some(s) => Some(s@),
        None => None,
    }
}

/// A list's date-range result as plain values (`None` for no range).
pub open spec fn range_outcome(r: Result<Option<(CalendarDate, CalendarDate)>, AppError>) -> Option<
    Result<(CalendarDate, CalendarDate), (u16, Seq<char>)>,
> {
    match r {
        Ok(None) => None,
        Ok(Some(range)) => Some(Ok(range)),
        Err(e) => Some(Err((e@.status, e@.message))),
    }
}

/// The date range of a transaction list: none unless a period or both
/// custom dates are given; both custom dates give their range; otherwise
/// the period (default "all") resolved on today's date in UTC.
pub fn list_date_range(q: &TransactionQuery) -> (r: Result<
    Option<(CalendarDate, CalendarDate)>,
    AppError,
>)
    ensures
        !wants_date_range(*q) ==> r matches Ok(None),
        q.from is Some && q.to is Some ==> range_outcome(r) == Some(
            spec_custom_range(q.from->0@, q.to->0@),
        ),
        wants_date_range(*q) && !(q.from is Some && q.to is Some) ==> ((r matches Err(e)
            && e@.status == 500 && has_prefix(e@.message, "clock error: "@)) || exists|
            today: CalendarDate,
        |
            #[trigger] valid_date(today) && today.year >= 1970 && range_outcome(r) == Some(
                spec_resolve_period(
                    match q.period {
                        Some(p) => p@,
                        None => "all"@,
                    },
                    opt_string(q.from),
                    opt_string(q.to),
                    today,
                ),
            )),
{
    let wants = q.period.is_some() || (q.from.is_some() && q.to.is_some());
    if !wants {
        return Ok(None);
    }
    let period: &str = match &q.period {
        Some(p) => p.as_str(),
        None => "all",
    };
    let from: Option<&str> = match &q.from {
        Some(f) => Some(f.as_str()),
        None => None,
    };
    let to: Option<&str> = match &q.to {
        Some(t) => Some(t.as_str()),
        None => None,
    };
    match resolve_period(period, from, to) {
        Ok(range) => Ok(Some(range)),
        Err(e) => Err(e),
    }
}

/// Request body for assigning a transaction to a trip.
#[derive(Debug)]
pub struct AssignTripRequest {
    pub trip_id: Option<i64>,
}

/// Request body for updating a transaction's locations.
#[derive(Debug)]
pub struct UpdateLocationRequest {
    pub purchase_location_id: Option<i64>,
    pub vendor_location_id: Option<i64>,
}

/// Request body for updating a merchant name.
#[derive(Debug)]
pub struct UpdateMerchantRequest {
    pub merchant_name: String,
}

/// Response for a merchant name update.
#[derive(Debug)]
pub struct UpdateMerchantResponse {
    pub success: bool,
    pub updated_count: i64,
}

/// The merchant name of a rename request, trimmed; it must not be empty.
pub fn merchant_name(req: &UpdateMerchantRequest) -> (r: Result<String, AppError>)
    ensures
        trimmed(req.merchant_name@).len() > 0 ==> (r matches Ok(n) && n@ == trimmed(
            req.merchant_name@,
        )),
        trimmed(req.merchant_name@).len() == 0 ==> (r matches Err(e) && e@.status
            == STATUS_BAD_REQUEST && e@.message == "Merchant name cannot be empty"@),
{
    let name = trim_str(req.merchant_name.as_str());
    if name.unicode_len() == 0 {
        Err(AppError::bad_request("Merchant name cannot be empty"))
    } else {
        Ok(name)
    }
}

} // verus!
