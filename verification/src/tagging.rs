//! Tag assignment on transactions: where a tag came from, corrections of
//! AI tags, bulk tagging, and the outcome of reprocessing transactions.

use vstd::prelude::*;
use vstd::string::*;

use crate::error::{AppError, STATUS_BAD_REQUEST};
use crate::merchants::{count_ok, count_true};
use crate::text::{opt_view, str_is, to_chars};

verus! {

/// Where a transaction's tag came from.
#[derive(Clone, Copy, Debug, PartialEq, Eq, Structural)]
pub enum TagSourceKind {
    Manual,
    Rule,
    Pattern,
    Ollama,
}

/// The source named in an add-tag request: "rule", "pattern" or "ollama";
/// anything else, or nothing, is a manual tag.
pub open spec fn spec_tag_source(s: Option<Seq<char>>) -> TagSourceKind {
    match s {
        Some(t) => if t == "rule"@ {
            TagSourceKind::Rule
        } else if t == "pattern"@ {
            TagSourceKind::Pattern
        } else if t == "ollama"@ {
            TagSourceKind::Ollama
        } else {
            TagSourceKind::Manual
        },
        None => TagSourceKind::Manual,
    }
}

pub fn tag_source(s: Option<&str>) -> (r: TagSourceKind)
    ensures
        r == spec_tag_source(
            match s {
                Some(t) => Some(t@),
                None => None,
            },
        ),
{
    match s {
        Some(t) => {
            let c = to_chars(t);
            if str_is("rule", &c) {
                TagSourceKind::Rule
            } else if str_is("pattern", &c) {
                TagSourceKind::Pattern
            } else if str_is("ollama", &c) {
                TagSourceKind::Ollama
            } else {
                TagSourceKind::Manual
            }
        },
        None => TagSourceKind::Manual,
    }
}

/// A tag already on a transaction.
#[derive(Debug)]
pub struct TagLink {
    pub tag_id: i64,
    pub from_ollama: bool,
}

/// The tags in `links` that the AI backend assigned, in order.
pub open spec fn ollama_tag_ids(links: Seq<TagLink>) -> Seq<i64>
    decreases links.len(),
{
    if links.len() == 0 {
        Seq::empty()
    } else {
        let rest = ollama_tag_ids(links.drop_last());
        if links.last().from_ollama {
            rest.push(links.last().tag_id)
        } else {
            rest
        }
    }
}

/// The AI-assigned tags of `links` other than `new_tag`: adding `new_tag`
/// by hand corrects each of them.
pub open spec fn corrected_tag_ids(links: Seq<TagLink>, new_tag: i64) -> Seq<i64>
    decreases links.len(),
{
    if links.len() == 0 {
        Seq::empty()
    } else {
        let rest = corrected_tag_ids(links.drop_last(), new_tag);
        if links.last().from_ollama && links.last().tag_id != new_tag {
            rest.push(links.last().tag_id)
        } else {
            rest
        }
    }
}

/// The AI-assigned tags to remove before a transaction is reprocessed.
pub fn ollama_tags(links: &Vec<TagLink>) -> (r: Vec<i64>)
    ensures
        r@ == ollama_tag_ids(links@),
{
    let mut out: Vec<i64> = Vec::new();
    let mut i: usize = 0;
    while i < links.len()
        invariant
            i <= links@.len(),
            out@ == ollama_tag_ids(links@.take(i as int)),
        decreases links.len() - i,
    {
        assert(links@.take(i + 1).drop_last() =~= links@.take(i as int));
        if links[i].from_ollama {
            out.push(links[i].tag_id);
        }
        i = i + 1;
    }
    assert(links@.take(links@.len() as int) =~= links@);
    out
}

/// The AI tags that a tag added from `source` corrects: for a manual tag,
/// every AI-assigned tag other than the new one; none otherwise.
pub fn corrections(links: &Vec<TagLink>, source: &TagSourceKind, new_tag: i64) -> (r: Vec<i64>)
    ensures
        *source is Manual ==> r@ == corrected_tag_ids(links@, new_tag),
        !(*source is Manual) ==> r@.len() == 0,
{
    let mut out: Vec<i64> = Vec::new();
    match source {
        TagSourceKind::Manual => {},
        _ => {
            return out;
        },
    }
    let mut i: usize = 0;
    while i < links.len()
        invariant
            i <= links@.len(),
            out@ == corrected_tag_ids(links@.take(i as int), new_tag),
        decreases links.len() - i,
    {
        assert(links@.take(i + 1).drop_last() =~= links@.take(i as int));
        if links[i].from_ollama && links[i].tag_id != new_tag {
            out.push(links[i].tag_id);
        }
        i = i + 1;
    }
    assert(links@.take(links@.len() as int) =~= links@);
    out
}

/// Whether a tag added from `source` teaches the learned tags (manual ones).
pub fn learns_from(source: &TagSourceKind) -> (r: bool)
    ensures
        r == (*source is Manual),
{
    match source {
        TagSourceKind::Manual => true,
        _ => false,
    }
}

/// Request body for bulk adding tags.
#[derive(Debug)]
pub struct BulkAddTagsRequest {
    pub transaction_ids: Vec<i64>,
    pub tag_ids: Vec<i64>,
}

/// Request body for bulk removing tags.
#[derive(Debug)]
pub struct BulkRemoveTagsRequest {
    pub transaction_ids: Vec<i64>,
    pub tag_ids: Vec<i64>,
}

/// Response for bulk tag operations.
#[derive(Debug)]
pub struct BulkTagsResponse {
    pub processed: i64,
    pub success_count: i64,
    pub failed_count: i64,
}

/// A bulk tag request needs transactions and tags.
pub fn check_bulk_tags(transaction_ids: &Vec<i64>, tag_ids: &Vec<i64>) -> (r: Result<(), AppError>)
    ensures
        r is Ok <==> transaction_ids@.len() > 0 && tag_ids@.len() > 0,
        r matches Err(e) ==> e@.status == STATUS_BAD_REQUEST && (if transaction_ids@.len() == 0 {
            e@.message == "No transaction IDs provided"@
        } else {
            e@.message == "No tag IDs provided"@
        }),
{
    if transaction_ids.len() == 0 {
        return Err(AppError::bad_request("No transaction IDs provided"));
    }
    if tag_ids.len() == 0 {
        return Err(AppError::bad_request("No tag IDs provided"));
    }
    Ok(())
}

/// The (transaction, tag) pairs of a bulk operation, in the order they are
/// applied: for each transaction, each tag.
pub open spec fn spec_bulk_pairs(txs: Seq<i64>, tags: Seq<i64>) -> Seq<(i64, i64)>
    decreases txs.len(),
{
    if txs.len() == 0 {
        Seq::empty()
    } else {
        spec_bulk_pairs(txs.drop_last(), tags) + tags.map_values(|t: i64| (txs.last(), t))
    }
}

pub fn bulk_pairs(txs: &Vec<i64>, tags: &Vec<i64>) -> (r: Vec<(i64, i64)>)
    requires
        txs@.len() * tags@.len() <= usize::MAX,
    ensures
        r@ == spec_bulk_pairs(txs@, tags@),
        r@.len() == txs@.len() * tags@.len(),
{
    let mut out: Vec<(i64, i64)> = Vec::new();
    let mut i: usize = 0;
    while i < txs.len()
        invariant
            i <= txs@.len(),
            out@ == spec_bulk_pairs(txs@.take(i as int), tags@),
            out@.len() == i * tags@.len(),
            txs@.len() * tags@.len() <= usize::MAX,
        decreases txs.len() - i,
    {
        let ghost before = out@;
        let mut j: usize = 0;
        while j < tags.len()
            invariant
                i < txs@.len(),
                j <= tags@.len(),
                out@ == before + tags@.take(j as int).map_values(|t: i64| (txs@[i as int], t)),
            decreases tags.len() - j,
        {
            out.push((txs[i], tags[j]));
            assert(tags@.take(j + 1).map_values(|t: i64| (txs@[i as int], t)) =~= tags@.take(
                j as int,
            ).map_values(|t: i64| (txs@[i as int], t)).push((txs@[i as int], tags@[j as int])));
            j = j + 1;
        }
        assert(tags@.take(tags@.len() as int) =~= tags@);
        assert(txs@.take(i + 1).drop_last() =~= txs@.take(i as int));
        assert(txs@.take(i + 1).last() == txs@[i as int]);
        assert(out@.len() == i * tags@.len() + tags@.len());
        assert((i + 1) * tags@.len() == i * tags@.len() + tags@.len()) by (nonlinear_arith);
        i = i + 1;
    }
    assert(txs@.take(txs@.len() as int) =~= txs@);
    out
}

/// Counts of a bulk tag operation; every attempted pair is counted once.
#[derive(Debug)]
pub struct BulkTagTally {
    pub success_count: i64,
    pub failed_count: i64,
}

impl BulkTagTally {
    pub fn new() -> (r: Self)
        ensures
            r.success_count == 0,
            r.failed_count == 0,
    {
        BulkTagTally { success_count: 0, failed_count: 0 }
    }

    pub fn record(&mut self, ok: bool)
        requires
            old(self).success_count + old(self).failed_count < i64::MAX,
            old(self).success_count >= 0,
            old(self).failed_count >= 0,
        ensures
            ok ==> final(self).success_count == old(self).success_count + 1 && final(self).failed_count == old(self).failed_count,
            !ok ==> final(self).failed_count == old(self).failed_count + 1 && final(self).success_count == old(self).success_count,
    {
        if ok {
            self.success_count = self.success_count + 1;
        } else {
            self.failed_count = self.failed_count + 1;
        }
    }

    /// The response: `processed` counts the transactions of the request.
    pub fn response(&self, transactions: usize) -> (r: BulkTagsResponse)
        requires
            transactions <= i64::MAX,
        ensures
            r.processed == transactions,
            r.success_count == self.success_count,
            r.failed_count == self.failed_count,
    {
        BulkTagsResponse {
            processed: transactions as i64,
            success_count: self.success_count,
            failed_count: self.failed_count,
        }
    }
}

/// What classifying a reprocessed transaction gave: a tag (its name and
/// the name of its source), no tag, or an error.
#[derive(Debug)]
pub enum TagResult {
    Assigned { tag_name: String, source: String },
    NoTag,
    Failed(String),
}

/// The result of reprocessing one transaction (without the confidence
/// score, which the caller copies from the assignment).
#[derive(Debug)]
pub struct ReprocessOutcome {
    pub transaction_id: i64,
    pub success: bool,
    pub new_tag: Option<String>,
    pub normalized_merchant: Option<String>,
    pub source: Option<String>,
    pub error: Option<String>,
}

pub struct OutcomeView {
    pub transaction_id: i64,
    pub success: bool,
    pub new_tag: Option<Seq<char>>,
    pub normalized_merchant: Option<Seq<char>>,
    pub source: Option<Seq<char>>,
    pub error: Option<Seq<char>>,
}

pub open spec fn outcome_view(o: ReprocessOutcome) -> OutcomeView {
    OutcomeView {
        transaction_id: o.transaction_id,
        success: o.success,
        new_tag: opt_view(o.new_tag),
        normalized_merchant: opt_view(o.normalized_merchant),
        source: opt_view(o.source),
        error: opt_view(o.error),
    }
}

/// The outcome of reprocessing transaction `id`: a tag or no tag is a
/// success (reporting the normalized merchant, if any); a classification
/// error is a failure that reports neither.
pub open spec fn spec_reprocess_outcome(
    id: i64,
    result: TagResult,
    normalized: Option<Seq<char>>,
) -> OutcomeView {
    match result {
        TagResult::Assigned { tag_name, source } => OutcomeView {
            transaction_id: id,
            success: true,
            new_tag: Some(tag_name@),
            normalized_merchant: normalized,
            source: Some(source@),
            error: None,
        },
        TagResult::NoTag => OutcomeView {
            transaction_id: id,
            success: true,
            new_tag: None,
            normalized_merchant: normalized,
            source: None,
            error: Some("No tag assigned"@),
        },
        TagResult::Failed(e) => OutcomeView {
            transaction_id: id,
            success: false,
            new_tag: None,
            normalized_merchant: None,
            source: None,
            error: Some(e@),
        },
    }
}

pub fn reprocess_outcome(id: i64, result: TagResult, normalized: Option<String>) -> (r:
    ReprocessOutcome)
    ensures
        outcome_view(r) == spec_reprocess_outcome(id, result, opt_view(normalized)),
{
    match result {
        TagResult::Assigned { tag_name, source } => ReprocessOutcome {
            transaction_id: id,
            success: true,
            new_tag: Some(tag_name),
            normalized_merchant: normalized,
            source: Some(source),
            error: None,
        },
        TagResult::NoTag => ReprocessOutcome {
            transaction_id: id,
            success: true,
            new_tag: None,
            normalized_merchant: normalized,
            source: None,
            error: Some(String::from_str("No tag assigned")),
        },
        TagResult::Failed(e) => ReprocessOutcome {
            transaction_id: id,
            success: false,
            new_tag: None,
            normalized_merchant: None,
            source: None,
            error: Some(e),
        },
    }
}

/// A failed outcome with only an error message.
pub fn failed_outcome(id: i64, error: &str) -> (r: ReprocessOutcome)
    ensures
        outcome_view(r) == (OutcomeView {
            transaction_id: id,
            success: false,
            new_tag: None,
            normalized_merchant: None,
            source: None,
            error: Some(error@),
        }),
{
    ReprocessOutcome {
        transaction_id: id,
        success: false,
        new_tag: None,
        normalized_merchant: None,
        source: None,
        error: Some(String::from_str(error)),
    }
}

/// The answer to a bulk tag request, from whether each (transaction, tag)
/// pair of `bulk_pairs` was applied: every transaction of the request is
/// processed, and every pair counted once, as a success or a failure.
pub fn bulk_tags_response(transaction_ids: &Vec<i64>, tag_ids: &Vec<i64>, pair_ok: &Vec<bool>) -> (r:
    BulkTagsResponse)
    requires
        pair_ok@.len() == transaction_ids@.len() * tag_ids@.len(),
        pair_ok@.len() < i64::MAX,
        transaction_ids@.len() <= i64::MAX,
    ensures
        r.processed == transaction_ids@.len(),
        r.success_count == count_true(pair_ok@),
        r.success_count + r.failed_count == transaction_ids@.len() * tag_ids@.len(),
{
    let ok = count_ok(pair_ok);
    proof {
        lemma_count_true_bound(pair_ok@);
    }
    BulkTagsResponse {
        processed: transaction_ids.len() as i64,
        success_count: ok as i64,
        failed_count: (pair_ok.len() - ok) as i64,
    }
}

proof fn lemma_count_true_bound(s: Seq<bool>)
    ensures
        count_true(s) <= s.len(),
    decreases s.len(),
{
    if s.len() > 0 {
        lemma_count_true_bound(s.drop_last());
    }
}

/// A request body that is not the JSON the endpoint takes: a 400 with
/// the parser's reason.
pub fn invalid_json(detail: &str) -> (r: AppError)
    ensures
        r@.status == STATUS_BAD_REQUEST,
        r@.message == "Invalid JSON: "@ + detail@,
{
    AppError::bad_request_detail("Invalid JSON: ", detail)
}

/// Bulk reprocessing needs the AI backend: without one the request is
/// refused with a 400.
pub fn require_ai_backend(configured: bool) -> (r: Result<(), AppError>)
    ensures
        configured <==> r is Ok,
        r matches Err(e) ==> e@.status == STATUS_BAD_REQUEST && e@.message
            == "Ollama not configured"@,
{
    if configured {
        Ok(())
    } else {
        Err(AppError::bad_request("Ollama not configured"))
    }
}

/// Reprocessing one transaction without an AI backend is answered, not
/// refused: a failed outcome saying so.
pub fn ai_backend_missing_outcome(id: i64) -> (r: ReprocessOutcome)
    ensures
        outcome_view(r) == (OutcomeView {
            transaction_id: id,
            success: false,
            new_tag: None,
            normalized_merchant: None,
            source: None,
            error: Some("Ollama not configured"@),
        }),
{
    failed_outcome(id, "Ollama not configured")
}

/// Request body for bulk reprocess.
#[derive(Debug)]
pub struct BulkReprocessRequest {
    pub transaction_ids: Vec<i64>,
}

/// The results of a bulk reprocess, as they accumulate.
#[derive(Debug)]
pub struct BulkReprocess {
    pub results: Vec<ReprocessOutcome>,
    pub success_count: i64,
    pub failed_count: i64,
}

impl BulkReprocess {
    /// Every result is counted once, as a success or a failure.
    pub open spec fn wf(&self) -> bool {
        &&& self.success_count >= 0
        &&& self.failed_count >= 0
        &&& self.success_count + self.failed_count == self.results@.len()
        &&& self.success_count == count_successes(self.results@)
    }

    pub fn new() -> (r: Self)
        ensures
            r.wf(),
            r.results@.len() == 0,
    {
        BulkReprocess { results: Vec::new(), success_count: 0, failed_count: 0 }
    }

    pub fn push(&mut self, outcome: ReprocessOutcome)
        requires
            old(self).wf(),
            old(self).results@.len() < i64::MAX,
        ensures
            final(self).wf(),
            final(self).results@ == old(self).results@.push(outcome),
    {
        proof {
            assert(self.results@.push(outcome).drop_last() =~= self.results@);
        }
        if outcome.success {
            self.success_count = self.success_count + 1;
        } else {
            self.failed_count = self.failed_count + 1;
        }
        self.results.push(outcome);
    }
}

/// What became of one requested transaction: it was not found, or it was
/// reprocessed with this result and normalized name.
#[derive(Debug)]
pub enum PerIdResult {
    Missing,
    Reprocessed(TagResult, Option<String>),
}

/// The outcome reported for transaction `id`.
pub open spec fn spec_per_id(id: i64, p: PerIdResult) -> OutcomeView {
    match p {
        PerIdResult::Missing => OutcomeView {
            transaction_id: id,
            success: false,
            new_tag: None,
            normalized_merchant: None,
            source: None,
            error: Some("Transaction not found"@),
        },
        PerIdResult::Reprocessed(result, n) => spec_reprocess_outcome(id, result, opt_view(n)),
    }
}

/// The results of a bulk reprocess: one per requested id, in order, a
/// missing transaction reported as "Transaction not found"; successes and
/// failures counted.
pub fn bulk_reprocess_results(ids: &Vec<i64>, per_id: Vec<PerIdResult>) -> (r: BulkReprocess)
    requires
        ids@.len() == per_id@.len(),
        ids@.len() < i64::MAX,
    ensures
        r.wf(),
        r.results@.len() == ids@.len(),
        forall|i: int|
            0 <= i < ids@.len() ==> outcome_view(#[trigger] r.results@[i]) == spec_per_id(
                ids@[i],
                per_id@[i],
            ),
{
    let ghost all = per_id@;
    let mut rest = per_id;
    let mut acc = BulkReprocess::new();
    let mut i: usize = 0;
    while i < ids.len()
        invariant
            i <= ids@.len(),
            ids@.len() == all.len(),
            ids@.len() < i64::MAX,
            acc.wf(),
            acc.results@.len() == i,
            rest@ == all.skip(i as int),
            forall|j: int|
                0 <= j < i ==> outcome_view(#[trigger] acc.results@[j]) == spec_per_id(
                    ids@[j],
                    all[j],
                ),
        decreases ids@.len() - i,
    {
        assert(rest@.len() > 0);
        let p = rest.remove(0);
        assert(p == all[i as int]);
        let o = match p {
            PerIdResult::Missing => failed_outcome(ids[i], "Transaction not found"),
            PerIdResult::Reprocessed(result, n) => reprocess_outcome(ids[i], result, n),
        };
        acc.push(o);
        assert(rest@ =~= all.skip(i as int + 1));
        i = i + 1;
    }
    acc
}

/// Number of successful outcomes in `s`.
pub open spec fn count_successes(s: Seq<ReprocessOutcome>) -> int
    decreases s.len(),
{
    if s.len() == 0 {
        0
    } else {
        count_successes(s.drop_last()) + if s.last().success {
            1int
        } else {
            0int
        }
    }
}

} // verus!
