//! Merchant-name normalization: payment-prefix stripping, grouping of
//! transactions by description, the American Express context handed to the
//! AI backend, and the bookkeeping of a normalization pass.

use vstd::prelude::*;
use vstd::string::*;

use crate::json::{json_member, parsed_member, JsonMember, MemberValue};
use crate::text::{opt_view, str_contains, contains_seq, str_is, to_chars};

verus! {

/// Does `s` start with `p`?
pub open spec fn has_prefix(s: Seq<char>, p: Seq<char>) -> bool {
    p.len() <= s.len() && s.subrange(0, p.len() as int) == p
}

/// Payment-method prefixes, tried in this order.
pub open spec fn payment_prefixes() -> Seq<Seq<char>> {
    seq![
        "AplPay "@,
        "APLPAY "@,
        "ApplePay "@,
        "APPLEPAY "@,
        "SP * "@,
        "SP *"@,
        "SQ * "@,
        "SQ *"@,
        "TST* "@,
        "TST*"@,
        "GOOGLE *"@,
        "Google *"@,
    ]
}

/// `s` without the first prefix of `ps[k..]` that it starts with.
pub open spec fn strip_first_of(s: Seq<char>, ps: Seq<Seq<char>>, k: int) -> Seq<char>
    decreases ps.len() - k,
{
    if k < 0 || k >= ps.len() {
        s
    } else if has_prefix(s, ps[k]) {
        s.skip(ps[k].len() as int)
    } else {
        strip_first_of(s, ps, k + 1)
    }
}

/// A description without its payment-method prefix (the first one of
/// `payment_prefixes()` it starts with), so that "AplPay X" and "X" group
/// together.
pub open spec fn spec_strip_payment_prefix(s: Seq<char>) -> Seq<char> {
    strip_first_of(s, payment_prefixes(), 0)
}

fn prefix_at(k: usize) -> (r: &'static str)
    requires
        k < 12,
    ensures
        r@ == payment_prefixes()[k as int],
{
    match k {
        0 => "AplPay ",
        1 => "APLPAY ",
        2 => "ApplePay ",
        3 => "APPLEPAY ",
        4 => "SP * ",
        5 => "SP *",
        6 => "SQ * ",
        7 => "SQ *",
        8 => "TST* ",
        9 => "TST*",
        10 => "GOOGLE *",
        _ => "Google *",
    }
}

fn starts_with_chars(s: &Vec<char>, p: &Vec<char>) -> (r: bool)
    ensures
        r == has_prefix(s@, p@),
{
    if p.len() > s.len() {
        return false;
    }
    let mut i: usize = 0;
    while i < p.len()
        invariant
            p.len() <= s.len(),
            i <= p.len(),
            forall|j: int| 0 <= j < i ==> s@[j] == p@[j],
        decreases p.len() - i,
    {
        if s[i] != p[i] {
            return false;
        }
        i = i + 1;
    }
    assert(s@.subrange(0, p@.len() as int) =~= p@);
    true
}

/// Strip a common payment-method prefix ("AplPay ", "SQ *", ...) from a
/// merchant description.
pub fn strip_payment_prefix(description: &str) -> (r: &str)
    ensures
        r@ == spec_strip_payment_prefix(description@),
{
    let cs = to_chars(description);
    let mut k: usize = 0;
    while k < 12
        invariant
            k <= 12,
            cs@ == description@,
            payment_prefixes().len() == 12,
            strip_first_of(description@, payment_prefixes(), k as int)
                == spec_strip_payment_prefix(description@),
        decreases 12 - k,
    {
        let p = prefix_at(k);
        let pc = to_chars(p);
        if starts_with_chars(&cs, &pc) {
            let n = pc.len();
            return description.substring_char(n, cs.len());
        }
        k = k + 1;
    }
    description
}

/// A transaction as merchant normalization sees it.
#[derive(Debug)]
pub struct MerchantTx {
    pub id: i64,
    pub description: String,
    pub import_format: Option<String>,
    pub original_data: Option<String>,
}

/// The grouping key of a transaction: its description, stripped of the
/// payment prefix when `strip` holds.
pub open spec fn tx_key(t: MerchantTx, strip: bool) -> Seq<char> {
    if strip {
        spec_strip_payment_prefix(t.description@)
    } else {
        t.description@
    }
}

/// Identifiers, in order, of the transactions of `txs` whose key is `k`.
pub open spec fn ids_with_key(txs: Seq<MerchantTx>, strip: bool, k: Seq<char>) -> Seq<i64>
    decreases txs.len(),
{
    if txs.len() == 0 {
        Seq::empty()
    } else {
        let rest = ids_with_key(txs.drop_last(), strip, k);
        if tx_key(txs.last(), strip) == k {
            rest.push(txs.last().id)
        } else {
            rest
        }
    }
}

/// Transactions sharing one (possibly stripped) description.
#[derive(Debug)]
pub struct MerchantGroup {
    pub description: String,
    pub tx_ids: Vec<i64>,
    /// Index of the group's first transaction in the input.
    pub representative: usize,
}

/// `grp` holds the transactions of `txs` with its key, in input order, and
/// points at the first of them.
pub open spec fn group_fits(txs: Seq<MerchantTx>, strip: bool, grp: MerchantGroup) -> bool {
    let rep = grp.representative as int;
    &&& 0 <= rep < txs.len()
    &&& tx_key(txs[rep], strip) == grp.description@
    &&& forall|j: int| 0 <= j < rep ==> tx_key(txs[j], strip) != grp.description@
    &&& grp.tx_ids@ == ids_with_key(txs, strip, grp.description@)
}

/// `groups` is the grouping of `txs` by key: one group per distinct key,
/// in order of first appearance, each holding the identifiers of the
/// transactions with its key, in input order, and pointing at the first of
/// them.
pub open spec fn is_grouping(txs: Seq<MerchantTx>, strip: bool, groups: Seq<MerchantGroup>) -> bool {
    &&& forall|a: int, b: int|
        0 <= a < b < groups.len() ==> groups[a].description@ != groups[b].description@
    &&& forall|t: int|
        0 <= t < txs.len() ==> exists|g: int|
            0 <= g < groups.len() && groups[g].description@ == #[trigger] tx_key(txs[t], strip)
    &&& forall|g: int| 0 <= g < groups.len() ==> group_fits(txs, strip, #[trigger] groups[g])
    &&& forall|a: int, b: int|
        0 <= a < b < groups.len() ==> groups[a].representative < groups[b].representative
}

fn key_of(t: &MerchantTx, strip: bool) -> (r: String)
    ensures
        r@ == tx_key(*t, strip),
{
    if strip {
        let s = strip_payment_prefix(t.description.as_str());
        String::from_str(s)
    } else {
        t.description.clone()
    }
}

fn find_group(groups: &Vec<MerchantGroup>, key: &str) -> (r: Option<usize>)
    ensures
        match r {
            Some(g) => g < groups.len() && groups@[g as int].description@ == key@,
            None => forall|g: int| 0 <= g < groups.len() ==> groups@[g].description@ != key@,
        },
{
    let kc = to_chars(key);
    let mut g: usize = 0;
    while g < groups.len()
        invariant
            g <= groups.len(),
            kc@ == key@,
            forall|h: int| 0 <= h < g ==> groups@[h].description@ != key@,
        decreases groups.len() - g,
    {
        if str_is(groups[g].description.as_str(), &kc) {
            return Some(g);
        }
        g = g + 1;
    }
    None
}

proof fn lemma_ids_with_key_push(txs: Seq<MerchantTx>, strip: bool, i: int, k: Seq<char>)
    requires
        0 <= i < txs.len(),
    ensures
        ids_with_key(txs.take(i + 1), strip, k) == if tx_key(txs[i], strip) == k {
            ids_with_key(txs.take(i), strip, k).push(txs[i].id)
        } else {
            ids_with_key(txs.take(i), strip, k)
        },
{
    assert(txs.take(i + 1).drop_last() =~= txs.take(i));
}

proof fn lemma_ids_with_key_absent(txs: Seq<MerchantTx>, strip: bool, k: Seq<char>)
    requires
        forall|j: int| 0 <= j < txs.len() ==> tx_key(txs[j], strip) != k,
    ensures
        ids_with_key(txs, strip, k) == Seq::<i64>::empty(),
    decreases txs.len(),
{
    if txs.len() > 0 {
        lemma_ids_with_key_absent(txs.drop_last(), strip, k);
    }
}

proof fn lemma_total_ids_update(gs: Seq<MerchantGroup>, g: int, x: MerchantGroup)
    requires
        0 <= g < gs.len(),
    ensures
        total_ids(gs.update(g, x)) == total_ids(gs) - gs[g].tx_ids@.len() + x.tx_ids@.len(),
    decreases gs.len(),
{
    if g < gs.len() - 1 {
        lemma_total_ids_update(gs.drop_last(), g, x);
        assert(gs.update(g, x).drop_last() =~= gs.drop_last().update(g, x));
    } else {
        assert(gs.update(g, x).drop_last() =~= gs.drop_last());
    }
}

/// Group transactions by description (stripped of payment prefixes when
/// `strip` holds), keeping input order.
#[verifier::spinoff_prover]
#[verifier::rlimit(40)]
pub fn group_by_description(txs: &Vec<MerchantTx>, strip: bool) -> (r: Vec<MerchantGroup>)
    ensures
        is_grouping(txs@, strip, r@),
        total_ids(r@) == txs@.len(),
{
    let mut groups: Vec<MerchantGroup> = Vec::new();
    let mut i: usize = 0;
    while i < txs.len()
        invariant
            i <= txs.len(),
            is_grouping(txs@.take(i as int), strip, groups@),
            total_ids(groups@) == i,
        decreases txs.len() - i,
    {
        let ghost pre = txs@.take(i as int);
        let ghost post = txs@.take(i + 1);
        let ghost old_groups = groups@;
        assert(post.drop_last() =~= pre);
        assert forall|j: int| 0 <= j < i implies post[j] == pre[j] && pre[j] == txs@[j] by {}
        let key = key_of(&txs[i], strip);
        match find_group(&groups, key.as_str()) {
            Some(g) => {
                let mut ids = groups[g].tx_ids.clone();
                let ghost old_ids = groups@[g as int].tx_ids@;
                ids.push(txs[i].id);
                let d = groups[g].description.clone();
                let rep = groups[g].representative;
                groups.set(g, MerchantGroup { description: d, tx_ids: ids, representative: rep });
                proof {
                    lemma_total_ids_update(old_groups, g as int, groups@[g as int]);
                    assert(groups@ == old_groups.update(g as int, groups@[g as int]));
                }
                assert forall|h: int| 0 <= h < groups@.len() implies group_fits(post, strip, groups@[h]) by {
                    lemma_ids_with_key_push(txs@, strip, i as int, groups@[h].description@);
                    assert(txs@.take(i + 1) == post);
                    assert(txs@.take(i as int) == pre);
                    if h != g {
                        assert(groups@[h] == old_groups[h]);
                        assert(old_groups[h].description@ != old_groups[g as int].description@);
                    }
                }
                assert forall|t: int| 0 <= t < post.len() implies exists|h: int|
                    0 <= h < groups@.len() && groups@[h].description@ == #[trigger] tx_key(
                        post[t],
                        strip,
                    ) by {
                    if t < i {
                        assert(post[t] == pre[t]);
                        let h0 = choose|h: int|
                            0 <= h < old_groups.len() && old_groups[h].description@ == tx_key(
                                pre[t],
                                strip,
                            );
                        assert(groups@[h0].description@ == old_groups[h0].description@);
                    } else {
                        assert(groups@[g as int].description@ == tx_key(post[t], strip));
                    }
                }
                assert forall|a: int, b: int| 0 <= a < b < groups@.len() implies groups@[a].description@
                    != groups@[b].description@ by {
                    assert(groups@[a].description@ == old_groups[a].description@);
                    assert(groups@[b].description@ == old_groups[b].description@);
                }
                assert forall|a: int, b: int| 0 <= a < b < groups@.len() implies groups@[a].representative
                    < groups@[b].representative by {
                    assert(groups@[a].representative == old_groups[a].representative);
                    assert(groups@[b].representative == old_groups[b].representative);
                }
            },
            None => {
                let mut ids: Vec<i64> = Vec::new();
                ids.push(txs[i].id);
                let ghost kv = key@;
                groups.push(MerchantGroup { description: key, tx_ids: ids, representative: i });
                assert(groups@.drop_last() =~= old_groups);
                proof {
                    assert forall|j: int| 0 <= j < i implies tx_key(txs@[j], strip) != kv by {
                        assert(pre[j] == txs@[j]);
                        let h0 = choose|h: int|
                            0 <= h < old_groups.len() && old_groups[h].description@ == #[trigger] tx_key(
                                pre[j],
                                strip,
                            );
                    }
                    assert forall|j: int| 0 <= j < pre.len() implies tx_key(pre[j], strip) != kv by {
                        assert(pre[j] == txs@[j]);
                    }
                    lemma_ids_with_key_absent(pre, strip, kv);
                }
                assert forall|h: int| 0 <= h < groups@.len() implies group_fits(post, strip, groups@[h]) by {
                    lemma_ids_with_key_push(txs@, strip, i as int, groups@[h].description@);
                    assert(txs@.take(i + 1) == post);
                    assert(txs@.take(i as int) == pre);
                    if h < old_groups.len() {
                        assert(groups@[h] == old_groups[h]);
                    } else {
                        assert(groups@[h].tx_ids@ =~= Seq::<i64>::empty().push(txs@[i as int].id));
                    }
                }
                assert forall|t: int| 0 <= t < post.len() implies exists|h: int|
                    0 <= h < groups@.len() && groups@[h].description@ == #[trigger] tx_key(
                        post[t],
                        strip,
                    ) by {
                    if t < i {
                        assert(post[t] == pre[t]);
                        let h0 = choose|h: int|
                            0 <= h < old_groups.len() && old_groups[h].description@ == tx_key(
                                pre[t],
                                strip,
                            );
                        assert(groups@[h0] == old_groups[h0]);
                    } else {
                        assert(groups@[old_groups.len() as int].description@ == tx_key(
                            post[t],
                            strip,
                        ));
                    }
                }
                assert forall|a: int, b: int| 0 <= a < b < groups@.len() implies groups@[a].description@
                    != groups@[b].description@ by {
                    assert(groups@[a] == old_groups[a]);
                    if b < old_groups.len() {
                        assert(groups@[b] == old_groups[b]);
                    }
                }
                assert forall|a: int, b: int| 0 <= a < b < groups@.len() implies groups@[a].representative
                    < groups@[b].representative by {
                    assert(groups@[a] == old_groups[a]);
                    if b < old_groups.len() {
                        assert(groups@[b] == old_groups[b]);
                    }
                }
            },
        }
        i = i + 1;
    }
    assert(txs@.take(txs.len() as int) =~= txs@);
    groups
}


/// A member of the JSON document `doc` as the context reads it: `None`
/// when `doc` does not parse; otherwise whether the member is there, and
/// its text when it is a JSON string.
pub open spec fn json_text_member(doc: Seq<char>, key: Seq<char>) -> Option<(bool, Option<Seq<char>>)> {
    match parsed_member(doc, key) {
        None => None,
        Some(MemberValue::Absent) => Some((false, None)),
        Some(MemberValue::Text(t)) => Some((true, Some(t))),
        Some(_) => Some((true, None)),
    }
}

pub open spec fn member_view(m: Option<(bool, Option<String>)>) -> Option<(bool, Option<Seq<char>>)> {
    match m {
        Some((present, text)) => Some((present, opt_view(text))),
        None => None,
    }
}

fn json_member_text(doc: &str, key: &str) -> (r: Option<(bool, Option<String>)>)
    ensures
        member_view(r) == json_text_member(doc@, key@),
{
    match json_member(doc, key) {
        None => None,
        Some(JsonMember::Absent) => Some((false, None)),
        Some(JsonMember::Text(t)) => Some((true, Some(t))),
        Some(_) => Some((true, None)),
    }
}

/// Extra context about a merchant for the AI backend.
#[derive(Debug)]
pub struct MerchantContext {
    pub extracted_merchant: Option<String>,
    pub statement_as: Option<String>,
    pub extended_details: Option<String>,
    pub category: Option<String>,
}

pub struct ContextView {
    pub extracted_merchant: Option<Seq<char>>,
    pub statement_as: Option<Seq<char>>,
    pub extended_details: Option<Seq<char>>,
    pub category: Option<Seq<char>>,
}

pub open spec fn context_view(c: MerchantContext) -> ContextView {
    ContextView {
        extracted_merchant: opt_view(c.extracted_merchant),
        statement_as: opt_view(c.statement_as),
        extended_details: opt_view(c.extended_details),
        category: opt_view(c.category),
    }
}

pub open spec fn opt_context_view(c: Option<MerchantContext>) -> Option<ContextView> {
    match c {
        Some(c) => Some(context_view(c)),
        None => None,
    }
}

/// The text of a JSON member when it is a non-empty string.
pub open spec fn nonempty_text(m: Option<(bool, Option<Seq<char>>)>) -> Option<Seq<char>> {
    match m {
        Some((_, Some(t))) => if t.len() > 0 {
            Some(t)
        } else {
            None
        },
        _ => None,
    }
}

/// The context sent along when normalizing an American Express
/// transaction: only for `amex_csv` imports whose original row (JSON) has
/// non-empty "Extended Details"; the bank's "Category" is preferred over
/// the category hint.
pub open spec fn spec_amex_context(
    import_format: Option<Seq<char>>,
    original_data: Option<Seq<char>>,
    description: Seq<char>,
    category: Option<Seq<char>>,
) -> Option<ContextView> {
    if import_format != Some("amex_csv"@) {
        None
    } else {
        match original_data {
            None => None,
            Some(d) => {
                let ext = nonempty_text(json_text_member(d, "Extended Details"@));
                if ext is None {
                    None
                } else {
                    let bank = nonempty_text(json_text_member(d, "Category"@));
                    Some(
                        ContextView {
                            extracted_merchant: Some(description),
                            statement_as: nonempty_text(
                                json_text_member(d, "Appears On Your Statement As"@),
                            ),
                            extended_details: ext,
                            category: if bank is Some {
                                bank
                            } else {
                                category
                            },
                        },
                    )
                }
            },
        }
    }
}

fn nonempty_member(doc: &str, key: &str) -> (r: Option<String>)
    ensures
        opt_view(r) == nonempty_text(json_text_member(doc@, key@)),
{
    match json_member_text(doc, key) {
        Some((_, Some(t))) => {
            if t.unicode_len() > 0 {
                Some(t)
            } else {
                None
            }
        },
        _ => None,
    }
}

/// The American Express context of a transaction being normalized, when
/// its original row gives one.
pub fn amex_context(tx: &MerchantTx, description: &str, category: Option<&str>) -> (r: Option<
    MerchantContext,
>)
    ensures
        opt_context_view(r) == spec_amex_context(
            opt_view(tx.import_format),
            opt_view(tx.original_data),
            description@,
            match category {
                Some(c) => Some(c@),
                None => None,
            },
        ),
{
    let is_amex = match &tx.import_format {
        Some(f) => {
            let want = to_chars("amex_csv");
            str_is(f.as_str(), &want)
        },
        None => false,
    };
    if !is_amex {
        return None;
    }
    let data = match &tx.original_data {
        Some(d) => d.as_str(),
        None => {
            return None;
        },
    };
    let extended = nonempty_member(data, "Extended Details");
    if extended.is_none() {
        return None;
    }
    let statement_as = nonempty_member(data, "Appears On Your Statement As");
    let bank = nonempty_member(data, "Category");
    let cat = match bank {
        Some(b) => Some(b),
        None => match category {
            Some(c) => Some(String::from_str(c)),
            None => None,
        },
    };
    Some(
        MerchantContext {
            extracted_merchant: Some(String::from_str(description)),
            statement_as,
            extended_details: extended,
            category: cat,
        },
    )
}

/// The context sent along when re-normalizing the transactions of a
/// reprocessed import: for imports whose format mentions "amex" and whose
/// original row (JSON) has both an "Appears On Your Statement As" and an
/// "Extended Details" member; their string values (if strings) and the
/// category hint make up the context.
pub open spec fn spec_reprocess_amex_context(
    import_format: Option<Seq<char>>,
    original_data: Option<Seq<char>>,
    category: Option<Seq<char>>,
) -> Option<ContextView> {
    match (original_data, import_format) {
        (Some(d), Some(f)) => if !contains_seq(f, "amex"@) {
            None
        } else {
            match (
                json_text_member(d, "Appears On Your Statement As"@),
                json_text_member(d, "Extended Details"@),
            ) {
                (Some((true, st)), Some((true, ext))) => Some(
                    ContextView {
                        extracted_merchant: None,
                        statement_as: st,
                        extended_details: ext,
                        category: category,
                    },
                ),
                _ => None,
            }
        },
        _ => None,
    }
}

/// The American Express context of a transaction re-normalized after an
/// import is reprocessed.
pub fn reprocess_amex_context(tx: &MerchantTx, category_hint: Option<&str>) -> (r: Option<
    MerchantContext,
>)
    ensures
        opt_context_view(r) == spec_reprocess_amex_context(
            opt_view(tx.import_format),
            opt_view(tx.original_data),
            match category_hint {
                Some(c) => Some(c@),
                None => None,
            },
        ),
{
    let data = match &tx.original_data {
        Some(d) => d.as_str(),
        None => {
            return None;
        },
    };
    let format = match &tx.import_format {
        Some(f) => f.as_str(),
        None => {
            return None;
        },
    };
    if !str_contains(format, "amex") {
        return None;
    }
    let statement_as = match json_member_text(data, "Appears On Your Statement As") {
        Some((true, t)) => t,
        _ => {
            return None;
        },
    };
    let extended = match json_member_text(data, "Extended Details") {
        Some((true, t)) => t,
        _ => {
            return None;
        },
    };
    Some(
        MerchantContext {
            extracted_merchant: None,
            statement_as,
            extended_details: extended,
            category: match category_hint {
                Some(c) => Some(String::from_str(c)),
                None => None,
            },
        },
    )
}

/// How the AI backend is asked to normalize a description: with the
/// merchant context when there is one, else with the category hint alone.
#[derive(Debug)]
pub enum NormalizeCall {
    WithContext(MerchantContext),
    Plain(Option<String>),
}

pub fn normalize_call(context: Option<MerchantContext>, category_hint: Option<String>) -> (r:
    NormalizeCall)
    ensures
        match context {
            Some(c) => r matches NormalizeCall::WithContext(rc) && context_view(rc) == context_view(c),
            None => r matches NormalizeCall::Plain(h) && opt_view(h) == opt_view(category_hint),
        },
{
    match context {
        Some(c) => NormalizeCall::WithContext(c),
        None => NormalizeCall::Plain(category_hint),
    }
}

/// How one description fared: a cached name was found, the AI backend
/// gave one, or the backend failed (with its error text).
#[derive(Debug)]
pub enum NormalizeOutcome {
    Cached(String),
    Normalized(String),
    Failed(String),
}

/// The name written to the group's transactions, if any.
pub open spec fn spec_applied_name(o: NormalizeOutcome) -> Option<Seq<char>> {
    match o {
        NormalizeOutcome::Cached(n) => Some(n@),
        NormalizeOutcome::Normalized(n) => Some(n@),
        NormalizeOutcome::Failed(_) => None,
    }
}

pub fn applied_name(o: &NormalizeOutcome) -> (r: Option<String>)
    ensures
        opt_view(r) == spec_applied_name(*o),
{
    match o {
        NormalizeOutcome::Cached(n) => Some(n.clone()),
        NormalizeOutcome::Normalized(n) => Some(n.clone()),
        NormalizeOutcome::Failed(_) => None,
    }
}

/// What to do for one description key: use the cached merchant name, or
/// ask the AI backend (the call as `normalize_call` builds it).
#[derive(Debug)]
pub enum GroupAction {
    UseCached(String),
    AskBackend(NormalizeCall),
}

/// A key with a cached merchant name is never sent to the AI backend: its
/// cached name is used. Otherwise the backend is asked once for the key.
pub fn plan_group(cached: Option<String>, context: Option<MerchantContext>, category_hint: Option<
    String,
>) -> (r: GroupAction)
    ensures
        match cached {
            Some(n) => r matches GroupAction::UseCached(m) && m@ == n@,
            None => r matches GroupAction::AskBackend(call) && match context {
                Some(c) => call matches NormalizeCall::WithContext(rc) && context_view(rc)
                    == context_view(c),
                None => call matches NormalizeCall::Plain(h) && opt_view(h) == opt_view(
                    category_hint,
                ),
            },
        },
{
    match cached {
        Some(n) => GroupAction::UseCached(n),
        None => GroupAction::AskBackend(normalize_call(context, category_hint)),
    }
}

/// The outcome for a key once its action is done: the cached name, or
/// what the backend answered.
pub fn group_outcome(action: &GroupAction, answer: Option<Result<String, String>>) -> (r: Option<
    NormalizeOutcome,
>)
    ensures
        match *action {
            GroupAction::UseCached(n) => r matches Some(NormalizeOutcome::Cached(m)) && m@ == n@,
            GroupAction::AskBackend(_) => match answer {
                Some(Ok(n)) => r matches Some(NormalizeOutcome::Normalized(m)) && m@ == n@,
                Some(Err(e)) => r matches Some(NormalizeOutcome::Failed(m)) && m@ == e@,
                None => r is None,
            },
        },
{
    match action {
        GroupAction::UseCached(n) => Some(NormalizeOutcome::Cached(n.clone())),
        GroupAction::AskBackend(_) => match answer {
            Some(Ok(n)) => Some(NormalizeOutcome::Normalized(n)),
            Some(Err(e)) => Some(NormalizeOutcome::Failed(e)),
            None => None,
        },
    }
}

/// The writes for one key: every transaction under it gets the one name
/// the key's outcome gives, in order; a failed key writes nothing.
pub fn group_updates(tx_ids: &Vec<i64>, outcome: &NormalizeOutcome) -> (r: Vec<(i64, String)>)
    ensures
        match spec_applied_name(*outcome) {
            Some(n) => r@.len() == tx_ids@.len() && forall|i: int|
                0 <= i < r@.len() ==> (#[trigger] r@[i]).0 == tx_ids@[i] && r@[i].1@ == n,
            None => r@.len() == 0,
        },
{
    let mut out: Vec<(i64, String)> = Vec::new();
    let name = match applied_name(outcome) {
        Some(n) => n,
        None => {
            return out;
        },
    };
    let mut i: usize = 0;
    while i < tx_ids.len()
        invariant
            i <= tx_ids.len(),
            out@.len() == i,
            opt_view(Some(name)) == spec_applied_name(*outcome),
            forall|j: int| 0 <= j < i ==> (#[trigger] out@[j]).0 == tx_ids@[j] && out@[j].1@ == name@,
        decreases tx_ids.len() - i,
    {
        out.push((tx_ids[i], name.clone()));
        i = i + 1;
    }
    out
}

/// The merchant-cache entry (description, name) written after a fresh
/// AI result; cached names and failures write none.
pub fn cache_entry(o: &NormalizeOutcome, description: &str) -> (r: Option<(String, String)>)
    ensures
        match *o {
            NormalizeOutcome::Normalized(n) => r matches Some((d, m)) && d@ == description@ && m@
                == n@,
            _ => r is None,
        },
{
    match o {
        NormalizeOutcome::Normalized(n) => Some((String::from_str(description), n.clone())),
        _ => None,
    }
}

/// The metric recorded for an AI call made while normalizing.
#[derive(Debug)]
pub struct NormalizeMetric {
    pub success: bool,
    pub error_message: Option<String>,
    pub transaction_id: Option<i64>,
    pub input_text: String,
    pub result_text: Option<String>,
}

/// The metric of a normalization: none for a cache hit (no AI call); a
/// success or a failure otherwise, tied to the group's first transaction.
pub fn normalize_metric(o: &NormalizeOutcome, description: &str, first_tx: Option<i64>) -> (r:
    Option<NormalizeMetric>)
    ensures
        match *o {
            NormalizeOutcome::Cached(_) => r is None,
            NormalizeOutcome::Normalized(n) => r matches Some(m) && m.success && m.error_message is None
                && m.transaction_id == first_tx && m.input_text@ == description@ && opt_view(
                m.result_text,
            ) == Some(n@),
            NormalizeOutcome::Failed(e) => r matches Some(m) && !m.success && opt_view(
                m.error_message,
            ) == Some(e@) && m.transaction_id == first_tx && m.input_text@ == description@
                && m.result_text is None,
        },
{
    match o {
        NormalizeOutcome::Cached(_) => None,
        NormalizeOutcome::Normalized(n) => Some(
            NormalizeMetric {
                success: true,
                error_message: None,
                transaction_id: first_tx,
                input_text: String::from_str(description),
                result_text: Some(n.clone()),
            },
        ),
        NormalizeOutcome::Failed(e) => Some(
            NormalizeMetric {
                success: false,
                error_message: Some(e.clone()),
                transaction_id: first_tx,
                input_text: String::from_str(description),
                result_text: None,
            },
        ),
    }
}

/// Number of `true` values in `s`.
pub open spec fn count_true(s: Seq<bool>) -> nat
    decreases s.len(),
{
    if s.len() == 0 {
        0
    } else {
        count_true(s.drop_last()) + if s.last() {
            1nat
        } else {
            0nat
        }
    }
}

pub fn count_ok(v: &Vec<bool>) -> (r: usize)
    ensures
        r == count_true(v@),
{
    let mut n: usize = 0;
    let mut i: usize = 0;
    while i < v.len()
        invariant
            i <= v.len(),
            n == count_true(v@.take(i as int)),
            n <= i,
        decreases v.len() - i,
    {
        assert(v@.take(i + 1).drop_last() =~= v@.take(i as int));
        if v[i] {
            n = n + 1;
        }
        i = i + 1;
    }
    assert(v@.take(v.len() as int) =~= v@);
    n
}

/// Sum of the group sizes of `gs`.
pub open spec fn total_ids(gs: Seq<MerchantGroup>) -> nat
    decreases gs.len(),
{
    if gs.len() == 0 {
        0
    } else {
        total_ids(gs.drop_last()) + gs.last().tx_ids@.len()
    }
}

/// A normalization pass over description groups: which group comes next
/// and how many transactions have received a name so far.
#[derive(Debug)]
pub struct NormalizationPass {
    pub groups: Vec<MerchantGroup>,
    pub processed: usize,
    pub normalized_count: i64,
}

impl NormalizationPass {
    /// Every group before `processed` is done, and no more transactions
    /// were named than those groups hold.
    pub open spec fn wf(&self) -> bool {
        &&& self.processed <= self.groups@.len()
        &&& 0 <= self.normalized_count <= total_ids(self.groups@.take(self.processed as int))
    }

    pub fn new(groups: Vec<MerchantGroup>) -> (r: Self)
        ensures
            r.wf(),
            r.groups@ == groups@,
            r.processed == 0,
            r.normalized_count == 0,
    {
        NormalizationPass { groups, processed: 0, normalized_count: 0 }
    }

    /// The group to handle next, if any remain.
    pub fn next_group(&self) -> (r: Option<usize>)
        ensures
            r == if self.processed < self.groups@.len() {
                Some(self.processed)
            } else {
                None::<usize>
            },
    {
        if self.processed < self.groups.len() {
            Some(self.processed)
        } else {
            None
        }
    }

    /// Progress as (processed, total unique descriptions).
    pub fn progress(&self) -> (r: (usize, usize))
        ensures
            r.0 == self.processed && r.1 == self.groups@.len(),
    {
        (self.processed, self.groups.len())
    }

    /// Record the outcome of the current group; `updated[i]` tells whether
    /// writing the name to the group's `i`-th transaction succeeded.
    pub fn finish_group(&mut self, outcome: &NormalizeOutcome, updated: &Vec<bool>)
        requires
            old(self).wf(),
            old(self).processed < old(self).groups@.len(),
            updated@.len() == old(self).groups@[old(self).processed as int].tx_ids@.len(),
            old(self).normalized_count + updated@.len() <= i64::MAX,
        ensures
            final(self).wf(),
            final(self).groups@ == old(self).groups@,
            final(self).processed == old(self).processed + 1,
            final(self).normalized_count == old(self).normalized_count + if spec_applied_name(
                *outcome,
            ) is Some {
                count_true(updated@)
            } else {
                0
            },
    {
        let ghost k = self.processed as int;
        let applied = match outcome {
            NormalizeOutcome::Failed(_) => 0,
            _ => count_ok(updated),
        };
        proof {
            lemma_count_true_le(updated@);
            assert(self.groups@.take(k + 1).drop_last() =~= self.groups@.take(k));
        }
        let n = self.groups.len();
        assert(self.processed < n);
        let next = self.processed + 1;
        self.normalized_count = self.normalized_count + applied as i64;
        self.processed = next;
    }
}

proof fn lemma_count_true_le(s: Seq<bool>)
    ensures
        count_true(s) <= s.len(),
    decreases s.len(),
{
    if s.len() > 0 {
        lemma_count_true_le(s.drop_last());
    }
}

proof fn lemma_strip_first_of_suffix(s: Seq<char>, ps: Seq<Seq<char>>, k: int)
    ensures
        strip_first_of(s, ps, k).len() <= s.len(),
        strip_first_of(s, ps, k) == s.skip(s.len() - strip_first_of(s, ps, k).len()),
    decreases ps.len() - k,
{
    if k < 0 || k >= ps.len() {
        assert(s.skip(0) =~= s);
    } else if has_prefix(s, ps[k]) {
    } else {
        lemma_strip_first_of_suffix(s, ps, k + 1);
    }
}

/// Stripping a payment prefix only ever removes a prefix: the result is
/// a suffix of the description.
pub proof fn law_strip_keeps_suffix(s: Seq<char>)
    ensures
        spec_strip_payment_prefix(s).len() <= s.len(),
        spec_strip_payment_prefix(s) == s.skip(s.len() - spec_strip_payment_prefix(s).len()),
{
    lemma_strip_first_of_suffix(s, payment_prefixes(), 0);
}

/// "AplPay X" and "X" group together: the Apple Pay prefix is removed
/// whatever follows it.
pub proof fn law_apple_pay_groups_with_plain(x: Seq<char>)
    ensures
        spec_strip_payment_prefix("AplPay "@ + x) == x,
{
    let p = payment_prefixes()[0];
    let s = p + x;
    assert(s.subrange(0, p.len() as int) =~= p);
    assert(s.skip(p.len() as int) =~= x);
}

proof fn lemma_differs(s: Seq<char>, p: Seq<char>, i: int)
    requires
        0 <= i < p.len(),
        i < s.len(),
        s[i] != p[i],
    ensures
        !has_prefix(s, p),
{
    if has_prefix(s, p) {
        assert(s.subrange(0, p.len() as int)[i] == s[i]);
    }
}

proof fn lemma_strip_from(s: Seq<char>, k: int)
    requires
        0 <= k <= 12,
        forall|j: int| 0 <= j < k ==> !has_prefix(s, #[trigger] payment_prefixes()[j]),
    ensures
        spec_strip_payment_prefix(s) == strip_first_of(s, payment_prefixes(), k),
    decreases k,
{
    if k > 0 {
        lemma_strip_from(s, k - 1);
        assert(!has_prefix(s, payment_prefixes()[k - 1]));
    }
}

/// `s` is stripped of the listed prefix at position `k`, the earlier ones
/// having been ruled out.
proof fn lemma_strip_at(s: Seq<char>, k: int)
    requires
        0 <= k < 12,
        forall|j: int| 0 <= j < k ==> !has_prefix(s, #[trigger] payment_prefixes()[j]),
        has_prefix(s, payment_prefixes()[k]),
    ensures
        spec_strip_payment_prefix(s) == s.skip(payment_prefixes()[k].len() as int),
{
    lemma_strip_from(s, k);
}

proof fn lemma_reveal_prefixes()
    ensures
        "AplPay "@ == seq!['A', 'p', 'l', 'P', 'a', 'y', ' '],
        "APLPAY "@ == seq!['A', 'P', 'L', 'P', 'A', 'Y', ' '],
        "ApplePay "@ == seq!['A', 'p', 'p', 'l', 'e', 'P', 'a', 'y', ' '],
        "APPLEPAY "@ == seq!['A', 'P', 'P', 'L', 'E', 'P', 'A', 'Y', ' '],
        "SP * "@ == seq!['S', 'P', ' ', '*', ' '],
        "SP *"@ == seq!['S', 'P', ' ', '*'],
        "SQ * "@ == seq!['S', 'Q', ' ', '*', ' '],
        "SQ *"@ == seq!['S', 'Q', ' ', '*'],
        "TST* "@ == seq!['T', 'S', 'T', '*', ' '],
        "TST*"@ == seq!['T', 'S', 'T', '*'],
        "GOOGLE *"@ == seq!['G', 'O', 'O', 'G', 'L', 'E', ' ', '*'],
        "Google *"@ == seq!['G', 'o', 'o', 'g', 'l', 'e', ' ', '*'],
{
    reveal_strlit("AplPay ");
    reveal_strlit("APLPAY ");
    reveal_strlit("ApplePay ");
    reveal_strlit("APPLEPAY ");
    reveal_strlit("SP * ");
    reveal_strlit("SP *");
    reveal_strlit("SQ * ");
    reveal_strlit("SQ *");
    reveal_strlit("TST* ");
    reveal_strlit("TST*");
    reveal_strlit("GOOGLE *");
    reveal_strlit("Google *");
    assert("AplPay "@ =~= seq!['A', 'p', 'l', 'P', 'a', 'y', ' ']);
    assert("APLPAY "@ =~= seq!['A', 'P', 'L', 'P', 'A', 'Y', ' ']);
    assert("ApplePay "@ =~= seq!['A', 'p', 'p', 'l', 'e', 'P', 'a', 'y', ' ']);
    assert("APPLEPAY "@ =~= seq!['A', 'P', 'P', 'L', 'E', 'P', 'A', 'Y', ' ']);
    assert("SP * "@ =~= seq!['S', 'P', ' ', '*', ' ']);
    assert("SP *"@ =~= seq!['S', 'P', ' ', '*']);
    assert("SQ * "@ =~= seq!['S', 'Q', ' ', '*', ' ']);
    assert("SQ *"@ =~= seq!['S', 'Q', ' ', '*']);
    assert("TST* "@ =~= seq!['T', 'S', 'T', '*', ' ']);
    assert("TST*"@ =~= seq!['T', 'S', 'T', '*']);
    assert("GOOGLE *"@ =~= seq!['G', 'O', 'O', 'G', 'L', 'E', ' ', '*']);
    assert("Google *"@ =~= seq!['G', 'o', 'o', 'g', 'l', 'e', ' ', '*']);
}

/// "SQ * X", "SQ *X" and "X" group together: the Square prefix is removed
/// whatever follows it, the spaced form before the bare one (so "SQ * X"
/// loses its space too).
pub proof fn law_square_groups_with_plain(x: Seq<char>)
    ensures
        spec_strip_payment_prefix("SQ * "@ + x) == x,
        spec_strip_payment_prefix("SQ *"@ + x) == (if x.len() > 0 && x[0] == ' ' {
            x.skip(1)
        } else {
            x
        }),
{
    lemma_reveal_prefixes();
    let ps = payment_prefixes();
    let s = "SQ * "@ + x;
    assert(s[0] == 'S' && s[1] == 'Q' && s[2] == ' ' && s[3] == '*' && s[4] == ' ');
    lemma_differs(s, ps[0], 0);
    lemma_differs(s, ps[1], 0);
    lemma_differs(s, ps[2], 0);
    lemma_differs(s, ps[3], 0);
    lemma_differs(s, ps[4], 1);
    lemma_differs(s, ps[5], 1);
    assert(s.subrange(0, 5) =~= ps[6]);
    lemma_strip_at(s, 6);
    assert(s.skip(5) =~= x);
    let t = "SQ *"@ + x;
    assert(t[0] == 'S' && t[1] == 'Q' && t[2] == ' ' && t[3] == '*');
    lemma_differs(t, ps[0], 0);
    lemma_differs(t, ps[1], 0);
    lemma_differs(t, ps[2], 0);
    lemma_differs(t, ps[3], 0);
    lemma_differs(t, ps[4], 1);
    lemma_differs(t, ps[5], 1);
    if x.len() > 0 && x[0] == ' ' {
        assert(t[4] == ' ');
        assert(t.subrange(0, 5) =~= ps[6]);
        lemma_strip_at(t, 6);
        assert(t.skip(5) =~= x.skip(1));
    } else {
        if x.len() > 0 {
            assert(t[4] == x[0]);
            lemma_differs(t, ps[6], 4);
        }
        assert(!has_prefix(t, ps[6]));
        assert(t.subrange(0, 4) =~= ps[7]);
        lemma_strip_at(t, 7);
        assert(t.skip(4) =~= x);
    }
}

/// "SP * X", "SP *X" and "X" group together, the spaced form first.
pub proof fn law_sp_groups_with_plain(x: Seq<char>)
    ensures
        spec_strip_payment_prefix("SP * "@ + x) == x,
        spec_strip_payment_prefix("SP *"@ + x) == (if x.len() > 0 && x[0] == ' ' {
            x.skip(1)
        } else {
            x
        }),
{
    lemma_reveal_prefixes();
    let ps = payment_prefixes();
    let s = "SP * "@ + x;
    assert(s[0] == 'S' && s[1] == 'P' && s[2] == ' ' && s[3] == '*' && s[4] == ' ');
    lemma_differs(s, ps[0], 0);
    lemma_differs(s, ps[1], 0);
    lemma_differs(s, ps[2], 0);
    lemma_differs(s, ps[3], 0);
    assert(s.subrange(0, 5) =~= ps[4]);
    lemma_strip_at(s, 4);
    assert(s.skip(5) =~= x);
    let t = "SP *"@ + x;
    assert(t[0] == 'S' && t[1] == 'P' && t[2] == ' ' && t[3] == '*');
    lemma_differs(t, ps[0], 0);
    lemma_differs(t, ps[1], 0);
    lemma_differs(t, ps[2], 0);
    lemma_differs(t, ps[3], 0);
    if x.len() > 0 && x[0] == ' ' {
        assert(t[4] == ' ');
        assert(t.subrange(0, 5) =~= ps[4]);
        lemma_strip_at(t, 4);
        assert(t.skip(5) =~= x.skip(1));
    } else {
        if x.len() > 0 {
            assert(t[4] == x[0]);
            lemma_differs(t, ps[4], 4);
        }
        assert(!has_prefix(t, ps[4]));
        assert(t.subrange(0, 4) =~= ps[5]);
        lemma_strip_at(t, 5);
        assert(t.skip(4) =~= x);
    }
}

/// "TST* X", "TST*X" and "X" group together, the spaced form first.
pub proof fn law_toast_groups_with_plain(x: Seq<char>)
    ensures
        spec_strip_payment_prefix("TST* "@ + x) == x,
        spec_strip_payment_prefix("TST*"@ + x) == (if x.len() > 0 && x[0] == ' ' {
            x.skip(1)
        } else {
            x
        }),
{
    lemma_reveal_prefixes();
    let ps = payment_prefixes();
    let s = "TST* "@ + x;
    assert(s[0] == 'T' && s[1] == 'S' && s[2] == 'T' && s[3] == '*' && s[4] == ' ');
    lemma_differs(s, ps[0], 0);
    lemma_differs(s, ps[1], 0);
    lemma_differs(s, ps[2], 0);
    lemma_differs(s, ps[3], 0);
    lemma_differs(s, ps[4], 0);
    lemma_differs(s, ps[5], 0);
    lemma_differs(s, ps[6], 0);
    lemma_differs(s, ps[7], 0);
    assert(s.subrange(0, 5) =~= ps[8]);
    lemma_strip_at(s, 8);
    assert(s.skip(5) =~= x);
    let t = "TST*"@ + x;
    assert(t[0] == 'T' && t[1] == 'S' && t[2] == 'T' && t[3] == '*');
    lemma_differs(t, ps[0], 0);
    lemma_differs(t, ps[1], 0);
    lemma_differs(t, ps[2], 0);
    lemma_differs(t, ps[3], 0);
    lemma_differs(t, ps[4], 0);
    lemma_differs(t, ps[5], 0);
    lemma_differs(t, ps[6], 0);
    lemma_differs(t, ps[7], 0);
    if x.len() > 0 && x[0] == ' ' {
        assert(t[4] == ' ');
        assert(t.subrange(0, 5) =~= ps[8]);
        lemma_strip_at(t, 8);
        assert(t.skip(5) =~= x.skip(1));
    } else {
        if x.len() > 0 {
            assert(t[4] == x[0]);
            lemma_differs(t, ps[8], 4);
        }
        assert(!has_prefix(t, ps[8]));
        assert(t.subrange(0, 4) =~= ps[9]);
        lemma_strip_at(t, 9);
        assert(t.skip(4) =~= x);
    }
}

/// The other wallet prefixes ("APLPAY ", "ApplePay ", "APPLEPAY ",
/// "GOOGLE *", "Google *") are removed whatever follows them.
pub proof fn law_wallet_prefixes_removed(x: Seq<char>)
    ensures
        spec_strip_payment_prefix("APLPAY "@ + x) == x,
        spec_strip_payment_prefix("ApplePay "@ + x) == x,
        spec_strip_payment_prefix("APPLEPAY "@ + x) == x,
        spec_strip_payment_prefix("GOOGLE *"@ + x) == x,
        spec_strip_payment_prefix("Google *"@ + x) == x,
{
    lemma_reveal_prefixes();
    let ps = payment_prefixes();
    let a = "APLPAY "@ + x;
    assert(a[1] == 'P');
    lemma_differs(a, ps[0], 1);
    assert(a.subrange(0, 7) =~= ps[1]);
    lemma_strip_at(a, 1);
    assert(a.skip(7) =~= x);
    let b = "ApplePay "@ + x;
    assert(b[1] == 'p' && b[2] == 'p');
    lemma_differs(b, ps[0], 2);
    lemma_differs(b, ps[1], 1);
    assert(b.subrange(0, 9) =~= ps[2]);
    lemma_strip_at(b, 2);
    assert(b.skip(9) =~= x);
    let c = "APPLEPAY "@ + x;
    assert(c[1] == 'P' && c[2] == 'P' && c[3] == 'L');
    lemma_differs(c, ps[0], 1);
    lemma_differs(c, ps[1], 2);
    lemma_differs(c, ps[2], 1);
    assert(c.subrange(0, 9) =~= ps[3]);
    lemma_strip_at(c, 3);
    assert(c.skip(9) =~= x);
    let d = "GOOGLE *"@ + x;
    assert(d[0] == 'G' && d[1] == 'O');
    lemma_differs(d, ps[0], 0);
    lemma_differs(d, ps[1], 0);
    lemma_differs(d, ps[2], 0);
    lemma_differs(d, ps[3], 0);
    lemma_differs(d, ps[4], 0);
    lemma_differs(d, ps[5], 0);
    lemma_differs(d, ps[6], 0);
    lemma_differs(d, ps[7], 0);
    lemma_differs(d, ps[8], 0);
    lemma_differs(d, ps[9], 0);
    assert(d.subrange(0, 8) =~= ps[10]);
    lemma_strip_at(d, 10);
    assert(d.skip(8) =~= x);
    let e = "Google *"@ + x;
    assert(e[0] == 'G' && e[1] == 'o');
    lemma_differs(e, ps[0], 0);
    lemma_differs(e, ps[1], 0);
    lemma_differs(e, ps[2], 0);
    lemma_differs(e, ps[3], 0);
    lemma_differs(e, ps[4], 0);
    lemma_differs(e, ps[5], 0);
    lemma_differs(e, ps[6], 0);
    lemma_differs(e, ps[7], 0);
    lemma_differs(e, ps[8], 0);
    lemma_differs(e, ps[9], 0);
    lemma_differs(e, ps[10], 1);
    assert(e.subrange(0, 8) =~= ps[11]);
    lemma_strip_at(e, 11);
    assert(e.skip(8) =~= x);
}

proof fn lemma_total_ids_prefix(gs: Seq<MerchantGroup>, k: int)
    requires
        0 <= k <= gs.len(),
    ensures
        total_ids(gs.take(k)) <= total_ids(gs),
    decreases gs.len(),
{
    if k < gs.len() {
        lemma_total_ids_prefix(gs.drop_last(), k);
        assert(gs.drop_last().take(k) =~= gs.take(k));
    } else {
        assert(gs.take(k) =~= gs);
    }
}

/// A normalization pass never names more transactions than its groups
/// hold.
pub proof fn law_normalized_within_groups(pass: NormalizationPass)
    requires
        pass.wf(),
    ensures
        pass.normalized_count <= total_ids(pass.groups@),
{
    lemma_total_ids_prefix(pass.groups@, pass.processed as int);
}

} // verus!
