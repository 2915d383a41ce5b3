use hone_server::auth::deny_audit_entry;
use hone_server::config::McpOAuthConfig;
use hone_server::explore::{require_explore_backend, EXPLORE_BACKEND_MISSING};
use hone_server::imports::{
    final_import_results, import_response, import_sessions_limit, tagging_breakdown,
    tally_inserts, BackfillCounts, DetectionCounts, ImportTaggingBreakdown, ImportTally,
    InsertOutcome,
};
use hone_server::merchants::{
    group_outcome, group_updates, plan_group, GroupAction, NormalizeCall, NormalizeOutcome,
};
use hone_server::net::{trusted_networks_from, IpAddress};
use hone_server::oauth::mcp_jwt_plan;
use hone_server::periods::resolve_period;
use hone_server::tagging::{
    ai_backend_missing_outcome, bulk_reprocess_results, bulk_tags_response, invalid_json,
    require_ai_backend, PerIdResult, TagResult,
};

#[test]
fn import_session_listing_is_capped_at_one_hundred() {
    assert_eq!(import_sessions_limit(0), 1);
    assert_eq!(import_sessions_limit(-5), 1);
    assert_eq!(import_sessions_limit(50), 50);
    assert_eq!(import_sessions_limit(100), 100);
    assert_eq!(import_sessions_limit(1000), 100);
}

#[test]
fn import_answer_starts_processing_counts_at_zero() {
    let tally = ImportTally { imported: 7, skipped: 2 };
    let r = import_response(&tally, "Checking".to_string(), "amex".to_string(), 42);
    assert_eq!((r.imported, r.skipped, r.import_session_id), (7, 2, 42));
    assert_eq!(r.account_name, "Checking");
    assert_eq!(r.bank, "amex");
    assert_eq!(r.transactions_tagged, 0);
    assert_eq!(r.tagging_breakdown, ImportTaggingBreakdown::zero());
    assert_eq!(r.subscriptions_found + r.zombies_detected + r.duplicates_detected, 0);
}

#[test]
fn final_results_keep_the_stored_counts() {
    let d = DetectionCounts {
        subscriptions_found: 3,
        zombies_detected: 1,
        price_increases_detected: 0,
        duplicates_detected: 2,
        receipts_matched: 4,
    };
    let b = tagging_breakdown(&BackfillCounts {
        transactions_processed: 9,
        transactions_tagged: 8,
        by_learned: 1,
        by_rule: 2,
        by_pattern: 3,
        by_ollama: 1,
        by_bank_category: 0,
        fallback_to_other: 1,
    });
    assert_eq!(
        b,
        ImportTaggingBreakdown {
            by_learned: 1,
            by_rule: 2,
            by_pattern: 3,
            by_ollama: 1,
            by_bank_category: 0,
            fallback: 1,
        }
    );
    let r = final_import_results(Some((10, 5)), b, d).unwrap();
    assert_eq!((r.imported_count, r.skipped_count), (10, 5));
    assert_eq!(r.tagging, b);
    assert_eq!(r.detections.subscriptions_found, 3);
    assert_eq!(r.detections.receipts_matched, 4);
    assert_eq!(final_import_results(None, b, d).unwrap_err(), "Import session not found");
}

#[test]
fn backend_refusals() {
    let e = invalid_json("expected value at line 1");
    assert_eq!((e.status(), e.message()), (400, "Invalid JSON: expected value at line 1"));
    assert!(require_ai_backend(true).is_ok());
    let e = require_ai_backend(false).unwrap_err();
    assert_eq!((e.status(), e.message()), (400, "Ollama not configured"));
    let o = ai_backend_missing_outcome(9);
    assert_eq!(o.transaction_id, 9);
    assert!(!o.success);
    assert_eq!(o.error.as_deref(), Some("Ollama not configured"));
    assert!(require_explore_backend(true).is_ok());
    let e = require_explore_backend(false).unwrap_err();
    assert_eq!((e.status(), e.message()), (400, EXPLORE_BACKEND_MISSING));
}

#[test]
fn trusted_networks_keep_what_parses() {
    let entries = vec![
        "192.168.1.0/24".to_string(),
        "10.0.0.5".to_string(),
        "bogus".to_string(),
    ];
    let addresses = vec![None, Some(IpAddress::V4(0x0a00_0005)), None];
    let (nets, rejected) = trusted_networks_from(&entries, &addresses);
    assert_eq!(nets.len(), 2);
    assert_eq!(nets[0].addr(), IpAddress::V4(0xc0a8_0100));
    assert_eq!(nets[0].prefix_len(), 24);
    assert_eq!(nets[1].addr(), IpAddress::V4(0x0a00_0005));
    assert_eq!(nets[1].prefix_len(), 32);
    assert_eq!(rejected, vec![2]);
}

#[test]
fn mcp_plan_follows_configuration() {
    let mut c = McpOAuthConfig::default();
    let p = mcp_jwt_plan(&c);
    assert!(!p.secret && p.jwks_url.is_none());
    c.jwt_secret = Some(String::new());
    c.jwks_url = Some("https://as/jwks".to_string());
    let p = mcp_jwt_plan(&c);
    assert!(!p.secret);
    assert_eq!(p.jwks_url.as_deref(), Some("https://as/jwks"));
    c.jwt_secret = Some("s".to_string());
    assert!(mcp_jwt_plan(&c).secret);
}

#[test]
fn preset_period_ends_today_and_is_ordered() {
    let (from, to) = resolve_period("this-month", None, None).unwrap();
    assert!((from.year, from.month, from.day) <= (to.year, to.month, to.day));
    assert_eq!(from.day, 1);
    let lone = resolve_period("this-month", Some("not-a-date"), None).unwrap();
    assert_eq!((lone.0.year, lone.0.month, lone.0.day), (from.year, from.month, from.day));
}

#[test]
fn cached_key_is_not_sent_to_the_backend() {
    match plan_group(Some("Starbucks".to_string()), None, Some("Coffee".to_string())) {
        GroupAction::UseCached(n) => assert_eq!(n, "Starbucks"),
        GroupAction::AskBackend(_) => panic!("a cached key must not be sent"),
    }
    let ask = plan_group(None, None, Some("Coffee".to_string()));
    match &ask {
        GroupAction::AskBackend(NormalizeCall::Plain(h)) => assert_eq!(h.as_deref(), Some("Coffee")),
        _ => panic!("expected a plain backend call"),
    }
    match group_outcome(&ask, Some(Ok("Blue Bottle".to_string()))) {
        Some(NormalizeOutcome::Normalized(n)) => assert_eq!(n, "Blue Bottle"),
        _ => panic!("expected the backend's name"),
    }
    assert!(group_outcome(&ask, None).is_none());
}

#[test]
fn every_row_of_a_key_gets_one_name() {
    let ids = vec![4, 9, 11];
    let writes = group_updates(&ids, &NormalizeOutcome::Cached("Shell".to_string()));
    assert_eq!(
        writes,
        vec![(4, "Shell".to_string()), (9, "Shell".to_string()), (11, "Shell".to_string())]
    );
    assert!(group_updates(&ids, &NormalizeOutcome::Failed("timeout".to_string())).is_empty());
}

#[test]
fn denied_request_is_audited_as_auth_deny() {
    assert_eq!(
        deny_audit_entry("POST", "/mcp"),
        ("auth_deny".to_string(), "POST /mcp".to_string())
    );
}

#[test]
fn imported_and_skipped_add_up_to_the_rows() {
    let rows = vec![
        InsertOutcome::Inserted(1),
        InsertOutcome::Duplicate(7),
        InsertOutcome::Inserted(2),
    ];
    let t = tally_inserts(&rows);
    assert_eq!((t.imported, t.skipped), (2, 1));
}

#[test]
fn bulk_reprocess_answers_each_id_in_order() {
    let ids = vec![5, 6, 7];
    let r = bulk_reprocess_results(
        &ids,
        vec![
            PerIdResult::Reprocessed(
                TagResult::Assigned { tag_name: "Coffee".to_string(), source: "ollama".to_string() },
                Some("Blue Bottle".to_string()),
            ),
            PerIdResult::Missing,
            PerIdResult::Reprocessed(TagResult::Failed("timeout".to_string()), None),
        ],
    );
    let got: Vec<i64> = r.results.iter().map(|o| o.transaction_id).collect();
    assert_eq!(got, ids);
    assert!(r.results[0].success);
    assert_eq!(r.results[1].error.as_deref(), Some("Transaction not found"));
    assert!(!r.results[2].success);
    assert_eq!((r.success_count, r.failed_count), (1, 2));
}

#[test]
fn bulk_tags_count_every_pair() {
    let r = bulk_tags_response(&vec![1, 2], &vec![10, 11], &vec![true, true, false, true]);
    assert_eq!((r.processed, r.success_count, r.failed_count), (2, 3, 1));
}
