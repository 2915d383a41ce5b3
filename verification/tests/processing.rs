use hone_server::explore::{
    query_failure_message, session_id_for, ChatMessage, ExploreSession, ExploreSessionManager,
    MAX_HISTORY_MESSAGES, SESSION_TIMEOUT_MS,
};
use hone_server::imports::{
    check_decoded_upload, check_reprocess_allowed, check_run_comparison, check_run_session,
    cancel_refused, cancel_result, decode_json_upload, detector_kind, effective_model,
    find_account, form_field, import_phases, missing_snapshot, phase_name, phase_start,
    reprocess_phases, reprocess_started, session_user, AccountRef, ProcessingRun, ProcessingStep, CompareRunsQuery, DetectorKind, FormField,
    ImportCsvJsonRequest, ImportPhase, ImportTally, InsertOutcome, RunComparisonKind, UploadForm,
    MAX_UPLOAD_SIZE,
};
use hone_server::merchants::{
    amex_context, applied_name, cache_entry, count_ok, group_by_description, normalize_call,
    normalize_metric, reprocess_amex_context, strip_payment_prefix, MerchantTx, NormalizationPass,
    NormalizeCall, NormalizeOutcome,
};
use hone_server::tagging::{
    bulk_pairs, check_bulk_tags, corrections, failed_outcome, learns_from, ollama_tags,
    reprocess_outcome, tag_source, BulkReprocess, BulkTagTally, TagLink, TagResult, TagSourceKind,
};

fn msg(role: &str, content: &str) -> ChatMessage {
    ChatMessage { role: role.to_string(), content: content.to_string() }
}

fn contents(v: &[ChatMessage]) -> Vec<String> {
    v.iter().map(|m| m.content.clone()).collect()
}

#[test]
fn strip_payment_prefix_examples() {
    assert_eq!(strip_payment_prefix("AplPay STARBUCKS"), "STARBUCKS");
    assert_eq!(strip_payment_prefix("APPLEPAY STARBUCKS"), "STARBUCKS");
    assert_eq!(strip_payment_prefix("SP * SHOP"), "SHOP");
    assert_eq!(strip_payment_prefix("SP *SHOP"), "SHOP");
    assert_eq!(strip_payment_prefix("SQ *CAFE"), "CAFE");
    assert_eq!(strip_payment_prefix("TST* DINER"), "DINER");
    assert_eq!(strip_payment_prefix("GOOGLE *YouTube"), "YouTube");
    assert_eq!(strip_payment_prefix("Google *YouTube"), "YouTube");
    assert_eq!(strip_payment_prefix("AplPay AplPay X"), "AplPay X");
    assert_eq!(strip_payment_prefix("STARBUCKS"), "STARBUCKS");
    assert_eq!(strip_payment_prefix(""), "");
}

fn tx(id: i64, d: &str) -> MerchantTx {
    MerchantTx { id, description: d.to_string(), import_format: None, original_data: None }
}

#[test]
fn grouping_keeps_first_appearance_order() {
    let txs = vec![tx(1, "AplPay CAFE"), tx(2, "SHOP"), tx(3, "CAFE"), tx(4, "SHOP"), tx(5, "SQ *X")];
    let g = group_by_description(&txs, true);
    let view: Vec<(String, Vec<i64>, usize)> =
        g.iter().map(|g| (g.description.clone(), g.tx_ids.clone(), g.representative)).collect();
    assert_eq!(
        view,
        vec![
            ("CAFE".to_string(), vec![1, 3], 0),
            ("SHOP".to_string(), vec![2, 4], 1),
            ("X".to_string(), vec![5], 4),
        ]
    );
    let raw = group_by_description(&txs, false);
    assert_eq!(raw.len(), 4);
    assert_eq!(raw[0].description, "AplPay CAFE");
}

fn amex(data: &str) -> MerchantTx {
    MerchantTx {
        id: 9,
        description: "SHELL".to_string(),
        import_format: Some("amex_csv".to_string()),
        original_data: Some(data.to_string()),
    }
}

#[test]
fn amex_context_needs_extended_details() {
    let t = amex(r#"{"Extended Details":"SHELL OIL 123","Appears On Your Statement As":"SHELL","Category":"Transportation-Fuel"}"#);
    let c = amex_context(&t, "SHELL", Some("Gas")).unwrap();
    assert_eq!(c.extracted_merchant.as_deref(), Some("SHELL"));
    assert_eq!(c.extended_details.as_deref(), Some("SHELL OIL 123"));
    assert_eq!(c.statement_as.as_deref(), Some("SHELL"));
    assert_eq!(c.category.as_deref(), Some("Transportation-Fuel"));
    let t = amex(r#"{"Extended Details":"SHELL OIL 123","Category":""}"#);
    let c = amex_context(&t, "SHELL", Some("Gas")).unwrap();
    assert_eq!(c.category.as_deref(), Some("Gas"));
    assert!(c.statement_as.is_none());
    assert!(amex_context(&amex(r#"{"Extended Details":""}"#), "SHELL", None).is_none());
    assert!(amex_context(&amex("not json"), "SHELL", None).is_none());
    let mut other = amex(r#"{"Extended Details":"X"}"#);
    other.import_format = Some("chase_csv".to_string());
    assert!(amex_context(&other, "SHELL", None).is_none());
}

#[test]
fn reprocess_amex_context_needs_both_members() {
    let mut t = amex(r#"{"Appears On Your Statement As":"SHELL","Extended Details":5}"#);
    t.import_format = Some("amex_platinum".to_string());
    let c = reprocess_amex_context(&t, Some("Gas")).unwrap();
    assert!(c.extracted_merchant.is_none());
    assert_eq!(c.statement_as.as_deref(), Some("SHELL"));
    assert!(c.extended_details.is_none());
    assert_eq!(c.category.as_deref(), Some("Gas"));
    t.original_data = Some(r#"{"Extended Details":"X"}"#.to_string());
    assert!(reprocess_amex_context(&t, None).is_none());
    t.import_format = None;
    assert!(reprocess_amex_context(&t, None).is_none());
}

#[test]
fn normalization_outcomes() {
    let n = NormalizeOutcome::Normalized("Shell".to_string());
    assert_eq!(applied_name(&n).as_deref(), Some("Shell"));
    assert_eq!(cache_entry(&n, "SHELL OIL"), Some(("SHELL OIL".to_string(), "Shell".to_string())));
    let m = normalize_metric(&n, "SHELL OIL", Some(3)).unwrap();
    assert!(m.success && m.error_message.is_none() && m.transaction_id == Some(3));
    assert_eq!(m.result_text.as_deref(), Some("Shell"));
    let c = NormalizeOutcome::Cached("Shell".to_string());
    assert!(cache_entry(&c, "SHELL OIL").is_none());
    assert!(normalize_metric(&c, "SHELL OIL", Some(3)).is_none());
    let f = NormalizeOutcome::Failed("timeout".to_string());
    assert!(applied_name(&f).is_none());
    let m = normalize_metric(&f, "SHELL OIL", None).unwrap();
    assert!(!m.success && m.error_message.as_deref() == Some("timeout") && m.result_text.is_none());
    assert!(matches!(normalize_call(None, Some("Gas".to_string())), NormalizeCall::Plain(Some(_))));
}

#[test]
fn normalization_pass_counts_named_transactions() {
    let txs = vec![tx(1, "A"), tx(2, "B"), tx(3, "A")];
    let mut pass = NormalizationPass::new(group_by_description(&txs, true));
    assert_eq!(pass.progress(), (0, 2));
    assert_eq!(pass.next_group(), Some(0));
    pass.finish_group(&NormalizeOutcome::Cached("a".into()), &vec![true, false]);
    pass.finish_group(&NormalizeOutcome::Failed("x".into()), &vec![true]);
    assert_eq!(pass.next_group(), None);
    assert_eq!(pass.normalized_count, 1);
    assert_eq!(pass.progress(), (2, 2));
    assert_eq!(count_ok(&vec![true, false, true]), 2);
}

#[test]
fn upload_form_collects_fields() {
    assert!(matches!(form_field("file"), FormField::File));
    assert!(matches!(form_field("account_id"), FormField::AccountId));
    assert!(matches!(form_field("model"), FormField::Model));
    assert!(matches!(form_field("other"), FormField::Ignored));
    let mut f = UploadForm::new();
    assert_eq!(UploadForm::new().finish().unwrap_err().message(), "Missing file field");
    f.add_file(vec![1, 2, 3]).unwrap();
    f.add_model(String::new());
    assert_eq!(f.add_account_id("x7").unwrap_err().message(), "Invalid account_id: x7");
    let g = UploadForm { file: Some(vec![1]), account_id: None, model: None, total_size: 1 };
    assert_eq!(g.finish().unwrap_err().message(), "Missing account_id field");
    f.add_account_id("7").unwrap();
    f.add_model("llama3.1".to_string());
    let (file, account, model) = f.finish().unwrap();
    assert_eq!((file, account, model.as_deref()), (vec![1, 2, 3], 7, Some("llama3.1")));
}

#[test]
fn upload_size_limit_counts_all_files() {
    let mut f = UploadForm::new();
    f.add_file(vec![0; MAX_UPLOAD_SIZE - 1]).unwrap();
    let e = f.add_file(vec![0; 2]).unwrap_err();
    assert_eq!(e.status(), 400);
    assert_eq!(e.message(), "File too large. Maximum size is 10 MB");
}

#[test]
fn json_upload_is_base64() {
    let req = ImportCsvJsonRequest { account_id: 1, csv_data: "aGVsbG8=".to_string(), model: None };
    assert_eq!(decode_json_upload(&req).unwrap(), b"hello".to_vec());
    let bad = ImportCsvJsonRequest { account_id: 1, csv_data: "***".to_string(), model: None };
    assert!(decode_json_upload(&bad).unwrap_err().message().starts_with("Invalid base64 data: "));
    let e = check_decoded_upload(Ok(vec![0; MAX_UPLOAD_SIZE + 1])).unwrap_err();
    assert_eq!(e.message(), "File too large. Maximum size is 10 MB");
    assert_eq!(check_decoded_upload(Err("boom".to_string())).unwrap_err().message(), "Invalid base64 data: boom");
}

#[test]
fn import_bookkeeping() {
    let accounts = vec![
        AccountRef { id: 3, name: "Card".into(), bank: "amex".into() },
        AccountRef { id: 5, name: "Checking".into(), bank: "chase".into() },
    ];
    assert_eq!(find_account(&accounts, 5).unwrap(), 1);
    assert_eq!(find_account(&accounts, 9).unwrap_err().message(), "Account not found");
    assert_eq!(effective_model(Some("llama"), Some("qwen")).as_deref(), Some("qwen"));
    assert_eq!(effective_model(Some("llama"), None).as_deref(), Some("llama"));
    assert_eq!(effective_model(None, Some("qwen")), None);
    let mut t = ImportTally::new();
    assert!(!t.needs_processing());
    assert_eq!(t.record(&InsertOutcome::Inserted(1)), None);
    assert_eq!(t.record(&InsertOutcome::Duplicate(7)), Some(7));
    assert_eq!((t.imported, t.skipped), (1, 1));
    assert!(t.needs_processing());
}

#[test]
fn processing_phases() {
    let names = |v: Vec<ImportPhase>| v.iter().map(|p| phase_name(p)).collect::<Vec<_>>();
    assert_eq!(names(import_phases(true)), vec!["tagging", "normalizing", "matching_receipts", "detecting"]);
    assert_eq!(names(import_phases(false)), vec!["tagging", "matching_receipts", "detecting"]);
    assert_eq!(names(reprocess_phases(true)), vec!["clearing", "tagging", "normalizing", "detecting"]);
    assert_eq!(names(reprocess_phases(false)), vec!["clearing", "tagging", "detecting"]);
    assert_eq!(phase_start(&ImportPhase::Tagging, 12), (0, 12));
    assert_eq!(phase_start(&ImportPhase::Normalizing, 12), (0, 0));
    assert_eq!(phase_start(&ImportPhase::Detecting, 12), (0, 1));
    assert!(matches!(detector_kind(true, true), DetectorKind::AiAndOrchestrator));
    assert!(matches!(detector_kind(true, false), DetectorKind::OrchestratorOnly));
    assert!(matches!(detector_kind(false, true), DetectorKind::AiOnly));
    assert!(matches!(detector_kind(false, false), DetectorKind::Basic));
}

#[test]
fn reprocess_and_cancel_answers() {
    assert_eq!(check_reprocess_allowed(true).unwrap_err().message(), "Import session is already being processed");
    assert!(check_reprocess_allowed(false).is_ok());
    let s = reprocess_started(4, 9, 2);
    assert_eq!((s.session_id, s.run_id, s.run_number), (4, 9, 2));
    assert_eq!(s.message, "Reprocess started. Poll GET /api/imports/:id for progress.");
    let c = cancel_refused("completed");
    assert!(!c.cancelled);
    assert_eq!(c.message, "Import is not in processing state (current: completed)");
    assert_eq!(cancel_result(true).message, "Import cancelled successfully");
    assert_eq!(cancel_result(false).message, "Import was not in processing state");
}

#[test]
fn run_comparisons_check_ownership() {
    let q0 = CompareRunsQuery { run_a: 0, run_b: 7 };
    assert!(matches!(check_run_comparison(1, &q0, None, Some(1)), Ok(RunComparisonKind::InitialVsRun)));
    assert_eq!(check_run_comparison(1, &q0, None, None).unwrap_err().message(), "Run B not found");
    assert_eq!(
        check_run_comparison(1, &q0, None, Some(2)).unwrap_err().message(),
        "Run must belong to the specified import session"
    );
    let q = CompareRunsQuery { run_a: 3, run_b: 7 };
    assert!(matches!(check_run_comparison(1, &q, Some(1), Some(1)), Ok(RunComparisonKind::RunVsRun)));
    assert_eq!(check_run_comparison(1, &q, None, Some(1)).unwrap_err().message(), "Run A not found");
    assert_eq!(check_run_comparison(1, &q, Some(1), None).unwrap_err().message(), "Run B not found");
    assert_eq!(
        check_run_comparison(1, &q, Some(1), Some(2)).unwrap_err().message(),
        "Both runs must belong to the specified import session"
    );
    assert_eq!(
        missing_snapshot(&RunComparisonKind::InitialVsRun).message(),
        "Cannot compare to initial: run is missing 'after' snapshot"
    );
    assert!(check_run_session(1, Some(1)).is_ok());
    assert_eq!(check_run_session(1, Some(2)).unwrap_err().message(), "Reprocess run not found");
}

#[test]
fn tag_sources_and_corrections() {
    assert_eq!(tag_source(Some("rule")), TagSourceKind::Rule);
    assert_eq!(tag_source(Some("pattern")), TagSourceKind::Pattern);
    assert_eq!(tag_source(Some("ollama")), TagSourceKind::Ollama);
    assert_eq!(tag_source(Some("Ollama")), TagSourceKind::Manual);
    assert_eq!(tag_source(None), TagSourceKind::Manual);
    let links = vec![
        TagLink { tag_id: 1, from_ollama: true },
        TagLink { tag_id: 2, from_ollama: false },
        TagLink { tag_id: 3, from_ollama: true },
    ];
    assert_eq!(ollama_tags(&links), vec![1, 3]);
    assert_eq!(corrections(&links, &TagSourceKind::Manual, 3), vec![1]);
    assert!(corrections(&links, &TagSourceKind::Rule, 3).is_empty());
    assert!(learns_from(&TagSourceKind::Manual));
    assert!(!learns_from(&TagSourceKind::Ollama));
}

#[test]
fn bulk_tagging() {
    assert_eq!(check_bulk_tags(&vec![], &vec![1]).unwrap_err().message(), "No transaction IDs provided");
    assert_eq!(check_bulk_tags(&vec![1], &vec![]).unwrap_err().message(), "No tag IDs provided");
    assert_eq!(bulk_pairs(&vec![1, 2], &vec![7, 8]), vec![(1, 7), (1, 8), (2, 7), (2, 8)]);
    let mut t = BulkTagTally::new();
    t.record(true);
    t.record(false);
    t.record(true);
    let r = t.response(2);
    assert_eq!((r.processed, r.success_count, r.failed_count), (2, 2, 1));
}

#[test]
fn reprocess_outcomes() {
    let a = reprocess_outcome(
        5,
        TagResult::Assigned { tag_name: "Gas".into(), source: "Ollama".into() },
        Some("Shell".into()),
    );
    assert!(a.success && a.new_tag.as_deref() == Some("Gas") && a.error.is_none());
    assert_eq!(a.normalized_merchant.as_deref(), Some("Shell"));
    let n = reprocess_outcome(5, TagResult::NoTag, None);
    assert!(n.success && n.error.as_deref() == Some("No tag assigned"));
    let f = reprocess_outcome(5, TagResult::Failed("boom".into()), Some("Shell".into()));
    assert!(!f.success && f.normalized_merchant.is_none() && f.error.as_deref() == Some("boom"));
    let mut bulk = BulkReprocess::new();
    bulk.push(a);
    bulk.push(failed_outcome(6, "Transaction not found"));
    bulk.push(n);
    assert_eq!((bulk.success_count, bulk.failed_count, bulk.results.len()), (2, 1, 3));
}

#[test]
fn explore_sessions_read_back_what_was_written() {
    let mut m = ExploreSessionManager::new();
    let id = m.create_session(1_000, 123_456_789);
    assert_eq!(id.len(), 20);
    assert!(id.starts_with("exp_"));
    assert_eq!(id, session_id_for(123_456_789));
    assert!(m.get_messages(&id, 1_000).is_empty());
    let info = m.get_session_info(&id, 3_500).unwrap();
    assert_eq!((info.message_count, info.created_at_secs_ago, info.last_activity_secs_ago), (0, 2, 2));
    m.update_session(&id, vec![msg("user", "hi"), msg("assistant", "hello")], 5_000);
    assert_eq!(contents(&m.get_messages(&id, 5_000 + SESSION_TIMEOUT_MS)), vec!["hi", "hello"]);
    assert!(m.get_messages(&id, 5_001 + SESSION_TIMEOUT_MS).is_empty());
    assert!(m.get_session_info(&id, 5_001 + SESSION_TIMEOUT_MS).is_none());
    assert!(m.delete_session(&id));
    assert!(!m.delete_session(&id));
    assert!(m.get_messages(&id, 5_000).is_empty());
}

#[test]
fn explore_history_keeps_most_recent() {
    let mut m = ExploreSessionManager::new();
    let many: Vec<ChatMessage> = (0..25).map(|i| msg("user", &i.to_string())).collect();
    m.update_session("s1", many, 10);
    let kept = contents(&m.get_messages("s1", 10));
    assert_eq!(kept.len(), MAX_HISTORY_MESSAGES);
    assert_eq!(kept[0], "5");
    assert_eq!(kept[19], "24");
    let mut s = ExploreSession::new(0);
    assert!(!s.is_expired(SESSION_TIMEOUT_MS));
    assert!(s.is_expired(SESSION_TIMEOUT_MS + 1));
    s.touch(50);
    assert_eq!((s.created_at, s.last_activity), (0, 50));
}

#[test]
fn creating_a_session_drops_expired_ones() {
    let mut m = ExploreSessionManager::new();
    m.update_session("old", vec![msg("user", "x")], 0);
    let id = m.create_session(SESSION_TIMEOUT_MS + 1, 1);
    assert!(m.get_session_info("old", SESSION_TIMEOUT_MS + 1).is_none());
    assert!(!m.delete_session("old"));
    assert!(m.delete_session(&id));
}

#[test]
fn query_failures_are_explained() {
    assert_eq!(
        query_failure_message("model does not support tools", "m1", "h"),
        "The model 'm1' doesn't support tool calling. Please select a different model like llama3.1 or qwen3-coder."
    );
    assert_eq!(
        query_failure_message("model not found", "m1", "h"),
        "AI model 'm1' not found. It may not be pulled on the Ollama server. Try: ollama pull m1"
    );
    assert_eq!(
        query_failure_message("Connection refused (os error 111)", "m1", "http://h:11434"),
        "Cannot connect to AI backend. Is Ollama running at http://h:11434?"
    );
    assert_eq!(
        query_failure_message("request timed out", "m1", "h"),
        "AI query timed out. The model may be overloaded or the query too complex."
    );
    assert_eq!(query_failure_message("boom", "m1", "h"), "AI query failed: boom");
}

#[test]
fn processing_runs_step_through_phases() {
    let mut run = ProcessingRun::new(false, true, 12);
    let mut seen = Vec::new();
    loop {
        match run.step() {
            ProcessingStep::Start { phase, current, total } => seen.push((phase_name(&phase), current, total)),
            ProcessingStep::Complete => break,
        }
    }
    assert_eq!(
        seen,
        vec![("tagging", 0, 12), ("normalizing", 0, 0), ("matching_receipts", 0, 1), ("detecting", 0, 1)]
    );
    assert!(matches!(run.step(), ProcessingStep::Complete));
    let mut re = ProcessingRun::new(true, false, 5);
    assert!(matches!(re.step(), ProcessingStep::Start { phase: ImportPhase::Clearing, current: 0, total: 5 }));
    assert_eq!(session_user(""), None);
    assert_eq!(session_user("a@b.c").as_deref(), Some("a@b.c"));
}
