use hone_server::handlers::training::{all_up_to_date, first_experiment_advice};
use hone_server::handlers::receipts::{check_parser_available, image_to_parse, receipt_date};
use hone_server::handlers::locations::{invalid_location_type, mileage_date};
use hone_server::handlers::alerts::{anomaly_windows, check_reanalyze, new_merchants, total_count};
use hone_server::handlers::audit::{audit_limit, default_audit_limit, AuditQuery};
use hone_server::handlers::backup::{
    backup_to_verify, check_restore, find_backup, prune_keep, restore_response, verify_audit_action,
    verify_response, PruneBackupsRequest, RestoreBackupRequest, VerifyBackupRequest, VerifyOutcome,
};
use hone_server::handlers::detection::{
    default_detect_request, default_kind, detect_audit_details, detection_kind, DetectResponse,
    DetectionKind,
};
use hone_server::handlers::entities::{check_entity_delete, invalid_entity_type, DeleteEntityQuery};
use hone_server::handlers::export::{
    default_format, export_format, export_headers, export_options, ExportFormat,
    TransactionExportQuery,
};
use hone_server::handlers::feedback::{feedback_limit, FeedbackQuery};
use hone_server::handlers::insights::{check_snooze, SnoozeRequest};
use hone_server::handlers::ollama::{calls_limit, stats_period, OllamaCallsQuery, OllamaStatsQuery};
use hone_server::handlers::receipts::{
    check_image, check_linkable, check_unlinkable, duplicate_receipt, receipt_content_hash,
};
use hone_server::handlers::reports::{ReportMerchantsQuery, ReportTrendsQuery, ReportVehicleCostsQuery};
use hone_server::handlers::splits::default_split_type;
use hone_server::handlers::suggestions::{no_entities, suggestion_category};
use hone_server::handlers::tags::default_pattern_type;
use hone_server::handlers::training::{export_disposition, task_info, unknown_task};
use hone_server::handlers::transactions::{
    default_limit, list_date_range, list_page, merchant_name, parse_id_list, TransactionQuery,
    UpdateMerchantRequest,
};
use hone_server::handlers::trips::{new_trip_dates, updated_trip_dates};
use hone_server::periods::CalendarDate;

fn query() -> TransactionQuery {
    TransactionQuery {
        limit: default_limit(),
        offset: 0,
        account_id: None,
        entity_id: None,
        card_member: None,
        search: None,
        tag_ids: None,
        untagged: None,
        period: None,
        from: None,
        to: None,
        sort: None,
        order: None,
    }
}

#[test]
fn transaction_list_paging_and_tags() {
    let mut q = query();
    q.limit = 0;
    q.offset = -4;
    q.tag_ids = Some(" 3, x ,7,,".to_string());
    let p = list_page(&q);
    assert_eq!((p.limit, p.offset, p.untagged), (1, 0, false));
    assert_eq!(p.tag_ids, Some(vec![3, 7]));
    q.tag_ids = Some("a,b".to_string());
    q.untagged = Some(true);
    let p = list_page(&q);
    assert_eq!(p.tag_ids, None);
    assert!(p.untagged);
    assert_eq!(parse_id_list("1,-2, +3 ,99999999999999999999"), vec![1, -2, 3]);
}

#[test]
fn transaction_list_date_range() {
    assert!(list_date_range(&query()).unwrap().is_none());
    let mut q = query();
    q.from = Some("2024-01-01".into());
    assert!(list_date_range(&q).unwrap().is_none());
    q.to = Some("2024-01-31".into());
    let (f, t) = list_date_range(&q).unwrap().unwrap();
    assert_eq!((f, t), (CalendarDate { year: 2024, month: 1, day: 1 }, CalendarDate { year: 2024, month: 1, day: 31 }));
    let mut q = query();
    q.period = Some("yesterday".into());
    assert!(list_date_range(&q).unwrap_err().message().starts_with("Unknown period: yesterday."));
}

#[test]
fn merchant_rename_is_trimmed() {
    let ok = merchant_name(&UpdateMerchantRequest { merchant_name: "  Shell  ".into() }).unwrap();
    assert_eq!(ok, "Shell");
    let e = merchant_name(&UpdateMerchantRequest { merchant_name: " \t ".into() }).unwrap_err();
    assert_eq!((e.status(), e.message()), (400, "Merchant name cannot be empty"));
}

#[test]
fn defaults_of_queries() {
    assert_eq!(default_audit_limit(), 100);
    assert_eq!(audit_limit(&AuditQuery { limit: 5000 }), 1000);
    assert_eq!(default_kind(), "all");
    assert_eq!(default_detect_request().kind, "all");
    assert_eq!(default_format(), "csv");
    assert_eq!(default_split_type(), "item");
    assert_eq!(default_pattern_type(), "contains");
    assert_eq!(hone_server::handlers::feedback::default_limit(), 100);
    assert_eq!(hone_server::handlers::insights::default_limit(), 5);
    assert_eq!(hone_server::imports::default_limit(), 50);
    let fq = FeedbackQuery { target_type: None, feedback_type: None, include_reverted: false, limit: 5000, offset: 0 };
    assert_eq!(feedback_limit(&fq), 1000);
    assert_eq!(calls_limit(&OllamaCallsQuery { limit: None }), 50);
    assert_eq!(calls_limit(&OllamaCallsQuery { limit: Some(999) }), 200);
    assert_eq!(stats_period(&OllamaStatsQuery { period: None }), "last-30-days");
    let mq = ReportMerchantsQuery { limit: Some(500), period: None, tag: None, entity_id: None, card_member: None };
    assert_eq!((mq.merchant_limit(), mq.period_name()), (100, "this-month"));
    let tq = ReportTrendsQuery { granularity: None, period: None, tag: None, entity_id: None, card_member: None };
    assert_eq!((tq.period_name(), tq.granularity_name()), ("last-12-months", "monthly"));
    let vq = ReportVehicleCostsQuery { period: None, from: None, to: None };
    assert_eq!(vq.period_name(), "all");
}

#[test]
fn detection_kinds() {
    assert!(matches!(detection_kind("zombies"), DetectionKind::Zombies));
    assert!(matches!(detection_kind("increases"), DetectionKind::Increases));
    assert!(matches!(detection_kind("duplicates"), DetectionKind::Duplicates));
    assert!(matches!(detection_kind("everything"), DetectionKind::All));
    let r = DetectResponse { subscriptions_found: 3, zombies_detected: 1, price_increases_detected: 0, duplicates_detected: 2 };
    assert_eq!(
        detect_audit_details("all", &r),
        "kind=all, subscriptions=3, zombies=1, increases=0, duplicates=2"
    );
}

#[test]
fn export_options_and_format() {
    let q = TransactionExportQuery {
        format: "csv".into(),
        from: Some("2024-01-01".into()),
        to: None,
        tags: Some("4,x,5".into()),
        include_children: true,
    };
    let o = export_options(&q).unwrap();
    assert_eq!(o.from, Some(CalendarDate { year: 2024, month: 1, day: 1 }));
    assert_eq!(o.tag_ids, Some(vec![4, 5]));
    let bad = TransactionExportQuery { from: Some("2024/01/01".into()), ..q };
    assert_eq!(export_options(&bad).unwrap_err().message(), "Invalid 'from' date format (use YYYY-MM-DD)");
    let empty_tags = TransactionExportQuery { format: "json".into(), from: None, to: None, tags: Some("x".into()), include_children: false };
    assert_eq!(export_options(&empty_tags).unwrap().tag_ids, Some(vec![]));
    assert!(matches!(export_format("json"), Ok(ExportFormat::Json)));
    assert_eq!(export_format("xml").unwrap_err().message(), "Invalid format. Use 'csv' or 'json'");
    assert_eq!(export_headers(&ExportFormat::Csv).1, "attachment; filename=\"transactions.csv\"");
}

#[test]
fn backups_are_found_by_name() {
    let names = vec!["b1".to_string(), "b2".to_string()];
    assert_eq!(find_backup(&names, "b2").unwrap(), 1);
    assert_eq!(find_backup(&names, "b3").unwrap_err().message(), "Backup not found");
    assert_eq!(backup_to_verify(&names, &VerifyBackupRequest { name: None }).unwrap(), 0);
    assert_eq!(backup_to_verify(&vec![], &VerifyBackupRequest { name: None }).unwrap_err().message(), "No backups found");
    assert_eq!(prune_keep(&PruneBackupsRequest { keep: None }), 7);
    assert_eq!(prune_keep(&PruneBackupsRequest { keep: Some(2) }), 2);
    let e = check_restore(true, &RestoreBackupRequest { force: false }).unwrap_err();
    assert_eq!((e.status(), e.message()), (409, "Database already exists. Set force=true to overwrite."));
    assert!(check_restore(true, &RestoreBackupRequest { force: true }).is_ok());
    let r = restore_response("b1", None);
    assert!(r.success && r.accounts.is_none());
}

#[test]
fn backup_verification_messages() {
    let ok = verify_response("b1", &VerifyOutcome::Stats(2, 30, 4));
    assert!(ok.valid);
    assert_eq!(ok.message, "Backup verified successfully: 2 accounts, 30 transactions, 4 subscriptions");
    assert_eq!((ok.accounts, ok.transactions, ok.subscriptions), (Some(2), Some(30), Some(4)));
    let bad = verify_response("b1", &VerifyOutcome::RetrieveFailed("gzip".into()));
    assert!(!bad.valid);
    assert_eq!(bad.message, "Failed to decompress backup: gzip");
    assert_eq!(verify_response("b", &VerifyOutcome::OpenFailed("x".into())).message, "Failed to open database: x");
    assert_eq!(verify_response("b", &VerifyOutcome::StatsFailed("y".into())).message, "Failed to read database stats: y");
    assert_eq!(verify_audit_action(true), "backup_verified");
    assert_eq!(verify_audit_action(false), "backup_verify_failed");
}

#[test]
fn entity_and_insight_guards() {
    let e = check_entity_delete("Car", 3, &DeleteEntityQuery { force: false }).unwrap_err();
    assert_eq!(e.message(), "Entity 'Car' has 3 associated splits. Use ?force=true to delete anyway.");
    assert!(check_entity_delete("Car", 3, &DeleteEntityQuery { force: true }).is_ok());
    assert!(check_entity_delete("Car", 0, &DeleteEntityQuery { force: false }).is_ok());
    assert_eq!(invalid_entity_type("robot").message(), "Invalid entity_type: robot. Valid: person, pet, vehicle, property");
    assert!(check_snooze(&SnoozeRequest { days: 1 }).is_ok());
    assert!(check_snooze(&SnoozeRequest { days: 90 }).is_ok());
    assert_eq!(check_snooze(&SnoozeRequest { days: 0 }).unwrap_err().message(), "Days must be between 1 and 90");
    assert!(check_snooze(&SnoozeRequest { days: 91 }).is_err());
}

#[test]
fn receipts_are_hashed_and_guarded() {
    assert_eq!(
        receipt_content_hash(b"abc"),
        "ba7816bf8f01cfea414140de5dae2223b00361a396177a9cb410ff61f20015ad"
    );
    assert!(check_image(b"").is_err());
    assert!(check_image(b"x").is_ok());
    assert_eq!(duplicate_receipt(12).message(), "Receipt already exists with ID 12");
    assert!(check_linkable(false).is_err());
    assert_eq!(check_unlinkable(None).unwrap_err().message(), "Receipt is not linked to a transaction");
}

#[test]
fn alert_reanalysis() {
    assert_eq!(check_reanalyze(false, true, true).unwrap_err().message(), "Only spending anomaly alerts can be reanalyzed");
    assert_eq!(check_reanalyze(true, false, true).unwrap_err().message(), "Alert missing spending anomaly data");
    assert_eq!(check_reanalyze(true, true, false).unwrap_err().message(), "AI backend not configured");
    let (start, base, end) = anomaly_windows(CalendarDate { year: 2024, month: 3, day: 15 }).unwrap();
    assert_eq!(start, CalendarDate { year: 2024, month: 3, day: 1 });
    assert_eq!(end, CalendarDate { year: 2024, month: 2, day: 29 });
    assert_eq!(base, CalendarDate { year: 2023, month: 12, day: 1 });
    let cur = vec!["Shell".to_string(), "NewCo".to_string(), "Costco".to_string()];
    let old = vec!["SHELL".to_string(), "costco".to_string()];
    assert_eq!(new_merchants(&cur, &old), vec!["NewCo".to_string()]);
    assert_eq!(total_count(&vec![3, 4, 5]), 12);
}

#[test]
fn training_task_counts() {
    let sources = vec!["user".to_string(), "ollama".to_string(), "user_override".to_string()];
    let t = task_info("classify_merchant", &sources, 2);
    assert_eq!((t.total_examples, t.user_corrections, t.ollama_confirmed, t.ready, t.min_required), (3, 2, 1, true, 2));
    assert!(!task_info("x", &vec![], 1).ready);
    assert_eq!(
        unknown_task("x").message(),
        "Unknown task: x. Valid tasks: classify_merchant, normalize_merchant, classify_subscription"
    );
    assert_eq!(export_disposition("classify_merchant"), "attachment; filename=\"classify_merchant_training.jsonl\"");
}

#[test]
fn trip_dates_and_suggestions() {
    let (s, e) = new_trip_dates(Some("2024-05-01"), None).unwrap();
    assert_eq!((s, e), (Some(CalendarDate { year: 2024, month: 5, day: 1 }), None));
    assert_eq!(new_trip_dates(None, Some("May")).unwrap_err().message(), "Invalid end_date format (use YYYY-MM-DD)");
    assert_eq!(updated_trip_dates(Some("x"), None).unwrap_err().message(), "Invalid start_date format");
    let (s, e) = updated_trip_dates(None, Some("2024-05-02")).unwrap();
    assert_eq!((s, e), (None, Some(Some(CalendarDate { year: 2024, month: 5, day: 2 }))));
    assert_eq!(suggestion_category(None), "Other");
    assert_eq!(suggestion_category(Some("Pets".into())), "Pets");
    let r = no_entities(3);
    assert!(r.suggested_entity.is_none() && r.available_entities.is_empty());
}

#[test]
fn training_advice_and_status() {
    assert_eq!(
        first_experiment_advice("normalize_merchant"),
        "Create first experiment for normalize_merchant: fetch training data and run fine-tuning"
    );
    assert!(all_up_to_date(0, &vec![(true, true), (true, true)]));
    assert!(!all_up_to_date(1, &vec![(true, true)]));
    assert!(!all_up_to_date(0, &vec![(true, true), (true, false)]));
    assert!(all_up_to_date(0, &vec![]));
}

#[test]
fn receipt_parsing_guards() {
    assert_eq!(receipt_date(Some("2024-02-29")), Some(CalendarDate { year: 2024, month: 2, day: 29 }));
    assert_eq!(receipt_date(Some("2023-02-29")), None);
    assert_eq!(receipt_date(None), None);
    assert_eq!(image_to_parse(None).unwrap_err().message(), "Receipt has no image to parse");
    assert_eq!(image_to_parse(Some("r.jpg".into())).unwrap(), "r.jpg");
    assert_eq!(
        check_parser_available(false).unwrap_err().message(),
        "Ollama not configured. Set OLLAMA_HOST environment variable."
    );
}

#[test]
fn locations_and_mileage() {
    assert_eq!(mileage_date("2024-06-30").unwrap(), CalendarDate { year: 2024, month: 6, day: 30 });
    assert_eq!(mileage_date("30/06/2024").unwrap_err().message(), "Invalid date format (use YYYY-MM-DD)");
    assert_eq!(
        invalid_location_type().message(),
        "Invalid location_type. Valid: home, work, store, online, travel"
    );
}
