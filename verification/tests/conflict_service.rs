use pos_terminal::dec::Dec;
use pos_terminal::models::operator::OperatorId;
use pos_terminal::services::conflict_service::{
    conflict_of, discard_resolution, force_sync_outcome, force_sync_request, retry_resolution,
    ConflictError, ConflictSummary,
};
use pos_terminal::services::offline_service::OfflineTransactionRow;

fn conflict_row(offline_id: &str) -> OfflineTransactionRow {
    OfflineTransactionRow {
        offline_id: offline_id.to_string(),
        transaction_number: Some("TXN-001".to_string()),
        transaction_type: "SALE".to_string(),
        items_json: r#"[{"id":"prod-1","qty":2}]"#.to_string(),
        payments_json: r#"[{"method":"CASH","amount":100}]"#.to_string(),
        subtotal: Dec::from_int(90),
        tax_total: Dec::from_int(10),
        discount_total: Dec::zero(),
        grand_total: Dec::from_int(100),
        customer_id: None,
        customer_name: None,
        shift_id: None,
        operator_id: Some(OperatorId::new("op-1").unwrap()),
        terminal_id: Some("term-1".to_string()),
        receipt_number: Some("R001".to_string()),
        notes: None,
        created_at: chrono::Utc::now().to_rfc3339(),
        sync_status: "CONFLICT".to_string(),
        server_id: None,
        retry_count: 3,
        last_error: Some("Duplicate transaction".to_string()),
        last_retry_at: Some(chrono::Utc::now().to_rfc3339()),
        catalog_etag: None,
    }
}

#[test]
fn test_get_conflict() {
    let conflict = conflict_of("conflict-1", Ok(Some(conflict_row("conflict-1")))).unwrap();

    assert_eq!(conflict.offline_id, "conflict-1");
    assert_eq!(conflict.transaction_number, "TXN-001");
    assert_eq!(conflict.retry_count, 3);
}

#[test]
fn test_get_conflict_not_found() {
    let result = conflict_of("nonexistent", Ok(None));
    assert!(matches!(result, Err(ConflictError::NotFound(_))));
}

#[test]
fn test_retry_conflict() {
    let result = retry_resolution();
    assert!(result.success);
    assert_eq!(result.new_status, Some("PENDING".to_string()));
}

#[test]
fn test_discard_conflict() {
    let result = discard_resolution();
    assert!(result.success);
    assert_eq!(result.new_status, Some("DISCARDED".to_string()));
}

#[test]
fn test_conflict_summary_from_row() {
    let row = OfflineTransactionRow {
        offline_id: "test-1".to_string(),
        transaction_number: Some("TXN-123".to_string()),
        transaction_type: "SALE".to_string(),
        items_json: "[]".to_string(),
        payments_json: "[]".to_string(),
        subtotal: Dec::from_int(100),
        tax_total: Dec::from_int(15),
        discount_total: Dec::from_int(5),
        grand_total: Dec::from_int(110),
        customer_id: None,
        customer_name: None,
        shift_id: None,
        operator_id: Some(OperatorId::new("op-1").unwrap()),
        terminal_id: None,
        receipt_number: Some("R-001".to_string()),
        notes: None,
        created_at: "2025-01-01T10:00:00Z".to_string(),
        sync_status: "CONFLICT".to_string(),
        server_id: None,
        retry_count: 5,
        last_error: Some("Conflict error".to_string()),
        last_retry_at: None,
        catalog_etag: None,
    };

    let summary = ConflictSummary::from_row(&row);

    assert_eq!(summary.offline_id, "test-1");
    assert_eq!(summary.transaction_number, "TXN-123");
    assert_eq!(summary.grand_total, Dec::from_int(110));
    assert_eq!(summary.retry_count, 5);
    assert_eq!(summary.error_message, "Conflict error");
}

#[test]
fn a_row_that_is_not_in_conflict_is_refused_and_a_store_error_is_passed_on() {
    let mut row = conflict_row("c-2");
    row.sync_status = "PENDING".to_string();
    assert_eq!(conflict_of("c-2", Ok(Some(row))).err(), Some(ConflictError::NotConflict("c-2".to_string())));
    assert_eq!(
        conflict_of("c-3", Err("disk full".to_string())).err(),
        Some(ConflictError::DatabaseError("disk full".to_string()))
    );
}

#[test]
fn a_forced_upload_checks_the_stored_json_first() {
    let good = force_sync_request(conflict_row("c-4")).unwrap();
    assert!(good.force);
    let mut bad = conflict_row("c-5");
    bad.items_json = "{not json".to_string();
    match force_sync_request(bad) {
        Err(ConflictError::DatabaseError(m)) => assert!(m.starts_with("Invalid items JSON: ")),
        other => panic!("expected a refusal, got {other:?}"),
    }
    let done = force_sync_outcome(Ok("srv-9".to_string())).unwrap();
    assert_eq!(done.message, "Transaction synced with server ID: srv-9");
    assert_eq!(force_sync_outcome(Err("refused".to_string())).err(), Some(ConflictError::ApiError("refused".to_string())));
}
