use pos_terminal::dec::Dec;
use pos_terminal::models::cart::{Cart, CartItem};
use pos_terminal::models::operator::{OperatorId, RecordedOperatorName};
use pos_terminal::models::product::{Product, ProductUnit};
use pos_terminal::models::transaction::Transaction;
use pos_terminal::services::offline_service::{
    build_offline_row, calculate_backoff_seconds, should_retry_at, should_retry_now,
    OfflineTransactionRow, SyncFailureType, SyncResult, BATCH_SIZE, MAX_RETRY_COUNT,
};
use pos_terminal::time::UtcInstant;

fn rfc3339_minutes_ago(minutes: i64) -> String {
    (chrono::Utc::now() - chrono::Duration::minutes(minutes)).to_rfc3339()
}

fn row(id: &str, status: &str, retry_count: i32, last_error: Option<&str>, last_retry_at: Option<String>) -> OfflineTransactionRow {
    OfflineTransactionRow {
        offline_id: id.to_string(),
        transaction_number: None,
        transaction_type: "SALE".to_string(),
        items_json: "[]".to_string(),
        payments_json: "[]".to_string(),
        subtotal: Dec::zero(),
        tax_total: Dec::zero(),
        discount_total: Dec::zero(),
        grand_total: Dec::zero(),
        customer_id: None,
        customer_name: None,
        shift_id: None,
        operator_id: None,
        terminal_id: None,
        receipt_number: None,
        notes: None,
        created_at: chrono::Utc::now().to_rfc3339(),
        sync_status: status.to_string(),
        server_id: None,
        retry_count,
        last_error: last_error.map(|e| e.to_string()),
        last_retry_at,
        catalog_etag: None,
    }
}

#[test]
fn test_sync_result() {
    let result = SyncResult { synced: 5, failed: 2, skipped: 1, conflicts: 1 };

    assert!(result.has_activity());
    assert_eq!(result.total_attempted(), 8);

    let empty = SyncResult::default();
    assert!(!empty.has_activity());
    assert_eq!(empty.total_attempted(), 0);
}

#[test]
fn test_constants() {
    assert_eq!(MAX_RETRY_COUNT, 10);
    assert_eq!(BATCH_SIZE, 50);
}

#[test]
fn test_backoff_calculation() {
    assert_eq!(calculate_backoff_seconds(0), 60);
    assert_eq!(calculate_backoff_seconds(1), 120);
    assert_eq!(calculate_backoff_seconds(2), 240);
    assert_eq!(calculate_backoff_seconds(3), 480);
    assert_eq!(calculate_backoff_seconds(4), 960);
    assert_eq!(calculate_backoff_seconds(5), 1920);
    assert_eq!(calculate_backoff_seconds(6), 3600);
    assert_eq!(calculate_backoff_seconds(7), 3600);
    assert_eq!(calculate_backoff_seconds(10), 3600);
}

#[test]
fn test_first_retry_allowed_immediately() {
    let txn = row("test-1", "PENDING", 0, None, None);
    assert!(should_retry_now(&txn));
}

#[test]
fn test_should_retry_respects_backoff() {
    let txn_recent = row("test-2", "FAILED", 1, Some("Network error"), Some(chrono::Utc::now().to_rfc3339()));
    assert!(!should_retry_now(&txn_recent));

    let txn_old = row("test-3", "FAILED", 1, Some("Network error"), Some(rfc3339_minutes_ago(5)));
    assert!(should_retry_now(&txn_old));
}

#[test]
fn test_max_retries_blocks_retry() {
    let txn = row("test-4", "FAILED", MAX_RETRY_COUNT, Some("Repeated failures"), Some(rfc3339_minutes_ago(120)));
    assert!(!should_retry_now(&txn));
}

#[test]
fn test_sync_failure_type_classify_conflict() {
    let conflict_errors = [
        "Conflict detected: duplicate transaction",
        "Transaction already exists",
        "DUPLICATE key violation",
        "HTTP 409: Conflict",
    ];
    for error_msg in &conflict_errors {
        assert_eq!(SyncFailureType::classify(error_msg), SyncFailureType::Conflict, "Expected Conflict for: {}", error_msg);
    }
}

#[test]
fn test_sync_failure_type_classify_permanent() {
    let permanent_errors = [
        "Invalid product ID",
        "Customer not found",
        "HTTP 400: Bad Request",
        "Validation failed: amount must be positive",
        "Malformed JSON payload",
    ];
    for error_msg in &permanent_errors {
        assert_eq!(SyncFailureType::classify(error_msg), SyncFailureType::Permanent, "Expected Permanent for: {}", error_msg);
    }
}

#[test]
fn test_sync_failure_type_classify_transient() {
    let transient_errors = [
        "Connection refused",
        "Network timeout",
        "HTTP 500: Internal Server Error",
        "HTTP 503: Service Unavailable",
        "Failed to connect to server",
        "DNS lookup failed",
    ];
    for error_msg in &transient_errors {
        assert_eq!(SyncFailureType::classify(error_msg), SyncFailureType::Transient, "Expected Transient for: {}", error_msg);
    }
}

#[test]
fn test_sync_failure_type_classify_case_insensitive() {
    assert_eq!(SyncFailureType::classify("CONFLICT DETECTED"), SyncFailureType::Conflict);
    assert_eq!(SyncFailureType::classify("INVALID data"), SyncFailureType::Permanent);
}

#[test]
fn test_sync_result_default() {
    let result = SyncResult::default();
    assert_eq!(result.synced, 0);
    assert_eq!(result.failed, 0);
    assert_eq!(result.skipped, 0);
    assert_eq!(result.conflicts, 0);
    assert!(!result.has_activity());
    assert!(!result.has_conflicts());
    assert_eq!(result.total_attempted(), 0);
}

#[test]
fn test_sync_result_has_activity() {
    let single_counter = [
        SyncResult { synced: 1, ..Default::default() },
        SyncResult { failed: 1, ..Default::default() },
        SyncResult { conflicts: 1, ..Default::default() },
    ];
    for result in single_counter {
        assert!(result.has_activity(), "{result:?} should report activity");
    }
}

#[test]
fn test_sync_result_has_conflicts() {
    let mut result = SyncResult::default();
    assert!(!result.has_conflicts());

    result.conflicts = 1;
    assert!(result.has_conflicts());

    result.conflicts = 5;
    assert!(result.has_conflicts());
}

#[test]
fn test_sync_result_total_attempted() {
    let result = SyncResult { synced: 3, failed: 2, skipped: 10, conflicts: 1 };
    assert_eq!(result.total_attempted(), 6);
}

#[test]
fn a_queued_row_copies_the_sale_in_upper_case_and_starts_pending() {
    let product = Product {
        id: "prod-001".to_string(),
        name: "Test Product".to_string(),
        price: Dec::from_int(10),
        tax_rate: Dec::from_int(15),
        unit: ProductUnit::Unit,
        ..Default::default()
    };
    let mut cart = Cart::new();
    cart.items.push(CartItem::new(&product, Dec::from_int(2)).unwrap());
    cart.recalculate().unwrap();
    let txn = Transaction::from_cart(
        &cart,
        "LYD",
        "shift-1",
        "TERM-001",
        OperatorId::new("op-1").unwrap(),
        RecordedOperatorName::new("Ahmed").unwrap(),
    );
    let row = build_offline_row(&txn, "off-1".to_string(), "[]".to_string(), "[]".to_string(), "2026-01-01T00:00:00+00:00".to_string(), None);
    assert_eq!(row.offline_id, "off-1");
    assert_eq!(row.transaction_type, "SALE");
    assert_eq!(row.grand_total, Dec::from_int(23));
    assert_eq!(row.sync_status, "PENDING");
    assert_eq!(row.retry_count, 0);
}

#[test]
fn a_retry_is_due_exactly_when_its_backoff_has_passed() {
    let last = "2026-01-01T00:00:00Z".to_string();
    let txn = row("t", "FAILED", 1, None, Some(last));
    let base = chrono::DateTime::parse_from_rfc3339("2026-01-01T00:00:00Z").unwrap().timestamp();
    assert!(!should_retry_at(&txn, UtcInstant::from_timestamp(base + 119, 0)));
    assert!(should_retry_at(&txn, UtcInstant::from_timestamp(base + 120, 0)));
    let unreadable = row("u", "FAILED", 3, None, Some("yesterday".to_string()));
    assert!(should_retry_at(&unreadable, UtcInstant::from_timestamp(base, 0)));
}

#[test]
fn a_negative_retry_count_waits_for_no_backoff() {
    assert_eq!(calculate_backoff_seconds(-1), 0);
    assert_eq!(calculate_backoff_seconds(i32::MIN), 0);
}

#[test]
fn a_row_with_a_negative_retry_count_is_due_without_a_readable_last_attempt() {
    let txn = row("n", "FAILED", -3, None, None);
    assert!(should_retry_now(&txn));
    let unreadable = row("n", "FAILED", -3, None, Some("not a time".to_string()));
    assert!(should_retry_now(&unreadable));
    let base = chrono::DateTime::parse_from_rfc3339("2026-01-01T00:00:00Z").unwrap().timestamp();
    let txn = row("n", "FAILED", -3, None, Some("2026-01-01T00:00:00Z".to_string()));
    assert!(!should_retry_at(&txn, UtcInstant::from_timestamp(base - 1, 0)));
    assert!(should_retry_at(&txn, UtcInstant::from_timestamp(base, 0)));
}
