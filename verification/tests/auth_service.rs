use pos_terminal::models::operator::{OperatorId, PermissionsWire};
use pos_terminal::models::verification::{PinRefusal, PinVerification, UndeterminedCause};
use pos_terminal::services::auth_service::{
    offline_outcome, read_saved_session, OperatorLookup, SavedSessionRow, SessionToken, StoredOperatorRow,
};

fn op_id(id: &str) -> OperatorId {
    OperatorId::new(id).expect("a fixture id is never blank")
}

fn can_void() -> PermissionsWire {
    PermissionsWire { can_void: true, ..PermissionsWire::denying() }
}

fn row(name: &str, name_ar: Option<&str>, role: &str, permissions: Option<Result<PermissionsWire, String>>, is_active: bool) -> StoredOperatorRow {
    StoredOperatorRow {
        name: name.to_string(),
        name_ar: name_ar.map(|n| n.to_string()),
        role: role.to_string(),
        permissions,
        is_active,
    }
}

fn ahmed(active: bool) -> OperatorLookup {
    OperatorLookup::Found(row("Ahmed", None, "CASHIER", None, active))
}

fn session_row(token: Option<&str>) -> SavedSessionRow {
    SavedSessionRow {
        terminal_id: "terminal-id-1".to_string(),
        terminal_code: "terminal-code-1".to_string(),
        hardware_id: "hardware-id-1".to_string(),
        session_token: token.map(|t| t.to_string()),
        company_id: None,
        branch_id: None,
        locale: None,
        currency: None,
        tax_inclusive: None,
        sector: None,
    }
}

#[test]
fn test_load_saved_session_empty() {
    assert!(read_saved_session(session_row(None)).is_none());
}

#[test]
fn test_load_saved_session_reads_every_column_into_its_own_field() {
    let stored = SavedSessionRow {
        company_id: Some("company-id-1".to_string()),
        branch_id: Some("branch-id-1".to_string()),
        locale: Some("en".to_string()),
        currency: Some("USD".to_string()),
        tax_inclusive: Some(1),
        sector: Some("PHARMACY".to_string()),
        ..session_row(Some("session-token-1"))
    };
    let session = read_saved_session(stored).unwrap();

    assert_eq!(session.terminal_id, "terminal-id-1");
    assert_eq!(session.terminal_code, "terminal-code-1");
    assert_eq!(session.hardware_id, "hardware-id-1");
    assert_eq!(session.session_token.expose(), "session-token-1");
    assert_eq!(session.company_id, "company-id-1");
    assert_eq!(session.branch_id, Some("branch-id-1".to_string()));
    assert_eq!(session.locale, "en");
    assert_eq!(session.currency, "USD");
    assert!(session.tax_inclusive);
    assert_eq!(session.sector, "PHARMACY");
    assert!(session.features.is_empty(), "features are synced separately");
}

#[test]
fn test_load_saved_session_applies_each_fallback_to_its_own_field() {
    let session = read_saved_session(session_row(Some("session-token-1"))).unwrap();

    assert_eq!(session.company_id, "");
    assert_eq!(session.branch_id, None);
    assert_eq!(session.locale, "ar");
    assert_eq!(session.currency, "LYD");
    assert!(!session.tax_inclusive);
    assert_eq!(session.sector, "RETAIL");
}

#[test]
fn an_operator_this_till_has_never_heard_of_is_unknown() {
    let outcome = offline_outcome(&op_id("nonexistent"), OperatorLookup::NotFound);
    assert!(matches!(outcome, PinVerification::Refused(PinRefusal::OperatorUnknown)), "got {outcome:?}");
}

#[test]
fn an_inactive_operator_is_not_an_unknown_one() {
    let outcome = offline_outcome(&op_id("op-inactive"), ahmed(false));
    assert!(matches!(outcome, PinVerification::Refused(PinRefusal::OperatorInactive)), "got {outcome:?}");
    for refusal in [PinRefusal::OperatorInactive, PinRefusal::OperatorUnknown] {
        assert!(!refusal.consumes_an_attempt(), "{refusal:?} must not spend the operator's budget");
    }
}

#[test]
fn a_known_active_operator_offline_is_undetermined_because_nothing_can_check_the_pin() {
    for _entered in ["1234", "9999"] {
        let outcome = offline_outcome(&op_id("op1"), ahmed(true));
        assert!(matches!(outcome, PinVerification::Undetermined(UndeterminedCause::ServerUnreachable)), "got {outcome:?}");
    }
}

#[test]
fn no_offline_outcome_spends_an_attempt() {
    for lookup in [ahmed(true), ahmed(false), OperatorLookup::NotFound] {
        match offline_outcome(&op_id("op"), lookup) {
            PinVerification::Refused(refusal) => assert!(!refusal.consumes_an_attempt()),
            PinVerification::Undetermined(_) | PinVerification::Accepted { .. } => {},
        }
    }
}

#[test]
fn the_offline_read_takes_every_column_from_its_own_position() {
    let good = row("Sara Haddad", Some("سارة حداد"), "MANAGER", Some(Ok(can_void())), true);
    let outcome = offline_outcome(&op_id("op-distinct"), OperatorLookup::Found(good));
    assert!(matches!(outcome, PinVerification::Undetermined(UndeterminedCause::ServerUnreachable)), "got {outcome:?}");

    let blank_name = row("", Some("سارة حداد"), "MANAGER", Some(Ok(can_void())), true);
    let unknown_role = row("Sara Haddad", Some("سارة حداد"), "AUDITOR", Some(Ok(can_void())), true);
    let broken_permissions = row("Sara Haddad", Some("سارة حداد"), "MANAGER", Some(Err("EOF while parsing".to_string())), true);
    for corrupt in [blank_name, unknown_role, broken_permissions] {
        let outcome = offline_outcome(&op_id("op-distinct"), OperatorLookup::Found(corrupt));
        assert!(matches!(outcome, PinVerification::Undetermined(UndeterminedCause::StoreUnavailable(_))), "got {outcome:?}");
    }
    let inactive = row("Sara Haddad", Some("سارة حداد"), "MANAGER", Some(Ok(can_void())), false);
    let outcome = offline_outcome(&op_id("op-distinct"), OperatorLookup::Found(inactive));
    assert!(matches!(outcome, PinVerification::Refused(PinRefusal::OperatorInactive)), "got {outcome:?}");
}

#[test]
fn the_offline_read_survives_its_two_nullable_columns_being_null() {
    let nulls = row("Sara Haddad", None, "CASHIER", None, true);
    let outcome = offline_outcome(&op_id("op-nulls"), OperatorLookup::Found(nulls));
    assert!(matches!(outcome, PinVerification::Undetermined(UndeterminedCause::ServerUnreachable)), "got {outcome:?}");
}

#[test]
fn test_update_session_token() {
    let token = SessionToken::new("new-token".to_string()).expect("not blank");
    assert_eq!(token.expose(), "new-token");
    assert!(SessionToken::new("   ".to_string()).is_none());
}

#[test]
fn a_failed_lookup_is_a_store_failure_not_a_refusal() {
    let outcome = offline_outcome(&op_id("op"), OperatorLookup::Failed("database is locked".to_string()));
    assert!(matches!(outcome, PinVerification::Undetermined(UndeterminedCause::StoreUnavailable(_))), "got {outcome:?}");
}
