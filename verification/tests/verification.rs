use pos_terminal::models::operator::{OperatorId, OperatorName, OperatorPermissions, OperatorRole, VerifiedOperator};
use pos_terminal::models::pin::PinLength;
use pos_terminal::models::verification::{
    AttemptsRemaining, Authority, CredentialExpiry, EnrolmentState, FailedAttempts, LockState,
    PinRefusal, PinVerification, StoreFailure, StoreFailureKind, UndeterminedCause,
};
use pos_terminal::time::UtcInstant;

fn expiry(hour: u32) -> CredentialExpiry {
    let t = chrono::DateTime::parse_from_rfc3339(&format!("2026-08-22T{hour:02}:00:00Z"))
        .expect("a well-formed instant");
    CredentialExpiry::at(UtcInstant::from_timestamp(t.timestamp(), t.timestamp_subsec_nanos()))
}

fn boxed_source() -> std::num::ParseIntError {
    "not a number".parse::<u8>().expect_err("this must not parse")
}

#[test]
fn verification_only_a_wrong_pin_spends_the_retry_budget() {
    let spends = PinRefusal::WrongPin { attempts_remaining: AttemptsRemaining::new(2).expect("two is not zero") };
    assert!(spends.consumes_an_attempt());

    for refusal in [
        PinRefusal::Locked,
        PinRefusal::OperatorUnknown,
        PinRefusal::OperatorInactive,
        PinRefusal::CredentialUnreadable,
        PinRefusal::CredentialExpired,
        PinRefusal::CredentialRequiresRotation { expected: PinLength::Six },
    ] {
        assert!(!refusal.consumes_an_attempt(), "{refusal:?} must not spend an attempt");
    }
}

#[test]
fn verification_a_policy_length_change_cannot_lock_out_a_company() {
    let rotation = PinRefusal::CredentialRequiresRotation { expected: PinLength::Six };
    assert!(!rotation.consumes_an_attempt());
}

#[test]
fn verification_attempts_remaining_is_never_zero() {
    assert_eq!(AttemptsRemaining::new(0), None);
    assert_eq!(AttemptsRemaining::new(1).map(AttemptsRemaining::get), Some(1));
}

#[test]
fn verification_a_repudiated_credential_confers_no_offline_authority() {
    let not_after = expiry(23);

    assert_eq!(
        EnrolmentState::Active.offline_authority(not_after),
        Some(Authority::OfflineCredential { not_after })
    );
    assert_eq!(EnrolmentState::Repudiated.offline_authority(not_after), None);
}

#[test]
fn verification_credential_expiry_is_judged_against_the_callers_clock() {
    let not_after = expiry(12);

    assert!(!not_after.has_passed(expiry(11).instant()));
    assert!(not_after.has_passed(expiry(12).instant()), "expiry is inclusive");
    assert!(not_after.has_passed(expiry(13).instant()));
}

#[test]
fn verification_store_failure_keeps_its_cause_as_an_error() {
    let failure = StoreFailure::new("reading the operator row", StoreFailureKind::RowUnreadable)
        .caused_by(boxed_source().to_string());

    let source = failure.cause().expect("the cause must survive");
    assert_eq!(source, boxed_source().to_string());
    assert_eq!(failure.operation(), "reading the operator row");
    assert_eq!(failure.kind(), StoreFailureKind::RowUnreadable);
}

#[test]
fn verification_store_failure_names_what_the_till_was_doing() {
    let failure = StoreFailure::new("opening the credential store", StoreFailureKind::Unavailable);

    assert_eq!(failure.message(), "the local store was unavailable while opening the credential store");
    assert!(failure.cause().is_none());
}

#[test]
fn verification_undetermined_wraps_a_store_failure_without_flattening_it() {
    let cause = UndeterminedCause::from(
        StoreFailure::new("reading the operator row", StoreFailureKind::QueryFailed)
            .caused_by(boxed_source().to_string()),
    );

    assert!(matches!(cause, UndeterminedCause::StoreUnavailable(_)));
    match cause {
        UndeterminedCause::StoreUnavailable(store) => {
            assert!(store.cause().is_some(), "the driver error must survive")
        },
        _ => panic!("the store failure"),
    }
}

#[test]
fn verification_accepted_carries_the_operator_and_who_decided() {
    let operator = VerifiedOperator::from_verified_pin(
        OperatorId::new("op-1").unwrap(),
        OperatorName::new("Ahmed Hassan", Some("أحمد حسن")).unwrap(),
        OperatorRole::Supervisor,
        OperatorPermissions::none(),
    );
    let outcome = PinVerification::Accepted {
        operator,
        decided_by: Authority::OfflineCredential { not_after: expiry(23) },
    };

    match outcome {
        PinVerification::Accepted { operator, decided_by } => {
            assert_eq!(operator.role(), OperatorRole::Supervisor);
            assert!(matches!(decided_by, Authority::OfflineCredential { .. }));
        },
        PinVerification::Refused(_) | PinVerification::Undetermined(_) => {
            panic!("an accepted verification is not a refusal")
        },
    }
}

#[test]
fn verification_lock_state_records_failures_only_while_unlocked() {
    let unlocked = LockState::Unlocked { failures: FailedAttempts::new(2) };
    match unlocked {
        LockState::Unlocked { failures } => assert_eq!(failures.get(), 2),
        LockState::LockedPendingIdentityConfirmation => panic!("this one is unlocked"),
    }

    assert_eq!(FailedAttempts::none().get(), 0);
    assert_eq!(FailedAttempts::default(), FailedAttempts::none());
}

#[test]
fn verification_store_failure_message_names_its_cause() {
    let failure = StoreFailure::new("reading the operator row", StoreFailureKind::QueryFailed)
        .caused_by("disk I/O error".to_string());
    assert!(failure.message().starts_with("a query against the local store failed while reading the operator row"));
    assert_eq!(StoreFailureKind::RowUnreadable.description(), "a row in the local store could not be read");
}
