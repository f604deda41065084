use pos_terminal::models::operator::OperatorRole;
use pos_terminal::services::auth_service::{ApiFailure, Refusal, RefusalDetails, ServerErrorCode};
use pos_terminal::services::platform_sync::{PlatformSync, CapabilityStanding};

fn refused(code: ServerErrorCode, details: Option<RefusalDetails>) -> PlatformSync {
    PlatformSync::of(Err(ApiFailure::Refused(Refusal {
        status: 403,
        code,
        message: "refused".to_string(),
        details,
    })))
}

#[test]
fn a_refusal_and_an_unanswered_request_are_not_the_same_outcome() {
    let unreadable_reason = serde_json::from_str::<u8>("{").expect_err("this is not a u8").to_string();
    let queued = PlatformSync::of(Err(ApiFailure::Unreadable(unreadable_reason)));
    assert_eq!(queued, PlatformSync::Undetermined);

    let refusal = refused(ServerErrorCode::PosOperatorCapabilityDenied, None);
    assert!(!refusal.is_recorded());
    assert!(!refusal.deserves_a_replay());

    assert_eq!(PlatformSync::of(Ok("srv-1".to_string())).server_id(), Some("srv-1"));
}

#[test]
fn only_an_unanswered_request_earns_a_replay() {
    assert!(PlatformSync::Queued.deserves_a_replay());
    assert!(!PlatformSync::Recorded("srv-1".to_string()).deserves_a_replay());
    assert!(!PlatformSync::Undetermined.deserves_a_replay());
    assert!(!refused(ServerErrorCode::Forbidden, None).deserves_a_replay());
    assert!(PlatformSync::of(Err(ApiFailure::Unreachable("connection refused".to_string()))).deserves_a_replay());
}

#[test]
fn a_refusal_carries_its_capability_standing() {
    let sync = refused(
        ServerErrorCode::PosSupervisorApprovalRequired,
        Some(RefusalDetails::SupervisorApprovalRequired {
            capability: "POS_REFUND".to_string(),
            held_by: vec![OperatorRole::Supervisor],
        }),
    );

    let PlatformSync::Refused(refused) = sync else {
        panic!("expected a refusal");
    };
    assert_eq!(refused.code, ServerErrorCode::PosSupervisorApprovalRequired);
    assert!(refused.authority.escalating_at_the_till_can_help());
}

#[test]
fn a_refusal_about_something_else_offers_no_escalation() {
    let PlatformSync::Refused(refused) = refused(ServerErrorCode::ValidationError, None) else {
        panic!("expected a refusal");
    };
    assert!(!refused.authority.escalating_at_the_till_can_help());
    assert_eq!(refused.authority, CapabilityStanding::Unaffected);
}
