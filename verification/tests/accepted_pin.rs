use pos_terminal::models::operator::{NameScript, OperatorId, OperatorRole};
use pos_terminal::models::verification::PinVerification;
use pos_terminal::services::auth_service::{accepted_by_platform, VerifyPinResponse};

fn answer(name_ar: Option<&str>) -> VerifyPinResponse {
    VerifyPinResponse {
        operator_id: OperatorId::new("op-7").unwrap(),
        name: "Sara Khan".to_string(),
        name_ar: name_ar.map(|n| n.to_string()),
        role: OperatorRole::Cashier,
        permissions: None,
    }
}

#[test]
fn an_accepted_pin_keeps_the_arabic_name_the_platform_sent() {
    match accepted_by_platform(answer(Some("سارة خان"))) {
        PinVerification::Accepted { operator, .. } => {
            assert_eq!(operator.name().arabic(), Some("سارة خان"));
            assert_eq!(operator.name().in_script(NameScript::Arabic), "سارة خان");
        },
        other => panic!("expected acceptance, got {:?}", other),
    }
    match accepted_by_platform(answer(Some("  "))) {
        PinVerification::Accepted { operator, .. } => {
            assert_eq!(operator.name().arabic(), None);
            assert_eq!(operator.name().in_script(NameScript::Arabic), "Sara Khan");
        },
        other => panic!("expected acceptance, got {:?}", other),
    }
}
