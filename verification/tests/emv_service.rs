use pos_terminal::services::emv_service::{
    approval_script, auth_code_from_seed, decline_script, error_script, generate_txn_id,
    rand_auth_code, simulated_approval, CardPaymentResult, EmvEvent, EmvService, PaymentStart,
    TerminalStatus,
};

#[test]
fn test_card_payment_result_approved() {
    let result = CardPaymentResult::approved("visa", "4242", "ABC123", "TXN001");
    assert!(result.success);
    assert_eq!(result.card_type, Some("visa".to_string()));
    assert_eq!(result.last_four, Some("4242".to_string()));
    assert_eq!(result.auth_code, Some("ABC123".to_string()));
    assert_eq!(result.response_code, Some("00".to_string()));
}

#[test]
fn test_card_payment_result_declined() {
    let result = CardPaymentResult::declined("Insufficient funds", "51");
    assert!(!result.success);
    assert_eq!(result.error_message, Some("Insufficient funds".to_string()));
    assert_eq!(result.response_code, Some("51".to_string()));
}

#[test]
fn test_card_payment_result_error() {
    let result = CardPaymentResult::error("Connection timeout");
    assert!(!result.success);
    assert_eq!(result.error_message, Some("Connection timeout".to_string()));
}

#[test]
fn test_emv_service_creation() {
    let service = EmvService::new();
    assert!(service.is_ready());
    assert!(service.simulation_mode());
}

#[test]
fn test_emv_service_with_simulation() {
    let service = EmvService::with_simulation(500);
    assert!(service.is_ready());
    assert_eq!(service.simulation_delay_ms(), 500);
}

#[test]
fn test_terminal_status_ready() {
    let service = EmvService::new();
    assert_eq!(*service.get_status(), TerminalStatus::Ready);
}

#[test]
fn test_start_payment_invalid_amount() {
    let service = EmvService::new();
    match service.start_payment(false) {
        PaymentStart::Refuse(event, result) => {
            assert!(matches!(event, EmvEvent::Error(_)));
            assert!(!result.success);
            assert!(result.error_message.unwrap().contains("Invalid"));
        },
        PaymentStart::Simulate => panic!("a negative amount must be refused"),
    }
}

#[test]
fn test_check_connection() {
    let mut service = EmvService::new();
    let connected = service.check_connection();
    assert!(connected);
    assert_eq!(*service.get_status(), TerminalStatus::Ready);
}

#[test]
fn test_rand_auth_code() {
    let code = rand_auth_code();
    assert!(code >= 100000);
    assert!(code <= 999999);
}

#[test]
fn test_generate_txn_id() {
    let id = generate_txn_id();
    assert!(!id.is_empty());
    assert!(id.chars().all(|c| c.is_ascii_digit()));
}

#[test]
fn a_positive_amount_on_a_simulated_terminal_plays_the_script() {
    let service = EmvService::with_simulation(100);
    assert!(matches!(service.start_payment(true), PaymentStart::Simulate));
    let steps = approval_script(100);
    assert_eq!(steps.len(), 7);
    assert!(matches!(steps[0].event, EmvEvent::WaitingForCard));
    assert_eq!(steps[0].pause_ms, 100);
    assert_eq!(steps[2].pause_ms, 800);
}

#[test]
fn the_simulated_approval_pads_its_authorisation_code() {
    let result = simulated_approval(42, "123");
    assert!(result.success);
    assert_eq!(result.card_type, Some("visa".to_string()));
    assert_eq!(result.auth_code, Some("000042".to_string()));
    assert_eq!(result.transaction_id, Some("TXN123".to_string()));
    let code = auth_code_from_seed(0);
    assert!((100000..=999999).contains(&code));
}

#[test]
fn declines_and_errors_end_in_a_failed_result() {
    let (steps, event, result) = decline_script(100, "Insufficient funds");
    assert!(!steps.is_empty());
    assert!(matches!(event, EmvEvent::Declined(_)));
    assert!(!result.success);
    let (_, event, result) = error_script(100, "Card read failed");
    assert!(matches!(event, EmvEvent::Error(_)));
    assert_eq!(result.error_message, Some("Card read failed".to_string()));
}
