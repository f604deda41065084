use pos_terminal::services::pairing_service::{
    cpu_model, hardware_id_from_hash, memory_mb, normalize_server_url, registered_from_flag,
    server_url_or_default, usable_hardware_id, RegistrationRow, TerminalRegistration, DEFAULT_SERVER_URL,
};

fn seeded_row() -> RegistrationRow {
    RegistrationRow {
        hardware_id: Some(String::new()),
        terminal_id: None,
        terminal_code: None,
        secret: None,
        company_name: None,
        is_registered: false,
        registered_at: None,
    }
}

fn row_with_secret(secret: &str, is_registered: bool) -> RegistrationRow {
    RegistrationRow {
        hardware_id: Some("hardware-id-1".to_string()),
        terminal_id: Some("terminal-id-1".to_string()),
        terminal_code: Some("terminal-code-1".to_string()),
        secret: Some(secret.to_string()),
        company_name: None,
        is_registered,
        registered_at: None,
    }
}

#[test]
fn test_not_registered_initially() {
    assert!(!registered_from_flag(Some(Some(0))));
    assert!(!registered_from_flag(None));
    assert!(!registered_from_flag(Some(None)));
    assert!(registered_from_flag(Some(Some(1))));
}

#[test]
fn get_registration_reads_every_column_into_its_own_field() {
    let row = RegistrationRow {
        hardware_id: Some("hardware-id-1".to_string()),
        terminal_id: Some("terminal-id-1".to_string()),
        terminal_code: Some("terminal-code-1".to_string()),
        secret: Some("secret-1".to_string()),
        company_name: Some("company-name-1".to_string()),
        is_registered: true,
        registered_at: Some("2026-08-23T12:00:00Z".to_string()),
    };
    assert_eq!(
        row.into_registration().unwrap(),
        TerminalRegistration::Enrolled {
            hardware_id: "hardware-id-1".to_string(),
            terminal_id: "terminal-id-1".to_string(),
            terminal_code: "terminal-code-1".to_string(),
            secret: "secret-1".to_string(),
            company_name: Some("company-name-1".to_string()),
            registered_at: Some("2026-08-23T12:00:00Z".to_string()),
        }
    );
}

#[test]
fn get_registration_is_unenrolled_while_the_row_is_not_registered() {
    assert_eq!(
        row_with_secret("secret-1", false).into_registration().unwrap(),
        TerminalRegistration::Unenrolled { hardware_id: Some("hardware-id-1".to_string()) }
    );
}

#[test]
fn get_registration_reports_no_identity_before_one_is_generated() {
    assert_eq!(seeded_row().into_registration().unwrap(), TerminalRegistration::Unenrolled { hardware_id: None });
}

#[test]
fn an_enrolled_row_with_a_blank_secret_is_refused_rather_than_reported_as_enrolled() {
    let message = row_with_secret("", true)
        .into_registration()
        .expect_err("a row marked enrolled with no secret is not an enrolment");
    assert!(message.contains("secret"), "the refusal has to name the column that is wrong, got: {message}");
    assert!(!message.contains("terminal_id"), "only the absent columns belong in the message, got: {message}");

    assert_eq!(
        row_with_secret("secret-1", true).into_registration().unwrap(),
        TerminalRegistration::Enrolled {
            hardware_id: "hardware-id-1".to_string(),
            terminal_id: "terminal-id-1".to_string(),
            terminal_code: "terminal-code-1".to_string(),
            secret: "secret-1".to_string(),
            company_name: None,
            registered_at: None,
        }
    );
}

#[test]
fn test_get_hardware_id() {
    assert_eq!(usable_hardware_id(Some("POS-00000000000000AB".to_string())), Some("POS-00000000000000AB".to_string()));
    assert_eq!(usable_hardware_id(Some(String::new())), None);
    assert_eq!(usable_hardware_id(None), None);
}

#[test]
fn test_generate_hardware_id() {
    let id1 = hardware_id_from_hash(0xABCD);
    let id2 = hardware_id_from_hash(0x1234);
    assert_ne!(id1, id2);
    assert!(id1.starts_with("POS-"));
    assert!(id2.starts_with("POS-"));
    assert_eq!(id1, "POS-000000000000ABCD");
}

#[test]
fn the_server_url_is_normalised_and_defaulted() {
    assert_eq!(normalize_server_url("https://example.com//"), "https://example.com");
    assert_eq!(server_url_or_default(Some(String::new())), DEFAULT_SERVER_URL);
    assert_eq!(server_url_or_default(Some("https://a.b".to_string())), "https://a.b");
}

#[test]
fn hardware_details_are_read_from_the_kernels_reports() {
    let cpuinfo = vec![
        "processor\t: 0".to_string(),
        "model name\t: Intel(R) Core(TM) i5  ".to_string(),
        "model name\t: second".to_string(),
    ];
    assert_eq!(cpu_model(Some(&cpuinfo), "x86_64"), "Intel(R) Core(TM) i5");
    assert_eq!(cpu_model(None, "x86_64"), "x86_64");
    assert_eq!(cpu_model(Some(&vec!["model name without colon".to_string()]), "aarch64"), "aarch64");

    let meminfo = vec!["MemFree:  10 kB".to_string(), "MemTotal:       16384000 kB".to_string()];
    assert_eq!(memory_mb(Some(&meminfo)), 16000);
    assert_eq!(memory_mb(Some(&vec!["MemTotal: lots".to_string()])), 0);
    assert_eq!(memory_mb(None), 0);
}
