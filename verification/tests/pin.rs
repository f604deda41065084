use core::time::Duration;
use pos_terminal::models::operator::OperatorId;
use pos_terminal::models::pin::{
    Digit, EnteredDigits, LockoutPeriod, MaxAttempts, OfflineWindow, Pin, PinFormatError,
    PinLength, PinPolicy, PinPolicyError, RequiredPinLength, SessionLifetime,
};
use zeroize::Zeroize;

fn digit(value: u8) -> Digit {
    Digit::new(value).expect("the fixtures use real digits")
}

fn entered(values: &[u8]) -> EnteredDigits {
    let mut buffer = EnteredDigits::empty();
    for value in values {
        buffer.push(digit(*value));
    }
    buffer
}

#[test]
fn a_digit_is_zero_to_nine_and_nothing_else() {
    for value in 0..=9u8 {
        assert_eq!(Digit::new(value).map(Digit::value), Some(value), "{value} is a decimal digit");
    }
    for value in [10u8, 11, 99, 200, u8::MAX] {
        assert!(Digit::new(value).is_none(), "{value} is not a decimal digit");
    }
}

#[test]
fn entered_digits_never_render_what_was_typed() {
    let buffer = entered(&[4, 5, 6, 7]);
    assert_eq!(buffer.redacted(), "EnteredDigits(****)");
    assert_eq!(
        entered(&[1, 2, 3, 4, 5, 6]).redacted(),
        entered(&[1, 2, 3, 4]).redacted(),
        "the redaction must not vary with how much has been typed"
    );
}

#[test]
fn entered_digits_stop_at_the_platform_maximum_rather_than_growing() {
    let mut buffer = EnteredDigits::empty();
    for value in [1u8, 2, 3, 4, 5, 6, 7, 8, 9] {
        buffer.push(digit(value));
    }
    assert_eq!(buffer.len(), PinLength::longest().digits());
    assert_eq!(buffer.finish().map(|pin| pin.length()).ok(), Some(PinLength::longest().digits()));
}

#[test]
fn entered_digits_backspace_and_clear_take_the_digits_with_them() {
    let mut buffer = entered(&[1, 2, 3, 4, 5]);
    buffer.backspace();
    assert_eq!(buffer.len(), 4);
    assert_eq!(buffer.finish().expect("four digits is a PIN").expose_digits(), "1234");

    buffer.clear();
    assert!(buffer.is_empty());
    assert!(matches!(buffer.finish(), Err(PinFormatError::LengthOutOfRange { actual: 0 })));

    buffer.backspace();
    assert!(buffer.is_empty());
}

#[test]
fn entered_digits_become_a_pin_only_at_a_platform_legal_length() {
    for values in [vec![1u8, 2, 3, 4], vec![1, 2, 3, 4, 5], vec![1, 2, 3, 4, 5, 6]] {
        let buffer = entered(&values);
        let pin = buffer
            .finish()
            .unwrap_or_else(|error| panic!("{} digits must parse: {}", values.len(), error.message()));
        assert_eq!(pin.length(), values.len());
    }
    for values in [vec![], vec![1u8], vec![1, 2], vec![1, 2, 3]] {
        let short = entered(&values);
        assert!(matches!(short.finish(), Err(PinFormatError::LengthOutOfRange { .. })));
    }
}

#[test]
fn entered_digits_zeroizing_is_not_a_no_op() {
    let mut secret = vec![b'1', b'2', b'3', b'4'];
    secret.zeroize();
    assert!(secret.is_empty(), "zeroize must clear the vector it is given");

    let mut buffer = entered(&[9, 8, 7]);
    buffer.backspace();
    buffer.push(digit(1));
    assert_eq!(
        buffer.finish().map(|pin| pin.expose_digits().to_string()),
        Err(PinFormatError::LengthOutOfRange { actual: 3 })
    );
}

#[test]
fn entered_digits_carry_values_so_the_rendering_script_never_reaches_the_credential() {
    assert_eq!(entered(&[4, 5, 6, 7]).finish().expect("four digits").expose_digits(), "4567");
}

#[test]
fn pin_debug_is_redacted_in_every_formatting_mode() {
    let pin = Pin::parse("1234").unwrap();
    assert_eq!(pin.redacted(), "Pin(****)");
    assert_eq!(format!("{:#}", pin.redacted()), "Pin(****)");
}

#[test]
fn pin_stays_redacted_inside_a_derived_debug() {
    let operator_id = OperatorId::new("op-1").unwrap();
    let pin = Pin::parse("1234").unwrap();
    let rendered = format!("VerifyPin {{ operator_id: {:?}, pin: {} }}", operator_id, pin.redacted());

    assert!(rendered.contains("Pin(****)"), "got {rendered}");
    assert!(!rendered.contains("1234"), "got {rendered}");
    assert!(rendered.contains(operator_id.as_str()), "got {rendered}");
    assert_eq!(pin.length(), 4);
}

#[test]
fn pin_zeroize_clears_the_buffer_it_is_given() {
    let mut secret = String::from("1234");
    secret.zeroize();
    assert!(secret.is_empty());
}

#[test]
fn pin_parse_accepts_every_length_the_platform_accepts() {
    for (length, entered) in [(PinLength::Four, "1234"), (PinLength::Five, "12345"), (PinLength::Six, "123456")] {
        let pin = Pin::parse(entered).expect("a PIN of a platform-legal length");
        assert_eq!(pin.expose_digits(), entered);
        assert_eq!(pin.length(), length.digits());
    }
}

#[test]
fn pin_parse_does_not_enforce_a_tenants_length() {
    let requiring_six = PinPolicy::new(
        RequiredPinLength::Exactly(PinLength::Six),
        MaxAttempts::new(3).unwrap(),
        LockoutPeriod::from_minutes(30).unwrap(),
        SessionLifetime::from_hours(12).unwrap(),
        OfflineWindow::from_hours(24).unwrap(),
    );
    assert_eq!(requiring_six.length(), RequiredPinLength::Exactly(PinLength::Six));

    let older = Pin::parse("12345").expect("a five-digit PIN minted under the old rule");
    assert_eq!(older.length(), 5);
}

#[test]
fn pin_parse_rejects_a_length_outside_the_platform_range() {
    for (entered, actual) in [("123", 3), ("1234567", 7), ("", 0)] {
        assert_eq!(
            Pin::parse(entered).err(),
            Some(PinFormatError::LengthOutOfRange { actual }),
            "`{entered}` is not a length the platform accepts"
        );
    }
}

#[test]
fn pin_parse_rejects_arabic_indic_digits() {
    assert_eq!(Pin::parse("١٢٣٤").err(), Some(PinFormatError::NotNumeric));
}

#[test]
fn pin_parse_rejects_anything_that_is_not_a_digit() {
    for entered in ["12a4", "12 4", "12.4", "abcd", "١٢٣٤"] {
        assert_eq!(Pin::parse(entered).err(), Some(PinFormatError::NotNumeric), "`{entered}` must not parse");
    }
}

#[test]
fn pin_format_errors_never_echo_the_entered_digits() {
    let too_short = Pin::parse("13").err().unwrap();
    let not_numeric = Pin::parse("13a4").err().unwrap();

    for message in [too_short.message(), not_numeric.message()] {
        assert!(!message.contains("13"), "an error leaked digits: {message}");
    }
    assert!(too_short.message().contains("but 2 were entered"));
    assert!(too_short.message().contains("between 4 and 6 digits"));
}

#[test]
fn pin_length_rejects_a_length_the_platform_does_not_support() {
    assert_eq!(PinLength::try_from(4), Ok(PinLength::Four));
    assert_eq!(PinLength::try_from(6), Ok(PinLength::Six));
    for unsupported in [0_u8, 1, 3, 7, 8, 255] {
        assert_eq!(
            PinLength::try_from(unsupported),
            Err(PinPolicyError::UnsupportedPinLength { digits: unsupported })
        );
    }
}

#[test]
fn pin_policy_rejects_a_retry_budget_of_zero() {
    assert_eq!(MaxAttempts::new(0), Err(PinPolicyError::NoAttemptsPermitted));
    assert_eq!(MaxAttempts::new(1).unwrap().get(), 1);
}

#[test]
fn pin_policy_rejects_a_negative_offline_window() {
    assert_eq!(OfflineWindow::from_hours(-1), Err(PinPolicyError::NegativeOfflineWindow { hours: -1 }));
}

#[test]
fn pin_policy_offline_window_round_trips_its_configured_hours() {
    let window = OfflineWindow::from_hours(24).unwrap();
    assert_eq!(window.as_hours(), 24);
    assert_eq!(window.as_duration(), Duration::from_secs(86_400));
    assert_eq!(OfflineWindow::from_hours(0).unwrap().as_hours(), 0);
}

#[test]
fn pin_policy_carries_all_five_of_its_parts() {
    let policy = PinPolicy::new(
        RequiredPinLength::Exactly(PinLength::Five),
        MaxAttempts::new(3).unwrap(),
        LockoutPeriod::from_minutes(45).unwrap(),
        SessionLifetime::from_hours(8).unwrap(),
        OfflineWindow::from_hours(24).unwrap(),
    );

    assert_eq!(policy.length(), RequiredPinLength::Exactly(PinLength::Five));
    assert_eq!(policy.max_attempts().get(), 3);
    assert_eq!(policy.lockout_period().minutes_to_state(), 45);
    assert_eq!(policy.session_lifetime().as_hours(), 8);
    assert_eq!(policy.offline_window().as_hours(), 24);
}

#[test]
fn an_absent_length_rule_is_an_answer_and_not_a_missing_value() {
    assert_eq!(RequiredPinLength::read(None), Ok(RequiredPinLength::AnyPlatformLength));
    assert_eq!(RequiredPinLength::AnyPlatformLength.as_exact(), None);
}

#[test]
fn a_stated_length_rule_reads_as_itself() {
    for (stored, expected) in [(4, PinLength::Four), (5, PinLength::Five), (6, PinLength::Six)] {
        assert_eq!(RequiredPinLength::read(Some(stored)), Ok(RequiredPinLength::Exactly(expected)));
        assert_eq!(RequiredPinLength::Exactly(expected).as_exact(), Some(expected));
    }
}

#[test]
fn an_unreadable_length_rule_resolves_strict_and_never_open() {
    for stored in [0_i64, 3, 7, 8, -1, i64::from(u8::MAX) + 1, i64::MAX] {
        let breach = RequiredPinLength::read(Some(stored)).expect_err("not a length the platform accepts");
        assert_eq!(breach.stored, stored);
        assert_eq!(breach.resolved(), RequiredPinLength::Exactly(PinLength::Six));
        assert_ne!(breach.resolved(), RequiredPinLength::AnyPlatformLength);
    }
}

#[test]
fn a_lockout_period_is_minutes_and_refuses_a_negative_one() {
    assert_eq!(LockoutPeriod::from_minutes(30).unwrap().minutes_to_state(), 30);
    assert_eq!(LockoutPeriod::from_minutes(0).unwrap().minutes_to_state(), 0);
    assert_eq!(LockoutPeriod::from_minutes(-1), Err(PinPolicyError::NegativeLockoutPeriod { minutes: -1 }));
}

#[test]
fn a_session_lifetime_refuses_a_session_that_is_over_before_it_starts() {
    assert_eq!(SessionLifetime::from_hours(12).unwrap().as_hours(), 12);
    assert_eq!(SessionLifetime::from_hours(12).unwrap().as_duration(), Duration::from_secs(43_200));
    for unusable in [0, -1] {
        assert_eq!(
            SessionLifetime::from_hours(unusable),
            Err(PinPolicyError::UnusableSessionLifetime { hours: unusable })
        );
    }
}

#[test]
fn a_required_length_says_what_it_requires() {
    assert_eq!(RequiredPinLength::AnyPlatformLength.label(), "any supported length");
    assert_eq!(RequiredPinLength::Exactly(PinLength::Six).label(), "6 digits");
}

#[test]
fn pin_policy_errors_name_the_rejected_value() {
    assert_eq!(
        PinPolicyError::NegativeOfflineWindow { hours: -3 }.message(),
        "an offline window cannot be negative, but -3 hours were configured"
    );
    assert_eq!(PinLength::Five.label(), "5 digits");
}
