use pos_terminal::models::operator::OperatorId;
use pos_terminal::services::auth_service::SessionToken;
use pos_terminal::services::operator_sign_in::{has_lapsed, held_from_row, HeldOperatorSession, OperatorSession, OperatorSessionRow};
use pos_terminal::time::UtcInstant;

fn instant(raw: &str) -> UtcInstant {
    let t = chrono::DateTime::parse_from_rfc3339(raw).expect("a literal instant");
    UtcInstant::from_timestamp(t.timestamp(), t.timestamp_subsec_nanos())
}

fn session(token: &str, expires_at: &str) -> OperatorSession {
    OperatorSession {
        token: SessionToken::new(token.to_string()).expect("a fixture token is never blank"),
        expires_at: instant(expires_at),
    }
}

fn operator(id: &str) -> OperatorId {
    OperatorId::new(id).expect("a fixture id is never blank")
}

fn stored(operator_id: Option<&str>, token: Option<&str>, expires_at: Option<&str>) -> OperatorSessionRow {
    OperatorSessionRow {
        operator_id: operator_id.map(operator),
        token: token.map(|t| t.to_string()),
        expires_at: expires_at.map(|e| e.to_string()),
    }
}

#[test]
fn the_operator_session_read_takes_every_column_into_its_own_field() {
    let held = held_from_row(stored(
        Some("operator-in-column-one"),
        Some("token-in-column-two"),
        Some("2026-08-24T06:30:00+00:00"),
    ))
    .expect("a stored session is held");

    assert_eq!(held.operator_id.as_str(), "operator-in-column-one");
    assert_eq!(held.session.token.expose(), "token-in-column-two");
    assert_eq!(held.session.expires_at, instant("2026-08-24T06:30:00+00:00"));
}

#[test]
fn a_session_row_with_nulls_holds_nobody_rather_than_failing() {
    for (label, row) in [
        ("no operator", stored(None, Some("tok"), Some("2026-08-24T06:00:00+00:00"))),
        ("no token", stored(Some("op-1"), None, Some("2026-08-24T06:00:00+00:00"))),
        ("no expiry", stored(Some("op-1"), Some("tok"), None)),
        ("an expiry that is not an instant", stored(Some("op-1"), Some("tok"), Some("sometime tuesday"))),
    ] {
        assert!(held_from_row(row).is_none(), "with {label}, nobody is signed in");
    }
}

#[test]
fn the_lapse_check_is_a_pure_function_of_the_two_instants() {
    let held = HeldOperatorSession { operator_id: operator("op-1"), session: session("tok-1", "2026-08-24T06:00:00Z") };

    assert!(!has_lapsed(&held, instant("2026-08-24T05:59:59Z")));
    assert!(has_lapsed(&held, instant("2026-08-24T06:00:00Z")));
    assert!(has_lapsed(&held, instant("2026-08-24T06:00:01Z")));
}
