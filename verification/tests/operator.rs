use pos_terminal::dec::Dec;
use pos_terminal::models::operator::{
    DiscountAuthority, DiscountPercent, NameScript, OperatorError, OperatorId, OperatorName,
    OperatorPermissions, OperatorRole, Permission, PermissionsWire, RecordedOperatorName,
    VerifiedOperator,
};
use pos_terminal::models::parse::ParseError;

fn wire(can_void: bool, can_discount: bool, max_discount_percent: i64) -> PermissionsWire {
    PermissionsWire {
        can_void,
        can_refund: false,
        can_discount,
        max_discount_percent: Dec::from_int(max_discount_percent),
        can_open_drawer: false,
        can_view_reports: false,
        can_manage_shifts: false,
        can_access_settings: false,
    }
}

fn supervisor_wire() -> PermissionsWire {
    PermissionsWire {
        can_void: true,
        can_refund: true,
        can_discount: true,
        max_discount_percent: Dec::from_int(20),
        can_open_drawer: true,
        can_view_reports: true,
        can_manage_shifts: true,
        can_access_settings: false,
    }
}

#[test]
fn operator_sync_payload_deserializes_into_the_domain_types() {
    let id = OperatorId::new("9f1c7a3e-2b4d-4f8a-9c6e-1d2f3a4b5c6d").unwrap();
    let role = OperatorRole::from_str("SUPERVISOR").unwrap();
    assert_eq!(id.as_str(), "9f1c7a3e-2b4d-4f8a-9c6e-1d2f3a4b5c6d");
    assert_eq!(role, OperatorRole::Supervisor);

    let name = OperatorName::new("Ahmed Hassan", Some("أحمد حسن")).expect("the payload carries a name");
    assert_eq!(name.latin(), "Ahmed Hassan");
    assert_eq!(name.arabic(), Some("أحمد حسن"));
    assert_eq!(name.in_script(NameScript::Arabic), "أحمد حسن");

    let permissions = supervisor_wire().into_permissions().expect("the payload carries permissions");
    assert!(permissions.allows(Permission::VoidTransaction));
    assert!(permissions.allows(Permission::ManageShifts));
    assert!(!permissions.allows(Permission::AccessSettings));
    assert_eq!(
        permissions.discount_authority(),
        DiscountAuthority::UpTo(DiscountPercent::new(Dec::from_int(20)).unwrap())
    );
}

#[test]
fn operator_permissions_survive_a_json_round_trip() {
    let original = supervisor_wire().into_permissions().expect("the payload carries permissions");
    let back = original.to_wire().into_permissions().expect("and back");
    assert_eq!(back, original);
    assert_eq!(Permission::ManageShifts.wire_key(), "canManageShifts");
}

#[test]
fn operator_permissions_absent_keys_grant_nothing() {
    let empty = PermissionsWire::denying().into_permissions().expect("an empty object");
    assert_eq!(empty, OperatorPermissions::none());
}

#[test]
fn operator_permissions_ignore_a_privilege_this_till_does_not_know() {
    let permissions = wire(true, false, 0).into_permissions().expect("unknown key");
    assert!(permissions.allows(Permission::VoidTransaction));
    assert_eq!(permissions.granted().len(), 1);
}

#[test]
fn operator_discount_ceiling_without_the_flag_is_denied() {
    let permissions = wire(false, false, 20).into_permissions().expect("contradiction");
    assert_eq!(permissions.discount_authority(), DiscountAuthority::Denied);
}

#[test]
fn operator_discount_flag_without_a_ceiling_is_denied() {
    let permissions = wire(false, true, 0).into_permissions().expect("a zero ceiling");
    assert_eq!(permissions.discount_authority(), DiscountAuthority::Denied);
}

#[test]
fn operator_discount_ceiling_beyond_the_contract_is_rejected() {
    let refused = wire(false, true, 500).into_permissions().unwrap_err();
    assert!(refused.message().contains("500"), "the rejected value must reach the message, got: {}", refused.message());
    assert_eq!(
        DiscountPercent::new(Dec::from_int(500)),
        Err(OperatorError::DiscountCeilingOutOfRange { value: Dec::from_int(500) })
    );
}

#[test]
fn operator_role_rejects_a_value_outside_the_servers_enum() {
    assert_eq!("MANAGER".parse(), Ok(OperatorRole::Manager));
    assert_eq!("ADMIN".parse::<OperatorRole>(), Err(ParseError::OperatorRole("ADMIN".to_string())));
    assert!("cashier".parse::<OperatorRole>().is_err());
    let spelled: String = serde_json::from_str("\"ADMIN\"").unwrap();
    assert!(spelled.parse::<OperatorRole>().is_err());
}

#[test]
fn operator_role_round_trips_through_its_wire_spelling() {
    for role in [OperatorRole::Cashier, OperatorRole::Supervisor, OperatorRole::Manager] {
        assert_eq!(role.as_wire_str().parse(), Ok(role));
        assert_eq!(serde_json::to_string(role.as_wire_str()).unwrap(), format!("\"{}\"", role.as_wire_str()));
    }
}

#[test]
fn operator_name_picks_the_arabic_script_under_the_default_locale() {
    let name = OperatorName::new("Ahmed Hassan", Some("أحمد حسن")).unwrap();

    assert_eq!(name.in_script(NameScript::Arabic), "أحمد حسن");
    assert_eq!(name.in_script(NameScript::Latin), "Ahmed Hassan");
}

#[test]
fn operator_name_falls_back_to_latin_when_no_arabic_name_was_synced() {
    let name = OperatorName::new("Ahmed Hassan", None).unwrap();

    assert_eq!(name.in_script(NameScript::Arabic), "Ahmed Hassan");
    assert_eq!(name.arabic(), None);
}

#[test]
fn operator_name_treats_a_blank_arabic_name_as_absent() {
    let name = OperatorName::new("Ahmed Hassan", Some("   ")).unwrap();
    assert_eq!(name.arabic(), None);
}

#[test]
fn operator_recorded_name_snapshots_the_script_the_till_rendered() {
    let name = OperatorName::new("Ahmed Hassan", Some("أحمد حسن")).unwrap();

    assert_eq!(name.recorded_in(NameScript::Arabic).as_str(), "أحمد حسن");
    assert_eq!(name.recorded_in(NameScript::Latin).as_str(), "Ahmed Hassan");
}

#[test]
fn operator_recorded_name_round_trips_as_a_bare_string() {
    let recorded = RecordedOperatorName::new("Ahmed Hassan").unwrap();
    let json = serde_json::to_string(recorded.as_str()).unwrap();

    assert_eq!(json, "\"Ahmed Hassan\"");
    let back: String = serde_json::from_str(&json).unwrap();
    assert_eq!(RecordedOperatorName::new(&back).unwrap(), recorded);
}

#[test]
fn operator_recorded_name_rejects_a_blank_snapshot() {
    assert_eq!(RecordedOperatorName::new("  "), Err(OperatorError::BlankName));
    let back: String = serde_json::from_str("\"\"").unwrap();
    assert!(RecordedOperatorName::new(&back).is_err());
}

#[test]
fn operator_name_rejects_a_blank_latin_name() {
    assert_eq!(OperatorName::new("  ", Some("أحمد")), Err(OperatorError::BlankName));
}

#[test]
fn operator_id_rejects_the_empty_string() {
    assert_eq!(OperatorId::new(""), Err(OperatorError::BlankId));
    assert_eq!(OperatorId::new("   "), Err(OperatorError::BlankId));
    let back: String = serde_json::from_str("\"\"").unwrap();
    assert!(OperatorId::new(&back).is_err());
}

#[test]
fn operator_id_round_trips_through_json_as_a_bare_string() {
    let id = OperatorId::new("op-1").unwrap();
    let json = serde_json::to_string(id.as_str()).unwrap();

    assert_eq!(json, "\"op-1\"");
    let back: String = serde_json::from_str(&json).unwrap();
    assert_eq!(OperatorId::new(&back).unwrap(), id);
}

#[test]
fn verified_operator_carries_no_pin_material() {
    let operator = VerifiedOperator::from_verified_pin(
        OperatorId::new("9f1c7a3e-2b4d-4f8a-9c6e-1d2f3a4b5c6d").unwrap(),
        OperatorName::new("Ahmed Hassan", Some("أحمد حسن")).unwrap(),
        OperatorRole::Supervisor,
        supervisor_wire().into_permissions().unwrap_or_else(|_| OperatorPermissions::none()),
    );

    assert_eq!(operator.role(), OperatorRole::Supervisor);
    assert_eq!(operator.name().in_script(NameScript::Arabic), "أحمد حسن");
    assert!(operator.permissions().allows(Permission::RefundTransaction));
    assert!(!format!("{operator:?}").contains("$2b$"));
}

#[test]
fn a_name_of_unicode_white_space_is_blank_and_an_arabic_name_is_not() {
    assert_eq!(OperatorName::new("\u{3000}\u{00A0}", None), Err(OperatorError::BlankName));
    let name = OperatorName::new("Ahmed", Some("\u{2003}")).unwrap();
    assert_eq!(name.arabic(), None);
    let name = OperatorName::new("أحمد", Some("أحمد علي")).unwrap();
    assert_eq!(name.latin(), "أحمد");
    assert_eq!(name.arabic(), Some("أحمد علي"));
}
