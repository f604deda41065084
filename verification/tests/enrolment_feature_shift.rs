use pos_terminal::dec::Dec;
use pos_terminal::models::enrolment::HardwareEnrolment;
use pos_terminal::models::feature::{Feature, FeatureScreen};
use pos_terminal::models::parse::ParseError;
use pos_terminal::models::shift::{ShiftStatus, VarianceStatus};

fn enrolment_from_wire(json: &str) -> Result<HardwareEnrolment, serde_json::Error> {
    serde_json::from_str::<bool>(json).map(HardwareEnrolment::from_platform_flag)
}

#[test]
fn the_platform_saying_re_pair_means_already_enrolled() {
    let enrolment = enrolment_from_wire("true").expect("a bare bool");
    assert_eq!(enrolment, HardwareEnrolment::AlreadyEnrolled);
}

#[test]
fn the_platform_saying_not_a_re_pair_means_not_enrolled() {
    let enrolment = enrolment_from_wire("false").expect("a bare bool");
    assert_eq!(enrolment, HardwareEnrolment::NotEnrolled);
}

#[test]
fn saying_nothing_is_undetermined_and_never_not_enrolled() {
    assert_eq!(HardwareEnrolment::default(), HardwareEnrolment::Undetermined);
    assert_ne!(HardwareEnrolment::default(), HardwareEnrolment::NotEnrolled);
}

#[test]
fn a_non_bool_is_refused_rather_than_guessed() {
    assert!(enrolment_from_wire("\"RE_PAIR\"").is_err());
    assert!(enrolment_from_wire("null").is_err());
}

#[test]
fn test_feature_default() {
    let feature = Feature::default();
    assert!(feature.feature_id.is_empty());
    assert!(!feature.is_enabled);
    assert!(!feature.is_core);
}

#[test]
fn test_feature_new() {
    let feature = Feature::new("returns", "Returns");
    assert_eq!(feature.feature_id, "returns");
    assert_eq!(feature.name, "Returns");
    assert!(feature.is_enabled);
}

#[test]
fn test_feature_screen_entry_point() {
    let screen = FeatureScreen::entry_point("returns", "return-entry", "Return Entry");
    assert!(screen.is_entry_point);
    assert_eq!(screen.feature_id, "returns");
    assert_eq!(screen.screen_id, "return-entry");
}

#[test]
fn shift_status_round_trips_through_its_stored_form() {
    for status in [ShiftStatus::Active, ShiftStatus::Closed, ShiftStatus::Suspended] {
        assert_eq!(ShiftStatus::from_str(status.as_str()), Ok(status));
    }
}

#[test]
fn shift_status_parses_either_crate_s_casing() {
    assert_eq!(ShiftStatus::from_str("active"), Ok(ShiftStatus::Active));
    assert_eq!(ShiftStatus::from_str("ACTIVE"), Ok(ShiftStatus::Active));
    assert_eq!(ShiftStatus::from_str("Suspended"), Ok(ShiftStatus::Suspended));
}

#[test]
fn shift_status_rejects_unknown_rather_than_reporting_it_open() {
    assert_eq!(ShiftStatus::from_str("bogus"), Err(ParseError::ShiftStatus("bogus".to_string())));
    assert_eq!(ShiftStatus::from_str(""), Err(ParseError::ShiftStatus(String::new())));
    let message = ShiftStatus::from_str("bogus").unwrap_err().message();
    assert!(message.contains("bogus"), "{message}");
}

#[test]
fn defaults_are_unchanged_by_the_move_to_derive() {
    assert_eq!(ShiftStatus::default(), ShiftStatus::Active);
    assert_eq!(VarianceStatus::default(), VarianceStatus::Balanced);
}

#[test]
fn variance_status_follows_the_sign_of_the_variance() {
    assert_eq!(VarianceStatus::from_variance(Dec::zero()), VarianceStatus::Balanced);
    assert_eq!(VarianceStatus::from_variance(Dec::from_int(-1)), VarianceStatus::Short);
    assert_eq!(VarianceStatus::from_variance(Dec::from_int(1)), VarianceStatus::Over);
}
