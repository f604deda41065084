use pos_terminal::models::feature::{Feature, FeatureScreen};
use pos_terminal::services::feature_service::{FeatureError, FeatureService};

fn feature(id: &str, name: &str, is_core: bool, is_enabled: bool, display_order: i32) -> Feature {
    Feature {
        feature_id: id.to_string(),
        name: name.to_string(),
        is_core,
        is_enabled,
        display_order,
        ..Default::default()
    }
}

fn screen(feature_id: &str, screen_id: &str, name: &str, is_entry_point: bool, next_screen: Option<&str>, display_order: i32) -> FeatureScreen {
    FeatureScreen {
        feature_id: feature_id.to_string(),
        screen_id: screen_id.to_string(),
        name: name.to_string(),
        is_entry_point,
        next_screen: next_screen.map(|s| s.to_string()),
        display_order,
        ..Default::default()
    }
}

fn seeded_service() -> FeatureService {
    let features = vec![
        feature("checkout", "Checkout", true, true, 1),
        feature("returns", "Returns", false, true, 2),
        feature("drafts", "Drafts", false, false, 3),
    ];
    let screens = vec![
        screen("checkout", "checkout", "Checkout", true, None, 1),
        screen("returns", "return-entry", "Return Entry", true, Some("return-items"), 1),
        screen("returns", "return-items", "Return Items", false, Some("refund"), 2),
        screen("returns", "refund", "Refund", false, None, 3),
        screen("drafts", "save-draft", "Save Draft", true, None, 1),
    ];
    FeatureService::new(features, screens)
}

#[test]
fn test_is_screen_enabled_for_enabled_feature() {
    let service = seeded_service();
    assert!(service.is_screen_enabled("checkout"));
    assert!(service.is_screen_enabled("return-entry"));
    assert!(service.is_screen_enabled("return-items"));
}

#[test]
fn test_is_screen_disabled_for_disabled_feature() {
    let service = seeded_service();
    assert!(!service.is_screen_enabled("save-draft"));
}

#[test]
fn test_is_screen_disabled_for_unknown_screen() {
    let service = seeded_service();
    assert!(!service.is_screen_enabled("unknown-screen"));
}

#[test]
fn test_is_feature_enabled() {
    let service = seeded_service();
    assert!(service.is_feature_enabled("checkout"));
    assert!(service.is_feature_enabled("returns"));
    assert!(!service.is_feature_enabled("drafts"));
    assert!(!service.is_feature_enabled("unknown-feature"));
}

#[test]
fn test_get_enabled_screen_ids() {
    let service = seeded_service();
    let screens = service.get_enabled_screen_ids();

    assert!(screens.contains(&"checkout".to_string()));
    assert!(screens.contains(&"return-entry".to_string()));
    assert!(screens.contains(&"return-items".to_string()));
    assert!(screens.contains(&"refund".to_string()));
    assert!(!screens.contains(&"save-draft".to_string()));
}

#[test]
fn test_get_next_screen() {
    let service = seeded_service();

    assert_eq!(service.get_next_screen("return-entry"), Some("return-items".to_string()));
    assert_eq!(service.get_next_screen("return-items"), Some("refund".to_string()));
    assert_eq!(service.get_next_screen("refund"), None);
    assert_eq!(service.get_next_screen("checkout"), None);
}

#[test]
fn test_get_feature_entry_screen() {
    let service = seeded_service();

    assert_eq!(service.get_feature_entry_screen("returns"), Some("return-entry".to_string()));
    assert_eq!(service.get_feature_entry_screen("checkout"), Some("checkout".to_string()));
    assert_eq!(service.get_feature_entry_screen("unknown"), None);
}

#[test]
fn test_get_screen_feature() {
    let service = seeded_service();

    assert_eq!(service.get_screen_feature("return-entry"), Some("returns".to_string()));
    assert_eq!(service.get_screen_feature("checkout"), Some("checkout".to_string()));
    assert_eq!(service.get_screen_feature("save-draft"), Some("drafts".to_string()));
    assert_eq!(service.get_screen_feature("unknown"), None);
}

#[test]
fn test_can_navigate_to_enabled_screen() {
    let service = seeded_service();
    assert!(service.can_navigate_to("checkout"));
    assert!(service.can_navigate_to("return-entry"));
    assert!(service.can_navigate_to("return-items"));
}

#[test]
fn test_cannot_navigate_to_disabled_screen() {
    let service = seeded_service();
    assert!(!service.can_navigate_to("save-draft"));
}

#[test]
fn test_cannot_navigate_to_unknown_screen() {
    let service = seeded_service();
    assert!(!service.can_navigate_to("unknown-screen"));
}

#[test]
fn test_get_all_features() {
    let service = seeded_service();
    let features = service.get_all_features();

    assert_eq!(features.len(), 3);
    assert!(features.iter().any(|f| f.feature_id == "checkout"));
    assert!(features.iter().any(|f| f.feature_id == "returns"));
    assert!(features.iter().any(|f| f.feature_id == "drafts"));
}

#[test]
fn test_get_enabled_features() {
    let service = seeded_service();
    let features = service.get_enabled_features();

    assert_eq!(features.len(), 2);
    assert!(features.iter().any(|f| f.feature_id == "checkout"));
    assert!(features.iter().any(|f| f.feature_id == "returns"));
    assert!(!features.iter().any(|f| f.feature_id == "drafts"));
}

#[test]
fn test_get_feature_screens() {
    let service = seeded_service();
    let screens = service.get_feature_screens("returns");

    assert_eq!(screens.len(), 3);
    assert!(screens.iter().any(|s| s.screen_id == "return-entry"));
    assert!(screens.iter().any(|s| s.screen_id == "return-items"));
    assert!(screens.iter().any(|s| s.screen_id == "refund"));
}

#[test]
fn single_rows_are_looked_up_by_identifier() {
    let service = seeded_service();
    assert_eq!(service.get_screen("refund").map(|s| s.name), Some("Refund".to_string()));
    assert!(service.get_screen("nope").is_none());
    assert_eq!(service.get_feature("drafts").map(|f| f.is_enabled), Some(false));
    assert_eq!(FeatureError::NotFound("x".to_string()).message(), "Feature not found: x");
}
