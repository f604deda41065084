//! The feature library: which features a terminal has switched on, and the screens each one
//! brings.
use vstd::prelude::*;

use crate::text::owned;

verus! {

/// A feature as the terminal stores it.
#[derive(Debug, Clone)]
pub struct Feature {
    /// The feature's identifier.
    pub feature_id: String,
    /// The English name.
    pub name: String,
    /// The Arabic name.
    pub name_ar: Option<String>,
    /// The configuration key that switches it.
    pub config_key: Option<String>,
    /// Part of every terminal.
    pub is_core: bool,
    /// Switched on.
    pub is_enabled: bool,
    /// An icon.
    pub icon: Option<String>,
    /// Position in lists.
    pub display_order: i32,
    /// When it last changed.
    pub updated_at: String,
}

impl Default for Feature {
    fn default() -> (f: Feature)
        ensures
            f.feature_id@ == Seq::<char>::empty() && f.name@ == Seq::<char>::empty(),
            f.name_ar is None && f.config_key is None && f.icon is None,
            !f.is_core && !f.is_enabled,
            f.display_order == 0 && f.updated_at@ == Seq::<char>::empty(),
    {
        Feature {
            feature_id: String::new(),
            name: String::new(),
            name_ar: None,
            config_key: None,
            is_core: false,
            is_enabled: false,
            icon: None,
            display_order: 0,
            updated_at: String::new(),
        }
    }
}

impl Feature {
    /// A feature that is switched on, with nothing else set.
    pub fn new(feature_id: &str, name: &str) -> (f: Feature)
        ensures
            f.feature_id@ == feature_id@ && f.name@ == name@,
            f.is_enabled && !f.is_core,
            f.name_ar is None && f.config_key is None && f.icon is None,
            f.display_order == 0 && f.updated_at@ == Seq::<char>::empty(),
    {
        Feature {
            feature_id: owned(feature_id),
            name: owned(name),
            name_ar: None,
            config_key: None,
            is_core: false,
            is_enabled: true,
            icon: None,
            display_order: 0,
            updated_at: String::new(),
        }
    }
}

/// A screen that a feature brings.
#[derive(Debug, Clone)]
pub struct FeatureScreen {
    /// The feature it belongs to.
    pub feature_id: String,
    /// The screen's identifier.
    pub screen_id: String,
    /// The English name.
    pub name: String,
    /// The Arabic name.
    pub name_ar: Option<String>,
    /// Where the feature's flow starts.
    pub is_entry_point: bool,
    /// The screen the flow goes to next.
    pub next_screen: Option<String>,
    /// Position in lists.
    pub display_order: i32,
}

impl Default for FeatureScreen {
    fn default() -> (s: FeatureScreen)
        ensures
            s.feature_id@ == Seq::<char>::empty() && s.screen_id@ == Seq::<char>::empty(),
            s.name@ == Seq::<char>::empty() && s.name_ar is None,
            !s.is_entry_point && s.next_screen is None && s.display_order == 0,
    {
        FeatureScreen {
            feature_id: String::new(),
            screen_id: String::new(),
            name: String::new(),
            name_ar: None,
            is_entry_point: false,
            next_screen: None,
            display_order: 0,
        }
    }
}

impl FeatureScreen {
    /// A screen of a feature, not its entry point.
    pub fn new(feature_id: &str, screen_id: &str, name: &str) -> (s: FeatureScreen)
        ensures
            s.feature_id@ == feature_id@ && s.screen_id@ == screen_id@ && s.name@ == name@,
            !s.is_entry_point && s.name_ar is None && s.next_screen is None,
            s.display_order == 0,
    {
        FeatureScreen {
            feature_id: owned(feature_id),
            screen_id: owned(screen_id),
            name: owned(name),
            name_ar: None,
            is_entry_point: false,
            next_screen: None,
            display_order: 0,
        }
    }

    /// The screen a feature's flow starts on.
    pub fn entry_point(feature_id: &str, screen_id: &str, name: &str) -> (s: FeatureScreen)
        ensures
            s.feature_id@ == feature_id@ && s.screen_id@ == screen_id@ && s.name@ == name@,
            s.is_entry_point && s.name_ar is None && s.next_screen is None,
            s.display_order == 0,
    {
        FeatureScreen {
            feature_id: owned(feature_id),
            screen_id: owned(screen_id),
            name: owned(name),
            name_ar: None,
            is_entry_point: true,
            next_screen: None,
            display_order: 0,
        }
    }
}

/// A feature as the server sends it.
#[derive(Debug, Clone)]
pub struct FeatureDto {
    /// The feature's identifier.
    pub feature_id: String,
    /// The English name.
    pub name: String,
    /// The Arabic name.
    pub name_ar: Option<String>,
    /// The configuration key.
    pub config_key: Option<String>,
    /// Part of every terminal.
    pub is_core: bool,
    /// Switched on.
    pub enabled: bool,
    /// An icon.
    pub icon: Option<String>,
    /// Position in lists.
    pub display_order: i32,
    /// The feature's screens.
    pub screens: Vec<FeatureScreenDto>,
}

/// A screen as the server sends it.
#[derive(Debug, Clone)]
pub struct FeatureScreenDto {
    /// The screen's identifier.
    pub screen_id: String,
    /// The English name.
    pub name: String,
    /// The Arabic name.
    pub name_ar: Option<String>,
    /// Where the feature's flow starts.
    pub is_entry_point: bool,
    /// The screen the flow goes to next.
    pub next_screen: Option<String>,
    /// Position in lists.
    pub display_order: i32,
}

/// The server's feature list.
#[derive(Debug, Clone)]
pub struct FeaturesResponse {
    /// The features.
    pub features: Vec<FeatureDto>,
    /// The list's version.
    pub version: String,
    /// When the server produced it.
    pub synced_at: String,
}

} // verus!
