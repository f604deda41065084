//! Which screens a terminal may show, and how its feature flows chain them.
//!
//! The service answers over the feature catalogue as the store holds it: its features and
//! their screens, in the store's order. Where the store holds two rows under one identifier,
//! the first answers.
use vstd::prelude::*;

use crate::models::feature::{Feature, FeatureScreen};
use crate::text::{append_str, owned, str_eq};

verus! {

/// Why a feature request failed.
#[derive(Debug, Clone, PartialEq, Eq)]
pub enum FeatureError {
    /// No such feature.
    NotFound(String),
    /// The screen's feature is switched off.
    ScreenDisabled(String),
    /// The store failed, with its own message.
    Database(String),
}

impl FeatureError {
    /// The error as a sentence.
    pub fn message(&self) -> (s: String)
        ensures
            self matches FeatureError::NotFound(x) ==> s@ == "Feature not found: "@ + x@,
            self matches FeatureError::ScreenDisabled(x) ==> s@ == "Screen disabled: "@ + x@,
            self matches FeatureError::Database(x) ==> s@ == "Database error: "@ + x@,
    {
        let (head, x) = match self {
            FeatureError::NotFound(x) => ("Feature not found: ", x),
            FeatureError::ScreenDisabled(x) => ("Screen disabled: ", x),
            FeatureError::Database(x) => ("Database error: ", x),
        };
        let mut s = owned(head);
        append_str(&mut s, x.as_str());
        s
    }
}

/// An optional text by its characters.
pub open spec fn opt_text(o: Option<String>) -> Option<Seq<char>> {
    match o {
        Some(s) => Some(s@),
        None => None,
    }
}

/// Two features hold the same values.
pub open spec fn same_feature(a: Feature, b: Feature) -> bool {
    &&& a.feature_id@ == b.feature_id@
    &&& a.name@ == b.name@
    &&& opt_text(a.name_ar) == opt_text(b.name_ar)
    &&& opt_text(a.config_key) == opt_text(b.config_key)
    &&& a.is_core == b.is_core
    &&& a.is_enabled == b.is_enabled
    &&& opt_text(a.icon) == opt_text(b.icon)
    &&& a.display_order == b.display_order
    &&& a.updated_at@ == b.updated_at@
}

/// Two screens hold the same values.
pub open spec fn same_screen(a: FeatureScreen, b: FeatureScreen) -> bool {
    &&& a.feature_id@ == b.feature_id@
    &&& a.screen_id@ == b.screen_id@
    &&& a.name@ == b.name@
    &&& opt_text(a.name_ar) == opt_text(b.name_ar)
    &&& a.is_entry_point == b.is_entry_point
    &&& opt_text(a.next_screen) == opt_text(b.next_screen)
    &&& a.display_order == b.display_order
}

/// `r` is the first position in `fs` of the feature `id`, or `None` when it is absent.
pub open spec fn first_feature(fs: Seq<Feature>, id: Seq<char>, r: Option<int>) -> bool {
    match r {
        Some(i) => 0 <= i < fs.len() && fs[i].feature_id@ == id && forall|j: int|
            0 <= j < i ==> fs[j].feature_id@ != id,
        None => forall|j: int| 0 <= j < fs.len() ==> fs[j].feature_id@ != id,
    }
}

/// Whether the feature `id` is switched on: the first feature under that identifier is, and
/// an unknown feature is off.
pub open spec fn feature_enabled(fs: Seq<Feature>, id: Seq<char>) -> bool {
    exists|i: int| first_feature(fs, id, Some(i)) && fs[i].is_enabled
}

/// `r` is the first position in `ss` of the screen `id`, or `None` when it is absent.
pub open spec fn first_screen(ss: Seq<FeatureScreen>, id: Seq<char>, r: Option<int>) -> bool {
    match r {
        Some(i) => 0 <= i < ss.len() && ss[i].screen_id@ == id && forall|j: int|
            0 <= j < i ==> ss[j].screen_id@ != id,
        None => forall|j: int| 0 <= j < ss.len() ==> ss[j].screen_id@ != id,
    }
}

/// Whether the screen `id` may be shown: it exists and its feature is switched on.
pub open spec fn screen_enabled(fs: Seq<Feature>, ss: Seq<FeatureScreen>, id: Seq<char>) -> bool {
    exists|i: int| first_screen(ss, id, Some(i)) && feature_enabled(fs, ss[i].feature_id@)
}

/// The identifiers of the screens whose features are switched on, in order.
pub open spec fn enabled_screen_ids(fs: Seq<Feature>, ss: Seq<FeatureScreen>) -> Seq<Seq<char>>
    decreases ss.len(),
{
    if ss.len() == 0 {
        seq![]
    } else {
        let rest = enabled_screen_ids(fs, ss.drop_last());
        if feature_enabled(fs, ss.last().feature_id@) {
            rest.push(ss.last().screen_id@)
        } else {
            rest
        }
    }
}

/// The features that are switched on, in order.
pub open spec fn enabled_features(fs: Seq<Feature>) -> Seq<Feature>
    decreases fs.len(),
{
    if fs.len() == 0 {
        seq![]
    } else {
        let rest = enabled_features(fs.drop_last());
        if fs.last().is_enabled {
            rest.push(fs.last())
        } else {
            rest
        }
    }
}

/// The screens of a feature, in order.
pub open spec fn screens_of(ss: Seq<FeatureScreen>, feature_id: Seq<char>) -> Seq<FeatureScreen>
    decreases ss.len(),
{
    if ss.len() == 0 {
        seq![]
    } else {
        let rest = screens_of(ss.drop_last(), feature_id);
        if ss.last().feature_id@ == feature_id {
            rest.push(ss.last())
        } else {
            rest
        }
    }
}

/// `r` is the first entry screen of the feature, or `None` when it has none.
pub open spec fn first_entry(ss: Seq<FeatureScreen>, feature_id: Seq<char>, r: Option<int>) -> bool {
    match r {
        Some(i) => 0 <= i < ss.len() && ss[i].feature_id@ == feature_id && ss[i].is_entry_point
            && forall|j: int| 0 <= j < i ==> !(ss[j].feature_id@ == feature_id && ss[j].is_entry_point),
        None => forall|j: int| 0 <= j < ss.len() ==> !(ss[j].feature_id@ == feature_id && ss[j].is_entry_point),
    }
}

/// Two lists hold the same features in the same order.
pub open spec fn same_features(a: Seq<Feature>, b: Seq<Feature>) -> bool {
    a.len() == b.len() && forall|i: int| 0 <= i < a.len() ==> same_feature(#[trigger] a[i], b[i])
}

/// Two lists hold the same screens in the same order.
pub open spec fn same_screens(a: Seq<FeatureScreen>, b: Seq<FeatureScreen>) -> bool {
    a.len() == b.len() && forall|i: int| 0 <= i < a.len() ==> same_screen(#[trigger] a[i], b[i])
}

/// A copy of an optional text.
fn copy_text(o: &Option<String>) -> (r: Option<String>)
    ensures
        opt_text(r) == opt_text(*o),
{
    match o {
        Some(s) => Some(owned(s.as_str())),
        None => None,
    }
}

/// A copy of a feature.
fn copy_feature(f: &Feature) -> (r: Feature)
    ensures
        same_feature(r, *f),
{
    Feature {
        feature_id: owned(f.feature_id.as_str()),
        name: owned(f.name.as_str()),
        name_ar: copy_text(&f.name_ar),
        config_key: copy_text(&f.config_key),
        is_core: f.is_core,
        is_enabled: f.is_enabled,
        icon: copy_text(&f.icon),
        display_order: f.display_order,
        updated_at: owned(f.updated_at.as_str()),
    }
}

/// A copy of a screen.
fn copy_screen(s: &FeatureScreen) -> (r: FeatureScreen)
    ensures
        same_screen(r, *s),
{
    FeatureScreen {
        feature_id: owned(s.feature_id.as_str()),
        screen_id: owned(s.screen_id.as_str()),
        name: owned(s.name.as_str()),
        name_ar: copy_text(&s.name_ar),
        is_entry_point: s.is_entry_point,
        next_screen: copy_text(&s.next_screen),
        display_order: s.display_order,
    }
}

/// Answers which screens may be shown and how flows chain, over a feature catalogue.
pub struct FeatureService {
    features: Vec<Feature>,
    screens: Vec<FeatureScreen>,
}

impl FeatureService {
    /// The catalogue's features, in the store's order.
    pub closed spec fn spec_features(self) -> Seq<Feature> {
        self.features@
    }

    /// The catalogue's screens, in the store's order.
    pub closed spec fn spec_screens(self) -> Seq<FeatureScreen> {
        self.screens@
    }

    /// A service over a catalogue.
    pub fn new(features: Vec<Feature>, screens: Vec<FeatureScreen>) -> (s: FeatureService)
        ensures
            s.spec_features() == features@,
            s.spec_screens() == screens@,
    {
        FeatureService { features, screens }
    }

    /// The first position of the feature `id`.
    fn feature_position(&self, id: &str) -> (r: Option<usize>)
        ensures
            first_feature(self.spec_features(), id@, match r {
                Some(i) => Some(i as int),
                None => None,
            }),
    {
        let mut k: usize = 0;
        while k < self.features.len()
            invariant
                k <= self.features@.len(),
                forall|j: int| 0 <= j < k ==> self.features@[j].feature_id@ != id@,
            decreases self.features@.len() - k,
        {
            if str_eq(self.features[k].feature_id.as_str(), id) {
                return Some(k);
            }
            k = k + 1;
        }
        None
    }

    /// The first position of the screen `id`.
    fn screen_position(&self, id: &str) -> (r: Option<usize>)
        ensures
            first_screen(self.spec_screens(), id@, match r {
                Some(i) => Some(i as int),
                None => None,
            }),
    {
        let mut k: usize = 0;
        while k < self.screens.len()
            invariant
                k <= self.screens@.len(),
                forall|j: int| 0 <= j < k ==> self.screens@[j].screen_id@ != id@,
            decreases self.screens@.len() - k,
        {
            if str_eq(self.screens[k].screen_id.as_str(), id) {
                return Some(k);
            }
            k = k + 1;
        }
        None
    }

    /// Whether a feature is switched on; an unknown feature is off.
    pub fn is_feature_enabled(&self, feature_id: &str) -> (b: bool)
        ensures
            b == feature_enabled(self.spec_features(), feature_id@),
    {
        match self.feature_position(feature_id) {
            Some(i) => self.features[i].is_enabled,
            None => false,
        }
    }

    /// Whether a screen may be shown: it exists and its feature is switched on.
    pub fn is_screen_enabled(&self, screen_id: &str) -> (b: bool)
        ensures
            b == screen_enabled(self.spec_features(), self.spec_screens(), screen_id@),
    {
        match self.screen_position(screen_id) {
            Some(i) => self.is_feature_enabled(self.screens[i].feature_id.as_str()),
            None => false,
        }
    }

    /// Whether navigating to a screen is allowed: only to a screen that may be shown.
    pub fn can_navigate_to(&self, target_screen: &str) -> (b: bool)
        ensures
            b == screen_enabled(self.spec_features(), self.spec_screens(), target_screen@),
    {
        self.is_screen_enabled(target_screen)
    }

    /// The identifiers of the screens that may be shown, in order.
    pub fn get_enabled_screen_ids(&self) -> (r: Vec<String>)
        ensures
            r@.map_values(|s: String| s@) == enabled_screen_ids(self.spec_features(), self.spec_screens()),
    {
        let ghost fs = self.spec_features();
        let ghost ss = self.spec_screens();
        let mut r: Vec<String> = Vec::new();
        let mut k: usize = 0;
        assert(ss.subrange(0, 0) =~= Seq::<FeatureScreen>::empty());
        assert(r@.map_values(|s: String| s@) =~= enabled_screen_ids(fs, ss.subrange(0, 0)));
        while k < self.screens.len()
            invariant
                k <= ss.len(),
                fs == self.spec_features(),
                ss == self.spec_screens(),
                r@.map_values(|s: String| s@) == enabled_screen_ids(fs, ss.subrange(0, k as int)),
            decreases ss.len() - k,
        {
            let ghost before = r@;
            proof {
                let next = ss.subrange(0, k + 1);
                assert(next.drop_last() =~= ss.subrange(0, k as int));
                assert(next.last() == ss[k as int]);
            }
            if self.is_feature_enabled(self.screens[k].feature_id.as_str()) {
                r.push(owned(self.screens[k].screen_id.as_str()));
                assert(r@.map_values(|s: String| s@) =~= before.map_values(|s: String| s@).push(ss[k as int].screen_id@));
            }
            k = k + 1;
        }
        assert(ss.subrange(0, ss.len() as int) =~= ss);
        r
    }

    /// The screen a flow goes to after `current_screen`; `None` for the last screen of a flow
    /// and for an unknown screen.
    pub fn get_next_screen(&self, current_screen: &str) -> (r: Option<String>)
        ensures
            exists|i: Option<int>| #[trigger] first_screen(self.spec_screens(), current_screen@, i) && match i {
                Some(i) => opt_text(r) == opt_text(self.spec_screens()[i].next_screen),
                None => r is None,
            },
    {
        let p = self.screen_position(current_screen);
        match p {
            Some(i) => {
                let r = copy_text(&self.screens[i].next_screen);
                assert(first_screen(self.spec_screens(), current_screen@, Some(i as int)));
                r
            },
            None => {
                assert(first_screen(self.spec_screens(), current_screen@, None::<int>));
                None
            },
        }
    }

    /// The screen a feature's flow starts at, when it has one.
    pub fn get_feature_entry_screen(&self, feature_id: &str) -> (r: Option<String>)
        ensures
            exists|i: Option<int>| #[trigger] first_entry(self.spec_screens(), feature_id@, i) && match i {
                Some(i) => opt_text(r) == Some(self.spec_screens()[i].screen_id@),
                None => r is None,
            },
    {
        let mut k: usize = 0;
        while k < self.screens.len()
            invariant
                k <= self.screens@.len(),
                forall|j: int| 0 <= j < k ==> !(self.screens@[j].feature_id@ == feature_id@ && self.screens@[j].is_entry_point),
            decreases self.screens@.len() - k,
        {
            if self.screens[k].is_entry_point && str_eq(self.screens[k].feature_id.as_str(), feature_id) {
                assert(first_entry(self.spec_screens(), feature_id@, Some(k as int)));
                return Some(owned(self.screens[k].screen_id.as_str()));
            }
            k = k + 1;
        }
        assert(first_entry(self.spec_screens(), feature_id@, None::<int>));
        None
    }

    /// The feature a screen belongs to, when the screen exists.
    pub fn get_screen_feature(&self, screen_id: &str) -> (r: Option<String>)
        ensures
            exists|i: Option<int>| #[trigger] first_screen(self.spec_screens(), screen_id@, i) && match i {
                Some(i) => opt_text(r) == Some(self.spec_screens()[i].feature_id@),
                None => r is None,
            },
    {
        let p = self.screen_position(screen_id);
        match p {
            Some(i) => {
                assert(first_screen(self.spec_screens(), screen_id@, Some(i as int)));
                Some(owned(self.screens[i].feature_id.as_str()))
            },
            None => {
                assert(first_screen(self.spec_screens(), screen_id@, None::<int>));
                None
            },
        }
    }

    /// Every feature, switched on or off, in order.
    pub fn get_all_features(&self) -> (r: Vec<Feature>)
        ensures
            same_features(r@, self.spec_features()),
    {
        let mut r: Vec<Feature> = Vec::new();
        let mut k: usize = 0;
        while k < self.features.len()
            invariant
                k <= self.features@.len(),
                same_features(r@, self.features@.subrange(0, k as int)),
            decreases self.features@.len() - k,
        {
            r.push(copy_feature(&self.features[k]));
            k = k + 1;
        }
        assert(self.features@.subrange(0, self.features@.len() as int) =~= self.features@);
        r
    }

    /// The features that are switched on, in order.
    pub fn get_enabled_features(&self) -> (r: Vec<Feature>)
        ensures
            same_features(r@, enabled_features(self.spec_features())),
    {
        let ghost fs = self.spec_features();
        let mut r: Vec<Feature> = Vec::new();
        let mut k: usize = 0;
        assert(fs.subrange(0, 0) =~= Seq::<Feature>::empty());
        while k < self.features.len()
            invariant
                k <= fs.len(),
                fs == self.spec_features(),
                same_features(r@, enabled_features(fs.subrange(0, k as int))),
            decreases fs.len() - k,
        {
            proof {
                let next = fs.subrange(0, k + 1);
                assert(next.drop_last() =~= fs.subrange(0, k as int));
                assert(next.last() == fs[k as int]);
            }
            if self.features[k].is_enabled {
                r.push(copy_feature(&self.features[k]));
            }
            k = k + 1;
        }
        assert(fs.subrange(0, fs.len() as int) =~= fs);
        r
    }

    /// The screens of a feature, in order.
    pub fn get_feature_screens(&self, feature_id: &str) -> (r: Vec<FeatureScreen>)
        ensures
            same_screens(r@, screens_of(self.spec_screens(), feature_id@)),
    {
        let ghost ss = self.spec_screens();
        let mut r: Vec<FeatureScreen> = Vec::new();
        let mut k: usize = 0;
        assert(ss.subrange(0, 0) =~= Seq::<FeatureScreen>::empty());
        while k < self.screens.len()
            invariant
                k <= ss.len(),
                ss == self.spec_screens(),
                same_screens(r@, screens_of(ss.subrange(0, k as int), feature_id@)),
            decreases ss.len() - k,
        {
            proof {
                let next = ss.subrange(0, k + 1);
                assert(next.drop_last() =~= ss.subrange(0, k as int));
                assert(next.last() == ss[k as int]);
            }
            if str_eq(self.screens[k].feature_id.as_str(), feature_id) {
                r.push(copy_screen(&self.screens[k]));
            }
            k = k + 1;
        }
        assert(ss.subrange(0, ss.len() as int) =~= ss);
        r
    }

    /// A screen, when it exists.
    pub fn get_screen(&self, screen_id: &str) -> (r: Option<FeatureScreen>)
        ensures
            exists|i: Option<int>| #[trigger] first_screen(self.spec_screens(), screen_id@, i) && match i {
                Some(i) => r matches Some(s) && same_screen(s, self.spec_screens()[i]),
                None => r is None,
            },
    {
        let p = self.screen_position(screen_id);
        match p {
            Some(i) => {
                assert(first_screen(self.spec_screens(), screen_id@, Some(i as int)));
                Some(copy_screen(&self.screens[i]))
            },
            None => {
                assert(first_screen(self.spec_screens(), screen_id@, None::<int>));
                None
            },
        }
    }

    /// A feature, when it exists.
    pub fn get_feature(&self, feature_id: &str) -> (r: Option<Feature>)
        ensures
            exists|i: Option<int>| #[trigger] first_feature(self.spec_features(), feature_id@, i) && match i {
                Some(i) => r matches Some(f) && same_feature(f, self.spec_features()[i]),
                None => r is None,
            },
    {
        let p = self.feature_position(feature_id);
        match p {
            Some(i) => {
                assert(first_feature(self.spec_features(), feature_id@, Some(i as int)));
                Some(copy_feature(&self.features[i]))
            },
            None => {
                assert(first_feature(self.spec_features(), feature_id@, None::<int>));
                None
            },
        }
    }
}

} // verus!
