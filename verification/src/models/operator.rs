//! Operator identity: who is standing at the till, and what they are allowed to do.
//!
//! The permission mapping lives in one place: [`OperatorPermissions`] converts to and from the
//! server's permissions object, [`PermissionsWire`], in both directions.
use vstd::prelude::*;

use crate::dec::{pow10, value_le, value_lt, Dec};
use crate::models::parse::ParseError;
use crate::text::{is_blank, is_blank_text, is_white_space, owned, push_char, str_eq, to_unicode_upper, unicode_upper, char_is_white_space};

verus! {

// ============================================================================
// Errors
// ============================================================================

/// A value that cannot describe an operator.
#[derive(Debug, Clone, PartialEq, Eq)]
pub enum OperatorError {
    /// An operator id was blank.
    BlankId,
    /// An operator name was blank.
    BlankName,
    /// A discount ceiling outside `0..=100`.
    DiscountCeilingOutOfRange {
        /// The rejected value.
        value: Dec,
    },
}

impl OperatorError {
    /// The sentence this error says.
    pub fn message(&self) -> (s: String)
        ensures
            self is BlankId ==> s@ == "an operator id cannot be blank; an absent operator is `Option<OperatorId>`, not `\"\"`"@,
            self is BlankName ==> s@ == "an operator name cannot be blank"@,
            self matches OperatorError::DiscountCeilingOutOfRange { value } ==> s@ == "a discount ceiling of "@
                + crate::dec::decimal_text(*value) + "% is outside the contract's range of 0 to 100"@,
    {
        match self {
            OperatorError::BlankId => owned(
                "an operator id cannot be blank; an absent operator is `Option<OperatorId>`, not `\"\"`",
            ),
            OperatorError::BlankName => owned("an operator name cannot be blank"),
            OperatorError::DiscountCeilingOutOfRange { value } => {
                let mut s = owned("a discount ceiling of ");
                s.append(value.text().as_str());
                s.append("% is outside the contract's range of 0 to 100");
                s
            },
        }
    }
}

// ============================================================================
// OperatorId
// ============================================================================

/// The server's identifier for an operator profile; never blank.
#[derive(Debug, PartialEq, Eq, PartialOrd, Ord, Hash)]
pub struct OperatorId {
    id: String,
}

impl OperatorId {
    #[verifier::type_invariant]
    spec fn not_blank(self) -> bool {
        !is_blank_text(self.id@)
    }

    /// The identifier's characters.
    pub closed spec fn spec_str(self) -> Seq<char> {
        self.id@
    }

    /// Builds an operator id, rejecting a blank one.
    pub fn new(raw: &str) -> (r: Result<OperatorId, OperatorError>)
        ensures
            is_blank_text(raw@) <==> r == Err::<OperatorId, OperatorError>(OperatorError::BlankId),
            !is_blank_text(raw@) ==> r is Ok,
            r matches Ok(id) ==> id.spec_str() == raw@,
    {
        if is_blank(raw) {
            Err(OperatorError::BlankId)
        } else {
            Ok(OperatorId { id: owned(raw) })
        }
    }

    /// The identifier as the server and the store spell it.
    pub fn as_str(&self) -> (s: &str)
        ensures
            s@ == self.spec_str(),
            !is_blank_text(s@),
    {
        proof {
            use_type_invariant(self);
        }
        self.id.as_str()
    }

    /// The identifier as an owned string.
    pub fn into_string(self) -> (s: String)
        ensures
            s@ == self.spec_str(),
    {
        self.id
    }
}

// ============================================================================
// OperatorName and RecordedOperatorName
// ============================================================================

/// Which script a name is rendered in.
#[derive(Debug, Clone, Copy, PartialEq, Eq, Hash)]
pub enum NameScript {
    /// The Latin-script name.
    Latin,
    /// The Arabic-script name.
    Arabic,
}

/// An operator's name in both scripts the till renders. The Latin name is never blank; an
/// Arabic name, when present, is never blank either.
#[derive(Debug, PartialEq, Eq, PartialOrd, Ord, Hash)]
pub struct OperatorName {
    latin: String,
    arabic: Option<String>,
}

/// The words of a text's first two words' first characters: the character at each position
/// that is not white space and follows white space or the start.
pub open spec fn word_starts(s: Seq<char>) -> Seq<char>
    decreases s.len(),
{
    if s.len() == 0 {
        Seq::empty()
    } else {
        let last = s.len() - 1;
        let starts_word = !is_white_space(s[last]) && (last == 0 || is_white_space(s[last - 1]));
        if starts_word {
            word_starts(s.drop_last()).push(s[last])
        } else {
            word_starts(s.drop_last())
        }
    }
}

/// The first two elements of a sequence, or all of it when shorter.
pub open spec fn first_two(s: Seq<char>) -> Seq<char> {
    if s.len() <= 2 {
        s
    } else {
        s.subrange(0, 2)
    }
}

impl OperatorName {
    #[verifier::type_invariant]
    spec fn not_blank(self) -> bool {
        &&& !is_blank_text(self.latin@)
        &&& self.arabic matches Some(a) ==> !is_blank_text(a@)
    }

    /// The Latin-script name.
    pub closed spec fn spec_latin(self) -> Seq<char> {
        self.latin@
    }

    /// The Arabic-script name, when one was synced.
    pub closed spec fn spec_arabic(self) -> Option<Seq<char>> {
        match self.arabic {
            Some(a) => Some(a@),
            None => None,
        }
    }

    /// The name in a script, falling back to Latin when there is no Arabic name.
    pub open spec fn spec_in_script(self, script: NameScript) -> Seq<char> {
        match script {
            NameScript::Latin => self.spec_latin(),
            NameScript::Arabic => match self.spec_arabic() {
                Some(a) => a,
                None => self.spec_latin(),
            },
        }
    }

    /// Builds a name from the two scripts the server sends. A blank Latin name is refused; a
    /// blank Arabic name is the same as none.
    pub fn new(latin: &str, arabic: Option<&str>) -> (r: Result<OperatorName, OperatorError>)
        ensures
            is_blank_text(latin@) <==> r == Err::<OperatorName, OperatorError>(OperatorError::BlankName),
            r is Ok <==> !is_blank_text(latin@),
            r matches Ok(n) ==> n.spec_latin() == latin@,
            r matches Ok(n) ==> n.spec_arabic() == (match arabic {
                Some(a) => if is_blank_text(a@) {
                    None
                } else {
                    Some(a@)
                },
                None => None,
            }),
    {
        if is_blank(latin) {
            return Err(OperatorError::BlankName);
        }
        let arabic = match arabic {
            Some(a) => if is_blank(a) {
                None
            } else {
                Some(owned(a))
            },
            None => None,
        };
        Ok(OperatorName { latin: owned(latin), arabic })
    }

    /// The name in the requested script, falling back to Latin when no Arabic name was synced.
    pub fn in_script(&self, script: NameScript) -> (s: &str)
        ensures
            s@ == self.spec_in_script(script),
            !is_blank_text(s@),
    {
        proof {
            use_type_invariant(self);
        }
        match script {
            NameScript::Latin => self.latin.as_str(),
            NameScript::Arabic => match &self.arabic {
                Some(a) => a.as_str(),
                None => self.latin.as_str(),
            },
        }
    }

    /// The Latin-script name, which is always present.
    pub fn latin(&self) -> (s: &str)
        ensures
            s@ == self.spec_latin(),
    {
        self.latin.as_str()
    }

    /// The Arabic-script name, absent when the HR record carries none.
    pub fn arabic(&self) -> (r: Option<&str>)
        ensures
            r is Some <==> self.spec_arabic() is Some,
            r matches Some(a) ==> self.spec_arabic() == Some(a@),
    {
        match &self.arabic {
            Some(a) => Some(a.as_str()),
            None => None,
        }
    }

    /// The first letters of the first two words of the name in a script, upper-cased.
    pub fn initials(&self, script: NameScript) -> (s: String)
        ensures
            s@ == unicode_upper(first_two(word_starts(self.spec_in_script(script)))),
    {
        let name = self.in_script(script);
        let n = name.unicode_len();
        let mut letters = String::new();
        let mut i: usize = 0;
        let mut prev_white = true;
        while i < n
            invariant
                n == name@.len(),
                i <= n,
                prev_white == (i == 0 || is_white_space(name@[i - 1])),
                letters@ == first_two(word_starts(name@.subrange(0, i as int))),
            decreases n - i,
        {
            let c = name.get_char(i);
            let white = char_is_white_space(c);
            proof {
                assert(name@.subrange(0, i + 1).drop_last() =~= name@.subrange(0, i as int));
                assert(name@.subrange(0, i + 1)[i as int] == c);
            }
            if !white && prev_white {
                if letters.unicode_len() < 2 {
                    push_char(&mut letters, c);
                }
            }
            proof {
                let prefix = name@.subrange(0, i as int);
                let next = name@.subrange(0, i + 1);
                assert(word_starts(next) == if !white && (i == 0 || is_white_space(name@[i - 1])) {
                    word_starts(prefix).push(c)
                } else {
                    word_starts(prefix)
                });
                assert(letters@ =~= first_two(word_starts(next)));
            }
            prev_white = white;
            i = i + 1;
        }
        assert(name@.subrange(0, n as int) =~= name@);
        to_unicode_upper(letters.as_str())
    }

    /// The snapshot a document keeps, in the script the till was rendering.
    pub fn recorded_in(&self, script: NameScript) -> (r: RecordedOperatorName)
        ensures
            r.spec_str() == self.spec_in_script(script),
    {
        let s = self.in_script(script);
        RecordedOperatorName { name: owned(s) }
    }
}

/// An operator's name as it was written onto a document: one script, a snapshot, never blank.
#[derive(Debug, PartialEq, Eq, PartialOrd, Ord, Hash)]
pub struct RecordedOperatorName {
    name: String,
}

impl RecordedOperatorName {
    #[verifier::type_invariant]
    spec fn not_blank(self) -> bool {
        !is_blank_text(self.name@)
    }

    /// The recorded name's characters.
    pub closed spec fn spec_str(self) -> Seq<char> {
        self.name@
    }

    /// Records a name onto a document, rejecting a blank one.
    pub fn new(name: &str) -> (r: Result<RecordedOperatorName, OperatorError>)
        ensures
            is_blank_text(name@) <==> r == Err::<RecordedOperatorName, OperatorError>(OperatorError::BlankName),
            !is_blank_text(name@) ==> r is Ok,
            r matches Ok(n) ==> n.spec_str() == name@,
    {
        if is_blank(name) {
            Err(OperatorError::BlankName)
        } else {
            Ok(RecordedOperatorName { name: owned(name) })
        }
    }

    /// The recorded name.
    pub fn as_str(&self) -> (s: &str)
        ensures
            s@ == self.spec_str(),
    {
        self.name.as_str()
    }

    /// The recorded name as an owned string.
    pub fn into_string(self) -> (s: String)
        ensures
            s@ == self.spec_str(),
    {
        self.name
    }
}


impl Clone for OperatorId {
    fn clone(&self) -> (r: Self)
        ensures
            r == *self,
    {
        proof {
            use_type_invariant(self);
        }
        OperatorId { id: self.id.clone() }
    }
}

impl Clone for OperatorName {
    fn clone(&self) -> (r: Self)
        ensures
            r == *self,
    {
        proof {
            use_type_invariant(self);
        }
        let arabic = match &self.arabic {
            Some(a) => Some(a.clone()),
            None => None,
        };
        OperatorName { latin: self.latin.clone(), arabic }
    }
}

impl Clone for RecordedOperatorName {
    fn clone(&self) -> (r: Self)
        ensures
            r == *self,
    {
        proof {
            use_type_invariant(self);
        }
        RecordedOperatorName { name: self.name.clone() }
    }
}

// ============================================================================
// OperatorRole
// ============================================================================

/// The operator's role, mirroring the server's three-valued enum.
#[derive(Debug, Clone, Copy, PartialEq, Eq, PartialOrd, Ord, Hash)]
pub enum OperatorRole {
    /// Rings sales.
    Cashier,
    /// Rings sales and authorises a cashier's voids, refunds and discounts.
    Supervisor,
    /// A supervisor who may also reach the till's settings.
    Manager,
}

impl OperatorRole {
    /// The spelling the server and the store both use.
    pub open spec fn wire(self) -> Seq<char> {
        match self {
            OperatorRole::Cashier => "CASHIER"@,
            OperatorRole::Supervisor => "SUPERVISOR"@,
            OperatorRole::Manager => "MANAGER"@,
        }
    }

    /// The spelling the server and the store both use.
    pub fn as_wire_str(self) -> (s: &'static str)
        ensures
            s@ == self.wire(),
    {
        match self {
            OperatorRole::Cashier => "CASHIER",
            OperatorRole::Supervisor => "SUPERVISOR",
            OperatorRole::Manager => "MANAGER",
        }
    }

    /// Parses the wire spelling, case-sensitively.
    pub fn from_str(raw: &str) -> (r: Result<OperatorRole, ParseError>)
        ensures
            r matches Ok(role) ==> role.wire() == raw@,
            r is Err <==> (raw@ != "CASHIER"@ && raw@ != "SUPERVISOR"@ && raw@ != "MANAGER"@),
            r matches Err(e) ==> e matches ParseError::OperatorRole(v) && v@ == raw@,
    {
        if str_eq(raw, "CASHIER") {
            Ok(OperatorRole::Cashier)
        } else if str_eq(raw, "SUPERVISOR") {
            Ok(OperatorRole::Supervisor)
        } else if str_eq(raw, "MANAGER") {
            Ok(OperatorRole::Manager)
        } else {
            Err(ParseError::OperatorRole(owned(raw)))
        }
    }
}

impl std::str::FromStr for OperatorRole {
    type Err = ParseError;

    fn from_str(raw: &str) -> Result<OperatorRole, ParseError> {
        OperatorRole::from_str(raw)
    }
}

/// Two roles with the same wire spelling are the same role, so a role's spelling parses back to
/// that role.
pub proof fn lemma_role_wire_injective(a: OperatorRole, b: OperatorRole)
    ensures
        a.wire() == b.wire() ==> a == b,
{
    reveal_strlit("CASHIER");
    reveal_strlit("SUPERVISOR");
    reveal_strlit("MANAGER");
    assert("CASHIER"@[0] != "MANAGER"@[0]);
    assert("CASHIER"@.len() != "SUPERVISOR"@.len());
    assert("MANAGER"@.len() != "SUPERVISOR"@.len());
}

// ============================================================================
// Permissions
// ============================================================================

/// One thing an operator is allowed to do. Discounting is carried by [`DiscountAuthority`].
#[derive(Debug, Clone, Copy, PartialEq, Eq, PartialOrd, Ord, Hash)]
pub enum Permission {
    /// Void a transaction that has not been settled.
    VoidTransaction,
    /// Refund a settled transaction.
    RefundTransaction,
    /// Open the cash drawer outside a sale.
    OpenDrawer,
    /// Read the till's shift and sales reports.
    ViewReports,
    /// Open and close shifts.
    ManageShifts,
    /// Reach the till's settings.
    AccessSettings,
}

impl Permission {
    /// The key this permission occupies in the server's permissions object.
    pub open spec fn key(self) -> Seq<char> {
        match self {
            Permission::VoidTransaction => "canVoid"@,
            Permission::RefundTransaction => "canRefund"@,
            Permission::OpenDrawer => "canOpenDrawer"@,
            Permission::ViewReports => "canViewReports"@,
            Permission::ManageShifts => "canManageShifts"@,
            Permission::AccessSettings => "canAccessSettings"@,
        }
    }

    /// The key this permission occupies in the server's permissions object.
    pub fn wire_key(self) -> (s: &'static str)
        ensures
            s@ == self.key(),
    {
        match self {
            Permission::VoidTransaction => "canVoid",
            Permission::RefundTransaction => "canRefund",
            Permission::OpenDrawer => "canOpenDrawer",
            Permission::ViewReports => "canViewReports",
            Permission::ManageShifts => "canManageShifts",
            Permission::AccessSettings => "canAccessSettings",
        }
    }

    /// The position of this permission in the stable order.
    pub open spec fn rank(self) -> nat {
        match self {
            Permission::VoidTransaction => 0,
            Permission::RefundTransaction => 1,
            Permission::OpenDrawer => 2,
            Permission::ViewReports => 3,
            Permission::ManageShifts => 4,
            Permission::AccessSettings => 5,
        }
    }
}

/// A discount ceiling, as a percentage between 0 and 100 inclusive.
#[derive(Debug, Clone, Copy, PartialEq, Eq)]
pub struct DiscountPercent {
    percent: Dec,
}

/// `value` lies in `0..=100`.
pub open spec fn in_percent_range(value: Dec) -> bool {
    value_le(Dec::spec_zero(), value) && value_le(value, Dec::spec_hundred())
}

impl DiscountPercent {
    #[verifier::type_invariant]
    spec fn in_range(self) -> bool {
        in_percent_range(self.percent)
    }

    /// The ceiling as a percentage.
    pub closed spec fn spec_percent(self) -> Dec {
        self.percent
    }

    /// The ceiling holding this percentage.
    pub closed spec fn spec_of(value: Dec) -> DiscountPercent {
        DiscountPercent { percent: value }
    }

    /// Builds a ceiling, enforcing the server validator's `0..=100`.
    pub fn new(value: Dec) -> (r: Result<DiscountPercent, OperatorError>)
        ensures
            in_percent_range(value) <==> r is Ok,
            r matches Ok(p) ==> p.spec_percent() == value && p == DiscountPercent::spec_of(value),
            !in_percent_range(value) ==> r == Err::<DiscountPercent, OperatorError>(
                OperatorError::DiscountCeilingOutOfRange { value },
            ),
    {
        let zero = Dec::zero();
        let hundred = Dec::hundred();
        if value.lt(&zero) || hundred.lt(&value) {
            Err(OperatorError::DiscountCeilingOutOfRange { value })
        } else {
            Ok(DiscountPercent { percent: value })
        }
    }

    /// The ceiling as a percentage: `20` means twenty percent.
    pub fn as_percent(self) -> (d: Dec)
        ensures
            d == self.spec_percent(),
            in_percent_range(d),
    {
        proof {
            use_type_invariant(&self);
        }
        self.percent
    }
}

/// How far an operator may discount.
#[derive(Debug, Clone, Copy, PartialEq, Eq)]
pub enum DiscountAuthority {
    /// The operator may not apply discounts.
    Denied,
    /// The operator may apply a discount up to and including this ceiling.
    UpTo(DiscountPercent),
}

impl DiscountAuthority {
    /// The ceiling, when there is one.
    pub fn ceiling(self) -> (r: Option<DiscountPercent>)
        ensures
            r == (match self {
                DiscountAuthority::Denied => None,
                DiscountAuthority::UpTo(c) => Some(c),
            }),
    {
        match self {
            DiscountAuthority::Denied => None,
            DiscountAuthority::UpTo(c) => Some(c),
        }
    }
}

/// What an operator is allowed to do at this till.
#[derive(Debug, Clone, PartialEq, Eq)]
pub struct OperatorPermissions {
    void_transaction: bool,
    refund_transaction: bool,
    open_drawer: bool,
    view_reports: bool,
    manage_shifts: bool,
    access_settings: bool,
    discount: DiscountAuthority,
}

impl OperatorPermissions {
    /// Whether the set holds a capability.
    pub closed spec fn holds(self, p: Permission) -> bool {
        match p {
            Permission::VoidTransaction => self.void_transaction,
            Permission::RefundTransaction => self.refund_transaction,
            Permission::OpenDrawer => self.open_drawer,
            Permission::ViewReports => self.view_reports,
            Permission::ManageShifts => self.manage_shifts,
            Permission::AccessSettings => self.access_settings,
        }
    }

    /// The discount authority.
    pub closed spec fn spec_discount(self) -> DiscountAuthority {
        self.discount
    }

    /// The server's permissions object for this set.
    pub closed spec fn wire_of(self) -> PermissionsWire {
        PermissionsWire {
            can_void: self.void_transaction,
            can_refund: self.refund_transaction,
            can_discount: self.discount is UpTo,
            max_discount_percent: match self.discount {
                DiscountAuthority::Denied => Dec::spec_zero(),
                DiscountAuthority::UpTo(c) => c.spec_percent(),
            },
            can_open_drawer: self.open_drawer,
            can_view_reports: self.view_reports,
            can_manage_shifts: self.manage_shifts,
            can_access_settings: self.access_settings,
        }
    }

    /// The permission set a server's permissions object resolves to.
    pub closed spec fn of_wire(w: PermissionsWire) -> Result<OperatorPermissions, OperatorError> {
        if wire_grants_discount(w) && !in_percent_range(w.max_discount_percent) {
            Err(OperatorError::DiscountCeilingOutOfRange { value: w.max_discount_percent })
        } else {
            Ok(OperatorPermissions {
                void_transaction: w.can_void,
                refund_transaction: w.can_refund,
                open_drawer: w.can_open_drawer,
                view_reports: w.can_view_reports,
                manage_shifts: w.can_manage_shifts,
                access_settings: w.can_access_settings,
                discount: if wire_grants_discount(w) {
                    DiscountAuthority::UpTo(DiscountPercent::spec_of(w.max_discount_percent))
                } else {
                    DiscountAuthority::Denied
                },
            })
        }
    }

    /// Two permission sets grant the same.
    pub open spec fn same_as(self, other: OperatorPermissions) -> bool {
        (forall|p: Permission| self.holds(p) == other.holds(p)) && self.spec_discount()
            == other.spec_discount()
    }

    /// An operator who may do nothing beyond ringing a sale.
    pub fn none() -> (r: OperatorPermissions)
        ensures
            forall|p: Permission| !r.holds(p),
            r.spec_discount() == DiscountAuthority::Denied,
    {
        OperatorPermissions {
            void_transaction: false,
            refund_transaction: false,
            open_drawer: false,
            view_reports: false,
            manage_shifts: false,
            access_settings: false,
            discount: DiscountAuthority::Denied,
        }
    }

    /// A permission set holding exactly the listed capabilities and this discount authority.
    pub fn new(granted: &[Permission], discount: DiscountAuthority) -> (r: OperatorPermissions)
        ensures
            forall|p: Permission| r.holds(p) <==> granted@.contains(p),
            r.spec_discount() == discount,
    {
        let mut r = OperatorPermissions {
            void_transaction: false,
            refund_transaction: false,
            open_drawer: false,
            view_reports: false,
            manage_shifts: false,
            access_settings: false,
            discount,
        };
        let mut i: usize = 0;
        assert(granted@.subrange(0, 0) =~= Seq::<Permission>::empty());
        assert forall|p: Permission| r.holds(p) <==> granted@.subrange(0, 0).contains(p) by {
            assert(!r.holds(p));
        }
        while i < granted.len()
            invariant
                i <= granted@.len(),
                r.spec_discount() == discount,
                forall|p: Permission| r.holds(p) <==> granted@.subrange(0, i as int).contains(p),
            decreases granted@.len() - i,
        {
            let p = granted[i];
            let ghost before = r;
            match p {
                Permission::VoidTransaction => r.void_transaction = true,
                Permission::RefundTransaction => r.refund_transaction = true,
                Permission::OpenDrawer => r.open_drawer = true,
                Permission::ViewReports => r.view_reports = true,
                Permission::ManageShifts => r.manage_shifts = true,
                Permission::AccessSettings => r.access_settings = true,
            }
            proof {
                let prev = granted@.subrange(0, i as int);
                let next = granted@.subrange(0, i + 1);
                assert(next =~= prev.push(p));
                assert forall|q: Permission| r.holds(q) <==> next.contains(q) by {
                    assert(r.holds(q) == (before.holds(q) || q == p));
                    if q == p {
                        assert(next[i as int] == p);
                    } else if next.contains(q) {
                        let k = choose|k: int| 0 <= k < next.len() && next[k] == q;
                        assert(k < prev.len());
                        assert(prev[k] == q);
                    } else if prev.contains(q) {
                        let k = choose|k: int| 0 <= k < prev.len() && prev[k] == q;
                        assert(next[k] == q);
                    }
                }
            }
            i = i + 1;
        }
        assert(granted@.subrange(0, granted@.len() as int) =~= granted@);
        r
    }

    /// Whether this operator holds a capability.
    pub fn allows(&self, permission: Permission) -> (b: bool)
        ensures
            b == self.holds(permission),
    {
        match permission {
            Permission::VoidTransaction => self.void_transaction,
            Permission::RefundTransaction => self.refund_transaction,
            Permission::OpenDrawer => self.open_drawer,
            Permission::ViewReports => self.view_reports,
            Permission::ManageShifts => self.manage_shifts,
            Permission::AccessSettings => self.access_settings,
        }
    }

    /// Every capability held, each once, in the stable order of [`Permission`].
    pub fn granted(&self) -> (v: Vec<Permission>)
        ensures
            forall|p: Permission| v@.contains(p) <==> self.holds(p),
            forall|i: int, j: int| 0 <= i < j < v@.len() ==> v@[i].rank() < v@[j].rank(),
    {
        let mut v: Vec<Permission> = Vec::new();
        let all = [
            Permission::VoidTransaction,
            Permission::RefundTransaction,
            Permission::OpenDrawer,
            Permission::ViewReports,
            Permission::ManageShifts,
            Permission::AccessSettings,
        ];
        let mut k: usize = 0;
        while k < 6
            invariant
                k <= 6,
                all@ == seq![
                    Permission::VoidTransaction,
                    Permission::RefundTransaction,
                    Permission::OpenDrawer,
                    Permission::ViewReports,
                    Permission::ManageShifts,
                    Permission::AccessSettings,
                ],
                forall|p: Permission| v@.contains(p) <==> (self.holds(p) && p.rank() < k),
                forall|i: int| 0 <= i < v@.len() ==> v@[i].rank() < k,
                forall|i: int, j: int| 0 <= i < j < v@.len() ==> v@[i].rank() < v@[j].rank(),
            decreases 6 - k,
        {
            let p = all[k];
            assert(p.rank() == k);
            let ghost before = v@;
            if self.allows(p) {
                v.push(p);
                proof {
                    assert forall|q: Permission| v@.contains(q) <==> (self.holds(q) && q.rank() < k + 1) by {
                        if q == p {
                            assert(v@[v@.len() - 1] == q);
                        } else if v@.contains(q) {
                            let i = choose|i: int| 0 <= i < v@.len() && v@[i] == q;
                            if i < before.len() {
                                assert(before[i] == q);
                            }
                        } else if self.holds(q) && q.rank() < k + 1 {
                            assert(q.rank() < k || q.rank() == k);
                            if q.rank() < k {
                                let i = choose|i: int| 0 <= i < before.len() && before[i] == q;
                                assert(v@[i] == q);
                            } else {
                                assert(q == p);
                            }
                        }
                    }
                }
            } else {
                proof {
                    assert forall|q: Permission| v@.contains(q) <==> (self.holds(q) && q.rank() < k + 1) by {
                        if q.rank() == k {
                            assert(q == p);
                        }
                    }
                }
            }
            k = k + 1;
        }
        v
    }

    /// How far this operator may discount.
    pub fn discount_authority(&self) -> (d: DiscountAuthority)
        ensures
            d == self.spec_discount(),
    {
        self.discount
    }

    /// The server's permissions object for this set: the flag and the ceiling are derived
    /// from one authority, so they never disagree.
    pub fn to_wire(&self) -> (w: PermissionsWire)
        ensures
            w.can_void == self.holds(Permission::VoidTransaction),
            w.can_refund == self.holds(Permission::RefundTransaction),
            w.can_open_drawer == self.holds(Permission::OpenDrawer),
            w.can_view_reports == self.holds(Permission::ViewReports),
            w.can_manage_shifts == self.holds(Permission::ManageShifts),
            w.can_access_settings == self.holds(Permission::AccessSettings),
            w.can_discount == (self.spec_discount() is UpTo),
            self.spec_discount() matches DiscountAuthority::UpTo(c) ==> w.max_discount_percent == c.spec_percent(),
            self.spec_discount() is Denied ==> w.max_discount_percent == Dec::spec_zero(),
            w == self.wire_of(),
    {
        let (can_discount, max_discount_percent) = match self.discount {
            DiscountAuthority::Denied => (false, Dec::zero()),
            DiscountAuthority::UpTo(c) => (true, c.as_percent()),
        };
        PermissionsWire {
            can_void: self.void_transaction,
            can_refund: self.refund_transaction,
            can_discount,
            max_discount_percent,
            can_open_drawer: self.open_drawer,
            can_view_reports: self.view_reports,
            can_manage_shifts: self.manage_shifts,
            can_access_settings: self.access_settings,
        }
    }
}

/// The exact shape of the server's permissions object. Every field's default is the denying
/// value, and keys this till does not know are ignored where it is read.
#[derive(Debug, Clone)]
pub struct PermissionsWire {
    /// `canVoid`.
    pub can_void: bool,
    /// `canRefund`.
    pub can_refund: bool,
    /// `canDiscount`.
    pub can_discount: bool,
    /// `maxDiscountPercent`.
    pub max_discount_percent: Dec,
    /// `canOpenDrawer`.
    pub can_open_drawer: bool,
    /// `canViewReports`.
    pub can_view_reports: bool,
    /// `canManageShifts`.
    pub can_manage_shifts: bool,
    /// `canAccessSettings`.
    pub can_access_settings: bool,
}

/// The discount authority a permissions object grants: the ceiling only when the flag is set and
/// the ceiling is above zero.
pub open spec fn wire_grants_discount(w: PermissionsWire) -> bool {
    w.can_discount && w.max_discount_percent.is_pos()
}

impl PermissionsWire {
    /// An object with every key absent: grants nothing.
    pub fn denying() -> (w: PermissionsWire)
        ensures
            !w.can_void && !w.can_refund && !w.can_discount && !w.can_open_drawer
                && !w.can_view_reports && !w.can_manage_shifts && !w.can_access_settings,
            w.max_discount_percent == Dec::spec_zero(),
    {
        PermissionsWire {
            can_void: false,
            can_refund: false,
            can_discount: false,
            max_discount_percent: Dec::zero(),
            can_open_drawer: false,
            can_view_reports: false,
            can_manage_shifts: false,
            can_access_settings: false,
        }
    }

    /// Resolves the object into a permission set. `canDiscount: false` wins over any ceiling,
    /// a ceiling of zero is no authority, and the ceiling's range is checked only when it grants.
    pub fn into_permissions(&self) -> (r: Result<OperatorPermissions, OperatorError>)
        ensures
            r is Err <==> (wire_grants_discount(*self) && !in_percent_range(self.max_discount_percent)),
            r is Err ==> r == Err::<OperatorPermissions, OperatorError>(
                OperatorError::DiscountCeilingOutOfRange { value: self.max_discount_percent },
            ),
            r matches Ok(p) ==> p.holds(Permission::VoidTransaction) == self.can_void
                && p.holds(Permission::RefundTransaction) == self.can_refund
                && p.holds(Permission::OpenDrawer) == self.can_open_drawer
                && p.holds(Permission::ViewReports) == self.can_view_reports
                && p.holds(Permission::ManageShifts) == self.can_manage_shifts
                && p.holds(Permission::AccessSettings) == self.can_access_settings,
            r matches Ok(p) ==> (wire_grants_discount(*self) <==> p.spec_discount() is UpTo),
            r matches Ok(p) ==> (p.spec_discount() matches DiscountAuthority::UpTo(c)
                ==> c.spec_percent() == self.max_discount_percent),
            r == OperatorPermissions::of_wire(*self),
    {
        let discount = if self.can_discount && self.max_discount_percent.is_positive() {
            match DiscountPercent::new(self.max_discount_percent) {
                Ok(c) => DiscountAuthority::UpTo(c),
                Err(e) => return Err(e),
            }
        } else {
            DiscountAuthority::Denied
        };
        Ok(OperatorPermissions {
            void_transaction: self.can_void,
            refund_transaction: self.can_refund,
            open_drawer: self.can_open_drawer,
            view_reports: self.can_view_reports,
            manage_shifts: self.can_manage_shifts,
            access_settings: self.can_access_settings,
            discount,
        })
    }
}

// ============================================================================
// VerifiedOperator
// ============================================================================

/// The operator, as everything past authentication is allowed to see them: no PIN material.
#[derive(Debug, Clone, PartialEq, Eq)]
pub struct VerifiedOperator {
    id: OperatorId,
    name: OperatorName,
    role: OperatorRole,
    permissions: OperatorPermissions,
}

impl VerifiedOperator {
    /// The operator's identifier.
    pub closed spec fn spec_id(self) -> OperatorId {
        self.id
    }

    /// The operator's name.
    pub closed spec fn spec_name(self) -> OperatorName {
        self.name
    }

    /// The operator's role.
    pub closed spec fn spec_role(self) -> OperatorRole {
        self.role
    }

    /// The operator's permissions.
    pub closed spec fn spec_permissions(self) -> OperatorPermissions {
        self.permissions
    }

    /// Records that this operator's PIN was checked and matched.
    pub fn from_verified_pin(
        id: OperatorId,
        name: OperatorName,
        role: OperatorRole,
        permissions: OperatorPermissions,
    ) -> (o: VerifiedOperator)
        ensures
            o.spec_id() == id,
            o.spec_name() == name,
            o.spec_role() == role,
            o.spec_permissions() == permissions,
    {
        VerifiedOperator { id, name, role, permissions }
    }

    /// The operator's server identifier.
    pub fn id(&self) -> (r: &OperatorId)
        ensures
            *r == self.spec_id(),
    {
        &self.id
    }

    /// The operator's name, in both scripts.
    pub fn name(&self) -> (r: &OperatorName)
        ensures
            *r == self.spec_name(),
    {
        &self.name
    }

    /// The operator's role.
    pub fn role(&self) -> (r: OperatorRole)
        ensures
            r == self.spec_role(),
    {
        self.role
    }

    /// What this operator is allowed to do.
    pub fn permissions(&self) -> (r: &OperatorPermissions)
        ensures
            *r == self.spec_permissions(),
    {
        &self.permissions
    }
}

/// Writing a permission set to the server's object and reading it back gives the same set,
/// for every set whose discount ceiling is not zero (a zero ceiling reads back as no authority,
/// which grants exactly the same discounts).
pub proof fn lemma_permissions_round_trip(p: OperatorPermissions)
    requires
        p.spec_discount() matches DiscountAuthority::UpTo(c) ==> in_percent_range(c.spec_percent())
            && !c.spec_percent().is_zero_value(),
    ensures
        OperatorPermissions::of_wire(p.wire_of()) == Ok::<OperatorPermissions, OperatorError>(p),
{
    Dec::lemma_constants();
    match p.spec_discount() {
        DiscountAuthority::UpTo(c) => {
            assert(value_le(Dec::spec_zero(), c.spec_percent()));
            assert(c.spec_percent().num() >= 0) by {
                crate::dec::lemma_pow10_positive(c.spec_percent().exp());
                assert(0 * pow10(c.spec_percent().exp()) == 0);
            }
            assert(DiscountPercent::spec_of(c.spec_percent()) == c);
        },
        DiscountAuthority::Denied => {
        },
    }
}

/// Reading a permission set from the server's object and writing it back gives the same object
/// whenever the object is one the till itself could have written: its flag and ceiling agree.
pub proof fn lemma_wire_round_trip(w: PermissionsWire)
    requires
        w.can_discount == wire_grants_discount(w),
        !w.can_discount ==> w.max_discount_percent == Dec::spec_zero(),
        in_percent_range(w.max_discount_percent),
    ensures
        OperatorPermissions::of_wire(w) matches Ok(p) && p.wire_of() == w,
{
}

} // verus!
