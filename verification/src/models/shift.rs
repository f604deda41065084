//! Shift models: the status of a shift and how its counted cash compares with what was
//! expected.
use vstd::prelude::*;

use crate::dec::Dec;
use crate::models::operator::{OperatorId, RecordedOperatorName};
use crate::models::parse::ParseError;
use crate::text::{all_ascii, ascii_lower, owned, str_eq, to_unicode_lower, unicode_lower};

verus! {

/// How counted cash compares with expected cash.
#[derive(Debug, Clone, Copy, PartialEq, Eq, Structural)]
pub enum VarianceStatus {
    /// Counted equals expected.
    Balanced,
    /// Less cash than expected.
    Short,
    /// More cash than expected.
    Over,
}

impl VarianceStatus {
    /// The spelling storage uses.
    pub open spec fn wire(self) -> Seq<char> {
        match self {
            VarianceStatus::Balanced => "balanced"@,
            VarianceStatus::Short => "short"@,
            VarianceStatus::Over => "over"@,
        }
    }

    /// The spelling storage uses.
    pub fn as_str(&self) -> (s: &'static str)
        ensures
            s@ == self.wire(),
    {
        match self {
            VarianceStatus::Balanced => "balanced",
            VarianceStatus::Short => "short",
            VarianceStatus::Over => "over",
        }
    }

    /// The status a variance (counted minus expected) has: its sign.
    pub fn from_variance(variance: Dec) -> (s: VarianceStatus)
        ensures
            variance.is_zero_value() ==> s == VarianceStatus::Balanced,
            variance.is_neg() ==> s == VarianceStatus::Short,
            variance.is_pos() ==> s == VarianceStatus::Over,
    {
        if variance.is_zero() {
            VarianceStatus::Balanced
        } else if variance.is_negative() {
            VarianceStatus::Short
        } else {
            VarianceStatus::Over
        }
    }
}

impl Default for VarianceStatus {
    fn default() -> (s: VarianceStatus)
        ensures
            s == VarianceStatus::Balanced,
    {
        VarianceStatus::Balanced
    }
}

/// Whether a shift is open.
#[derive(Debug, Clone, Copy, PartialEq, Eq, Structural)]
pub enum ShiftStatus {
    /// Open.
    Active,
    /// Closed.
    Closed,
    /// Paused.
    Suspended,
}

impl ShiftStatus {
    /// The spelling this crate writes.
    pub open spec fn wire(self) -> Seq<char> {
        match self {
            ShiftStatus::Active => "active"@,
            ShiftStatus::Closed => "closed"@,
            ShiftStatus::Suspended => "suspended"@,
        }
    }

    /// The status a lower-cased spelling names, if any.
    pub open spec fn parse_lower(k: Seq<char>) -> Option<ShiftStatus> {
        if k == "active"@ {
            Some(ShiftStatus::Active)
        } else if k == "closed"@ {
            Some(ShiftStatus::Closed)
        } else if k == "suspended"@ {
            Some(ShiftStatus::Suspended)
        } else {
            None
        }
    }

    /// The spelling this crate writes.
    pub fn as_str(&self) -> (s: &'static str)
        ensures
            s@ == self.wire(),
    {
        match self {
            ShiftStatus::Active => "active",
            ShiftStatus::Closed => "closed",
            ShiftStatus::Suspended => "suspended",
        }
    }

    /// Reads a stored status in any case; an unknown status is refused and named rather than
    /// read as an open shift.
    pub fn from_str(raw: &str) -> (r: Result<ShiftStatus, ParseError>)
        ensures
            r matches Ok(s) ==> ShiftStatus::parse_lower(unicode_lower(raw@)) == Some(s),
            r is Err <==> ShiftStatus::parse_lower(unicode_lower(raw@)) is None,
            all_ascii(raw@) ==> (r matches Ok(s) ==> ShiftStatus::parse_lower(ascii_lower(raw@))
                == Some(s)),
            all_ascii(raw@) ==> (r is Err <==> ShiftStatus::parse_lower(ascii_lower(raw@)) is None),
            r matches Err(e) ==> e matches ParseError::ShiftStatus(v) && v@ == raw@,
    {
        let lower = to_unicode_lower(raw);
        let k = lower.as_str();
        if str_eq(k, "active") {
            Ok(ShiftStatus::Active)
        } else if str_eq(k, "closed") {
            Ok(ShiftStatus::Closed)
        } else if str_eq(k, "suspended") {
            Ok(ShiftStatus::Suspended)
        } else {
            Err(ParseError::ShiftStatus(owned(raw)))
        }
    }
}

/// A status's stored spelling reads back as that status.
pub proof fn lemma_shift_status_round_trip(s: ShiftStatus)
    ensures
        all_ascii(s.wire()),
        ShiftStatus::parse_lower(ascii_lower(s.wire())) == Some(s),
{
    reveal_strlit("active");
    reveal_strlit("closed");
    reveal_strlit("suspended");
    assert(ascii_lower(s.wire()) =~= s.wire());
    assert("active"@ != "closed"@) by {
        assert("active"@[0] != "closed"@[0]);
    }
}

impl Default for ShiftStatus {
    fn default() -> (s: ShiftStatus)
        ensures
            s == ShiftStatus::Active,
    {
        ShiftStatus::Active
    }
}

impl std::str::FromStr for ShiftStatus {
    type Err = ParseError;

    fn from_str(raw: &str) -> Result<ShiftStatus, ParseError> {
        ShiftStatus::from_str(raw)
    }
}

/// A shift as the till reports it. There is no default: every shift belongs to an operator.
#[derive(Debug, Clone)]
pub struct ShiftSummary {
    /// The shift's identifier.
    pub id: String,
    /// The human-facing shift number.
    pub shift_number: String,
    /// Who opened the shift.
    pub operator_id: OperatorId,
    /// The operator's name as it was recorded.
    pub operator_name: Option<RecordedOperatorName>,
    /// The terminal.
    pub terminal_id: String,
    /// Cash in the drawer at the start.
    pub opening_cash: Dec,
    /// Cash the drawer should hold.
    pub expected_cash: Dec,
    /// Cash counted at close.
    pub counted_cash: Option<Dec>,
    /// Counted minus expected.
    pub variance: Option<Dec>,
    /// The variance's sign.
    pub variance_status: Option<VarianceStatus>,
    /// When the shift started.
    pub started_at: String,
    /// When it ended.
    pub ended_at: Option<String>,
    /// Whether it is open.
    pub status: ShiftStatus,
    /// Sales rung.
    pub transaction_count: i32,
    /// Cash taken.
    pub cash_sales: Dec,
    /// Card takings.
    pub card_sales: Dec,
    /// Wallet takings.
    pub wallet_sales: Dec,
    /// Returns paid out.
    pub returns_total: Dec,
    /// Discounts given.
    pub discounts_total: Dec,
    /// Gross sales.
    pub gross_sales: Dec,
    /// Net sales.
    pub net_sales: Dec,
    /// The currency.
    pub currency: String,
    /// A note.
    pub note: Option<String>,
}

} // verus!
