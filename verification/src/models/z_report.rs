//! The end-of-day (Z) report.
use vstd::prelude::*;

use crate::dec::{decimal_rounded, decimal_text, rounded, Dec};
use crate::models::shift::{ShiftSummary, VarianceStatus};
use crate::text::{append_str, owned, push_char};

verus! {

/// The end-of-day report of a terminal.
#[derive(Debug, Clone)]
pub struct ZReport {
    /// The report's number.
    pub report_number: String,
    /// The day, `YYYY-MM-DD`.
    pub report_date: String,
    /// The terminal.
    pub terminal_id: String,
    /// The currency.
    pub currency: String,
    /// Shifts closed today.
    pub total_shifts: u32,
    /// Transactions rung today.
    pub total_transactions: u32,
    /// Sales before discounts and returns.
    pub gross_sales: Dec,
    /// Discounts given.
    pub discounts: Dec,
    /// Returns processed.
    pub returns: Dec,
    /// Gross less discounts and returns.
    pub net_sales: Dec,
    /// Tax collected.
    pub tax_collected: Dec,
    /// The tax rate, for display.
    pub tax_rate: String,
    /// Cash taken.
    pub cash_total: Dec,
    /// Card takings.
    pub card_total: Dec,
    /// Wallet takings.
    pub wallet_total: Dec,
    /// Sales on credit.
    pub credit_total: Dec,
    /// Cash payments.
    pub cash_count: u32,
    /// Card payments.
    pub card_count: u32,
    /// Wallet payments.
    pub wallet_count: u32,
    /// Credit sales.
    pub credit_count: u32,
    /// The first shift's opening float.
    pub opening_float: Dec,
    /// Cash received.
    pub total_cash_in: Dec,
    /// Cash paid out.
    pub total_cash_out: Dec,
    /// Cash the drawer should hold.
    pub expected_cash: Dec,
    /// Cash counted.
    pub actual_cash: Dec,
    /// Counted less expected.
    pub variance: Dec,
    /// The variance's sign.
    pub variance_status: VarianceStatus,
    /// Returns.
    pub return_count: u32,
    /// Amount returned.
    pub return_total: Dec,
    /// Voids.
    pub void_count: u32,
    /// Amount voided.
    pub void_total: Dec,
    /// The day's shifts.
    pub shifts: Vec<ShiftSummary>,
    /// When the report was made.
    pub generated_at: String,
    /// Whether the server has it.
    pub synced: bool,
    /// The server's identifier.
    pub server_id: Option<String>,
}

/// The position of the first `.` in `s`, if any.
pub open spec fn first_dot(s: Seq<char>) -> Option<int> {
    if exists|i: int| 0 <= i < s.len() && s[i] == '.' {
        Some(choose|i: int| 0 <= i < s.len() && s[i] == '.' && forall|j: int| 0 <= j < i ==> s[j] != '.')
    } else {
        None
    }
}

/// A decimal's text with at least three digits after the point: zeros are added to a shorter
/// fraction, and `.000` to a whole number.
pub open spec fn three_places(s: Seq<char>) -> Seq<char> {
    match first_dot(s) {
        Some(d) => {
            let decimals = s.len() - d - 1;
            if decimals < 3 {
                s + Seq::new((3 - decimals) as nat, |i: int| '0')
            } else {
                s
            }
        },
        None => s + ".000"@,
    }
}

/// The position of the first `.` in `s`.
fn find_dot(s: &str) -> (r: Option<usize>)
    ensures
        r is None <==> first_dot(s@) is None,
        r matches Some(d) ==> first_dot(s@) == Some(d as int) && d < s@.len(),
{
    let n = s.unicode_len();
    let mut i: usize = 0;
    while i < n
        invariant
            n == s@.len(),
            i <= n,
            forall|j: int| 0 <= j < i ==> s@[j] != '.',
        decreases n - i,
    {
        if s.get_char(i) == '.' {
            proof {
                let w = choose|k: int| 0 <= k < s@.len() && s@[k] == '.' && forall|j: int|
                    0 <= j < k ==> s@[j] != '.';
                assert(0 <= i < s@.len() && s@[i as int] == '.' && forall|j: int| 0 <= j < i ==> s@[j] != '.');
                if w < i {
                } else if w > i {
                    assert(s@[i as int] != '.');
                }
            }
            return Some(i);
        }
        i = i + 1;
    }
    None
}

impl ZReport {
    /// An amount rounded to three places and written with exactly three decimals when it has
    /// fewer.
    pub fn format_amount_static(amount: Dec) -> (s: String)
        ensures
            s@ == three_places(decimal_text(decimal_rounded(amount, 3))),
    {
        let r = rounded(amount, 3);
        let mut s = r.text();
        match find_dot(s.as_str()) {
            Some(d) => {
                let len = s.as_str().unicode_len();
                let decimals = len - d - 1;
                if decimals < 3 {
                    let ghost start = s@;
                    let mut k: usize = 0;
                    while k < 3 - decimals
                        invariant
                            decimals < 3,
                            k <= 3 - decimals,
                            s@ == start + Seq::new(k as nat, |i: int| '0'),
                        decreases 3 - decimals - k,
                    {
                        push_char(&mut s, '0');
                        k = k + 1;
                        assert(s@ =~= start + Seq::new(k as nat, |i: int| '0'));
                    }
                }
                s
            },
            None => {
                append_str(&mut s, ".000");
                s
            },
        }
    }

    /// An amount with three decimals, followed by the report's currency.
    pub fn format_amount(&self, amount: Dec) -> (s: String)
        ensures
            s@ == three_places(decimal_text(decimal_rounded(amount, 3))) + " "@ + self.currency@,
    {
        let mut s = ZReport::format_amount_static(amount);
        append_str(&mut s, " ");
        append_str(&mut s, self.currency.as_str());
        s
    }

    /// Whether the day can be closed: at least one shift was closed.
    pub fn can_close(&self) -> (b: bool)
        ensures
            b == (self.total_shifts > 0),
    {
        self.total_shifts > 0
    }

    /// The variance status's spelling.
    pub fn variance_status_str(&self) -> (s: &'static str)
        ensures
            s@ == self.variance_status.wire(),
    {
        self.variance_status.as_str()
    }
}

} // verus!
