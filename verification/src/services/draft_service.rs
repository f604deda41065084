//! Held orders: a cart saved as a draft, how long it stays recallable, how it is stored and
//! read back, and the limits on saving one.
use vstd::prelude::*;

use crate::dec::{sum_all, Dec, Overflow};
use crate::ids::new_uuid;
use crate::models::cart::{quantities, Cart, CartItem};
use crate::text::{append_nat, append_str, nat_text, owned};
use crate::time::{instant_before, now, parse_rfc3339, rfc3339_instant, rfc3339_text, UtcInstant};

verus! {

/// Hours a draft stays recallable unless told otherwise.
pub const DEFAULT_DRAFT_EXPIRY_HOURS: i64 = 24i64;

/// Drafts one operator may hold at once.
pub const MAX_DRAFTS_PER_OPERATOR: usize = 10usize;

/// Why a draft could not be saved, found or read.
#[derive(Debug, Clone, PartialEq, Eq)]
pub enum DraftError {
    /// No draft has this identifier.
    NotFound(String),
    /// The draft has expired.
    Expired(String),
    /// An empty cart cannot be held.
    EmptyCart,
    /// The operator already holds this many drafts.
    LimitExceeded(usize),
    /// The cart could not be written.
    SerializationError(String),
    /// The stored draft could not be read.
    DeserializationError(String),
    /// The store failed.
    DatabaseError(String),
}

impl DraftError {
    /// The sentence this error says.
    pub fn message(&self) -> (s: String)
        ensures
            self matches DraftError::NotFound(id) ==> s@ == "Draft not found: "@ + id@,
            self matches DraftError::Expired(id) ==> s@ == "Draft has expired: "@ + id@,
            self is EmptyCart ==> s@ == "Cannot save empty cart"@,
            self matches DraftError::LimitExceeded(n) ==> s@ == "Maximum drafts limit reached ("@
                + nat_text(n as nat) + ")"@,
            self matches DraftError::SerializationError(m) ==> s@ == "Failed to serialize cart: "@
                + m@,
            self matches DraftError::DeserializationError(m) ==> s@
                == "Failed to deserialize cart: "@ + m@,
            self matches DraftError::DatabaseError(m) ==> s@ == "Database error: "@ + m@,
    {
        match self {
            DraftError::NotFound(id) => {
                let mut s = owned("Draft not found: ");
                append_str(&mut s, id.as_str());
                s
            },
            DraftError::Expired(id) => {
                let mut s = owned("Draft has expired: ");
                append_str(&mut s, id.as_str());
                s
            },
            DraftError::EmptyCart => owned("Cannot save empty cart"),
            DraftError::LimitExceeded(n) => {
                let mut s = owned("Maximum drafts limit reached (");
                append_nat(&mut s, *n as u64);
                append_str(&mut s, ")");
                s
            },
            DraftError::SerializationError(m) => {
                let mut s = owned("Failed to serialize cart: ");
                append_str(&mut s, m.as_str());
                s
            },
            DraftError::DeserializationError(m) => {
                let mut s = owned("Failed to deserialize cart: ");
                append_str(&mut s, m.as_str());
                s
            },
            DraftError::DatabaseError(m) => {
                let mut s = owned("Database error: ");
                append_str(&mut s, m.as_str());
                s
            },
        }
    }
}

/// A held order.
#[derive(Clone, Debug)]
pub struct Draft {
    /// The draft's identifier.
    pub id: String,
    /// Its name, when given one.
    pub name: Option<String>,
    /// The cart as it was held.
    pub cart: Cart,
    /// Lines in the cart.
    pub item_count: usize,
    /// Units in the cart; zero when their sum overflows.
    pub total_quantity: Dec,
    /// The cart's grand total.
    pub total_amount: Dec,
    /// The customer.
    pub customer_id: Option<String>,
    /// The customer's name.
    pub customer_name: Option<String>,
    /// Who held it.
    pub operator_id: Option<String>,
    /// The shift it was held in.
    pub shift_id: Option<String>,
    /// When it was held.
    pub created_at: UtcInstant,
    /// When it stops being recallable.
    pub expires_at: Option<UtcInstant>,
}

/// The total quantity a draft reports: the units' sum, or zero when it overflows.
pub open spec fn quantity_of(items: Seq<CartItem>) -> Dec {
    match sum_all(quantities(items)) {
        Some(q) => q,
        None => Dec::spec_zero(),
    }
}

/// The units across a cart's lines, or zero when the sum overflows.
fn total_quantity(cart: &Cart) -> (q: Dec)
    ensures
        q == quantity_of(cart.items@),
{
    match cart.item_count() {
        Some(q) => q,
        None => Dec::zero(),
    }
}

impl Draft {
    /// A draft of `cart` held at `now`, recallable for `expiry_hours` (forever when `None`).
    pub fn from_cart_at(
        cart: &Cart,
        name: Option<String>,
        operator_id: Option<String>,
        shift_id: Option<String>,
        expiry_hours: Option<i64>,
        now: UtcInstant,
    ) -> (d: Draft)
        requires
            expiry_hours matches Some(h) ==> i64::MIN <= h * 3600 <= i64::MAX && i64::MIN
                <= now.spec_secs() + h * 3600 <= i64::MAX,
        ensures
            d.name == name && d.operator_id == operator_id && d.shift_id == shift_id,
            d.cart.items@ == cart.items@ && d.cart.grand_total == cart.grand_total,
            d.item_count == cart.items@.len(),
            d.total_quantity == quantity_of(cart.items@),
            d.total_amount == cart.grand_total,
            d.customer_id == cart.customer_id && d.customer_name == cart.customer_name,
            d.created_at == now,
            expiry_hours is None ==> d.expires_at is None,
            expiry_hours matches Some(h) ==> (d.expires_at matches Some(e) && e.spec_secs()
                == now.spec_secs() + h * 3600 && e.spec_nanos() == now.spec_nanos()),
    {
        let expires_at = match expiry_hours {
            Some(h) => now.plus_seconds(h * 3600),
            None => None,
        };
        let items = cart.items.clone();
        assert(items@ =~= cart.items@);
        let held = Cart {
            items,
            customer_id: cart.customer_id.clone(),
            customer_name: cart.customer_name.clone(),
            customer_balance: cart.customer_balance,
            subtotal: cart.subtotal,
            tax_total: cart.tax_total,
            discount_total: cart.discount_total,
            grand_total: cart.grand_total,
            cart_discount_percent: cart.cart_discount_percent,
            cart_discount_amount: cart.cart_discount_amount,
            note: cart.note.clone(),
        };
        Draft {
            id: new_uuid(),
            name,
            item_count: cart.line_count(),
            total_quantity: total_quantity(cart),
            total_amount: cart.grand_total,
            customer_id: cart.customer_id.clone(),
            customer_name: cart.customer_name.clone(),
            cart: held,
            operator_id,
            shift_id,
            created_at: now,
            expires_at,
        }
    }

    /// The draft's name, or `Unnamed Draft`.
    pub fn display_name(&self) -> (s: &str)
        ensures
            self.name matches Some(n) ==> s@ == n@,
            self.name is None ==> s@ == "Unnamed Draft"@,
    {
        match &self.name {
            Some(n) => n.as_str(),
            None => "Unnamed Draft",
        }
    }

    /// Whether the draft has expired at `now`: strictly after its expiry, and never when it
    /// has none.
    pub fn is_expired_at(&self, now: UtcInstant) -> (b: bool)
        ensures
            self.expires_at is None ==> !b,
            self.expires_at matches Some(e) ==> b == instant_before(e, now),
    {
        match self.expires_at {
            Some(e) => e.is_before(&now),
            None => false,
        }
    }

    /// Whether the draft has expired, by the machine's clock.
    pub fn is_expired(&self) -> (b: bool)
        ensures
            self.expires_at is None ==> !b,
            self.expires_at matches Some(e) ==> exists|at: UtcInstant|
                rfc3339_text(at) is Some && b == instant_before(e, at),
    {
        let at = now();
        let b = self.is_expired_at(at);
        assert(self.expires_at matches Some(e) ==> rfc3339_text(at) is Some && b == instant_before(e, at));
        b
    }

    /// Nanoseconds until the draft expires at `now`, zero once it has; `None` without an
    /// expiry.
    pub fn time_until_expiry_at(&self, now: UtcInstant) -> (r: Option<i128>)
        ensures
            self.expires_at is None ==> r is None,
            self.expires_at matches Some(e) ==> (r matches Some(d) && (instant_before(now, e) ==> d
                == (e.spec_secs() - now.spec_secs()) * 1_000_000_000 + e.spec_nanos()
                - now.spec_nanos()) && (!instant_before(now, e) ==> d == 0)),
    {
        match self.expires_at {
            Some(e) => {
                if now.is_before(&e) {
                    proof {
                        e.lemma_ranges();
                        now.lemma_ranges();
                    }
                    let secs: i128 = (e.secs() as i128) - (now.secs() as i128);
                    assert(-0x1_0000_0000_0000_0000 <= secs <= 0x1_0000_0000_0000_0000);
                    let span: i128 = secs * 1_000_000_000i128 + (e.nanos() as i128) - (
                    now.nanos() as i128);
                    Some(span)
                } else {
                    Some(0)
                }
            },
            None => None,
        }
    }

    /// Whether the draft carries a customer.
    pub fn has_customer(&self) -> (b: bool)
        ensures
            b == self.customer_id is Some,
    {
        self.customer_id.is_some()
    }

    /// The row to store, given the cart's lines and discount already written as JSON. The
    /// times are written in RFC 3339.
    pub fn to_db_row(&self, items_json: String, discount_json: Option<String>) -> (row: DraftRow)
        requires
            rfc3339_text(self.created_at) is Some,
            self.expires_at matches Some(e) ==> rfc3339_text(e) is Some,
        ensures
            row.id == self.id && row.name == self.name && row.items_json == items_json,
            row.customer_id == self.customer_id && row.customer_name == self.customer_name,
            row.discount_json == discount_json && row.notes == self.cart.note,
            Some(row.created_at@) == rfc3339_text(self.created_at),
            self.expires_at is None ==> row.expires_at is None,
            self.expires_at matches Some(e) ==> (row.expires_at matches Some(t) && Some(t@)
                == rfc3339_text(e)),
            row.operator_id == self.operator_id && row.shift_id == self.shift_id,
    {
        let created_at = match self.created_at.to_rfc3339() {
            Some(t) => t,
            None => String::new(),
        };
        let expires_at = match self.expires_at {
            Some(e) => e.to_rfc3339(),
            None => None,
        };
        DraftRow {
            id: self.id.clone(),
            name: self.name.clone(),
            items_json,
            customer_id: self.customer_id.clone(),
            customer_name: self.customer_name.clone(),
            discount_json,
            notes: self.cart.note.clone(),
            created_at,
            expires_at,
            operator_id: self.operator_id.clone(),
            shift_id: self.shift_id.clone(),
        }
    }

    /// Reads a stored draft, given its lines as parsed from `items_json` (or why they did not
    /// parse) and the cart discount read from `discount_json`. An unreadable creation time is
    /// refused; an unreadable expiry reads as none. The cart's totals are recomputed.
    pub fn from_db_row(
        row: DraftRow,
        items: Result<Vec<CartItem>, String>,
        discount_percent: Option<Dec>,
        discount_amount: Option<Dec>,
    ) -> (r: DraftResult<Draft>)
        ensures
            items matches Err(e) ==> r == Err::<Draft, DraftError>(DraftError::DeserializationError(e)),
            items is Ok && rfc3339_instant(row.created_at@) is None ==> r
                is Err && r->Err_0 is DeserializationError,
            r matches Ok(d) ==> d.id == row.id && d.name == row.name && d.customer_id
                == row.customer_id && d.operator_id == row.operator_id && d.shift_id == row.shift_id
                && Some(d.created_at) == rfc3339_instant(row.created_at@) && d.cart.items@
                == items->Ok_0@ && d.item_count == d.cart.items@.len() && d.total_amount
                == d.cart.grand_total && d.cart.totals() is Some,
            r matches Ok(d) ==> (row.expires_at is None ==> d.expires_at is None),
            r matches Ok(d) ==> (row.expires_at matches Some(t) ==> d.expires_at == rfc3339_instant(
                t@,
            )),
            r matches Ok(d) ==> d.cart.cart_discount_percent == (match discount_percent {
                Some(p) => p,
                None => Dec::spec_zero(),
            }) && d.cart.cart_discount_amount == (match discount_amount {
                Some(a) => a,
                None => Dec::spec_zero(),
            }),
    {
        let items = match items {
            Ok(v) => v,
            Err(e) => return Err(DraftError::DeserializationError(e)),
        };
        let mut cart = Cart::new();
        cart.items = items;
        cart.customer_id = row.customer_id.clone();
        cart.customer_name = row.customer_name.clone();
        cart.note = row.notes.clone();
        match discount_percent {
            Some(p) => cart.cart_discount_percent = p,
            None => {},
        }
        match discount_amount {
            Some(a) => cart.cart_discount_amount = a,
            None => {},
        }
        match cart.recalculate() {
            Ok(()) => {},
            Err(Overflow) => {
                return Err(
                    DraftError::DeserializationError(owned("the cart's totals overflow a decimal")),
                );
            },
        }
        let created_at = match parse_rfc3339(row.created_at.as_str()) {
            Some(t) => t,
            None => {
                return Err(
                    DraftError::DeserializationError(owned("the draft's creation time is not an RFC 3339 instant")),
                );
            },
        };
        let expires_at = match &row.expires_at {
            Some(t) => parse_rfc3339(t.as_str()),
            None => None,
        };
        let item_count = cart.line_count();
        let total_quantity = total_quantity(&cart);
        let total_amount = cart.grand_total;
        Ok(
            Draft {
                id: row.id,
                name: row.name,
                item_count,
                total_quantity,
                total_amount,
                cart,
                customer_id: row.customer_id,
                customer_name: row.customer_name,
                operator_id: row.operator_id,
                shift_id: row.shift_id,
                created_at,
                expires_at,
            },
        )
    }
}

/// A result of a draft operation.
pub type DraftResult<T> = Result<T, DraftError>;

/// A draft as the store holds it.
#[derive(Clone, Debug)]
pub struct DraftRow {
    /// The draft's identifier.
    pub id: String,
    /// Its name.
    pub name: Option<String>,
    /// The cart's lines, as JSON.
    pub items_json: String,
    /// The customer.
    pub customer_id: Option<String>,
    /// The customer's name.
    pub customer_name: Option<String>,
    /// The cart discount, as JSON, when one is set.
    pub discount_json: Option<String>,
    /// The cart's note.
    pub notes: Option<String>,
    /// When it was held, RFC 3339.
    pub created_at: String,
    /// When it expires, RFC 3339.
    pub expires_at: Option<String>,
    /// Who held it.
    pub operator_id: Option<String>,
    /// The shift.
    pub shift_id: Option<String>,
}

/// Whether a cart's discount is stored with its draft: only when a percentage or an amount
/// above zero is set.
pub fn stores_discount(cart: &Cart) -> (b: bool)
    ensures
        b == (cart.cart_discount_percent.is_pos() || cart.cart_discount_amount.is_pos()),
{
    cart.cart_discount_percent.is_positive() || cart.cart_discount_amount.is_positive()
}

/// Whether a cart may be held by an operator who already holds `held` drafts: not an empty
/// cart, and not past the limit.
pub fn check_can_hold(cart: &Cart, held: usize) -> (r: DraftResult<()>)
    ensures
        cart.items@.len() == 0 ==> r == Err::<(), DraftError>(DraftError::EmptyCart),
        cart.items@.len() > 0 && held >= MAX_DRAFTS_PER_OPERATOR ==> r == Err::<(), DraftError>(
            DraftError::LimitExceeded(MAX_DRAFTS_PER_OPERATOR),
        ),
        cart.items@.len() > 0 && held < MAX_DRAFTS_PER_OPERATOR ==> r is Ok,
{
    if cart.is_empty() {
        return Err(DraftError::EmptyCart);
    }
    if held >= MAX_DRAFTS_PER_OPERATOR {
        return Err(DraftError::LimitExceeded(MAX_DRAFTS_PER_OPERATOR));
    }
    Ok(())
}

/// The cart a draft gives back when recalled at `now`: refused once the draft has expired.
pub fn recall_at(draft: Draft, draft_id: &str, now: UtcInstant) -> (r: DraftResult<Cart>)
    ensures
        draft.expires_at matches Some(e) && instant_before(e, now) ==> (r matches Err(
            DraftError::Expired(id),
        ) && id@ == draft_id@),
        !(draft.expires_at matches Some(e) && instant_before(e, now)) ==> (r matches Ok(c) && c
            == draft.cart),
{
    if draft.is_expired_at(now) {
        return Err(DraftError::Expired(owned(draft_id)));
    }
    Ok(draft.cart)
}

} // verus!
