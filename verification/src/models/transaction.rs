//! Transactions: sales and returns, their lines and their payments.
//!
//! A transaction is a draft until it is completed, which needs it to be fully paid; it can be
//! voided once, from any state but voided.
use vstd::prelude::*;

use crate::dec::{
    difference_of, opt_difference, opt_product, opt_sum, pow10, product_of, sum_all, value_le,
    value_lt, Dec, Overflow,
};
use crate::ids::new_uuid;
use crate::models::cart::{Cart, CartItem};
use crate::models::operator::{OperatorId, RecordedOperatorName};
use crate::models::parse::ParseError;
use crate::models::product::localized;
use crate::text::{
    append_nat, append_padded, append_str, ascii_lower, eq_ignore_ascii_case, nat_text, owned,
    padded_text, str_eq, to_unicode_upper, unicode_upper, lemma_padded_len,
};
use crate::time::{civil_in_range, now, now_civil, CivilTime, UtcInstant};

verus! {

// ============================================================================
// TransactionStatus
// ============================================================================

/// Where a transaction stands.
#[derive(Clone, Copy, Debug, PartialEq, Eq, Structural)]
pub enum TransactionStatus {
    /// Being rung up.
    Draft,
    /// Paid and closed.
    Completed,
    /// Cancelled.
    Voided,
    /// Returned.
    Returned,
}

impl TransactionStatus {
    /// The spelling storage uses.
    pub open spec fn wire(self) -> Seq<char> {
        match self {
            TransactionStatus::Draft => "DRAFT"@,
            TransactionStatus::Completed => "COMPLETED"@,
            TransactionStatus::Voided => "VOIDED"@,
            TransactionStatus::Returned => "RETURNED"@,
        }
    }

    /// The status an upper-cased spelling names, if any.
    pub open spec fn parse_upper(k: Seq<char>) -> Option<TransactionStatus> {
        if k == "DRAFT"@ {
            Some(TransactionStatus::Draft)
        } else if k == "COMPLETED"@ {
            Some(TransactionStatus::Completed)
        } else if k == "VOIDED"@ {
            Some(TransactionStatus::Voided)
        } else if k == "RETURNED"@ {
            Some(TransactionStatus::Returned)
        } else {
            None
        }
    }

    /// The spelling storage uses.
    pub fn as_str(&self) -> (s: &'static str)
        ensures
            s@ == self.wire(),
    {
        match self {
            TransactionStatus::Draft => "DRAFT",
            TransactionStatus::Completed => "COMPLETED",
            TransactionStatus::Voided => "VOIDED",
            TransactionStatus::Returned => "RETURNED",
        }
    }

    /// Reads a stored status in any case; an unknown status is refused and named.
    pub fn from_str(raw: &str) -> (r: Result<TransactionStatus, ParseError>)
        ensures
            r matches Ok(t) ==> TransactionStatus::parse_upper(unicode_upper(raw@)) == Some(t),
            r is Err <==> TransactionStatus::parse_upper(unicode_upper(raw@)) is None,
            r matches Err(e) ==> e matches ParseError::TransactionStatus(v) && v@ == raw@,
    {
        let upper = to_unicode_upper(raw);
        let k = upper.as_str();
        if str_eq(k, "DRAFT") {
            Ok(TransactionStatus::Draft)
        } else if str_eq(k, "COMPLETED") {
            Ok(TransactionStatus::Completed)
        } else if str_eq(k, "VOIDED") {
            Ok(TransactionStatus::Voided)
        } else if str_eq(k, "RETURNED") {
            Ok(TransactionStatus::Returned)
        } else {
            Err(ParseError::TransactionStatus(owned(raw)))
        }
    }
}

impl Default for TransactionStatus {
    fn default() -> (s: TransactionStatus)
        ensures
            s == TransactionStatus::Draft,
    {
        TransactionStatus::Draft
    }
}

impl std::str::FromStr for TransactionStatus {
    type Err = ParseError;

    fn from_str(raw: &str) -> Result<TransactionStatus, ParseError> {
        TransactionStatus::from_str(raw)
    }
}

// ============================================================================
// PaymentMethod
// ============================================================================

/// How a payment was made.
#[derive(Clone, Copy, Debug, PartialEq, Eq, Structural)]
pub enum PaymentMethod {
    /// Cash.
    Cash,
    /// A card.
    Card,
    /// A mobile wallet.
    Wallet,
    /// On the customer's account.
    Credit,
    /// Anything else.
    Other,
}

impl PaymentMethod {
    /// The spelling storage uses.
    pub open spec fn wire(self) -> Seq<char> {
        match self {
            PaymentMethod::Cash => "CASH"@,
            PaymentMethod::Card => "CARD"@,
            PaymentMethod::Wallet => "WALLET"@,
            PaymentMethod::Credit => "CREDIT"@,
            PaymentMethod::Other => "OTHER"@,
        }
    }

    /// The method an upper-cased spelling names, if any.
    pub open spec fn parse_upper(k: Seq<char>) -> Option<PaymentMethod> {
        if k == "CASH"@ {
            Some(PaymentMethod::Cash)
        } else if k == "CARD"@ {
            Some(PaymentMethod::Card)
        } else if k == "WALLET"@ {
            Some(PaymentMethod::Wallet)
        } else if k == "CREDIT"@ {
            Some(PaymentMethod::Credit)
        } else if k == "OTHER"@ {
            Some(PaymentMethod::Other)
        } else {
            None
        }
    }

    /// The name shown on screen in English.
    pub open spec fn english_name(self) -> Seq<char> {
        match self {
            PaymentMethod::Cash => "Cash"@,
            PaymentMethod::Card => "Card"@,
            PaymentMethod::Wallet => "Wallet"@,
            PaymentMethod::Credit => "Credit"@,
            PaymentMethod::Other => "Other"@,
        }
    }

    /// The name shown on screen in Arabic.
    pub open spec fn arabic_name(self) -> Seq<char> {
        match self {
            PaymentMethod::Cash => "نقدي"@,
            PaymentMethod::Card => "بطاقة"@,
            PaymentMethod::Wallet => "محفظة"@,
            PaymentMethod::Credit => "آجل"@,
            PaymentMethod::Other => "أخرى"@,
        }
    }

    /// The spelling storage uses.
    pub fn as_str(&self) -> (s: &'static str)
        ensures
            s@ == self.wire(),
    {
        match self {
            PaymentMethod::Cash => "CASH",
            PaymentMethod::Card => "CARD",
            PaymentMethod::Wallet => "WALLET",
            PaymentMethod::Credit => "CREDIT",
            PaymentMethod::Other => "OTHER",
        }
    }

    /// The name for a locale: Arabic for `ar`, English otherwise.
    pub fn display_name(&self, locale: &str) -> (s: &'static str)
        ensures
            s@ == (if locale@ == "ar"@ {
                self.arabic_name()
            } else {
                self.english_name()
            }),
    {
        if str_eq(locale, "ar") {
            match self {
                PaymentMethod::Cash => "نقدي",
                PaymentMethod::Card => "بطاقة",
                PaymentMethod::Wallet => "محفظة",
                PaymentMethod::Credit => "آجل",
                PaymentMethod::Other => "أخرى",
            }
        } else {
            match self {
                PaymentMethod::Cash => "Cash",
                PaymentMethod::Card => "Card",
                PaymentMethod::Wallet => "Wallet",
                PaymentMethod::Credit => "Credit",
                PaymentMethod::Other => "Other",
            }
        }
    }

    /// Reads a stored method in any case; an unknown method is refused and named.
    pub fn from_str(raw: &str) -> (r: Result<PaymentMethod, ParseError>)
        ensures
            r matches Ok(m) ==> PaymentMethod::parse_upper(unicode_upper(raw@)) == Some(m),
            r is Err <==> PaymentMethod::parse_upper(unicode_upper(raw@)) is None,
            r matches Err(e) ==> e matches ParseError::PaymentMethod(v) && v@ == raw@,
    {
        let upper = to_unicode_upper(raw);
        let k = upper.as_str();
        if str_eq(k, "CASH") {
            Ok(PaymentMethod::Cash)
        } else if str_eq(k, "CARD") {
            Ok(PaymentMethod::Card)
        } else if str_eq(k, "WALLET") {
            Ok(PaymentMethod::Wallet)
        } else if str_eq(k, "CREDIT") {
            Ok(PaymentMethod::Credit)
        } else if str_eq(k, "OTHER") {
            Ok(PaymentMethod::Other)
        } else {
            Err(ParseError::PaymentMethod(owned(raw)))
        }
    }
}

impl Default for PaymentMethod {
    fn default() -> (m: PaymentMethod)
        ensures
            m == PaymentMethod::Cash,
    {
        PaymentMethod::Cash
    }
}

impl std::str::FromStr for PaymentMethod {
    type Err = ParseError;

    fn from_str(raw: &str) -> Result<PaymentMethod, ParseError> {
        PaymentMethod::from_str(raw)
    }
}

// ============================================================================
// Payment
// ============================================================================

/// One payment towards a transaction.
#[derive(Clone, Debug)]
pub struct Payment {
    /// The payment's identifier.
    pub id: String,
    /// How it was paid.
    pub method: PaymentMethod,
    /// How much.
    pub amount: Dec,
    /// The currency.
    pub currency: String,
    /// A reference: the card's authorisation code, the wallet's transaction, the customer.
    pub reference: Option<String>,
    /// The card's last four digits.
    pub card_last_four: Option<String>,
    /// The card's scheme.
    pub card_type: Option<String>,
    /// The card's authorisation code.
    pub auth_code: Option<String>,
    /// The wallet.
    pub wallet_type: Option<String>,
    /// When it was taken.
    pub created_at: UtcInstant,
}

impl Payment {
    /// A payment of `method` with no card or wallet details.
    pub fn new(method: PaymentMethod, amount: Dec, currency: &str) -> (p: Payment)
        ensures
            p.method == method && p.amount == amount && p.currency@ == currency@,
            p.reference is None && p.card_last_four is None && p.card_type is None,
            p.auth_code is None && p.wallet_type is None,
    {
        Payment {
            id: new_uuid(),
            method,
            amount,
            currency: owned(currency),
            reference: None,
            card_last_four: None,
            card_type: None,
            auth_code: None,
            wallet_type: None,
            created_at: now(),
        }
    }

    /// A cash payment.
    pub fn cash(amount: Dec, currency: &str) -> (p: Payment)
        ensures
            p.method == PaymentMethod::Cash && p.amount == amount && p.currency@ == currency@,
            p.reference is None && p.card_last_four is None && p.card_type is None,
            p.auth_code is None && p.wallet_type is None,
    {
        Payment::new(PaymentMethod::Cash, amount, currency)
    }

    /// A card payment; the authorisation code is also its reference.
    pub fn card(
        amount: Dec,
        currency: &str,
        card_last_four: &str,
        card_type: &str,
        auth_code: &str,
    ) -> (p: Payment)
        ensures
            p.method == PaymentMethod::Card && p.amount == amount && p.currency@ == currency@,
            p.reference matches Some(r) && r@ == auth_code@,
            p.card_last_four matches Some(c) && c@ == card_last_four@,
            p.card_type matches Some(c) && c@ == card_type@,
            p.auth_code matches Some(c) && c@ == auth_code@,
            p.wallet_type is None,
    {
        Payment {
            id: new_uuid(),
            method: PaymentMethod::Card,
            amount,
            currency: owned(currency),
            reference: Some(owned(auth_code)),
            card_last_four: Some(owned(card_last_four)),
            card_type: Some(owned(card_type)),
            auth_code: Some(owned(auth_code)),
            wallet_type: None,
            created_at: now(),
        }
    }

    /// A wallet payment; the wallet's transaction is its reference.
    pub fn wallet(amount: Dec, currency: &str, wallet_type: &str, transaction_id: &str) -> (p:
        Payment)
        ensures
            p.method == PaymentMethod::Wallet && p.amount == amount && p.currency@ == currency@,
            p.reference matches Some(r) && r@ == transaction_id@,
            p.wallet_type matches Some(w) && w@ == wallet_type@,
            p.card_last_four is None && p.card_type is None && p.auth_code is None,
    {
        Payment {
            id: new_uuid(),
            method: PaymentMethod::Wallet,
            amount,
            currency: owned(currency),
            reference: Some(owned(transaction_id)),
            card_last_four: None,
            card_type: None,
            auth_code: None,
            wallet_type: Some(owned(wallet_type)),
            created_at: now(),
        }
    }

    /// A payment on the customer's account; the customer is its reference.
    pub fn credit(amount: Dec, currency: &str, customer_id: &str) -> (p: Payment)
        ensures
            p.method == PaymentMethod::Credit && p.amount == amount && p.currency@ == currency@,
            p.reference matches Some(r) && r@ == customer_id@,
            p.card_last_four is None && p.card_type is None && p.auth_code is None,
            p.wallet_type is None,
    {
        Payment {
            id: new_uuid(),
            method: PaymentMethod::Credit,
            amount,
            currency: owned(currency),
            reference: Some(owned(customer_id)),
            card_last_four: None,
            card_type: None,
            auth_code: None,
            wallet_type: None,
            created_at: now(),
        }
    }
}

// ============================================================================
// TransactionItem
// ============================================================================

/// A line of a transaction, copied from a cart line.
#[derive(Clone, Debug)]
pub struct TransactionItem {
    /// The line's identifier.
    pub id: String,
    /// The product.
    pub product_id: String,
    /// The English name.
    pub product_name: String,
    /// The Arabic name.
    pub product_name_ar: Option<String>,
    /// The SKU.
    pub sku: String,
    /// The barcode.
    pub barcode: Option<String>,
    /// How many.
    pub quantity: Dec,
    /// The unit's English label.
    pub unit: String,
    /// The price of one unit.
    pub unit_price: Dec,
    /// The tax rate.
    pub tax_rate: Dec,
    /// The line's tax.
    pub tax_amount: Dec,
    /// The line's discount.
    pub discount_amount: Dec,
    /// The line's total.
    pub line_total: Dec,
    /// The product type's spelling.
    pub product_type: String,
    /// Whether stock was taken for it.
    pub inventory_deducted: bool,
}

impl TransactionItem {
    /// The transaction line for a cart line, with a fresh identifier.
    pub fn from_cart_item(item: &CartItem) -> (t: TransactionItem)
        ensures
            t.product_id == item.product_id && t.product_name == item.product_name,
            t.product_name_ar == item.product_name_ar && t.sku == item.sku,
            t.barcode == item.barcode && t.quantity == item.quantity,
            t.unit@ == item.unit.english_label(),
            t.unit_price == item.unit_price && t.tax_rate == item.tax_rate,
            t.tax_amount == item.line_tax && t.discount_amount == item.line_discount,
            t.line_total == item.line_total,
            t.product_type@ == item.product_type.wire(),
            t.inventory_deducted == item.track_inventory,
    {
        proof {
            reveal_strlit("en");
            reveal_strlit("ar");
            assert("en"@[0] != "ar"@[0]);
        }
        TransactionItem {
            id: new_uuid(),
            product_id: item.product_id.clone(),
            product_name: item.product_name.clone(),
            product_name_ar: item.product_name_ar.clone(),
            sku: item.sku.clone(),
            barcode: item.barcode.clone(),
            quantity: item.quantity,
            unit: owned(item.unit.label("en")),
            unit_price: item.unit_price,
            tax_rate: item.tax_rate,
            tax_amount: item.line_tax,
            discount_amount: item.line_discount,
            line_total: item.line_total,
            product_type: owned(item.product_type.as_str()),
            inventory_deducted: item.track_inventory,
        }
    }

    /// The product's name for a locale.
    pub fn display_name(&self, locale: &str) -> (s: &str)
        ensures
            s@ == localized(locale@, self.product_name@, self.product_name_ar),
    {
        if str_eq(locale, "ar") {
            match &self.product_name_ar {
                Some(a) => a.as_str(),
                None => self.product_name.as_str(),
            }
        } else {
            self.product_name.as_str()
        }
    }

    /// Price times quantity, plus the tax: the line before its discount.
    pub fn original_total(&self) -> (r: Option<Dec>)
        ensures
            r == crate::dec::sum_of(
                product_of(Some(self.unit_price), Some(self.quantity)),
                Some(self.tax_amount),
            ),
    {
        opt_sum(opt_product(Some(self.unit_price), Some(self.quantity)), Some(self.tax_amount))
    }
}

// ============================================================================
// Transaction
// ============================================================================

/// A sale or a return, with its lines, payments and totals.
#[derive(Clone, Debug)]
pub struct Transaction {
    /// The transaction's identifier.
    pub id: String,
    /// The human-facing number.
    pub transaction_number: String,
    /// `sale` or `return`.
    pub transaction_type: String,
    /// The lines.
    pub items: Vec<TransactionItem>,
    /// The payments.
    pub payments: Vec<Payment>,
    /// Before tax.
    pub subtotal: Dec,
    /// The tax.
    pub tax_total: Dec,
    /// The discounts.
    pub discount_total: Dec,
    /// What is owed.
    pub grand_total: Dec,
    /// The currency.
    pub currency: String,
    /// The customer.
    pub customer_id: Option<String>,
    /// The customer's name.
    pub customer_name: Option<String>,
    /// The shift.
    pub shift_id: String,
    /// The terminal.
    pub terminal_id: String,
    /// Who rang it up.
    pub operator_id: OperatorId,
    /// Their name as rendered.
    pub operator_name: Option<RecordedOperatorName>,
    /// Where it stands.
    pub status: TransactionStatus,
    /// When it was started.
    pub created_at: UtcInstant,
    /// When it was completed.
    pub completed_at: Option<UtcInstant>,
    /// When it was voided.
    pub voided_at: Option<UtcInstant>,
    /// Why it was voided.
    pub void_reason: Option<String>,
    /// A note.
    pub note: Option<String>,
    /// The printed receipt's number.
    pub receipt_number: Option<String>,
    /// The server's identifier once synced.
    pub server_id: Option<String>,
}

/// The payments' amounts, in order.
pub open spec fn amounts(payments: Seq<Payment>) -> Seq<Dec> {
    payments.map_values(|p: Payment| p.amount)
}

/// The lines' quantities, in order.
pub open spec fn item_quantities(items: Seq<TransactionItem>) -> Seq<Dec> {
    items.map_values(|i: TransactionItem| i.quantity)
}

/// What is still owed, given what was paid: never below zero.
pub open spec fn remaining_of(grand_total: Dec, paid: Dec) -> Option<Dec> {
    match difference_of(Some(grand_total), Some(paid)) {
        Some(r) => Some(
            if value_le(r, Dec::spec_zero()) {
                Dec::spec_zero()
            } else {
                r
            },
        ),
        None => None,
    }
}

/// The change due, given what was paid: the excess over the total, else zero.
pub open spec fn change_of(grand_total: Dec, paid: Dec) -> Option<Dec> {
    if value_lt(grand_total, paid) {
        difference_of(Some(paid), Some(grand_total))
    } else {
        Some(Dec::spec_zero())
    }
}

/// The text of a transaction number: `TXN`, the two-digit year, month, day, hour and minute,
/// and a four-digit suffix.
pub open spec fn transaction_number_text(c: CivilTime, suffix: nat) -> Seq<char> {
    "TXN"@ + padded_text((c.year as int % 100) as nat, 2) + padded_text(c.month as nat, 2)
        + padded_text(c.day as nat, 2) + padded_text(c.hour as nat, 2) + padded_text(
        c.minute as nat,
        2,
    ) + padded_text(suffix, 4)
}

/// The text of a receipt number: the terminal, `-`, the two-digit year, month and day, `-`,
/// and the sequence padded to six digits.
pub open spec fn receipt_number_text(terminal_id: Seq<char>, c: CivilTime, sequence: nat) -> Seq<
    char,
> {
    terminal_id + "-"@ + padded_text((c.year as int % 100) as nat, 2) + padded_text(
        c.month as nat,
        2,
    ) + padded_text(c.day as nat, 2) + "-"@ + padded_text(sequence, 6)
}

/// The year modulo one hundred, as `%y` writes it.
fn two_digit_year(year: i32) -> (y: u64)
    ensures
        y == year as int % 100,
        y < 100,
{
    let r: i32 = year % 100;
    if r < 0 {
        (r + 100) as u64
    } else {
        r as u64
    }
}

/// `uuid::Uuid::new_v4()`'s first two bytes. Nothing is stated of them: they are random.
#[verifier::external_body]
fn random_uuid_prefix() -> (r: (u8, u8)) {
    let u = uuid::Uuid::new_v4();
    let b = u.as_bytes();
    (b[0], b[1])
}

/// A fresh transaction number: `TXN`, the time to the minute, and four digits taken from a
/// random identifier; seventeen characters in all.
pub fn generate_transaction_number() -> (s: String)
    ensures
        exists|c: CivilTime, suffix: nat| civil_in_range(c) && suffix < 10000 && s@
            == transaction_number_text(c, suffix),
        s@.len() == 17,
{
    let c = now_civil();
    let (b0, b1) = random_uuid_prefix();
    let suffix: u64 = ((b0 as u64) * 256 + (b1 as u64)) % 10000;
    let y = two_digit_year(c.year);
    let mut s = owned("TXN");
    append_padded(&mut s, y, 2);
    append_padded(&mut s, c.month as u64, 2);
    append_padded(&mut s, c.day as u64, 2);
    append_padded(&mut s, c.hour as u64, 2);
    append_padded(&mut s, c.minute as u64, 2);
    append_padded(&mut s, suffix, 4);
    proof {
        reveal_strlit("TXN");
        assert(pow10(2) == 100) by {
            reveal_with_fuel(crate::dec::pow10, 3);
        }
        assert(pow10(4) == 10000) by {
            reveal_with_fuel(crate::dec::pow10, 5);
        }
        lemma_padded_len(y as nat, 2);
        lemma_padded_len(c.month as nat, 2);
        lemma_padded_len(c.day as nat, 2);
        lemma_padded_len(c.hour as nat, 2);
        lemma_padded_len(c.minute as nat, 2);
        lemma_padded_len(suffix as nat, 4);
        assert(s@ == transaction_number_text(c, suffix as nat));
    }
    s
}

/// A receipt number for `terminal_id`: the terminal, today's date, and the sequence padded to
/// six digits.
pub fn generate_receipt_number(terminal_id: &str, sequence: u32) -> (s: String)
    ensures
        exists|c: CivilTime| civil_in_range(c) && s@ == receipt_number_text(
            terminal_id@,
            c,
            sequence as nat,
        ),
{
    let c = now_civil();
    let y = two_digit_year(c.year);
    let mut s = owned(terminal_id);
    append_str(&mut s, "-");
    append_padded(&mut s, y, 2);
    append_padded(&mut s, c.month as u64, 2);
    append_padded(&mut s, c.day as u64, 2);
    append_str(&mut s, "-");
    append_padded(&mut s, sequence as u64, 6);
    assert(s@ == receipt_number_text(terminal_id@, c, sequence as nat));
    s
}


/// Sums the payments' amounts.
fn sum_payments(payments: &Vec<Payment>) -> (r: Option<Dec>)
    ensures
        r == sum_all(amounts(payments@)),
{
    let ghost s = amounts(payments@);
    let mut acc: Option<Dec> = Some(Dec::zero());
    let mut k: usize = 0;
    assert(s.subrange(0, 0) =~= Seq::<Dec>::empty());
    while k < payments.len()
        invariant
            k <= payments@.len(),
            s == amounts(payments@),
            acc == sum_all(s.subrange(0, k as int)),
        decreases payments@.len() - k,
    {
        assert(s.subrange(0, k + 1).drop_last() =~= s.subrange(0, k as int));
        acc = opt_sum(acc, Some(payments[k].amount));
        k = k + 1;
    }
    assert(s.subrange(0, payments@.len() as int) =~= s);
    acc
}

impl Transaction {
    /// Only the payments may differ.
    pub open spec fn same_but_payments(self, other: Transaction) -> bool {
        &&& self.id == other.id
        &&& self.transaction_number == other.transaction_number
        &&& self.transaction_type == other.transaction_type
        &&& self.items@ == other.items@
        &&& self.subtotal == other.subtotal
        &&& self.tax_total == other.tax_total
        &&& self.discount_total == other.discount_total
        &&& self.grand_total == other.grand_total
        &&& self.currency == other.currency
        &&& self.customer_id == other.customer_id
        &&& self.status == other.status
        &&& self.void_reason == other.void_reason
        &&& self.receipt_number == other.receipt_number
    }

    /// What has been paid, if the sum does not overflow.
    pub open spec fn paid(self) -> Option<Dec> {
        sum_all(amounts(self.payments@))
    }

    /// A new draft with no lines or payments, a fresh identifier and number.
    pub fn new(
        transaction_type: &str,
        currency: &str,
        shift_id: &str,
        terminal_id: &str,
        operator_id: OperatorId,
        operator_name: RecordedOperatorName,
    ) -> (t: Transaction)
        ensures
            t.transaction_type@ == transaction_type@ && t.currency@ == currency@,
            t.shift_id@ == shift_id@ && t.terminal_id@ == terminal_id@,
            t.operator_id == operator_id && t.operator_name == Some(operator_name),
            t.items@.len() == 0 && t.payments@.len() == 0,
            t.subtotal == Dec::spec_zero() && t.tax_total == Dec::spec_zero(),
            t.discount_total == Dec::spec_zero() && t.grand_total == Dec::spec_zero(),
            t.customer_id is None && t.customer_name is None,
            t.status == TransactionStatus::Draft,
            t.completed_at is None && t.voided_at is None && t.void_reason is None,
            t.note is None && t.receipt_number is None && t.server_id is None,
            t.transaction_number@.len() == 17,
    {
        Transaction {
            id: new_uuid(),
            transaction_number: generate_transaction_number(),
            transaction_type: owned(transaction_type),
            items: Vec::new(),
            payments: Vec::new(),
            subtotal: Dec::zero(),
            tax_total: Dec::zero(),
            discount_total: Dec::zero(),
            grand_total: Dec::zero(),
            currency: owned(currency),
            customer_id: None,
            customer_name: None,
            shift_id: owned(shift_id),
            terminal_id: owned(terminal_id),
            operator_id,
            operator_name: Some(operator_name),
            status: TransactionStatus::Draft,
            created_at: now(),
            completed_at: None,
            voided_at: None,
            void_reason: None,
            note: None,
            receipt_number: None,
            server_id: None,
        }
    }

    /// A draft sale of a cart: its lines, totals, customer and note.
    pub fn from_cart(
        cart: &Cart,
        currency: &str,
        shift_id: &str,
        terminal_id: &str,
        operator_id: OperatorId,
        operator_name: RecordedOperatorName,
    ) -> (t: Transaction)
        ensures
            t.transaction_type@ == "sale"@ && t.currency@ == currency@,
            t.shift_id@ == shift_id@ && t.terminal_id@ == terminal_id@,
            t.operator_id == operator_id && t.operator_name == Some(operator_name),
            t.items@.len() == cart.items@.len(),
            forall|k: int| 0 <= k < cart.items@.len() ==> {
                &&& (#[trigger] t.items@[k]).product_id == cart.items@[k].product_id
                &&& t.items@[k].quantity == cart.items@[k].quantity
                &&& t.items@[k].unit_price == cart.items@[k].unit_price
                &&& t.items@[k].tax_amount == cart.items@[k].line_tax
                &&& t.items@[k].discount_amount == cart.items@[k].line_discount
                &&& t.items@[k].line_total == cart.items@[k].line_total
            },
            t.payments@.len() == 0,
            t.subtotal == cart.subtotal && t.tax_total == cart.tax_total,
            t.discount_total == cart.discount_total && t.grand_total == cart.grand_total,
            t.customer_id == cart.customer_id && t.customer_name == cart.customer_name,
            t.note == cart.note,
            t.status == TransactionStatus::Draft,
    {
        let mut txn = Transaction::new(
            "sale",
            currency,
            shift_id,
            terminal_id,
            operator_id,
            operator_name,
        );
        let mut items: Vec<TransactionItem> = Vec::new();
        let mut k: usize = 0;
        while k < cart.items.len()
            invariant
                k <= cart.items@.len(),
                items@.len() == k,
                forall|j: int| 0 <= j < k ==> {
                    &&& (#[trigger] items@[j]).product_id == cart.items@[j].product_id
                    &&& items@[j].quantity == cart.items@[j].quantity
                    &&& items@[j].unit_price == cart.items@[j].unit_price
                    &&& items@[j].tax_amount == cart.items@[j].line_tax
                    &&& items@[j].discount_amount == cart.items@[j].line_discount
                    &&& items@[j].line_total == cart.items@[j].line_total
                },
            decreases cart.items@.len() - k,
        {
            items.push(TransactionItem::from_cart_item(&cart.items[k]));
            k = k + 1;
        }
        txn.items = items;
        txn.subtotal = cart.subtotal;
        txn.tax_total = cart.tax_total;
        txn.discount_total = cart.discount_total;
        txn.grand_total = cart.grand_total;
        txn.customer_id = cart.customer_id.clone();
        txn.customer_name = cart.customer_name.clone();
        txn.note = cart.note.clone();
        proof {
            reveal_strlit("sale");
        }
        txn
    }

    /// Records a payment.
    pub fn add_payment(&mut self, payment: Payment)
        ensures
            final(self).payments@ == old(self).payments@.push(payment),
            final(self).same_but_payments(*old(self)),
    {
        self.payments.push(payment);
    }

    /// Records a cash payment in the transaction's currency.
    pub fn add_cash_payment(&mut self, amount: Dec)
        ensures
            final(self).payments@.len() == old(self).payments@.len() + 1,
            final(self).payments@.drop_last() == old(self).payments@,
            final(self).payments@.last().method == PaymentMethod::Cash,
            final(self).payments@.last().amount == amount,
            final(self).payments@.last().currency@ == old(self).currency@,
            final(self).same_but_payments(*old(self)),
    {
        let p = Payment::cash(amount, self.currency.as_str());
        self.payments.push(p);
        assert(final(self).payments@.drop_last() =~= old(self).payments@);
    }

    /// Records a card payment in the transaction's currency.
    pub fn add_card_payment(
        &mut self,
        amount: Dec,
        card_last_four: &str,
        card_type: &str,
        auth_code: &str,
    )
        ensures
            final(self).payments@.len() == old(self).payments@.len() + 1,
            final(self).payments@.drop_last() == old(self).payments@,
            final(self).payments@.last().method == PaymentMethod::Card,
            final(self).payments@.last().amount == amount,
            final(self).payments@.last().currency@ == old(self).currency@,
            final(self).same_but_payments(*old(self)),
    {
        let p = Payment::card(amount, self.currency.as_str(), card_last_four, card_type, auth_code);
        self.payments.push(p);
        assert(final(self).payments@.drop_last() =~= old(self).payments@);
    }

    /// Records a wallet payment in the transaction's currency.
    pub fn add_wallet_payment(&mut self, amount: Dec, wallet_type: &str, transaction_id: &str)
        ensures
            final(self).payments@.len() == old(self).payments@.len() + 1,
            final(self).payments@.drop_last() == old(self).payments@,
            final(self).payments@.last().method == PaymentMethod::Wallet,
            final(self).payments@.last().amount == amount,
            final(self).payments@.last().currency@ == old(self).currency@,
            final(self).same_but_payments(*old(self)),
    {
        let p = Payment::wallet(amount, self.currency.as_str(), wallet_type, transaction_id);
        self.payments.push(p);
        assert(final(self).payments@.drop_last() =~= old(self).payments@);
    }

    /// Records a payment on the customer's account; without a customer nothing is recorded.
    pub fn add_credit_payment(&mut self, amount: Dec)
        ensures
            old(self).customer_id is None ==> final(self).payments@ == old(self).payments@,
            old(self).customer_id matches Some(c) ==> final(self).payments@.len() == old(self).payments@.len() + 1 && final(self).payments@.drop_last() == old(self).payments@
                && final(self).payments@.last().method == PaymentMethod::Credit
                && final(self).payments@.last().amount == amount
                && (final(self).payments@.last().reference matches Some(r) && r@ == c@),
            final(self).same_but_payments(*old(self)),
    {
        match &self.customer_id {
            Some(customer_id) => {
                let p = Payment::credit(amount, self.currency.as_str(), customer_id.as_str());
                self.payments.push(p);
                assert(final(self).payments@.drop_last() =~= old(self).payments@);
            },
            None => {},
        }
    }

    /// The sum of the payments; `None` when it overflows.
    pub fn total_paid(&self) -> (r: Option<Dec>)
        ensures
            r == self.paid(),
    {
        sum_payments(&self.payments)
    }

    /// What is still owed, never below zero; `None` when the arithmetic overflows.
    pub fn remaining(&self) -> (r: Option<Dec>)
        ensures
            self.paid() is None ==> r is None,
            self.paid() matches Some(p) ==> r == remaining_of(self.grand_total, p),
            r matches Some(x) ==> !x.is_neg(),
    {
        match self.total_paid() {
            None => None,
            Some(paid) => match opt_difference(Some(self.grand_total), Some(paid)) {
                None => None,
                Some(rem) => {
                    if rem.le(&Dec::zero()) {
                        Some(Dec::zero())
                    } else {
                        Some(rem)
                    }
                },
            },
        }
    }

    /// Whether what was paid covers the total; `None` when the payments' sum overflows.
    pub fn is_fully_paid(&self) -> (r: Option<bool>)
        ensures
            self.paid() is None ==> r is None,
            self.paid() matches Some(p) ==> r == Some(value_le(self.grand_total, p)),
    {
        match self.total_paid() {
            None => None,
            Some(paid) => Some(self.grand_total.le(&paid)),
        }
    }

    /// The change due: what was paid beyond the total, else zero; `None` when the arithmetic
    /// overflows.
    pub fn change_due(&self) -> (r: Option<Dec>)
        ensures
            self.paid() is None ==> r is None,
            self.paid() matches Some(p) ==> r == change_of(self.grand_total, p),
    {
        match self.total_paid() {
            None => None,
            Some(paid) => {
                if self.grand_total.lt(&paid) {
                    opt_difference(Some(paid), Some(self.grand_total))
                } else {
                    Some(Dec::zero())
                }
            },
        }
    }

    /// The number of units across the lines; `None` when the sum overflows.
    pub fn item_count(&self) -> (r: Option<Dec>)
        ensures
            r == sum_all(item_quantities(self.items@)),
    {
        let ghost s = item_quantities(self.items@);
        let mut acc: Option<Dec> = Some(Dec::zero());
        let mut k: usize = 0;
        assert(s.subrange(0, 0) =~= Seq::<Dec>::empty());
        while k < self.items.len()
            invariant
                k <= self.items@.len(),
                s == item_quantities(self.items@),
                acc == sum_all(s.subrange(0, k as int)),
            decreases self.items@.len() - k,
        {
            assert(s.subrange(0, k + 1).drop_last() =~= s.subrange(0, k as int));
            acc = opt_sum(acc, Some(self.items[k].quantity));
            k = k + 1;
        }
        assert(s.subrange(0, self.items@.len() as int) =~= s);
        acc
    }

    /// The number of lines.
    pub fn line_count(&self) -> (n: usize)
        ensures
            n == self.items@.len(),
    {
        self.items.len()
    }

    /// The number of payments.
    pub fn payment_count(&self) -> (n: usize)
        ensures
            n == self.payments@.len(),
    {
        self.payments.len()
    }

    /// Completes a fully paid draft. Refused, changing nothing, when it is not fully paid, when
    /// it is not a draft, or when the payments' sum overflows.
    pub fn complete(&mut self) -> (r: Result<(), &'static str>)
        ensures
            old(self).paid() is None ==> r == Err::<(), &'static str>(
                "Payment total overflowed",
            ),
            old(self).paid() matches Some(p) && !value_le(old(self).grand_total, p) ==> r == Err::<
                (),
                &'static str,
            >("Transaction not fully paid"),
            old(self).paid() matches Some(p) && value_le(old(self).grand_total, p) && old(self).status != TransactionStatus::Draft ==> r == Err::<(), &'static str>(
                "Transaction already completed or voided",
            ),
            r is Ok <==> (old(self).paid() matches Some(p) && value_le(old(self).grand_total, p)
                && old(self).status == TransactionStatus::Draft),
            r is Err ==> *final(self) == *old(self),
            r is Ok ==> final(self).status == TransactionStatus::Completed
                && final(self).completed_at is Some && final(self).payments@ == old(self).payments@ && final(self).grand_total == old(self).grand_total
                && final(self).voided_at == old(self).voided_at,
    {
        match self.is_fully_paid() {
            None => return Err("Payment total overflowed"),
            Some(false) => return Err("Transaction not fully paid"),
            Some(true) => {},
        }
        match self.status {
            TransactionStatus::Draft => {},
            _ => return Err("Transaction already completed or voided"),
        }
        self.status = TransactionStatus::Completed;
        self.completed_at = Some(now());
        Ok(())
    }

    /// Voids the transaction, recording why. Refused, changing nothing, when it is already
    /// voided.
    pub fn void(&mut self, reason: &str) -> (r: Result<(), &'static str>)
        ensures
            r is Err <==> old(self).status == TransactionStatus::Voided,
            r is Err ==> r == Err::<(), &'static str>("Transaction already voided") && *final(self)
                == *old(self),
            r is Ok ==> final(self).status == TransactionStatus::Voided
                && final(self).voided_at is Some && (final(self).void_reason matches Some(v)
                && v@ == reason@) && final(self).payments@ == old(self).payments@
                && final(self).completed_at == old(self).completed_at,
    {
        match self.status {
            TransactionStatus::Voided => return Err("Transaction already voided"),
            _ => {},
        }
        self.status = TransactionStatus::Voided;
        self.voided_at = Some(now());
        self.void_reason = Some(owned(reason));
        Ok(())
    }

    /// Whether the transaction may be voided: a draft or a completed one.
    pub fn can_void(&self) -> (b: bool)
        ensures
            b == (self.status == TransactionStatus::Draft || self.status
                == TransactionStatus::Completed),
    {
        match self.status {
            TransactionStatus::Draft | TransactionStatus::Completed => true,
            _ => false,
        }
    }

    /// Whether it is a sale, in any ASCII case.
    pub fn is_sale(&self) -> (b: bool)
        ensures
            b == (ascii_lower(self.transaction_type@) == ascii_lower("sale"@)),
    {
        eq_ignore_ascii_case(self.transaction_type.as_str(), "sale")
    }

    /// Whether it is a return, in any ASCII case.
    pub fn is_return(&self) -> (b: bool)
        ensures
            b == (ascii_lower(self.transaction_type@) == ascii_lower("return"@)),
    {
        eq_ignore_ascii_case(self.transaction_type.as_str(), "return")
    }

    /// Whether a customer is attached.
    pub fn has_customer(&self) -> (b: bool)
        ensures
            b == self.customer_id is Some,
    {
        self.customer_id.is_some()
    }

    /// Records the printed receipt's number.
    pub fn set_receipt_number(&mut self, number: &str)
        ensures
            final(self).receipt_number matches Some(n) && n@ == number@,
            final(self).status == old(self).status && final(self).payments@ == old(self).payments@,
            final(self).items@ == old(self).items@,
    {
        self.receipt_number = Some(owned(number));
    }
}

} // verus!
