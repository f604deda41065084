//! The shopping cart: its lines, their discounts and taxes, and the cart's totals.
//!
//! Every amount is computed with the decimal crate's arithmetic. A computation that would
//! overflow a decimal, where that crate's operators panic, is refused with [`Overflow`] and
//! leaves the item or cart as it was.
use vstd::prelude::*;

use crate::dec::{
    difference_of, max_of, min_of, opt_difference, opt_product, opt_quotient, opt_sum,
    product_of, quotient_of, rounded, decimal_rounded, decimal_text, sum_all, sum_of, value_le,
    Dec, Overflow,
};
use crate::ids::new_uuid;
use crate::models::product::{localized, Product, ProductType, ProductUnit};
use crate::text::{append_str, owned, str_eq};

verus! {

// ============================================================================
// Line arithmetic
// ============================================================================

/// The four computed amounts of a cart line.
#[derive(Debug, Clone, Copy)]
pub struct LineAmounts {
    /// Before tax, after discount.
    pub subtotal: Dec,
    /// The tax.
    pub tax: Dec,
    /// After tax.
    pub total: Dec,
    /// The discount given.
    pub discount: Dec,
}

/// `x / 100`.
pub open spec fn hundredth(x: Dec) -> Option<Dec> {
    quotient_of(Some(x), Some(Dec::spec_hundred()))
}

/// The discount on a line: the percentage of the gross amount when a percentage above zero is
/// set, else the fixed amount per unit times the quantity.
pub open spec fn line_discount_of(
    unit_price: Dec,
    quantity: Dec,
    discount_percent: Dec,
    discount_amount: Dec,
) -> Option<Dec> {
    let gross = product_of(Some(unit_price), Some(quantity));
    if discount_percent.is_pos() {
        product_of(gross, hundredth(discount_percent))
    } else {
        product_of(Some(discount_amount), Some(quantity))
    }
}

/// A line's amounts. With tax included, the tax is extracted from the discounted amount:
/// `net = after / (1 + rate / 100)`, `tax = after - net`, and the total is `after`. Otherwise
/// the tax is added: `tax = after * rate / 100` and `total = after + tax`.
pub open spec fn line_amounts_of(
    unit_price: Dec,
    quantity: Dec,
    discount_percent: Dec,
    discount_amount: Dec,
    tax_rate: Dec,
    tax_inclusive: bool,
) -> Option<LineAmounts> {
    let gross = product_of(Some(unit_price), Some(quantity));
    let discount = line_discount_of(unit_price, quantity, discount_percent, discount_amount);
    let after = difference_of(gross, discount);
    if tax_inclusive {
        let net = quotient_of(after, sum_of(Some(Dec::spec_one()), hundredth(tax_rate)));
        let tax = difference_of(after, net);
        match (net, tax, after, discount) {
            (Some(n), Some(t), Some(a), Some(d)) => Some(
                LineAmounts { subtotal: n, tax: t, total: a, discount: d },
            ),
            _ => None,
        }
    } else {
        let tax = product_of(after, hundredth(tax_rate));
        let total = sum_of(after, tax);
        match (after, tax, total, discount) {
            (Some(a), Some(t), Some(tt), Some(d)) => Some(
                LineAmounts { subtotal: a, tax: t, total: tt, discount: d },
            ),
            _ => None,
        }
    }
}

/// Computes a line's amounts.
fn compute_line(
    unit_price: Dec,
    quantity: Dec,
    discount_percent: Dec,
    discount_amount: Dec,
    tax_rate: Dec,
    tax_inclusive: bool,
) -> (r: Option<LineAmounts>)
    ensures
        r == line_amounts_of(
            unit_price,
            quantity,
            discount_percent,
            discount_amount,
            tax_rate,
            tax_inclusive,
        ),
{
    let hundred = Dec::hundred();
    let gross = opt_product(Some(unit_price), Some(quantity));
    let discount = if discount_percent.is_positive() {
        opt_product(gross, opt_quotient(Some(discount_percent), Some(hundred)))
    } else {
        opt_product(Some(discount_amount), Some(quantity))
    };
    let after = opt_difference(gross, discount);
    if tax_inclusive {
        let net = opt_quotient(
            after,
            opt_sum(Some(Dec::one()), opt_quotient(Some(tax_rate), Some(hundred))),
        );
        let tax = opt_difference(after, net);
        match (net, tax, after, discount) {
            (Some(n), Some(t), Some(a), Some(d)) => Some(
                LineAmounts { subtotal: n, tax: t, total: a, discount: d },
            ),
            _ => None,
        }
    } else {
        let tax = opt_product(after, opt_quotient(Some(tax_rate), Some(hundred)));
        let total = opt_sum(after, tax);
        match (after, tax, total, discount) {
            (Some(a), Some(t), Some(tt), Some(d)) => Some(
                LineAmounts { subtotal: a, tax: t, total: tt, discount: d },
            ),
            _ => None,
        }
    }
}

// ============================================================================
// CartItem
// ============================================================================

/// A product in the cart, with its quantity, discount and the amounts computed from them.
#[derive(Debug)]
pub struct CartItem {
    /// This line's identifier.
    pub id: String,
    /// The product.
    pub product_id: String,
    /// The product's English name.
    pub product_name: String,
    /// The product's Arabic name.
    pub product_name_ar: Option<String>,
    /// The product's SKU.
    pub sku: String,
    /// The product's barcode.
    pub barcode: Option<String>,
    /// How many.
    pub quantity: Dec,
    /// The unit.
    pub unit: ProductUnit,
    /// The price of one unit.
    pub unit_price: Dec,
    /// The tax rate, in percent.
    pub tax_rate: Dec,
    /// Whether the unit price includes the tax.
    pub tax_inclusive: bool,
    /// A fixed discount per unit.
    pub discount_amount: Dec,
    /// A discount in percent, `0..=100`; when above zero it wins over the fixed amount.
    pub discount_percent: Dec,
    /// The product's type.
    pub product_type: ProductType,
    /// Whether the product's stock is counted.
    pub track_inventory: bool,
    /// A note on the line.
    pub note: Option<String>,
    /// Computed: before tax, after discount.
    pub line_subtotal: Dec,
    /// Computed: the tax.
    pub line_tax: Dec,
    /// Computed: after tax.
    pub line_total: Dec,
    /// Computed: the discount given.
    pub line_discount: Dec,
}

impl Clone for CartItem {
    fn clone(&self) -> (c: CartItem)
        ensures
            c == *self,
    {
        CartItem {
            id: self.id.clone(),
            product_id: self.product_id.clone(),
            product_name: self.product_name.clone(),
            product_name_ar: self.product_name_ar.clone(),
            sku: self.sku.clone(),
            barcode: self.barcode.clone(),
            quantity: self.quantity,
            unit: self.unit,
            unit_price: self.unit_price,
            tax_rate: self.tax_rate,
            tax_inclusive: self.tax_inclusive,
            discount_amount: self.discount_amount,
            discount_percent: self.discount_percent,
            product_type: self.product_type,
            track_inventory: self.track_inventory,
            note: self.note.clone(),
            line_subtotal: self.line_subtotal,
            line_tax: self.line_tax,
            line_total: self.line_total,
            line_discount: self.line_discount,
        }
    }
}

impl CartItem {
    /// The amounts this line's prices, quantity and discount give.
    pub open spec fn amounts(self) -> Option<LineAmounts> {
        line_amounts_of(
            self.unit_price,
            self.quantity,
            self.discount_percent,
            self.discount_amount,
            self.tax_rate,
            self.tax_inclusive,
        )
    }

    /// The computed fields hold `a`.
    pub open spec fn holds_amounts(self, a: LineAmounts) -> bool {
        &&& self.line_subtotal == a.subtotal
        &&& self.line_tax == a.tax
        &&& self.line_total == a.total
        &&& self.line_discount == a.discount
    }

    /// The computed fields agree with the line's prices, quantity and discount.
    pub open spec fn is_calculated(self) -> bool {
        self.amounts() matches Some(a) && self.holds_amounts(a)
    }

    /// How a priced line's amounts relate to one another and to its prices, whatever the tax
    /// mode. The discount is the percentage of the gross amount (unit price times quantity)
    /// when a percentage above zero is set, else the fixed amount per unit times the quantity.
    /// With tax included, the line total is the gross amount less the discount, the subtotal is
    /// that total divided by `1 + rate / 100`, and the tax is the total less the subtotal. With
    /// tax added, the subtotal is the gross amount less the discount, the tax is the subtotal
    /// times `rate / 100`, and the total is the subtotal plus the tax.
    pub proof fn lemma_line_pricing(self)
        requires
            self.is_calculated(),
        ensures
            self.discount_percent.is_pos() ==> Some(self.line_discount) == product_of(
                product_of(Some(self.unit_price), Some(self.quantity)),
                hundredth(self.discount_percent),
            ),
            !self.discount_percent.is_pos() ==> Some(self.line_discount) == product_of(
                Some(self.discount_amount),
                Some(self.quantity),
            ),
            self.tax_inclusive ==> Some(self.line_total) == difference_of(
                product_of(Some(self.unit_price), Some(self.quantity)),
                Some(self.line_discount),
            ),
            self.tax_inclusive ==> Some(self.line_subtotal) == quotient_of(
                Some(self.line_total),
                sum_of(Some(Dec::spec_one()), hundredth(self.tax_rate)),
            ),
            self.tax_inclusive ==> Some(self.line_tax) == difference_of(
                Some(self.line_total),
                Some(self.line_subtotal),
            ),
            !self.tax_inclusive ==> Some(self.line_subtotal) == difference_of(
                product_of(Some(self.unit_price), Some(self.quantity)),
                Some(self.line_discount),
            ),
            !self.tax_inclusive ==> Some(self.line_tax) == product_of(
                Some(self.line_subtotal),
                hundredth(self.tax_rate),
            ),
            !self.tax_inclusive ==> Some(self.line_total) == sum_of(
                Some(self.line_subtotal),
                Some(self.line_tax),
            ),
    {
    }

    /// Everything but the quantity, the discount and the computed amounts is the same.
    pub open spec fn same_line(self, other: CartItem) -> bool {
        &&& self.id == other.id
        &&& self.product_id == other.product_id
        &&& self.product_name == other.product_name
        &&& self.product_name_ar == other.product_name_ar
        &&& self.sku == other.sku
        &&& self.barcode == other.barcode
        &&& self.unit == other.unit
        &&& self.unit_price == other.unit_price
        &&& self.tax_rate == other.tax_rate
        &&& self.tax_inclusive == other.tax_inclusive
        &&& self.product_type == other.product_type
        &&& self.track_inventory == other.track_inventory
        &&& self.note == other.note
    }

    /// The prices, quantity, discount and computed amounts are the same.
    pub open spec fn same_pricing(self, other: CartItem) -> bool {
        &&& self.quantity == other.quantity
        &&& self.unit_price == other.unit_price
        &&& self.tax_rate == other.tax_rate
        &&& self.tax_inclusive == other.tax_inclusive
        &&& self.discount_amount == other.discount_amount
        &&& self.discount_percent == other.discount_percent
        &&& self.line_subtotal == other.line_subtotal
        &&& self.line_tax == other.line_tax
        &&& self.line_total == other.line_total
        &&& self.line_discount == other.line_discount
    }

    /// A line for `quantity` of `product`, with a fresh identifier and no discount; refused
    /// when its amounts overflow.
    pub fn new(product: &Product, quantity: Dec) -> (r: Result<CartItem, Overflow>)
        ensures
            r is Ok <==> line_amounts_of(
                product.price,
                quantity,
                Dec::spec_zero(),
                Dec::spec_zero(),
                product.tax_rate,
                product.tax_inclusive,
            ) is Some,
            r matches Ok(item) ==> {
                &&& item.product_id == product.id
                &&& item.product_name == product.name
                &&& item.product_name_ar == product.name_ar
                &&& item.sku == product.sku
                &&& item.barcode == product.barcode
                &&& item.quantity == quantity
                &&& item.unit == product.unit
                &&& item.unit_price == product.price
                &&& item.tax_rate == product.tax_rate
                &&& item.tax_inclusive == product.tax_inclusive
                &&& item.discount_amount == Dec::spec_zero()
                &&& item.discount_percent == Dec::spec_zero()
                &&& item.product_type == product.product_type
                &&& item.track_inventory == product.track_inventory
                &&& item.note is None
                &&& item.is_calculated()
            },
    {
        let zero = Dec::zero();
        let amounts = compute_line(
            product.price,
            quantity,
            zero,
            zero,
            product.tax_rate,
            product.tax_inclusive,
        );
        match amounts {
            None => Err(Overflow),
            Some(a) => Ok(
                CartItem {
                    id: new_uuid(),
                    product_id: product.id.clone(),
                    product_name: product.name.clone(),
                    product_name_ar: product.name_ar.clone(),
                    sku: product.sku.clone(),
                    barcode: product.barcode.clone(),
                    quantity,
                    unit: product.unit,
                    unit_price: product.price,
                    tax_rate: product.tax_rate,
                    tax_inclusive: product.tax_inclusive,
                    discount_amount: zero,
                    discount_percent: zero,
                    product_type: product.product_type,
                    track_inventory: product.track_inventory,
                    note: None,
                    line_subtotal: a.subtotal,
                    line_tax: a.tax,
                    line_total: a.total,
                    line_discount: a.discount,
                },
            ),
        }
    }

    /// Sets the quantity and the discount and recomputes the amounts; refused, changing
    /// nothing, when they overflow.
    fn reprice(&mut self, quantity: Dec, discount_percent: Dec, discount_amount: Dec) -> (r:
        Result<(), Overflow>)
        ensures
            r is Ok <==> line_amounts_of(
                old(self).unit_price,
                quantity,
                discount_percent,
                discount_amount,
                old(self).tax_rate,
                old(self).tax_inclusive,
            ) is Some,
            r is Err ==> *final(self) == *old(self),
            r is Ok ==> final(self).same_line(*old(self)) && final(self).quantity == quantity
                && final(self).discount_percent == discount_percent
                && final(self).discount_amount == discount_amount && final(self).is_calculated(),
    {
        let amounts = compute_line(
            self.unit_price,
            quantity,
            discount_percent,
            discount_amount,
            self.tax_rate,
            self.tax_inclusive,
        );
        match amounts {
            None => Err(Overflow),
            Some(a) => {
                self.quantity = quantity;
                self.discount_percent = discount_percent;
                self.discount_amount = discount_amount;
                self.line_subtotal = a.subtotal;
                self.line_tax = a.tax;
                self.line_total = a.total;
                self.line_discount = a.discount;
                Ok(())
            },
        }
    }

    /// Recomputes the line's amounts from its prices, quantity and discount; refused,
    /// changing nothing, when they overflow.
    pub fn recalculate(&mut self) -> (r: Result<(), Overflow>)
        ensures
            r is Ok <==> old(self).amounts() is Some,
            r is Err ==> *final(self) == *old(self),
            r is Ok ==> final(self).same_line(*old(self)) && final(self).quantity == old(self).quantity && final(self).discount_percent == old(self).discount_percent
                && final(self).discount_amount == old(self).discount_amount
                && final(self).is_calculated(),
    {
        let q = self.quantity;
        let p = self.discount_percent;
        let a = self.discount_amount;
        self.reprice(q, p, a)
    }

    /// Sets the quantity, reading a negative one as zero.
    pub fn set_quantity(&mut self, qty: Dec) -> (r: Result<(), Overflow>)
        ensures
            r is Ok <==> line_amounts_of(
                old(self).unit_price,
                max_of(qty, Dec::spec_zero()),
                old(self).discount_percent,
                old(self).discount_amount,
                old(self).tax_rate,
                old(self).tax_inclusive,
            ) is Some,
            r is Err ==> *final(self) == *old(self),
            r is Ok ==> final(self).same_line(*old(self)) && final(self).quantity == max_of(
                qty,
                Dec::spec_zero(),
            ) && final(self).discount_percent == old(self).discount_percent
                && final(self).discount_amount == old(self).discount_amount
                && final(self).is_calculated(),
    {
        let q = qty.max(Dec::zero());
        let p = self.discount_percent;
        let a = self.discount_amount;
        self.reprice(q, p, a)
    }

    /// Adds one to the quantity.
    pub fn increment(&mut self) -> (r: Result<(), Overflow>)
        ensures
            r is Err ==> *final(self) == *old(self),
            r is Ok ==> final(self).same_line(*old(self)) && Some(final(self).quantity)
                == sum_of(Some(old(self).quantity), Some(Dec::spec_one()))
                && final(self).discount_percent == old(self).discount_percent
                && final(self).discount_amount == old(self).discount_amount
                && final(self).is_calculated(),
            r is Ok <==> (sum_of(Some(old(self).quantity), Some(Dec::spec_one())) matches Some(q)
                && line_amounts_of(
                old(self).unit_price,
                q,
                old(self).discount_percent,
                old(self).discount_amount,
                old(self).tax_rate,
                old(self).tax_inclusive,
            ) is Some),
    {
        match opt_sum(Some(self.quantity), Some(Dec::one())) {
            None => Err(Overflow),
            Some(q) => {
                let p = self.discount_percent;
                let a = self.discount_amount;
                self.reprice(q, p, a)
            },
        }
    }

    /// Takes one from the quantity, but never below one: a quantity of one or less is left as
    /// it is.
    pub fn decrement(&mut self) -> (r: Result<(), Overflow>)
        ensures
            !crate::dec::value_lt(Dec::spec_one(), old(self).quantity) ==> r is Ok && *final(self)
                == *old(self),
            r is Err ==> *final(self) == *old(self),
            crate::dec::value_lt(Dec::spec_one(), old(self).quantity) ==> (r is Ok <==> (
            difference_of(Some(old(self).quantity), Some(Dec::spec_one())) matches Some(q)
                && line_amounts_of(
                old(self).unit_price,
                q,
                old(self).discount_percent,
                old(self).discount_amount,
                old(self).tax_rate,
                old(self).tax_inclusive,
            ) is Some)),
            crate::dec::value_lt(Dec::spec_one(), old(self).quantity) && r is Ok ==> final(self).same_line(*old(self)) && Some(final(self).quantity) == difference_of(
                Some(old(self).quantity),
                Some(Dec::spec_one()),
            ) && final(self).discount_percent == old(self).discount_percent
                && final(self).discount_amount == old(self).discount_amount
                && final(self).is_calculated(),
    {
        let one = Dec::one();
        if one.lt(&self.quantity) {
            match opt_difference(Some(self.quantity), Some(one)) {
                None => Err(Overflow),
                Some(q) => {
                    let p = self.discount_percent;
                    let a = self.discount_amount;
                    self.reprice(q, p, a)
                },
            }
        } else {
            Ok(())
        }
    }

    /// Applies a percentage discount, clamped to `0..=100`, replacing any fixed discount.
    pub fn apply_discount_percent(&mut self, percent: Dec) -> (r: Result<(), Overflow>)
        ensures
            r is Ok <==> line_amounts_of(
                old(self).unit_price,
                old(self).quantity,
                min_of(max_of(percent, Dec::spec_zero()), Dec::spec_hundred()),
                Dec::spec_zero(),
                old(self).tax_rate,
                old(self).tax_inclusive,
            ) is Some,
            r is Err ==> *final(self) == *old(self),
            r is Ok ==> final(self).same_line(*old(self)) && final(self).quantity == old(self).quantity && final(self).discount_percent == min_of(
                max_of(percent, Dec::spec_zero()),
                Dec::spec_hundred(),
            ) && final(self).discount_amount == Dec::spec_zero() && final(self).is_calculated(),
    {
        let p = percent.max(Dec::zero()).min(Dec::hundred());
        let q = self.quantity;
        self.reprice(q, p, Dec::zero())
    }

    /// Applies a fixed discount per unit, read as zero when negative, replacing any
    /// percentage.
    pub fn apply_discount_amount(&mut self, amount: Dec) -> (r: Result<(), Overflow>)
        ensures
            r is Ok <==> line_amounts_of(
                old(self).unit_price,
                old(self).quantity,
                Dec::spec_zero(),
                max_of(amount, Dec::spec_zero()),
                old(self).tax_rate,
                old(self).tax_inclusive,
            ) is Some,
            r is Err ==> *final(self) == *old(self),
            r is Ok ==> final(self).same_line(*old(self)) && final(self).quantity == old(self).quantity && final(self).discount_percent == Dec::spec_zero()
                && final(self).discount_amount == max_of(amount, Dec::spec_zero())
                && final(self).is_calculated(),
    {
        let a = amount.max(Dec::zero());
        let q = self.quantity;
        self.reprice(q, Dec::zero(), a)
    }

    /// Removes both discounts.
    pub fn clear_discount(&mut self) -> (r: Result<(), Overflow>)
        ensures
            r is Ok <==> line_amounts_of(
                old(self).unit_price,
                old(self).quantity,
                Dec::spec_zero(),
                Dec::spec_zero(),
                old(self).tax_rate,
                old(self).tax_inclusive,
            ) is Some,
            r is Err ==> *final(self) == *old(self),
            r is Ok ==> final(self).same_line(*old(self)) && final(self).quantity == old(self).quantity && final(self).discount_percent == Dec::spec_zero()
                && final(self).discount_amount == Dec::spec_zero() && final(self).is_calculated(),
    {
        let q = self.quantity;
        self.reprice(q, Dec::zero(), Dec::zero())
    }

    /// Sets or clears the line's note.
    pub fn set_note(&mut self, note: Option<String>)
        ensures
            final(self).note == note,
            final(self).same_pricing(*old(self)),
            final(self).id == old(self).id && final(self).product_id == old(self).product_id,
            final(self).product_name == old(self).product_name,
            final(self).product_name_ar == old(self).product_name_ar,
            final(self).sku == old(self).sku && final(self).barcode == old(self).barcode,
            final(self).unit == old(self).unit && final(self).product_type == old(self).product_type && final(self).track_inventory == old(self).track_inventory,
    {
        self.note = note;
    }

    /// The product's name for a locale: Arabic for `ar` when there is one, else English.
    pub fn display_name(&self, locale: &str) -> (s: &str)
        ensures
            s@ == localized(locale@, self.product_name@, self.product_name_ar),
    {
        if str_eq(locale, "ar") {
            match &self.product_name_ar {
                Some(a) => a.as_str(),
                None => self.product_name.as_str(),
            }
        } else {
            self.product_name.as_str()
        }
    }

    /// Whether either discount is above zero.
    pub fn has_discount(&self) -> (b: bool)
        ensures
            b == (self.discount_percent.is_pos() || self.discount_amount.is_pos()),
    {
        self.discount_percent.is_positive() || self.discount_amount.is_positive()
    }

    /// The discount as shown on the line: `-10%` for a percentage (rounded to whole
    /// percent), `-1.5` for a fixed amount (rounded to at most three places), empty for none.
    pub fn discount_label(&self) -> (s: String)
        ensures
            self.discount_percent.is_pos() ==> s@ == "-"@ + decimal_text(
                decimal_rounded(self.discount_percent, 0),
            ) + "%"@,
            !self.discount_percent.is_pos() && self.discount_amount.is_pos() ==> s@ == "-"@
                + decimal_text(decimal_rounded(self.discount_amount, 3)),
            !self.discount_percent.is_pos() && !self.discount_amount.is_pos() ==> s@.len() == 0,
    {
        if self.discount_percent.is_positive() {
            let mut s = owned("-");
            let t = rounded(self.discount_percent, 0).text();
            append_str(&mut s, t.as_str());
            append_str(&mut s, "%");
            s
        } else if self.discount_amount.is_positive() {
            let mut s = owned("-");
            let t = rounded(self.discount_amount, 3).text();
            append_str(&mut s, t.as_str());
            s
        } else {
            String::new()
        }
    }

    /// The line's total before any discount: with tax included, price times quantity;
    /// otherwise that times `1 + rate / 100`.
    pub fn original_line_total(&self) -> (r: Option<Dec>)
        ensures
            self.tax_inclusive ==> r == product_of(Some(self.unit_price), Some(self.quantity)),
            !self.tax_inclusive ==> r == product_of(
                product_of(Some(self.unit_price), Some(self.quantity)),
                sum_of(Some(Dec::spec_one()), hundredth(self.tax_rate)),
            ),
    {
        let gross = opt_product(Some(self.unit_price), Some(self.quantity));
        if self.tax_inclusive {
            gross
        } else {
            opt_product(
                gross,
                opt_sum(Some(Dec::one()), opt_quotient(Some(self.tax_rate), Some(Dec::hundred()))),
            )
        }
    }
}


// ============================================================================
// Cart
// ============================================================================

/// The cart's four computed totals.
#[derive(Debug, Clone, Copy)]
pub struct CartTotals {
    /// The lines' subtotals less the cart discount.
    pub subtotal: Dec,
    /// The lines' taxes.
    pub tax_total: Dec,
    /// The lines' discounts plus the cart discount.
    pub discount_total: Dec,
    /// Subtotal plus tax, never below zero.
    pub grand_total: Dec,
}

/// The lines' subtotals, in order.
pub open spec fn subtotals(items: Seq<CartItem>) -> Seq<Dec> {
    items.map_values(|i: CartItem| i.line_subtotal)
}

/// The lines' taxes, in order.
pub open spec fn taxes(items: Seq<CartItem>) -> Seq<Dec> {
    items.map_values(|i: CartItem| i.line_tax)
}

/// The lines' discounts, in order.
pub open spec fn discounts(items: Seq<CartItem>) -> Seq<Dec> {
    items.map_values(|i: CartItem| i.line_discount)
}

/// The lines' quantities, in order.
pub open spec fn quantities(items: Seq<CartItem>) -> Seq<Dec> {
    items.map_values(|i: CartItem| i.quantity)
}

/// The cart discount: the percentage of the lines' subtotal when a percentage above zero is
/// set, else the fixed amount.
pub open spec fn cart_discount_of(items: Seq<CartItem>, percent: Dec, amount: Dec) -> Option<Dec> {
    if percent.is_pos() {
        product_of(sum_all(subtotals(items)), hundredth(percent))
    } else {
        Some(amount)
    }
}

/// The cart's totals from its lines and its cart discount. A grand total below zero is
/// reported as zero.
pub open spec fn cart_totals_of(items: Seq<CartItem>, percent: Dec, amount: Dec) -> Option<
    CartTotals,
> {
    let cart_discount = cart_discount_of(items, percent, amount);
    let sub = difference_of(sum_all(subtotals(items)), cart_discount);
    let tax = sum_all(taxes(items));
    let disc = sum_of(sum_all(discounts(items)), cart_discount);
    let grand = sum_of(sub, tax);
    match (sub, tax, disc, grand) {
        (Some(s), Some(t), Some(d), Some(g)) => Some(
            CartTotals {
                subtotal: s,
                tax_total: t,
                discount_total: d,
                grand_total: if g.is_neg() {
                    Dec::spec_zero()
                } else {
                    g
                },
            },
        ),
        _ => None,
    }
}

/// Adding the next element to a running total.
proof fn lemma_sum_step(s: Seq<Dec>, k: int)
    requires
        0 <= k < s.len(),
    ensures
        sum_all(s.subrange(0, k + 1)) == sum_of(sum_all(s.subrange(0, k)), Some(s[k])),
{
    assert(s.subrange(0, k + 1).drop_last() =~= s.subrange(0, k));
}

/// The sum of one field over all lines.
fn sum_lines(items: &Vec<CartItem>, field: u8) -> (r: Option<Dec>)
    requires
        field < 4,
    ensures
        field == 0 ==> r == sum_all(subtotals(items@)),
        field == 1 ==> r == sum_all(taxes(items@)),
        field == 2 ==> r == sum_all(discounts(items@)),
        field == 3 ==> r == sum_all(quantities(items@)),
{
    let ghost s: Seq<Dec> = if field == 0 {
        subtotals(items@)
    } else if field == 1 {
        taxes(items@)
    } else if field == 2 {
        discounts(items@)
    } else {
        quantities(items@)
    };
    let mut acc: Option<Dec> = Some(Dec::zero());
    let mut k: usize = 0;
    assert(s.subrange(0, 0) =~= Seq::<Dec>::empty());
    while k < items.len()
        invariant
            k <= items@.len(),
            s.len() == items@.len(),
            field < 4,
            s == (if field == 0 {
                subtotals(items@)
            } else if field == 1 {
                taxes(items@)
            } else if field == 2 {
                discounts(items@)
            } else {
                quantities(items@)
            }),
            acc == sum_all(s.subrange(0, k as int)),
        decreases items@.len() - k,
    {
        let item = &items[k];
        let v = if field == 0 {
            item.line_subtotal
        } else if field == 1 {
            item.line_tax
        } else if field == 2 {
            item.line_discount
        } else {
            item.quantity
        };
        assert(v == s[k as int]);
        proof {
            lemma_sum_step(s, k as int);
        }
        acc = opt_sum(acc, Some(v));
        k = k + 1;
    }
    assert(s.subrange(0, items@.len() as int) =~= s);
    acc
}

/// The cart: its lines, its customer, its cart-level discount and the totals computed from
/// them.
#[derive(Debug)]
pub struct Cart {
    /// The lines.
    pub items: Vec<CartItem>,
    /// The customer, when one is attached.
    pub customer_id: Option<String>,
    /// The customer's name.
    pub customer_name: Option<String>,
    /// The customer's credit balance, for display.
    pub customer_balance: Dec,
    /// Computed: the lines' subtotals less the cart discount.
    pub subtotal: Dec,
    /// Computed: the lines' taxes.
    pub tax_total: Dec,
    /// Computed: the lines' discounts and the cart discount.
    pub discount_total: Dec,
    /// Computed: subtotal plus tax, never below zero.
    pub grand_total: Dec,
    /// A cart-level discount in percent; when above zero it wins over the fixed amount.
    pub cart_discount_percent: Dec,
    /// A cart-level fixed discount.
    pub cart_discount_amount: Dec,
    /// A note on the order.
    pub note: Option<String>,
}

impl Clone for Cart {
    fn clone(&self) -> (c: Cart)
        ensures
            c.same_contents(*self),
            c.subtotal == self.subtotal && c.tax_total == self.tax_total,
            c.discount_total == self.discount_total && c.grand_total == self.grand_total,
    {
        let items = self.items.clone();
        assert(items@ =~= self.items@);
        Cart {
            items,
            customer_id: self.customer_id.clone(),
            customer_name: self.customer_name.clone(),
            customer_balance: self.customer_balance,
            subtotal: self.subtotal,
            tax_total: self.tax_total,
            discount_total: self.discount_total,
            grand_total: self.grand_total,
            cart_discount_percent: self.cart_discount_percent,
            cart_discount_amount: self.cart_discount_amount,
            note: self.note.clone(),
        }
    }
}

impl Default for Cart {
    fn default() -> (c: Cart)
        ensures
            c.items@.len() == 0,
            c.customer_id is None && c.customer_name is None && c.note is None,
            c.customer_balance == Dec::spec_zero(),
            c.subtotal == Dec::spec_zero() && c.tax_total == Dec::spec_zero(),
            c.discount_total == Dec::spec_zero() && c.grand_total == Dec::spec_zero(),
            c.cart_discount_percent == Dec::spec_zero(),
            c.cart_discount_amount == Dec::spec_zero(),
    {
        Cart {
            items: Vec::new(),
            customer_id: None,
            customer_name: None,
            customer_balance: Dec::zero(),
            subtotal: Dec::zero(),
            tax_total: Dec::zero(),
            discount_total: Dec::zero(),
            grand_total: Dec::zero(),
            cart_discount_percent: Dec::zero(),
            cart_discount_amount: Dec::zero(),
            note: None,
        }
    }
}

impl Cart {
    /// The totals this cart's lines and cart discount give.
    pub open spec fn totals(self) -> Option<CartTotals> {
        cart_totals_of(self.items@, self.cart_discount_percent, self.cart_discount_amount)
    }

    /// How a cart's totals relate to its lines and its cart discount. The cart discount is the
    /// percentage of the lines' subtotals when a percentage above zero is set, else the fixed
    /// amount. The subtotal is the lines' subtotals less the cart discount; the tax is the
    /// lines' taxes; the discount is the lines' discounts plus the cart discount; the grand
    /// total is the subtotal plus the tax, or zero where that is below zero.
    pub proof fn lemma_cart_pricing(self, t: CartTotals)
        requires
            self.totals() == Some(t),
        ensures
            exists|cart_discount: Dec| {
                &&& (self.cart_discount_percent.is_pos() ==> Some(cart_discount) == product_of(
                    sum_all(subtotals(self.items@)),
                    hundredth(self.cart_discount_percent),
                ))
                &&& (!self.cart_discount_percent.is_pos() ==> cart_discount == self.cart_discount_amount)
                &&& Some(t.subtotal) == difference_of(sum_all(subtotals(self.items@)), Some(cart_discount))
                &&& Some(t.discount_total) == sum_of(sum_all(discounts(self.items@)), Some(cart_discount))
            },
            Some(t.tax_total) == sum_all(taxes(self.items@)),
            sum_of(Some(t.subtotal), Some(t.tax_total)) matches Some(g) && (g.is_neg() ==> t.grand_total
                == Dec::spec_zero()) && (!g.is_neg() ==> t.grand_total == g),
            !t.grand_total.is_neg(),
    {
        Dec::lemma_constants();
        let cd = cart_discount_of(self.items@, self.cart_discount_percent, self.cart_discount_amount)->0;
        assert(Some(cd) == cart_discount_of(self.items@, self.cart_discount_percent, self.cart_discount_amount));
    }

    /// The computed fields hold `t`.
    pub open spec fn holds_totals(self, t: CartTotals) -> bool {
        &&& self.subtotal == t.subtotal
        &&& self.tax_total == t.tax_total
        &&& self.discount_total == t.discount_total
        &&& self.grand_total == t.grand_total
    }

    /// Only the computed totals may differ.
    pub open spec fn same_contents(self, other: Cart) -> bool {
        &&& self.items@ == other.items@
        &&& self.customer_id == other.customer_id
        &&& self.customer_name == other.customer_name
        &&& self.customer_balance == other.customer_balance
        &&& self.cart_discount_percent == other.cart_discount_percent
        &&& self.cart_discount_amount == other.cart_discount_amount
        &&& self.note == other.note
    }

    /// An empty cart.
    pub fn new() -> (c: Cart)
        ensures
            c.items@.len() == 0,
            c.customer_id is None && c.customer_name is None && c.note is None,
            c.customer_balance == Dec::spec_zero(),
            c.subtotal == Dec::spec_zero() && c.tax_total == Dec::spec_zero(),
            c.discount_total == Dec::spec_zero() && c.grand_total == Dec::spec_zero(),
            c.cart_discount_percent == Dec::spec_zero(),
            c.cart_discount_amount == Dec::spec_zero(),
    {
        Cart::default()
    }

    /// Recomputes the totals from the lines and the cart discount; refused, changing
    /// nothing, when they overflow. The grand total is never below zero.
    pub fn recalculate(&mut self) -> (r: Result<(), Overflow>)
        ensures
            r is Ok <==> old(self).totals() is Some,
            r is Err ==> *final(self) == *old(self),
            r is Ok ==> final(self).same_contents(*old(self)) && final(self).holds_totals(
                old(self).totals().unwrap(),
            ),
            r is Ok ==> !final(self).grand_total.is_neg(),
    {
        let st = sum_lines(&self.items, 0);
        let tx = sum_lines(&self.items, 1);
        let dc = sum_lines(&self.items, 2);
        let cart_discount = if self.cart_discount_percent.is_positive() {
            opt_product(st, opt_quotient(Some(self.cart_discount_percent), Some(Dec::hundred())))
        } else {
            Some(self.cart_discount_amount)
        };
        let sub = opt_difference(st, cart_discount);
        let disc = opt_sum(dc, cart_discount);
        let grand = opt_sum(sub, tx);
        match (sub, tx, disc, grand) {
            (Some(s), Some(t), Some(d), Some(g)) => {
                self.subtotal = s;
                self.tax_total = t;
                self.discount_total = d;
                self.grand_total = if g.is_negative() {
                    Dec::zero()
                } else {
                    g
                };
                Ok(())
            },
            _ => Err(Overflow),
        }
    }

    /// The number of units across all lines; `None` when the sum overflows.
    pub fn item_count(&self) -> (r: Option<Dec>)
        ensures
            r == sum_all(quantities(self.items@)),
    {
        sum_lines(&self.items, 3)
    }

    /// The number of lines.
    pub fn line_count(&self) -> (n: usize)
        ensures
            n == self.items@.len(),
    {
        self.items.len()
    }

    /// Whether the cart has no lines.
    pub fn is_empty(&self) -> (b: bool)
        ensures
            b == (self.items@.len() == 0),
    {
        self.items.len() == 0
    }

    /// Whether any discount is given.
    pub fn has_discount(&self) -> (b: bool)
        ensures
            b == self.discount_total.is_pos(),
    {
        self.discount_total.is_positive()
    }

    /// Whether a customer is attached.
    pub fn has_customer(&self) -> (b: bool)
        ensures
            b == self.customer_id is Some,
    {
        self.customer_id.is_some()
    }

    /// The position of the first line with this identifier.
    pub fn position_of_item(&self, item_id: &str) -> (r: Option<usize>)
        ensures
            r is None <==> forall|k: int| 0 <= k < self.items@.len() ==> self.items@[k].id@ != item_id@,
            r matches Some(k) ==> k < self.items@.len() && self.items@[k as int].id@ == item_id@
                && forall|j: int| 0 <= j < k ==> self.items@[j].id@ != item_id@,
    {
        let mut k: usize = 0;
        while k < self.items.len()
            invariant
                k <= self.items@.len(),
                forall|j: int| 0 <= j < k ==> self.items@[j].id@ != item_id@,
            decreases self.items@.len() - k,
        {
            if str_eq(self.items[k].id.as_str(), item_id) {
                return Some(k);
            }
            k = k + 1;
        }
        None
    }

    /// The position of the first line of this product.
    pub fn position_of_product(&self, product_id: &str) -> (r: Option<usize>)
        ensures
            r is None <==> forall|k: int| 0 <= k < self.items@.len() ==> self.items@[k].product_id@ != product_id@,
            r matches Some(k) ==> k < self.items@.len() && self.items@[k as int].product_id@
                == product_id@ && forall|j: int| 0 <= j < k ==> self.items@[j].product_id@ != product_id@,
    {
        let mut k: usize = 0;
        while k < self.items.len()
            invariant
                k <= self.items@.len(),
                forall|j: int| 0 <= j < k ==> self.items@[j].product_id@ != product_id@,
            decreases self.items@.len() - k,
        {
            if str_eq(self.items[k].product_id.as_str(), product_id) {
                return Some(k);
            }
            k = k + 1;
        }
        None
    }

    /// The first line with this identifier.
    pub fn find_item(&self, item_id: &str) -> (r: Option<&CartItem>)
        ensures
            r is None <==> forall|k: int| 0 <= k < self.items@.len() ==> self.items@[k].id@ != item_id@,
            r matches Some(it) ==> exists|k: int| 0 <= k < self.items@.len() && self.items@[k]
                == *it && it.id@ == item_id@ && forall|j: int| 0 <= j < k ==> self.items@[j].id@ != item_id@,
    {
        match self.position_of_item(item_id) {
            Some(k) => Some(&self.items[k]),
            None => None,
        }
    }

    /// The first line of this product.
    pub fn find_by_product(&self, product_id: &str) -> (r: Option<&CartItem>)
        ensures
            r is None <==> forall|k: int| 0 <= k < self.items@.len() ==> self.items@[k].product_id@ != product_id@,
            r matches Some(it) ==> exists|k: int| 0 <= k < self.items@.len() && self.items@[k]
                == *it && it.product_id@ == product_id@ && forall|j: int| 0 <= j < k ==> self.items@[j].product_id@ != product_id@,
    {
        match self.position_of_product(product_id) {
            Some(k) => Some(&self.items[k]),
            None => None,
        }
    }
}

} // verus!
