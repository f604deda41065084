//! The cart the till is ringing up: adding products, changing quantities and discounts,
//! attaching a customer, and checking the cart out.
//!
//! Every operation validates its input first and then changes the cart as a whole: a refused
//! operation, or one whose amounts would overflow a decimal, leaves the cart as it was. After
//! every change that touches prices the cart's totals are recomputed. Persisting the cart and
//! sharing it between screens is the caller's.
use vstd::prelude::*;

use crate::dec::{
    difference_of, max_of, min_of, product_of, sum_all, sum_of, value_le, value_lt, Dec, Overflow,
};
use crate::models::cart::{
    cart_totals_of, discounts, hundredth, line_amounts_of, subtotals, taxes, Cart, CartItem, CartTotals,
    LineAmounts,
};
use crate::models::product::Product;
use crate::text::{append_str, owned, str_eq};

verus! {

/// Why a cart operation was refused.
#[derive(Debug, Clone, PartialEq, Eq)]
pub enum CartError {
    /// No line has this identifier.
    ItemNotFound(String),
    /// No product has this identifier.
    ProductNotFound(String),
    /// A quantity outside what the operation accepts.
    InvalidQuantity(String),
    /// A discount outside what the operation accepts.
    InvalidDiscount(String),
    /// The cart is empty.
    EmptyCart,
    /// The operation could not be carried out.
    OperationFailed(String),
}

impl CartError {
    /// The sentence this error says.
    pub fn message(&self) -> (s: String)
        ensures
            self matches CartError::ItemNotFound(v) ==> s@ == "Item not found: "@ + v@,
            self matches CartError::ProductNotFound(v) ==> s@ == "Product not found: "@ + v@,
            self matches CartError::InvalidQuantity(v) ==> s@ == "Invalid quantity: "@ + v@,
            self matches CartError::InvalidDiscount(v) ==> s@ == "Invalid discount: "@ + v@,
            self is EmptyCart ==> s@ == "Cart is empty"@,
            self matches CartError::OperationFailed(v) ==> s@ == "Operation failed: "@ + v@,
    {
        let (head, tail) = match self {
            CartError::ItemNotFound(v) => ("Item not found: ", v.as_str()),
            CartError::ProductNotFound(v) => ("Product not found: ", v.as_str()),
            CartError::InvalidQuantity(v) => ("Invalid quantity: ", v.as_str()),
            CartError::InvalidDiscount(v) => ("Invalid discount: ", v.as_str()),
            CartError::EmptyCart => ("Cart is empty", ""),
            CartError::OperationFailed(v) => ("Operation failed: ", v.as_str()),
        };
        let mut s = owned(head);
        append_str(&mut s, tail);
        proof {
            reveal_strlit("");
        }
        s
    }
}

/// A result of a cart operation.
pub type CartResult<T> = Result<T, CartError>;

/// The refusal of an operation whose amounts overflow a decimal.
pub open spec fn is_overflow(e: CartError) -> bool {
    e matches CartError::OperationFailed(m) && m@ == "the cart's amounts overflow a decimal"@
}

fn overflowed() -> (e: CartError)
    ensures
        is_overflow(e),
{
    CartError::OperationFailed(owned("the cart's amounts overflow a decimal"))
}

/// The lines without those that carry this identifier, in order.
pub open spec fn without_id(items: Seq<CartItem>, id: Seq<char>) -> Seq<CartItem>
    decreases items.len(),
{
    if items.len() == 0 {
        Seq::empty()
    } else {
        let rest = without_id(items.drop_last(), id);
        if items.last().id@ == id {
            rest
        } else {
            rest.push(items.last())
        }
    }
}

/// The lines without those that carry this identifier.
fn remove_with_id(items: &Vec<CartItem>, id: &str) -> (r: Vec<CartItem>)
    ensures
        r@ == without_id(items@, id@),
        r@.len() == items@.len() <==> forall|k: int| 0 <= k < items@.len() ==> items@[k].id@ != id@,
{
    let mut r: Vec<CartItem> = Vec::new();
    let mut k: usize = 0;
    assert(items@.subrange(0, 0) =~= Seq::<CartItem>::empty());
    while k < items.len()
        invariant
            k <= items@.len(),
            r@ == without_id(items@.subrange(0, k as int), id@),
            r@.len() <= k,
            r@.len() == k <==> forall|j: int| 0 <= j < k ==> items@[j].id@ != id@,
        decreases items@.len() - k,
    {
        let ghost next = items@.subrange(0, k + 1);
        assert(next.drop_last() =~= items@.subrange(0, k as int));
        if !str_eq(items[k].id.as_str(), id) {
            r.push(items[k].clone());
        }
        k = k + 1;
    }
    assert(items@.subrange(0, items@.len() as int) =~= items@);
    r
}

/// `item` with a new quantity and discount and the amounts they give; `None` when those
/// overflow.
pub open spec fn repriced(item: CartItem, quantity: Dec, percent: Dec, amount: Dec) -> Option<CartItem> {
    match line_amounts_of(item.unit_price, quantity, percent, amount, item.tax_rate, item.tax_inclusive) {
        Some(a) => Some(
            CartItem {
                id: item.id,
                product_id: item.product_id,
                product_name: item.product_name,
                product_name_ar: item.product_name_ar,
                sku: item.sku,
                barcode: item.barcode,
                quantity: quantity,
                unit: item.unit,
                unit_price: item.unit_price,
                tax_rate: item.tax_rate,
                tax_inclusive: item.tax_inclusive,
                discount_amount: amount,
                discount_percent: percent,
                product_type: item.product_type,
                track_inventory: item.track_inventory,
                note: item.note,
                line_subtotal: a.subtotal,
                line_tax: a.tax,
                line_total: a.total,
                line_discount: a.discount,
            },
        ),
        None => None,
    }
}

/// `item` with `quantity` more, as a line is topped up when its product is added again.
pub open spec fn topped_up(item: CartItem, quantity: Dec) -> Option<CartItem> {
    match sum_of(Some(item.quantity), Some(quantity)) {
        Some(t) => repriced(item, max_of(t, Dec::spec_zero()), item.discount_percent, item.discount_amount),
        None => None,
    }
}

/// `item` with its quantity set, a negative one read as zero.
pub open spec fn requantified(item: CartItem, quantity: Dec) -> Option<CartItem> {
    repriced(item, max_of(quantity, Dec::spec_zero()), item.discount_percent, item.discount_amount)
}

/// `item` with one more.
pub open spec fn incremented(item: CartItem) -> Option<CartItem> {
    match sum_of(Some(item.quantity), Some(Dec::spec_one())) {
        Some(t) => repriced(item, t, item.discount_percent, item.discount_amount),
        None => None,
    }
}

/// `item` with one less.
pub open spec fn decremented(item: CartItem) -> Option<CartItem> {
    match difference_of(Some(item.quantity), Some(Dec::spec_one())) {
        Some(t) => repriced(item, t, item.discount_percent, item.discount_amount),
        None => None,
    }
}

/// `item` with a percentage discount, clamped to `0..=100`, in place of any fixed one.
pub open spec fn percent_discounted(item: CartItem, percent: Dec) -> Option<CartItem> {
    repriced(item, item.quantity, min_of(max_of(percent, Dec::spec_zero()), Dec::spec_hundred()), Dec::spec_zero())
}

/// `item` with a fixed discount per unit, a negative one read as zero, in place of any
/// percentage.
pub open spec fn amount_discounted(item: CartItem, amount: Dec) -> Option<CartItem> {
    repriced(item, item.quantity, Dec::spec_zero(), max_of(amount, Dec::spec_zero()))
}

/// `item` without discounts.
pub open spec fn undiscounted(item: CartItem) -> Option<CartItem> {
    repriced(item, item.quantity, Dec::spec_zero(), Dec::spec_zero())
}

/// `item` with another note.
pub open spec fn with_note(item: CartItem, note: Option<String>) -> CartItem {
    CartItem {
        id: item.id,
        product_id: item.product_id,
        product_name: item.product_name,
        product_name_ar: item.product_name_ar,
        sku: item.sku,
        barcode: item.barcode,
        quantity: item.quantity,
        unit: item.unit,
        unit_price: item.unit_price,
        tax_rate: item.tax_rate,
        tax_inclusive: item.tax_inclusive,
        discount_amount: item.discount_amount,
        discount_percent: item.discount_percent,
        product_type: item.product_type,
        track_inventory: item.track_inventory,
        note: note,
        line_subtotal: item.line_subtotal,
        line_tax: item.line_tax,
        line_total: item.line_total,
        line_discount: item.line_discount,
    }
}

/// `k` is the position of the first line with this identifier.
pub open spec fn first_with_id(items: Seq<CartItem>, id: Seq<char>, k: int) -> bool {
    0 <= k < items.len() && items[k].id@ == id && forall|j: int| 0 <= j < k ==> items[j].id@ != id
}

/// `k` is the position of the first line of this product.
pub open spec fn first_with_product(items: Seq<CartItem>, product_id: Seq<char>, k: int) -> bool {
    0 <= k < items.len() && items[k].product_id@ == product_id && forall|j: int|
        0 <= j < k ==> items[j].product_id@ != product_id
}

/// No line has this identifier.
pub open spec fn lacks_id(items: Seq<CartItem>, id: Seq<char>) -> bool {
    forall|k: int| 0 <= k < items.len() ==> items[k].id@ != id
}

/// Replacing line `k` of `c` by `line` gives totals that do not overflow.
pub open spec fn line_change_fits(c: Cart, k: int, line: Option<CartItem>) -> bool {
    line matches Some(l) && cart_totals_of(c.items@.update(k, l), c.cart_discount_percent, c.cart_discount_amount)
        is Some
}

/// The totals of `items` with one more line of amounts `a`.
pub open spec fn totals_with_line(items: Seq<CartItem>, percent: Dec, amount: Dec, a: LineAmounts) -> Option<
    CartTotals,
> {
    let subs = subtotals(items).push(a.subtotal);
    let cart_discount = if percent.is_pos() {
        product_of(sum_all(subs), hundredth(percent))
    } else {
        Some(amount)
    };
    let sub = difference_of(sum_all(subs), cart_discount);
    let tax = sum_all(taxes(items).push(a.tax));
    let disc = sum_of(sum_all(discounts(items).push(a.discount)), cart_discount);
    let grand = sum_of(sub, tax);
    match (sub, tax, disc, grand) {
        (Some(s), Some(t), Some(d), Some(g)) => Some(
            CartTotals {
                subtotal: s,
                tax_total: t,
                discount_total: d,
                grand_total: if g.is_neg() {
                    Dec::spec_zero()
                } else {
                    g
                },
            },
        ),
        _ => None,
    }
}

/// `l` is a new line for `quantity` of `product`, with no discount and no note.
pub open spec fn is_new_line(product: Product, quantity: Dec, l: CartItem) -> bool {
    &&& l.product_id == product.id
    &&& l.product_name == product.name
    &&& l.product_name_ar == product.name_ar
    &&& l.sku == product.sku
    &&& l.barcode == product.barcode
    &&& l.quantity == quantity
    &&& l.unit == product.unit
    &&& l.unit_price == product.price
    &&& l.tax_rate == product.tax_rate
    &&& l.tax_inclusive == product.tax_inclusive
    &&& l.discount_amount == Dec::spec_zero()
    &&& l.discount_percent == Dec::spec_zero()
    &&& l.product_type == product.product_type
    &&& l.track_inventory == product.track_inventory
    &&& l.note is None
    &&& l.is_calculated()
}

/// Everything but the lines and the computed totals is the same.
pub open spec fn same_but_lines(a: Cart, b: Cart) -> bool {
    &&& a.customer_id == b.customer_id
    &&& a.customer_name == b.customer_name
    &&& a.customer_balance == b.customer_balance
    &&& a.cart_discount_percent == b.cart_discount_percent
    &&& a.cart_discount_amount == b.cart_discount_amount
    &&& a.note == b.note
}

/// A repriced line is the one `repriced` describes.
proof fn lemma_repriced(old_item: CartItem, new_item: CartItem, quantity: Dec, percent: Dec, amount: Dec)
    requires
        new_item.same_line(old_item),
        new_item.quantity == quantity,
        new_item.discount_percent == percent,
        new_item.discount_amount == amount,
        new_item.is_calculated(),
    ensures
        repriced(old_item, quantity, percent, amount) == Some(new_item),
{
}

/// The totals of the lines with one more depend only on that line's amounts.
proof fn lemma_totals_with_line(items: Seq<CartItem>, percent: Dec, amount: Dec, l: CartItem)
    requires
        l.amounts() matches Some(a) && l.holds_amounts(a),
    ensures
        cart_totals_of(items.push(l), percent, amount) == totals_with_line(items, percent, amount, l.amounts()->0),
{
    assert(subtotals(items.push(l)) =~= subtotals(items).push(l.line_subtotal));
    assert(taxes(items.push(l)) =~= taxes(items).push(l.line_tax));
    assert(discounts(items.push(l)) =~= discounts(items).push(l.line_discount));
}

/// The cart the till is ringing up, and the operator it belongs to.
#[derive(Debug)]
pub struct CartService {
    cart: Cart,
    operator_id: Option<String>,
}

impl CartService {
    /// The cart.
    pub closed spec fn spec_cart(self) -> Cart {
        self.cart
    }

    /// The operator the cart belongs to.
    pub closed spec fn spec_operator(self) -> Option<String> {
        self.operator_id
    }

    /// The cart's totals agree with its lines and discount.
    pub open spec fn consistent(self) -> bool {
        self.spec_cart().totals() matches Some(t) && self.spec_cart().holds_totals(t)
    }

    /// An empty cart.
    pub fn new() -> (s: CartService)
        ensures
            s.spec_cart().items@.len() == 0,
            s.spec_cart().customer_id is None,
            s.spec_operator() is None,
    {
        CartService { cart: Cart::new(), operator_id: None }
    }

    /// A service over a given cart.
    pub fn with_cart(cart: Cart) -> (s: CartService)
        ensures
            s.spec_cart() == cart,
            s.spec_operator() is None,
    {
        CartService { cart, operator_id: None }
    }

    /// Records whose cart this is.
    pub fn set_operator(&mut self, operator_id: Option<String>)
        ensures
            final(self).spec_operator() == operator_id,
            final(self).spec_cart() == old(self).spec_cart(),
    {
        self.operator_id = operator_id;
    }

    /// The operator the cart belongs to.
    pub fn operator(&self) -> (r: &Option<String>)
        ensures
            *r == self.spec_operator(),
    {
        &self.operator_id
    }

    /// Commits a changed cart once its totals are recomputed; refused, changing nothing, when
    /// they overflow.
    fn commit(&mut self, mut next: Cart) -> (r: CartResult<()>)
        ensures
            r is Ok <==> next.totals() is Some,
            r is Err ==> is_overflow(r->Err_0) && final(self).spec_cart() == old(self).spec_cart(),
            r is Ok ==> final(self).spec_cart().same_contents(next) && final(self).consistent(),
            final(self).spec_operator() == old(self).spec_operator(),
    {
        match next.recalculate() {
            Ok(()) => {
                self.cart = next;
                Ok(())
            },
            Err(Overflow) => Err(overflowed()),
        }
    }

    /// Adds `quantity` of a product: to its existing line when the cart has one, else as a
    /// new line. The line's identifier is returned.
    pub fn add_item(&mut self, product: &Product, quantity: Dec) -> (r: CartResult<String>)
        ensures
            !quantity.is_pos() ==> (r matches Err(CartError::InvalidQuantity(m)) && m@
                == "Quantity must be positive"@),
            r is Err ==> final(self).spec_cart() == old(self).spec_cart(),
            r is Ok ==> final(self).consistent() && quantity.is_pos() && same_but_lines(final(self).spec_cart(), old(self).spec_cart()),
            quantity.is_pos() ==> forall|k: int| #[trigger] first_with_product(old(self).spec_cart().items@, product.id@, k)
                ==> ((r is Ok <==> line_change_fits(old(self).spec_cart(), k, topped_up(old(self).spec_cart().items@[k], quantity))) && (r is Ok
                ==> r->Ok_0 == old(self).spec_cart().items@[k].id && final(self).spec_cart().items@ == old(self).spec_cart().items@.update(
                k,
                topped_up(old(self).spec_cart().items@[k], quantity)->0,
            ))),
            quantity.is_pos() && (forall|j: int| 0 <= j < old(self).spec_cart().items@.len() ==> old(self).spec_cart().items@[j].product_id@ != product.id@) ==> (r is Ok <==> (line_amounts_of(
                product.price,
                quantity,
                Dec::spec_zero(),
                Dec::spec_zero(),
                product.tax_rate,
                product.tax_inclusive,
            ) matches Some(a) && totals_with_line(old(self).spec_cart().items@, old(self).spec_cart().cart_discount_percent,
                old(self).spec_cart().cart_discount_amount, a) is Some)),
            r is Ok && (forall|j: int| 0 <= j < old(self).spec_cart().items@.len() ==> old(self).spec_cart().items@[j].product_id@ != product.id@) ==> final(self).spec_cart().items@.len() == old(self).spec_cart().items@.len() + 1
                && final(self).spec_cart().items@.drop_last() == old(self).spec_cart().items@ && is_new_line(
                *product,
                quantity,
                final(self).spec_cart().items@.last(),
            ) && r->Ok_0 == final(self).spec_cart().items@.last().id,

    {
        if !quantity.is_positive() {
            return Err(CartError::InvalidQuantity(owned("Quantity must be positive")));
        }
        let mut next = self.cart.clone();
        match next.position_of_product(product.id.as_str()) {
            Some(k) => {
                let mut item = next.items[k].clone();
                let total = match crate::dec::opt_sum(Some(item.quantity), Some(quantity)) {
                    Some(t) => t,
                    None => return Err(overflowed()),
                };
                match item.set_quantity(total) {
                    Ok(()) => {},
                    Err(Overflow) => return Err(overflowed()),
                }
                let id = item.id.clone();
                next.items.set(k, item);
                match self.commit(next) {
                    Ok(()) => Ok(id),
                    Err(e) => Err(e),
                }
            },
            None => {
                let item = match CartItem::new(product, quantity) {
                    Ok(item) => item,
                    Err(Overflow) => return Err(overflowed()),
                };
                let id = item.id.clone();
                proof {
                    lemma_totals_with_line(
                        next.items@,
                        next.cart_discount_percent,
                        next.cart_discount_amount,
                        item,
                    );
                }
                next.items.push(item);
                match self.commit(next) {
                    Ok(()) => Ok(id),
                    Err(e) => Err(e),
                }
            },
        }
    }

    /// Sets a line's quantity; zero removes the line.
    pub fn update_quantity(&mut self, item_id: &str, quantity: Dec) -> (r: CartResult<()>)
        ensures
            quantity.is_neg() ==> (r matches Err(CartError::InvalidQuantity(m)) && m@
                == "Quantity cannot be negative"@),
            !quantity.is_neg() && lacks_id(old(self).spec_cart().items@, item_id@) ==> (r matches Err(
                CartError::ItemNotFound(m),
            ) && m@ == item_id@),
            r is Err ==> final(self).spec_cart() == old(self).spec_cart(),
            r is Ok ==> final(self).consistent() && same_but_lines(final(self).spec_cart(), old(self).spec_cart()),
            quantity.is_zero_value() ==> ((r is Ok <==> !lacks_id(old(self).spec_cart().items@, item_id@)
                && cart_totals_of(without_id(old(self).spec_cart().items@, item_id@), old(self).spec_cart().cart_discount_percent,
                old(self).spec_cart().cart_discount_amount) is Some) && (r is Ok ==> final(self).spec_cart().items@ == without_id(
                old(self).spec_cart().items@,
                item_id@,
            ))),
            quantity.is_pos() ==> forall|k: int| #[trigger] first_with_id(old(self).spec_cart().items@, item_id@, k) ==> ((r is Ok
                <==> line_change_fits(old(self).spec_cart(), k, requantified(old(self).spec_cart().items@[k], quantity))) && (r is Ok ==> final(self).spec_cart().items@ == old(self).spec_cart().items@.update(
                k,
                requantified(old(self).spec_cart().items@[k], quantity)->0,
            ))),

    {
        if quantity.is_negative() {
            return Err(CartError::InvalidQuantity(owned("Quantity cannot be negative")));
        }
        if quantity.is_zero() {
            return self.remove_item(item_id);
        }
        let mut next = self.cart.clone();
        match next.position_of_item(item_id) {
            Some(k) => {
                let mut item = next.items[k].clone();
                match item.set_quantity(quantity) {
                    Ok(()) => {},
                    Err(Overflow) => return Err(overflowed()),
                }
                next.items.set(k, item);
                self.commit(next)
            },
            None => Err(CartError::ItemNotFound(owned(item_id))),
        }
    }

    /// Adds one to a line's quantity.
    pub fn increment(&mut self, item_id: &str) -> (r: CartResult<()>)
        ensures
            lacks_id(old(self).spec_cart().items@, item_id@) ==> (r matches Err(CartError::ItemNotFound(m))
                && m@ == item_id@),
            r is Err ==> final(self).spec_cart() == old(self).spec_cart(),
            r is Ok ==> final(self).consistent() && same_but_lines(final(self).spec_cart(), old(self).spec_cart()),
            forall|k: int| #[trigger] first_with_id(old(self).spec_cart().items@, item_id@, k) ==> ((r is Ok
                <==> line_change_fits(old(self).spec_cart(), k, incremented(old(self).spec_cart().items@[k]))) && (r is Ok ==> final(self).spec_cart().items@ == old(self).spec_cart().items@.update(
                k,
                incremented(old(self).spec_cart().items@[k])->0,
            ))),

    {
        let mut next = self.cart.clone();
        match next.position_of_item(item_id) {
            Some(k) => {
                let mut item = next.items[k].clone();
                match item.increment() {
                    Ok(()) => {},
                    Err(Overflow) => return Err(overflowed()),
                }
                next.items.set(k, item);
                self.commit(next)
            },
            None => Err(CartError::ItemNotFound(owned(item_id))),
        }
    }

    /// Takes one from a line's quantity; a line at one or less is removed instead.
    pub fn decrement(&mut self, item_id: &str) -> (r: CartResult<()>)
        ensures
            lacks_id(old(self).spec_cart().items@, item_id@) ==> (r matches Err(CartError::ItemNotFound(m))
                && m@ == item_id@),
            r is Err ==> final(self).spec_cart() == old(self).spec_cart(),
            r is Ok ==> final(self).consistent() && same_but_lines(final(self).spec_cart(), old(self).spec_cart()),
            r is Ok ==> final(self).spec_cart().items@.len() == old(self).spec_cart().items@.len()
                || final(self).spec_cart().items@.len() + 1 == old(self).spec_cart().items@.len(),
            forall|k: int| #[trigger] first_with_id(old(self).spec_cart().items@, item_id@, k) ==> (value_lt(
                Dec::spec_one(),
                old(self).spec_cart().items@[k].quantity,
            ) ==> ((r is Ok <==> line_change_fits(old(self).spec_cart(), k, decremented(old(self).spec_cart().items@[k]))) && (r is Ok
                ==> final(self).spec_cart().items@ == old(self).spec_cart().items@.update(k, decremented(old(self).spec_cart().items@[k])->0)))),
            forall|k: int| #[trigger] first_with_id(old(self).spec_cart().items@, item_id@, k) ==> (!value_lt(
                Dec::spec_one(),
                old(self).spec_cart().items@[k].quantity,
            ) ==> ((r is Ok <==> cart_totals_of(old(self).spec_cart().items@.remove(k), old(self).spec_cart().cart_discount_percent,
                old(self).spec_cart().cart_discount_amount) is Some) && (r is Ok ==> final(self).spec_cart().items@ == old(self).spec_cart().items@.remove(
                k,
            )))),

    {
        let mut next = self.cart.clone();
        match next.position_of_item(item_id) {
            Some(k) => {
                let one = Dec::one();
                if next.items[k].quantity.le(&one) {
                    next.items.remove(k);
                    return self.commit(next);
                }
                let mut item = next.items[k].clone();
                match item.decrement() {
                    Ok(()) => {},
                    Err(Overflow) => return Err(overflowed()),
                }
                next.items.set(k, item);
                self.commit(next)
            },
            None => Err(CartError::ItemNotFound(owned(item_id))),
        }
    }

    /// Removes every line with this identifier.
    pub fn remove_item(&mut self, item_id: &str) -> (r: CartResult<()>)
        ensures
            lacks_id(old(self).spec_cart().items@, item_id@) ==> (r matches Err(CartError::ItemNotFound(m))
                && m@ == item_id@),
            r is Err ==> final(self).spec_cart() == old(self).spec_cart(),
            r is Ok ==> final(self).consistent() && same_but_lines(final(self).spec_cart(), old(self).spec_cart()),
            r is Ok <==> !lacks_id(old(self).spec_cart().items@, item_id@) && cart_totals_of(without_id(
                old(self).spec_cart().items@,
                item_id@,
            ), old(self).spec_cart().cart_discount_percent, old(self).spec_cart().cart_discount_amount) is Some,
            r is Ok ==> final(self).spec_cart().items@ == without_id(old(self).spec_cart().items@, item_id@),

    {
        let items = remove_with_id(&self.cart.items, item_id);
        if items.len() == self.cart.items.len() {
            return Err(CartError::ItemNotFound(owned(item_id)));
        }
        let mut next = self.cart.clone();
        next.items = items;
        self.commit(next)
    }

    /// Applies a percentage discount to a line; refused outside `0..=100`.
    pub fn apply_item_discount(&mut self, item_id: &str, percent: Dec) -> (r: CartResult<()>)
        ensures
            (percent.is_neg() || value_lt(Dec::spec_hundred(), percent)) ==> (r matches Err(
                CartError::InvalidDiscount(m),
            ) && m@ == "Discount must be between 0 and 100"@),
            !(percent.is_neg() || value_lt(Dec::spec_hundred(), percent)) && lacks_id(old(self).spec_cart().items@, item_id@) ==> (r matches Err(
                CartError::ItemNotFound(m),
            ) && m@ == item_id@),
            r is Err ==> final(self).spec_cart() == old(self).spec_cart(),
            r is Ok ==> final(self).consistent() && same_but_lines(final(self).spec_cart(), old(self).spec_cart()),
            !(percent.is_neg() || value_lt(Dec::spec_hundred(), percent)) ==> forall|k: int| #[trigger] first_with_id(old(self).spec_cart().items@, item_id@, k) ==> ((r is Ok
                <==> line_change_fits(old(self).spec_cart(), k, percent_discounted(old(self).spec_cart().items@[k], percent))) && (r is Ok ==> final(self).spec_cart().items@ == old(self).spec_cart().items@.update(
                k,
                percent_discounted(old(self).spec_cart().items@[k], percent)->0,
            ))),

    {
        let hundred = Dec::hundred();
        if percent.is_negative() || hundred.lt(&percent) {
            return Err(CartError::InvalidDiscount(owned("Discount must be between 0 and 100")));
        }
        let mut next = self.cart.clone();
        match next.position_of_item(item_id) {
            Some(k) => {
                let mut item = next.items[k].clone();
                match item.apply_discount_percent(percent) {
                    Ok(()) => {},
                    Err(Overflow) => return Err(overflowed()),
                }
                next.items.set(k, item);
                self.commit(next)
            },
            None => Err(CartError::ItemNotFound(owned(item_id))),
        }
    }

    /// Applies a fixed discount per unit to a line; refused when negative.
    pub fn apply_item_discount_amount(&mut self, item_id: &str, amount: Dec) -> (r: CartResult<()>)
        ensures
            amount.is_neg() ==> (r matches Err(CartError::InvalidDiscount(m)) && m@
                == "Discount amount cannot be negative"@),
            !amount.is_neg() && lacks_id(old(self).spec_cart().items@, item_id@) ==> (r matches Err(
                CartError::ItemNotFound(m),
            ) && m@ == item_id@),
            r is Err ==> final(self).spec_cart() == old(self).spec_cart(),
            r is Ok ==> final(self).consistent() && same_but_lines(final(self).spec_cart(), old(self).spec_cart()),
            !amount.is_neg() ==> forall|k: int| #[trigger] first_with_id(old(self).spec_cart().items@, item_id@, k) ==> ((r is Ok
                <==> line_change_fits(old(self).spec_cart(), k, amount_discounted(old(self).spec_cart().items@[k], amount))) && (r is Ok ==> final(self).spec_cart().items@ == old(self).spec_cart().items@.update(
                k,
                amount_discounted(old(self).spec_cart().items@[k], amount)->0,
            ))),

    {
        if amount.is_negative() {
            return Err(CartError::InvalidDiscount(owned("Discount amount cannot be negative")));
        }
        let mut next = self.cart.clone();
        match next.position_of_item(item_id) {
            Some(k) => {
                let mut item = next.items[k].clone();
                match item.apply_discount_amount(amount) {
                    Ok(()) => {},
                    Err(Overflow) => return Err(overflowed()),
                }
                next.items.set(k, item);
                self.commit(next)
            },
            None => Err(CartError::ItemNotFound(owned(item_id))),
        }
    }

    /// Removes a line's discounts.
    pub fn clear_item_discount(&mut self, item_id: &str) -> (r: CartResult<()>)
        ensures
            lacks_id(old(self).spec_cart().items@, item_id@) ==> (r matches Err(CartError::ItemNotFound(m))
                && m@ == item_id@),
            r is Err ==> final(self).spec_cart() == old(self).spec_cart(),
            r is Ok ==> final(self).consistent() && same_but_lines(final(self).spec_cart(), old(self).spec_cart()),
            forall|k: int| #[trigger] first_with_id(old(self).spec_cart().items@, item_id@, k) ==> ((r is Ok
                <==> line_change_fits(old(self).spec_cart(), k, undiscounted(old(self).spec_cart().items@[k]))) && (r is Ok ==> final(self).spec_cart().items@ == old(self).spec_cart().items@.update(
                k,
                undiscounted(old(self).spec_cart().items@[k])->0,
            ))),

    {
        let mut next = self.cart.clone();
        match next.position_of_item(item_id) {
            Some(k) => {
                let mut item = next.items[k].clone();
                match item.clear_discount() {
                    Ok(()) => {},
                    Err(Overflow) => return Err(overflowed()),
                }
                next.items.set(k, item);
                self.commit(next)
            },
            None => Err(CartError::ItemNotFound(owned(item_id))),
        }
    }

    /// Sets or clears a line's note; the totals are untouched.
    pub fn set_item_note(&mut self, item_id: &str, note: Option<String>) -> (r: CartResult<()>)
        ensures
            lacks_id(old(self).spec_cart().items@, item_id@) ==> (r matches Err(CartError::ItemNotFound(m))
                && m@ == item_id@),
            r is Err ==> final(self).spec_cart() == old(self).spec_cart(),
            forall|k: int| #[trigger] first_with_id(old(self).spec_cart().items@, item_id@, k) ==> r is Ok
                && final(self).spec_cart().items@ == old(self).spec_cart().items@.update(k, with_note(old(self).spec_cart().items@[k], note)),
            r is Ok ==> same_but_lines(final(self).spec_cart(), old(self).spec_cart()) && final(self).spec_cart().subtotal == old(self).spec_cart().subtotal
                && final(self).spec_cart().tax_total == old(self).spec_cart().tax_total && final(self).spec_cart().discount_total == old(self).spec_cart().discount_total
                && final(self).spec_cart().grand_total == old(self).spec_cart().grand_total,

    {
        match self.cart.position_of_item(item_id) {
            Some(k) => {
                let mut item = self.cart.items[k].clone();
                item.set_note(note);
                self.cart.items.set(k, item);
                Ok(())
            },
            None => Err(CartError::ItemNotFound(owned(item_id))),
        }
    }

    /// Applies a percentage discount to the whole cart, replacing a fixed one; refused outside
    /// `0..=100`.
    pub fn apply_cart_discount(&mut self, percent: Dec) -> (r: CartResult<()>)
        ensures
            (percent.is_neg() || value_lt(Dec::spec_hundred(), percent)) ==> (r matches Err(
                CartError::InvalidDiscount(m),
            ) && m@ == "Discount must be between 0 and 100"@),
            !(percent.is_neg() || value_lt(Dec::spec_hundred(), percent)) ==> (r is Ok <==> cart_totals_of(old(self).spec_cart().items@, percent, Dec::spec_zero()) is Some),
            r is Err ==> final(self).spec_cart() == old(self).spec_cart(),
            r is Ok ==> final(self).consistent() && final(self).spec_cart().cart_discount_percent
                == percent && final(self).spec_cart().cart_discount_amount == Dec::spec_zero()
                && final(self).spec_cart().items@ == old(self).spec_cart().items@,
            r is Ok ==> final(self).spec_cart().customer_id == old(self).spec_cart().customer_id && final(self).spec_cart().customer_name
                == old(self).spec_cart().customer_name && final(self).spec_cart().customer_balance == old(self).spec_cart().customer_balance
                && final(self).spec_cart().note == old(self).spec_cart().note,

    {
        let hundred = Dec::hundred();
        if percent.is_negative() || hundred.lt(&percent) {
            return Err(CartError::InvalidDiscount(owned("Discount must be between 0 and 100")));
        }
        let mut next = self.cart.clone();
        next.cart_discount_percent = percent;
        next.cart_discount_amount = Dec::zero();
        self.commit(next)
    }

    /// Applies a fixed discount to the whole cart, replacing a percentage; refused when
    /// negative.
    pub fn apply_cart_discount_amount(&mut self, amount: Dec) -> (r: CartResult<()>)
        ensures
            amount.is_neg() ==> (r matches Err(CartError::InvalidDiscount(m)) && m@
                == "Discount amount cannot be negative"@),
            !amount.is_neg() ==> (r is Ok <==> cart_totals_of(old(self).spec_cart().items@, Dec::spec_zero(), amount) is Some),
            r is Err ==> final(self).spec_cart() == old(self).spec_cart(),
            r is Ok ==> final(self).consistent() && final(self).spec_cart().cart_discount_amount
                == amount && final(self).spec_cart().cart_discount_percent == Dec::spec_zero()
                && final(self).spec_cart().items@ == old(self).spec_cart().items@,
            r is Ok ==> final(self).spec_cart().customer_id == old(self).spec_cart().customer_id && final(self).spec_cart().customer_name
                == old(self).spec_cart().customer_name && final(self).spec_cart().customer_balance == old(self).spec_cart().customer_balance
                && final(self).spec_cart().note == old(self).spec_cart().note,

    {
        if amount.is_negative() {
            return Err(CartError::InvalidDiscount(owned("Discount amount cannot be negative")));
        }
        let mut next = self.cart.clone();
        next.cart_discount_amount = amount;
        next.cart_discount_percent = Dec::zero();
        self.commit(next)
    }

    /// Removes the cart's discount.
    pub fn clear_cart_discount(&mut self) -> (r: CartResult<()>)
        ensures
            r is Ok <==> cart_totals_of(old(self).spec_cart().items@, Dec::spec_zero(), Dec::spec_zero())
                is Some,
            r is Err ==> is_overflow(r->Err_0) && final(self).spec_cart() == old(self).spec_cart(),
            r is Ok ==> final(self).spec_cart().customer_id == old(self).spec_cart().customer_id
                && final(self).spec_cart().customer_name == old(self).spec_cart().customer_name
                && final(self).spec_cart().customer_balance == old(self).spec_cart().customer_balance
                && final(self).spec_cart().note == old(self).spec_cart().note,
            r is Ok ==> final(self).consistent() && final(self).spec_cart().cart_discount_amount
                == Dec::spec_zero() && final(self).spec_cart().cart_discount_percent
                == Dec::spec_zero() && final(self).spec_cart().items@ == old(self).spec_cart().items@,
    {
        let mut next = self.cart.clone();
        next.cart_discount_amount = Dec::zero();
        next.cart_discount_percent = Dec::zero();
        self.commit(next)
    }

    /// Attaches or detaches a customer.
    pub fn set_customer(&mut self, customer_id: Option<String>, customer_name: Option<String>, balance: Dec)
        ensures
            final(self).spec_cart().customer_id == customer_id,
            final(self).spec_cart().customer_name == customer_name,
            final(self).spec_cart().customer_balance == balance,
            final(self).spec_cart().items@ == old(self).spec_cart().items@,
            final(self).spec_cart().grand_total == old(self).spec_cart().grand_total,
    {
        self.cart.customer_id = customer_id;
        self.cart.customer_name = customer_name;
        self.cart.customer_balance = balance;
    }

    /// Detaches the customer.
    pub fn clear_customer(&mut self)
        ensures
            final(self).spec_cart().customer_id is None,
            final(self).spec_cart().customer_name is None,
            final(self).spec_cart().customer_balance == Dec::spec_zero(),
            final(self).spec_cart().items@ == old(self).spec_cart().items@,
    {
        self.set_customer(None, None, Dec::zero());
    }

    /// Sets or clears the order's note.
    pub fn set_cart_note(&mut self, note: Option<String>)
        ensures
            final(self).spec_cart().note == note,
            final(self).spec_cart().items@ == old(self).spec_cart().items@,
    {
        self.cart.note = note;
    }

    /// Empties the cart but keeps its customer.
    pub fn clear(&mut self)
        ensures
            final(self).spec_cart().items@.len() == 0,
            final(self).spec_cart().customer_id == old(self).spec_cart().customer_id,
            final(self).spec_cart().customer_name == old(self).spec_cart().customer_name,
            final(self).spec_cart().customer_balance == old(self).spec_cart().customer_balance,
            final(self).spec_cart().grand_total == Dec::spec_zero(),
            final(self).spec_cart().cart_discount_percent == Dec::spec_zero(),
            final(self).spec_cart().cart_discount_amount == Dec::spec_zero(),
            final(self).spec_cart().note is None,
    {
        let mut fresh = Cart::new();
        fresh.customer_id = self.cart.customer_id.clone();
        fresh.customer_name = self.cart.customer_name.clone();
        fresh.customer_balance = self.cart.customer_balance;
        self.cart = fresh;
    }

    /// Empties the cart, customer included.
    pub fn clear_all(&mut self)
        ensures
            final(self).spec_cart().items@.len() == 0,
            final(self).spec_cart().customer_id is None,
            final(self).spec_cart().grand_total == Dec::spec_zero(),
    {
        self.cart = Cart::new();
    }

    /// A copy of the cart.
    pub fn get_cart(&self) -> (c: Cart)
        ensures
            c.same_contents(self.spec_cart()),
            c.grand_total == self.spec_cart().grand_total,
            c.subtotal == self.spec_cart().subtotal,
    {
        self.cart.clone()
    }

    /// Whether the cart has no lines.
    pub fn is_empty(&self) -> (b: bool)
        ensures
            b == (self.spec_cart().items@.len() == 0),
    {
        self.cart.is_empty()
    }

    /// Units across the lines; `None` when the sum overflows.
    pub fn item_count(&self) -> (r: Option<Dec>)
        ensures
            r == crate::dec::sum_all(crate::models::cart::quantities(self.spec_cart().items@)),
    {
        self.cart.item_count()
    }

    /// The number of lines.
    pub fn line_count(&self) -> (n: usize)
        ensures
            n == self.spec_cart().items@.len(),
    {
        self.cart.line_count()
    }

    /// The cart's grand total.
    pub fn grand_total(&self) -> (d: Dec)
        ensures
            d == self.spec_cart().grand_total,
    {
        self.cart.grand_total
    }

    /// Whether the cart has a line of this product.
    pub fn has_product(&self, product_id: &str) -> (b: bool)
        ensures
            b == exists|k: int| 0 <= k < self.spec_cart().items@.len() && self.spec_cart().items@[k].product_id@
                == product_id@,
    {
        self.cart.position_of_product(product_id).is_some()
    }

    /// The quantity of a product in the cart's first line of it, or zero.
    pub fn get_product_quantity(&self, product_id: &str) -> (q: Dec)
        ensures
            (forall|k: int| 0 <= k < self.spec_cart().items@.len() ==> self.spec_cart().items@[k].product_id@
                != product_id@) ==> q == Dec::spec_zero(),
            (exists|k: int| 0 <= k < self.spec_cart().items@.len() && self.spec_cart().items@[k].product_id@
                == product_id@ && q == self.spec_cart().items@[k].quantity && forall|j: int|
                0 <= j < k ==> self.spec_cart().items@[j].product_id@ != product_id@) || (forall|k: int|
                0 <= k < self.spec_cart().items@.len() ==> self.spec_cart().items@[k].product_id@
                != product_id@),
    {
        match self.cart.position_of_product(product_id) {
            Some(k) => self.cart.items[k].quantity,
            None => Dec::zero(),
        }
    }

    /// Whether the cart can be checked out: not empty, and owing more than zero.
    pub fn validate_for_checkout(&self) -> (r: CartResult<()>)
        ensures
            self.spec_cart().items@.len() == 0 ==> r == Err::<(), CartError>(CartError::EmptyCart),
            self.spec_cart().items@.len() > 0 && !self.spec_cart().grand_total.is_pos() ==> (r matches Err(
                CartError::OperationFailed(m),
            ) && m@ == "Cart total must be positive"@),
            self.spec_cart().items@.len() > 0 && self.spec_cart().grand_total.is_pos() ==> r is Ok,
    {
        if self.cart.is_empty() {
            return Err(CartError::EmptyCart);
        }
        if !self.cart.grand_total.is_positive() {
            return Err(CartError::OperationFailed(owned("Cart total must be positive")));
        }
        Ok(())
    }

    /// Replaces the cart, recomputing its totals; refused, changing nothing, when they
    /// overflow.
    pub fn replace_cart(&mut self, new_cart: Cart) -> (r: CartResult<()>)
        ensures
            r is Ok <==> new_cart.totals() is Some,
            r is Err ==> final(self).spec_cart() == old(self).spec_cart(),
            r is Ok ==> final(self).spec_cart().same_contents(new_cart) && final(self).consistent(),
    {
        self.commit(new_cart)
    }

    /// Restores a cart saved by an earlier session, when one was stored, read back and is not
    /// empty; the stored operator comes with it. Whether anything was restored is returned.
    pub fn restore(&mut self, stored: Option<(Option<String>, Result<Cart, String>)>) -> (b: bool)
        ensures
            !b ==> final(self).spec_cart() == old(self).spec_cart() && final(self).spec_operator()
                == old(self).spec_operator(),
            b <==> restorable(stored),
            b ==> final(self).spec_cart() == stored_cart(stored),
            b ==> final(self).spec_operator() == (match stored_operator(stored) {
                Some(o) => Some(o),
                None => old(self).spec_operator(),
            }),
    {
        match stored {
            Some((op, Ok(cart))) => {
                if cart.is_empty() {
                    return false;
                }
                self.cart = cart;
                match op {
                    Some(o) => self.operator_id = Some(o),
                    None => {},
                }
                true
            },
            _ => false,
        }
    }
}

/// Whether a stored session holds a cart that was read back and is not empty.
pub open spec fn restorable(stored: Option<(Option<String>, Result<Cart, String>)>) -> bool {
    match stored {
        Some((_, Ok(c))) => c.items@.len() > 0,
        _ => false,
    }
}

/// The cart that a stored session holds, where it was read back.
pub open spec fn stored_cart(stored: Option<(Option<String>, Result<Cart, String>)>) -> Cart
    recommends
        restorable(stored),
{
    match stored {
        Some((_, Ok(c))) => c,
        _ => arbitrary(),
    }
}

/// The operator that a stored session names, if any.
pub open spec fn stored_operator(stored: Option<(Option<String>, Result<Cart, String>)>) -> Option<String> {
    match stored {
        Some((op, _)) => op,
        None => None,
    }
}

impl Default for CartService {
    fn default() -> (s: CartService)
        ensures
            s.spec_cart().items@.len() == 0,
            s.spec_operator() is None,
    {
        CartService::new()
    }
}

} // verus!
