//! The product catalogue: products, their units and types, and categories.
//!
//! Prices, rates and quantities are [`Dec`]s. The arithmetic a product does on them is the
//! decimal crate's; where that crate's operators would panic on an overflow, the methods here
//! return `None`.
use vstd::prelude::*;

use crate::dec::{
    opt_difference, opt_product, opt_quotient, opt_sum, difference_of, product_of, quotient_of,
    sum_of, Dec,
};
use crate::models::parse::ParseError;
use crate::text::{owned, replace_char, replaced_char, str_eq, to_unicode_upper, unicode_upper};

verus! {

// ============================================================================
// ProductType
// ============================================================================

/// What kind of thing a product is.
#[derive(Clone, Copy, Debug, PartialEq, Eq, Structural, Hash)]
pub enum ProductType {
    /// A physical good kept in stock.
    PhysicalGood,
    /// Consumed in use.
    Consumable,
    /// A bundle of other products.
    Bundle,
    /// A service.
    Service,
    /// A fee.
    Fee,
    /// Labour.
    Labor,
    /// A digital good.
    Digital,
    /// A subscription.
    Subscription,
    /// A rental.
    Rental,
    /// A warranty.
    Warranty,
    /// A raw material.
    RawMaterial,
}

impl ProductType {
    /// The spelling storage and the wire use.
    pub open spec fn wire(self) -> Seq<char> {
        match self {
            ProductType::PhysicalGood => "PHYSICAL_GOOD"@,
            ProductType::Consumable => "CONSUMABLE"@,
            ProductType::Bundle => "BUNDLE"@,
            ProductType::Service => "SERVICE"@,
            ProductType::Fee => "FEE"@,
            ProductType::Labor => "LABOR"@,
            ProductType::Digital => "DIGITAL"@,
            ProductType::Subscription => "SUBSCRIPTION"@,
            ProductType::Rental => "RENTAL"@,
            ProductType::Warranty => "WARRANTY"@,
            ProductType::RawMaterial => "RAW_MATERIAL"@,
        }
    }

    /// The form a stored type is compared in: upper case, hyphens read as underscores.
    pub open spec fn normalized(raw: Seq<char>) -> Seq<char> {
        replaced_char(unicode_upper(raw), '-', '_')
    }

    /// The type a normalized spelling names, if any.
    pub open spec fn parse_wire(k: Seq<char>) -> Option<ProductType> {
        if k == "PHYSICAL_GOOD"@ {
            Some(ProductType::PhysicalGood)
        } else if k == "CONSUMABLE"@ {
            Some(ProductType::Consumable)
        } else if k == "BUNDLE"@ {
            Some(ProductType::Bundle)
        } else if k == "SERVICE"@ {
            Some(ProductType::Service)
        } else if k == "FEE"@ {
            Some(ProductType::Fee)
        } else if k == "LABOR"@ {
            Some(ProductType::Labor)
        } else if k == "DIGITAL"@ {
            Some(ProductType::Digital)
        } else if k == "SUBSCRIPTION"@ {
            Some(ProductType::Subscription)
        } else if k == "RENTAL"@ {
            Some(ProductType::Rental)
        } else if k == "WARRANTY"@ {
            Some(ProductType::Warranty)
        } else if k == "RAW_MATERIAL"@ {
            Some(ProductType::RawMaterial)
        } else {
            None
        }
    }

    /// The spelling storage and the wire use.
    pub fn as_str(&self) -> (s: &'static str)
        ensures
            s@ == self.wire(),
    {
        match self {
            ProductType::PhysicalGood => "PHYSICAL_GOOD",
            ProductType::Consumable => "CONSUMABLE",
            ProductType::Bundle => "BUNDLE",
            ProductType::Service => "SERVICE",
            ProductType::Fee => "FEE",
            ProductType::Labor => "LABOR",
            ProductType::Digital => "DIGITAL",
            ProductType::Subscription => "SUBSCRIPTION",
            ProductType::Rental => "RENTAL",
            ProductType::Warranty => "WARRANTY",
            ProductType::RawMaterial => "RAW_MATERIAL",
        }
    }

    /// Reads a stored type, in any case and with hyphens or underscores; an unknown type is
    /// refused and named.
    pub fn from_str(raw: &str) -> (r: Result<ProductType, ParseError>)
        ensures
            r matches Ok(t) ==> ProductType::parse_wire(ProductType::normalized(raw@)) == Some(t),
            r is Err <==> ProductType::parse_wire(ProductType::normalized(raw@)) is None,
            r matches Err(e) ==> e matches ParseError::ProductType(v) && v@ == raw@,
    {
        let upper = to_unicode_upper(raw);
        let key = replace_char(upper.as_str(), '-', '_');
        let k = key.as_str();
        if str_eq(k, "PHYSICAL_GOOD") {
            Ok(ProductType::PhysicalGood)
        } else if str_eq(k, "CONSUMABLE") {
            Ok(ProductType::Consumable)
        } else if str_eq(k, "BUNDLE") {
            Ok(ProductType::Bundle)
        } else if str_eq(k, "SERVICE") {
            Ok(ProductType::Service)
        } else if str_eq(k, "FEE") {
            Ok(ProductType::Fee)
        } else if str_eq(k, "LABOR") {
            Ok(ProductType::Labor)
        } else if str_eq(k, "DIGITAL") {
            Ok(ProductType::Digital)
        } else if str_eq(k, "SUBSCRIPTION") {
            Ok(ProductType::Subscription)
        } else if str_eq(k, "RENTAL") {
            Ok(ProductType::Rental)
        } else if str_eq(k, "WARRANTY") {
            Ok(ProductType::Warranty)
        } else if str_eq(k, "RAW_MATERIAL") {
            Ok(ProductType::RawMaterial)
        } else {
            Err(ParseError::ProductType(owned(raw)))
        }
    }
}


impl Default for ProductType {
    fn default() -> (t: ProductType)
        ensures
            t == ProductType::PhysicalGood,
    {
        ProductType::PhysicalGood
    }
}

impl std::str::FromStr for ProductType {
    type Err = ParseError;

    fn from_str(raw: &str) -> Result<ProductType, ParseError> {
        ProductType::from_str(raw)
    }
}

// ============================================================================
// ProductNature
// ============================================================================

/// Whether a product is tangible.
#[derive(Clone, Copy, Debug, PartialEq, Eq, Structural, Hash)]
pub enum ProductNature {
    /// A physical thing.
    Tangible,
    /// Not a physical thing.
    Intangible,
    /// Partly each.
    Hybrid,
}

impl ProductNature {
    /// The spelling storage and the wire use.
    pub open spec fn wire(self) -> Seq<char> {
        match self {
            ProductNature::Tangible => "TANGIBLE"@,
            ProductNature::Intangible => "INTANGIBLE"@,
            ProductNature::Hybrid => "HYBRID"@,
        }
    }

    /// The nature an upper-cased spelling names, if any.
    pub open spec fn parse_wire(k: Seq<char>) -> Option<ProductNature> {
        if k == "TANGIBLE"@ {
            Some(ProductNature::Tangible)
        } else if k == "INTANGIBLE"@ {
            Some(ProductNature::Intangible)
        } else if k == "HYBRID"@ {
            Some(ProductNature::Hybrid)
        } else {
            None
        }
    }

    /// The spelling storage and the wire use.
    pub fn as_str(&self) -> (s: &'static str)
        ensures
            s@ == self.wire(),
    {
        match self {
            ProductNature::Tangible => "TANGIBLE",
            ProductNature::Intangible => "INTANGIBLE",
            ProductNature::Hybrid => "HYBRID",
        }
    }

    /// Reads a stored nature in any case; an unknown nature is refused and named.
    pub fn from_str(raw: &str) -> (r: Result<ProductNature, ParseError>)
        ensures
            r matches Ok(n) ==> ProductNature::parse_wire(unicode_upper(raw@)) == Some(n),
            r is Err <==> ProductNature::parse_wire(unicode_upper(raw@)) is None,
            r matches Err(e) ==> e matches ParseError::ProductNature(v) && v@ == raw@,
    {
        let upper = to_unicode_upper(raw);
        let k = upper.as_str();
        if str_eq(k, "TANGIBLE") {
            Ok(ProductNature::Tangible)
        } else if str_eq(k, "INTANGIBLE") {
            Ok(ProductNature::Intangible)
        } else if str_eq(k, "HYBRID") {
            Ok(ProductNature::Hybrid)
        } else {
            Err(ParseError::ProductNature(owned(raw)))
        }
    }
}

impl Default for ProductNature {
    fn default() -> (n: ProductNature)
        ensures
            n == ProductNature::Tangible,
    {
        ProductNature::Tangible
    }
}

impl std::str::FromStr for ProductNature {
    type Err = ParseError;

    fn from_str(raw: &str) -> Result<ProductNature, ParseError> {
        ProductNature::from_str(raw)
    }
}

// ============================================================================
// ProductUnit
// ============================================================================

/// The unit a product is sold in.
#[derive(Clone, Copy, Debug, PartialEq, Eq, Structural, Hash)]
pub enum ProductUnit {
    /// A single unit.
    Unit,
    /// Kilograms.
    Kg,
    /// Grams.
    Gram,
    /// Litres.
    Liter,
    /// Millilitres.
    Ml,
    /// Metres.
    Meter,
    /// Centimetres.
    Cm,
    /// A box.
    Box,
    /// A pack.
    Pack,
    /// A dozen.
    Dozen,
    /// A piece.
    Piece,
}

impl ProductUnit {
    /// The label shown on screen in English.
    pub open spec fn english_label(self) -> Seq<char> {
        match self {
            ProductUnit::Unit => "Unit"@,
            ProductUnit::Kg => "Kg"@,
            ProductUnit::Gram => "g"@,
            ProductUnit::Liter => "L"@,
            ProductUnit::Ml => "mL"@,
            ProductUnit::Meter => "m"@,
            ProductUnit::Cm => "cm"@,
            ProductUnit::Box => "Box"@,
            ProductUnit::Pack => "Pack"@,
            ProductUnit::Dozen => "Dozen"@,
            ProductUnit::Piece => "Pc"@,
        }
    }

    /// The label shown on screen in Arabic.
    pub open spec fn arabic_label(self) -> Seq<char> {
        match self {
            ProductUnit::Unit => "وحدة"@,
            ProductUnit::Kg => "كجم"@,
            ProductUnit::Gram => "جرام"@,
            ProductUnit::Liter => "لتر"@,
            ProductUnit::Ml => "مل"@,
            ProductUnit::Meter => "متر"@,
            ProductUnit::Cm => "سم"@,
            ProductUnit::Box => "صندوق"@,
            ProductUnit::Pack => "علبة"@,
            ProductUnit::Dozen => "درزن"@,
            ProductUnit::Piece => "قطعة"@,
        }
    }

    /// The spelling storage uses.
    pub open spec fn wire(self) -> Seq<char> {
        match self {
            ProductUnit::Unit => "UNIT"@,
            ProductUnit::Kg => "KG"@,
            ProductUnit::Gram => "GRAM"@,
            ProductUnit::Liter => "LITER"@,
            ProductUnit::Ml => "ML"@,
            ProductUnit::Meter => "METER"@,
            ProductUnit::Cm => "CM"@,
            ProductUnit::Box => "BOX"@,
            ProductUnit::Pack => "PACK"@,
            ProductUnit::Dozen => "DOZEN"@,
            ProductUnit::Piece => "PIECE"@,
        }
    }

    /// Whether quantities in this unit may be fractional: the measured units.
    pub open spec fn spec_allows_decimal(self) -> bool {
        match self {
            ProductUnit::Kg | ProductUnit::Gram | ProductUnit::Liter | ProductUnit::Ml
            | ProductUnit::Meter | ProductUnit::Cm => true,
            _ => false,
        }
    }

    /// The unit an upper-cased spelling names, including the short forms `G`, `L`, `M` and
    /// `PC`; anything else is a plain unit.
    pub open spec fn from_upper(k: Seq<char>) -> ProductUnit {
        if k == "UNIT"@ {
            ProductUnit::Unit
        } else if k == "KG"@ {
            ProductUnit::Kg
        } else if k == "GRAM"@ || k == "G"@ {
            ProductUnit::Gram
        } else if k == "LITER"@ || k == "L"@ {
            ProductUnit::Liter
        } else if k == "ML"@ {
            ProductUnit::Ml
        } else if k == "METER"@ || k == "M"@ {
            ProductUnit::Meter
        } else if k == "CM"@ {
            ProductUnit::Cm
        } else if k == "BOX"@ {
            ProductUnit::Box
        } else if k == "PACK"@ {
            ProductUnit::Pack
        } else if k == "DOZEN"@ {
            ProductUnit::Dozen
        } else if k == "PIECE"@ || k == "PC"@ {
            ProductUnit::Piece
        } else {
            ProductUnit::Unit
        }
    }

    /// The label for a locale: Arabic for `ar`, English for any other.
    pub fn label(&self, locale: &str) -> (s: &'static str)
        ensures
            s@ == (if locale@ == "ar"@ {
                self.arabic_label()
            } else {
                self.english_label()
            }),
    {
        let ar = str_eq(locale, "ar");
        match self {
            ProductUnit::Unit => if ar { "وحدة" } else { "Unit" },
            ProductUnit::Kg => if ar { "كجم" } else { "Kg" },
            ProductUnit::Gram => if ar { "جرام" } else { "g" },
            ProductUnit::Liter => if ar { "لتر" } else { "L" },
            ProductUnit::Ml => if ar { "مل" } else { "mL" },
            ProductUnit::Meter => if ar { "متر" } else { "m" },
            ProductUnit::Cm => if ar { "سم" } else { "cm" },
            ProductUnit::Box => if ar { "صندوق" } else { "Box" },
            ProductUnit::Pack => if ar { "علبة" } else { "Pack" },
            ProductUnit::Dozen => if ar { "درزن" } else { "Dozen" },
            ProductUnit::Piece => if ar { "قطعة" } else { "Pc" },
        }
    }

    /// Whether quantities in this unit may be fractional.
    pub fn allows_decimal(&self) -> (b: bool)
        ensures
            b == self.spec_allows_decimal(),
    {
        match self {
            ProductUnit::Kg | ProductUnit::Gram | ProductUnit::Liter | ProductUnit::Ml
            | ProductUnit::Meter | ProductUnit::Cm => true,
            _ => false,
        }
    }

    /// The spelling storage uses.
    pub fn display_text(&self) -> (s: &'static str)
        ensures
            s@ == self.wire(),
    {
        match self {
            ProductUnit::Unit => "UNIT",
            ProductUnit::Kg => "KG",
            ProductUnit::Gram => "GRAM",
            ProductUnit::Liter => "LITER",
            ProductUnit::Ml => "ML",
            ProductUnit::Meter => "METER",
            ProductUnit::Cm => "CM",
            ProductUnit::Box => "BOX",
            ProductUnit::Pack => "PACK",
            ProductUnit::Dozen => "DOZEN",
            ProductUnit::Piece => "PIECE",
        }
    }

    /// Reads a stored unit in any case. An unknown spelling reads as a plain unit, so this
    /// never fails.
    pub fn from_str(raw: &str) -> (r: Result<ProductUnit, ()>)
        ensures
            r == Ok::<ProductUnit, ()>(ProductUnit::from_upper(unicode_upper(raw@))),
    {
        let upper = to_unicode_upper(raw);
        let k = upper.as_str();
        let unit = if str_eq(k, "UNIT") {
            ProductUnit::Unit
        } else if str_eq(k, "KG") {
            ProductUnit::Kg
        } else if str_eq(k, "GRAM") || str_eq(k, "G") {
            ProductUnit::Gram
        } else if str_eq(k, "LITER") || str_eq(k, "L") {
            ProductUnit::Liter
        } else if str_eq(k, "ML") {
            ProductUnit::Ml
        } else if str_eq(k, "METER") || str_eq(k, "M") {
            ProductUnit::Meter
        } else if str_eq(k, "CM") {
            ProductUnit::Cm
        } else if str_eq(k, "BOX") {
            ProductUnit::Box
        } else if str_eq(k, "PACK") {
            ProductUnit::Pack
        } else if str_eq(k, "DOZEN") {
            ProductUnit::Dozen
        } else if str_eq(k, "PIECE") || str_eq(k, "PC") {
            ProductUnit::Piece
        } else {
            ProductUnit::Unit
        };
        Ok(unit)
    }
}

impl Default for ProductUnit {
    fn default() -> (u: ProductUnit)
        ensures
            u == ProductUnit::Unit,
    {
        ProductUnit::Unit
    }
}

impl std::str::FromStr for ProductUnit {
    type Err = ();

    fn from_str(raw: &str) -> Result<ProductUnit, ()> {
        ProductUnit::from_str(raw)
    }
}

// ============================================================================
// Product
// ============================================================================

/// A product in the local catalogue.
#[derive(Clone, Debug)]
pub struct Product {
    /// The server's identifier.
    pub id: String,
    /// Stock-keeping unit.
    pub sku: String,
    /// The barcode, when the product has one.
    pub barcode: Option<String>,
    /// The English name.
    pub name: String,
    /// The Arabic name, when one was synced.
    pub name_ar: Option<String>,
    /// A description.
    pub description: Option<String>,
    /// The shelf price.
    pub price: Dec,
    /// The cost price.
    pub cost: Dec,
    /// The tax rate, in percent.
    pub tax_rate: Dec,
    /// Whether `price` already includes the tax.
    pub tax_inclusive: bool,
    /// The category's identifier.
    pub category_id: Option<String>,
    /// The category's name.
    pub category_name: Option<String>,
    /// The unit the product is sold in.
    pub unit: ProductUnit,
    /// Units in stock.
    pub stock_qty: i32,
    /// The stock level that triggers a reorder.
    pub min_stock: i32,
    /// Whether the till may sell below zero stock.
    pub allow_negative_stock: bool,
    /// An image.
    pub image_url: Option<String>,
    /// Sold by weight.
    pub is_weighable: bool,
    /// Each item carries a serial number.
    pub is_serialized: bool,
    /// Listed for sale.
    pub is_active: bool,
    /// What kind of thing it is.
    pub product_type: ProductType,
    /// Whether stock is counted.
    pub track_inventory: bool,
    /// Whether it is tangible.
    pub product_nature: ProductNature,
}

/// Picks the Arabic name for `ar` when there is one, and the English name otherwise.
pub open spec fn localized(locale: Seq<char>, name: Seq<char>, name_ar: Option<String>) -> Seq<char> {
    if locale == "ar"@ && name_ar is Some {
        name_ar.unwrap()@
    } else {
        name
    }
}

/// The price including tax: the price itself when tax is included, else
/// `price * (1 + rate / 100)`.
pub open spec fn price_with_tax_of(p: Product) -> Option<Dec> {
    if p.tax_inclusive {
        Some(p.price)
    } else {
        product_of(
            Some(p.price),
            sum_of(Some(Dec::spec_one()), quotient_of(Some(p.tax_rate), Some(Dec::spec_hundred()))),
        )
    }
}

/// The tax on `quantity` units: with tax included, `(price - price / (1 + rate / 100)) *
/// quantity`; otherwise `price * (rate / 100) * quantity`.
pub open spec fn tax_amount_of(p: Product, quantity: Dec) -> Option<Dec> {
    let rate = quotient_of(Some(p.tax_rate), Some(Dec::spec_hundred()));
    if p.tax_inclusive {
        let net = quotient_of(Some(p.price), sum_of(Some(Dec::spec_one()), rate));
        product_of(difference_of(Some(p.price), net), Some(quantity))
    } else {
        product_of(product_of(Some(p.price), rate), Some(quantity))
    }
}

impl Product {
    /// The name for a locale: the Arabic name for `ar` when one was synced, the English name
    /// otherwise.
    pub fn display_name(&self, locale: &str) -> (s: &str)
        ensures
            s@ == localized(locale@, self.name@, self.name_ar),
    {
        if str_eq(locale, "ar") {
            match &self.name_ar {
                Some(a) => a.as_str(),
                None => self.name.as_str(),
            }
        } else {
            self.name.as_str()
        }
    }

    /// The price including tax; `None` when the arithmetic overflows a decimal.
    pub fn price_with_tax(&self) -> (r: Option<Dec>)
        ensures
            r == price_with_tax_of(*self),
    {
        if self.tax_inclusive {
            Some(self.price)
        } else {
            let rate = opt_quotient(Some(self.tax_rate), Some(Dec::hundred()));
            opt_product(Some(self.price), opt_sum(Some(Dec::one()), rate))
        }
    }

    /// The tax on `quantity` units; `None` when the arithmetic overflows a decimal.
    pub fn tax_amount(&self, quantity: Dec) -> (r: Option<Dec>)
        ensures
            r == tax_amount_of(*self, quantity),
    {
        let rate = opt_quotient(Some(self.tax_rate), Some(Dec::hundred()));
        if self.tax_inclusive {
            let net = opt_quotient(Some(self.price), opt_sum(Some(Dec::one()), rate));
            opt_product(opt_difference(Some(self.price), net), Some(quantity))
        } else {
            opt_product(opt_product(Some(self.price), rate), Some(quantity))
        }
    }

    /// The price including tax, times `quantity`; `None` when the arithmetic overflows.
    pub fn line_total(&self, quantity: Dec) -> (r: Option<Dec>)
        ensures
            r == product_of(price_with_tax_of(*self), Some(quantity)),
    {
        opt_product(self.price_with_tax(), Some(quantity))
    }

    /// Whether the product can be sold now: always when stock is not counted, else when
    /// there is stock or selling below zero is allowed.
    pub fn is_in_stock(&self) -> (b: bool)
        ensures
            b == (!self.track_inventory || self.stock_qty > 0 || self.allow_negative_stock),
    {
        if !self.track_inventory {
            return true;
        }
        self.stock_qty > 0 || self.allow_negative_stock
    }

    /// Whether `quantity` units can be sold.
    pub fn can_sell(&self, quantity: i32) -> (b: bool)
        ensures
            b == (!self.track_inventory || self.allow_negative_stock || self.stock_qty >= quantity),
    {
        if !self.track_inventory {
            return true;
        }
        self.allow_negative_stock || self.stock_qty >= quantity
    }

    /// Whether the product must be weighed: only a tangible weighable one.
    pub fn requires_weighing(&self) -> (b: bool)
        ensures
            b == (self.product_nature is Tangible && self.is_weighable),
    {
        match self.product_nature {
            ProductNature::Tangible => self.is_weighable,
            _ => false,
        }
    }

    /// Whether each item needs a serial number: only for a tangible serialised product.
    pub fn requires_serial(&self) -> (b: bool)
        ensures
            b == (self.product_nature is Tangible && self.is_serialized),
    {
        match self.product_nature {
            ProductNature::Tangible => self.is_serialized,
            _ => false,
        }
    }
}

impl Default for Product {
    fn default() -> (p: Product)
        ensures
            p.id@ == Seq::<char>::empty() && p.sku@ == Seq::<char>::empty(),
            p.name@ == Seq::<char>::empty(),
            p.barcode is None && p.name_ar is None && p.description is None,
            p.price == Dec::spec_zero() && p.cost == Dec::spec_zero() && p.tax_rate
                == Dec::spec_zero(),
            !p.tax_inclusive,
            p.category_id is None && p.category_name is None,
            p.unit == ProductUnit::Unit,
            p.stock_qty == 0 && p.min_stock == 0,
            !p.allow_negative_stock && p.image_url is None,
            !p.is_weighable && !p.is_serialized && p.is_active,
            p.product_type == ProductType::PhysicalGood,
            p.track_inventory,
            p.product_nature == ProductNature::Tangible,
    {
        Product {
            id: String::new(),
            sku: String::new(),
            barcode: None,
            name: String::new(),
            name_ar: None,
            description: None,
            price: Dec::zero(),
            cost: Dec::zero(),
            tax_rate: Dec::zero(),
            tax_inclusive: false,
            category_id: None,
            category_name: None,
            unit: ProductUnit::Unit,
            stock_qty: 0,
            min_stock: 0,
            allow_negative_stock: false,
            image_url: None,
            is_weighable: false,
            is_serialized: false,
            is_active: true,
            product_type: ProductType::PhysicalGood,
            track_inventory: true,
            product_nature: ProductNature::Tangible,
        }
    }
}

// ============================================================================
// Category
// ============================================================================

/// A catalogue category.
#[derive(Clone, Debug)]
pub struct Category {
    /// The server's identifier.
    pub id: String,
    /// The parent category, absent for a root.
    pub parent_id: Option<String>,
    /// The English name.
    pub name: String,
    /// The Arabic name, when one was synced.
    pub name_ar: Option<String>,
    /// A display colour.
    pub color: Option<String>,
    /// An icon.
    pub icon: Option<String>,
    /// An image.
    pub image_url: Option<String>,
    /// Position in lists.
    pub display_order: i32,
    /// Listed.
    pub is_active: bool,
}

impl Category {
    /// The name for a locale, as for a product.
    pub fn display_name(&self, locale: &str) -> (s: &str)
        ensures
            s@ == localized(locale@, self.name@, self.name_ar),
    {
        if str_eq(locale, "ar") {
            match &self.name_ar {
                Some(a) => a.as_str(),
                None => self.name.as_str(),
            }
        } else {
            self.name.as_str()
        }
    }

    /// Whether the category has no parent.
    pub fn is_root(&self) -> (b: bool)
        ensures
            b == self.parent_id is None,
    {
        self.parent_id.is_none()
    }

    /// The category's colour, or indigo `#6366f1` when it has none.
    pub fn color_or_default(&self) -> (s: &str)
        ensures
            self.color matches Some(c) ==> s@ == c@,
            self.color is None ==> s@ == "#6366f1"@,
    {
        match &self.color {
            Some(c) => c.as_str(),
            None => "#6366f1",
        }
    }
}

impl Default for Category {
    fn default() -> (c: Category)
        ensures
            c.id@ == Seq::<char>::empty() && c.name@ == Seq::<char>::empty(),
            c.parent_id is None && c.name_ar is None && c.color is None,
            c.icon is None && c.image_url is None,
            c.display_order == 0 && c.is_active,
    {
        Category {
            id: String::new(),
            parent_id: None,
            name: String::new(),
            name_ar: None,
            color: None,
            icon: None,
            image_url: None,
            display_order: 0,
            is_active: true,
        }
    }
}

/// The result of a catalogue search.
#[derive(Clone, Debug)]
pub struct ProductSearchResult {
    /// The products found.
    pub products: Vec<Product>,
    /// The query as typed.
    pub query: String,
    /// How many products matched.
    pub total_count: usize,
    /// How long the search took.
    pub search_time_ms: u64,
}

impl ProductSearchResult {
    /// A result with nothing found.
    pub fn empty(query: &str) -> (r: ProductSearchResult)
        ensures
            r.products@.len() == 0,
            r.query@ == query@,
            r.total_count == 0 && r.search_time_ms == 0,
    {
        ProductSearchResult { products: Vec::new(), query: owned(query), total_count: 0, search_time_ms: 0 }
    }

    /// Whether nothing was found.
    pub fn is_empty(&self) -> (b: bool)
        ensures
            b == (self.products@.len() == 0),
    {
        self.products.len() == 0
    }
}

} // verus!
