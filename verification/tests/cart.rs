use pos_terminal::dec::Dec;
use pos_terminal::models::cart::{Cart, CartItem};
use pos_terminal::models::product::{Product, ProductUnit};

fn create_test_product() -> Product {
    Product {
        id: "prod-001".to_string(),
        sku: "SKU001".to_string(),
        barcode: Some("1234567890123".to_string()),
        name: "Test Product".to_string(),
        name_ar: Some("منتج تجريبي".to_string()),
        price: Dec::from_int(10),
        tax_rate: Dec::from_int(15),
        tax_inclusive: false,
        unit: ProductUnit::Unit,
        ..Default::default()
    }
}

fn create_test_product_tax_inclusive() -> Product {
    Product {
        id: "prod-002".to_string(),
        sku: "SKU002".to_string(),
        name: "Tax Inclusive Product".to_string(),
        price: Dec::from_int(115),
        tax_rate: Dec::from_int(15),
        tax_inclusive: true,
        unit: ProductUnit::Unit,
        ..Default::default()
    }
}

fn item_of(product: &Product, quantity: Dec) -> CartItem {
    CartItem::new(product, quantity).expect("the amounts fit")
}

#[test]
fn test_cart_item_new() {
    let product = create_test_product();
    let item = item_of(&product, Dec::from_int(2));

    assert_eq!(item.product_id, "prod-001");
    assert_eq!(item.quantity, Dec::from_int(2));
    assert_eq!(item.unit_price, Dec::from_int(10));
    assert_eq!(item.line_subtotal, Dec::from_int(20));
    assert_eq!(item.line_tax, Dec::from_int(3));
    assert_eq!(item.line_total, Dec::from_int(23));
}

#[test]
fn test_cart_item_tax_inclusive() {
    let product = create_test_product_tax_inclusive();
    let item = item_of(&product, Dec::one());

    assert_eq!(item.line_subtotal, Dec::from_int(100));
    assert_eq!(item.line_tax, Dec::from_int(15));
    assert_eq!(item.line_total, Dec::from_int(115));
}

#[test]
fn test_cart_item_set_quantity() {
    let product = create_test_product();
    let mut item = item_of(&product, Dec::one());

    item.set_quantity(Dec::from_int(5)).unwrap();

    assert_eq!(item.quantity, Dec::from_int(5));
    assert_eq!(item.line_subtotal, Dec::from_int(50));
    assert_eq!(item.line_tax, Dec::new(75, 1));
    assert_eq!(item.line_total, Dec::new(575, 1));
}

#[test]
fn test_cart_item_increment_decrement() {
    let product = create_test_product();
    let mut item = item_of(&product, Dec::from_int(2));

    item.increment().unwrap();
    assert_eq!(item.quantity, Dec::from_int(3));

    item.decrement().unwrap();
    assert_eq!(item.quantity, Dec::from_int(2));

    item.set_quantity(Dec::one()).unwrap();
    item.decrement().unwrap();
    assert_eq!(item.quantity, Dec::one());
}

#[test]
fn test_cart_item_discount_percent() {
    let product = create_test_product();
    let mut item = item_of(&product, Dec::from_int(2));

    item.apply_discount_percent(Dec::from_int(10)).unwrap();

    assert_eq!(item.line_discount, Dec::from_int(2));
    assert_eq!(item.line_subtotal, Dec::from_int(18));
    assert_eq!(item.line_tax, Dec::new(27, 1));
    assert_eq!(item.line_total, Dec::new(207, 1));
    assert!(item.has_discount());
    assert_eq!(item.discount_label(), "-10%");
}

#[test]
fn test_cart_item_discount_amount() {
    let product = create_test_product();
    let mut item = item_of(&product, Dec::from_int(2));

    item.apply_discount_amount(Dec::one()).unwrap();

    assert_eq!(item.line_discount, Dec::from_int(2));
    assert_eq!(item.line_subtotal, Dec::from_int(18));
}

#[test]
fn test_cart_item_clear_discount() {
    let product = create_test_product();
    let mut item = item_of(&product, Dec::from_int(2));

    item.apply_discount_percent(Dec::from_int(10)).unwrap();
    assert!(item.has_discount());

    item.clear_discount().unwrap();
    assert!(!item.has_discount());
    assert_eq!(item.line_total, Dec::from_int(23));
}

#[test]
fn test_cart_item_display_name() {
    let product = create_test_product();
    let item = item_of(&product, Dec::one());

    assert_eq!(item.display_name("en"), "Test Product");
    assert_eq!(item.display_name("ar"), "منتج تجريبي");
}

#[test]
fn test_cart_item_note() {
    let product = create_test_product();
    let mut item = item_of(&product, Dec::one());

    item.set_note(Some("No onions".to_string()));
    assert_eq!(item.note, Some("No onions".to_string()));

    item.set_note(None);
    assert_eq!(item.note, None);
}

#[test]
fn test_cart_new() {
    let cart = Cart::new();

    assert!(cart.is_empty());
    assert_eq!(cart.item_count(), Some(Dec::zero()));
    assert_eq!(cart.line_count(), 0);
    assert_eq!(cart.grand_total, Dec::zero());
}

#[test]
fn test_cart_recalculate() {
    let product1 = create_test_product();
    let product2 = Product {
        id: "prod-002".to_string(),
        sku: "SKU002".to_string(),
        name: "Product 2".to_string(),
        price: Dec::from_int(20),
        tax_rate: Dec::from_int(15),
        tax_inclusive: false,
        unit: ProductUnit::Unit,
        ..Default::default()
    };

    let mut cart = Cart::new();
    cart.items.push(item_of(&product1, Dec::from_int(2)));
    cart.items.push(item_of(&product2, Dec::one()));
    cart.recalculate().unwrap();

    assert_eq!(cart.line_count(), 2);
    assert_eq!(cart.item_count(), Some(Dec::from_int(3)));
    assert_eq!(cart.subtotal, Dec::from_int(40));
    assert_eq!(cart.tax_total, Dec::from_int(6));
    assert_eq!(cart.grand_total, Dec::from_int(46));
}

#[test]
fn test_cart_discount_percent() {
    let product = create_test_product();
    let mut cart = Cart::new();
    cart.items.push(item_of(&product, Dec::from_int(10)));
    cart.cart_discount_percent = Dec::from_int(10);
    cart.recalculate().unwrap();

    assert_eq!(cart.discount_total, Dec::from_int(10));
    assert_eq!(cart.subtotal, Dec::from_int(90));
    assert_eq!(cart.grand_total, Dec::from_int(105));
}

#[test]
fn test_cart_discount_amount() {
    let product = create_test_product();
    let mut cart = Cart::new();
    cart.items.push(item_of(&product, Dec::from_int(10)));
    cart.cart_discount_amount = Dec::from_int(5);
    cart.recalculate().unwrap();

    assert_eq!(cart.discount_total, Dec::from_int(5));
    assert_eq!(cart.subtotal, Dec::from_int(95));
    assert_eq!(cart.grand_total, Dec::from_int(110));
}

#[test]
fn test_cart_customer() {
    let mut cart = Cart::new();

    assert!(!cart.has_customer());

    cart.customer_id = Some("cust-001".to_string());
    cart.customer_name = Some("John Doe".to_string());
    cart.customer_balance = Dec::from_int(500);

    assert!(cart.has_customer());
    assert_eq!(cart.customer_name, Some("John Doe".to_string()));
}

#[test]
fn test_cart_find_item() {
    let product = create_test_product();
    let mut cart = Cart::new();
    let item = item_of(&product, Dec::one());
    let item_id = item.id.clone();
    cart.items.push(item);

    assert!(cart.find_item(&item_id).is_some());
    assert!(cart.find_item("nonexistent").is_none());
    assert!(cart.find_by_product("prod-001").is_some());
    assert!(cart.find_by_product("nonexistent").is_none());
}

#[test]
fn test_cart_combined_discounts() {
    let product = create_test_product();
    let mut cart = Cart::new();

    let mut item = item_of(&product, Dec::from_int(10));
    item.apply_discount_percent(Dec::from_int(10)).unwrap();
    cart.items.push(item);

    cart.cart_discount_percent = Dec::from_int(5);
    cart.recalculate().unwrap();

    assert_eq!(cart.discount_total, Dec::new(145, 1));
    assert_eq!(cart.subtotal, Dec::new(855, 1));
    assert_eq!(cart.grand_total, Dec::from_int(99));
}

#[test]
fn test_cart_negative_total_protection() {
    let product = create_test_product();
    let mut cart = Cart::new();
    cart.items.push(item_of(&product, Dec::one()));
    cart.cart_discount_amount = Dec::from_int(1000);
    cart.recalculate().unwrap();

    assert!(!cart.grand_total.is_negative());
}

#[test]
fn test_cart_item_original_total() {
    let product = create_test_product();
    let mut item = item_of(&product, Dec::from_int(2));

    let original = item.original_line_total();
    assert_eq!(original, Some(Dec::from_int(23)));

    item.apply_discount_percent(Dec::from_int(10)).unwrap();
    let still_original = item.original_line_total();
    assert_eq!(still_original, Some(Dec::from_int(23)));
}

#[test]
fn cart_item_overflowing_amounts_are_refused() {
    let product = Product {
        price: Dec::from_parts(79228162514264337593543950335, 0).unwrap(),
        ..create_test_product()
    };
    assert!(CartItem::new(&product, Dec::from_int(10)).is_err());
}

#[test]
fn cart_item_discount_percent_is_clamped_to_a_hundred() {
    let product = create_test_product();
    let mut item = item_of(&product, Dec::from_int(2));
    item.apply_discount_percent(Dec::from_int(150)).unwrap();
    assert_eq!(item.discount_percent, Dec::from_int(100));
    assert_eq!(item.line_total, Dec::zero());
    item.apply_discount_percent(Dec::from_int(-5)).unwrap();
    assert_eq!(item.discount_percent, Dec::zero());
    assert_eq!(item.line_total, Dec::from_int(23));
}

#[test]
fn cart_item_discount_label_shows_a_fixed_amount_to_three_places() {
    let product = create_test_product();
    let mut item = item_of(&product, Dec::from_int(2));
    assert_eq!(item.discount_label(), "");
    item.apply_discount_amount(Dec::new(15, 1)).unwrap();
    assert_eq!(item.discount_label(), "-1.5");
}
