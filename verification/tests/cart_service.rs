use pos_terminal::dec::Dec;
use pos_terminal::models::cart::{Cart, CartItem};
use pos_terminal::models::product::{Product, ProductUnit};
use pos_terminal::services::cart_service::{CartError, CartService};

fn create_test_product(id: &str, name: &str, price: Dec) -> Product {
    Product {
        id: id.to_string(),
        sku: format!("SKU-{}", id),
        name: name.to_string(),
        price,
        tax_rate: Dec::from_int(15),
        tax_inclusive: false,
        unit: ProductUnit::Unit,
        ..Default::default()
    }
}

#[test]
fn test_cart_service_new() {
    let service = CartService::new();
    assert!(service.is_empty());
    assert_eq!(service.item_count(), Some(Dec::zero()));
}

#[test]
fn test_add_item() {
    let mut service = CartService::new();
    let product = create_test_product("p1", "Test Product", Dec::from_int(10));

    let result = service.add_item(&product, Dec::from_int(2));
    assert!(result.is_ok());

    assert!(!service.is_empty());
    assert_eq!(service.item_count(), Some(Dec::from_int(2)));
    assert_eq!(service.line_count(), 1);
}

#[test]
fn test_add_same_product_twice() {
    let mut service = CartService::new();
    let product = create_test_product("p1", "Test Product", Dec::from_int(10));

    service.add_item(&product, Dec::from_int(2)).unwrap();
    service.add_item(&product, Dec::from_int(3)).unwrap();

    assert_eq!(service.item_count(), Some(Dec::from_int(5)));
    assert_eq!(service.line_count(), 1);
}

#[test]
fn test_add_different_products() {
    let mut service = CartService::new();
    let product1 = create_test_product("p1", "Product 1", Dec::from_int(10));
    let product2 = create_test_product("p2", "Product 2", Dec::from_int(20));

    service.add_item(&product1, Dec::one()).unwrap();
    service.add_item(&product2, Dec::one()).unwrap();

    assert_eq!(service.item_count(), Some(Dec::from_int(2)));
    assert_eq!(service.line_count(), 2);
}

#[test]
fn test_add_item_invalid_quantity() {
    let mut service = CartService::new();
    let product = create_test_product("p1", "Test Product", Dec::from_int(10));

    let result = service.add_item(&product, Dec::zero());
    assert!(matches!(result, Err(CartError::InvalidQuantity(_))));

    let result = service.add_item(&product, Dec::from_int(-1));
    assert!(matches!(result, Err(CartError::InvalidQuantity(_))));
}

#[test]
fn test_update_quantity() {
    let mut service = CartService::new();
    let product = create_test_product("p1", "Test Product", Dec::from_int(10));
    let item_id = service.add_item(&product, Dec::from_int(2)).unwrap();

    service.update_quantity(&item_id, Dec::from_int(5)).unwrap();

    assert_eq!(service.item_count(), Some(Dec::from_int(5)));
}

#[test]
fn test_update_quantity_to_zero_removes() {
    let mut service = CartService::new();
    let product = create_test_product("p1", "Test Product", Dec::from_int(10));
    let item_id = service.add_item(&product, Dec::from_int(2)).unwrap();

    service.update_quantity(&item_id, Dec::zero()).unwrap();

    assert!(service.is_empty());
}

#[test]
fn test_increment_decrement() {
    let mut service = CartService::new();
    let product = create_test_product("p1", "Test Product", Dec::from_int(10));
    let item_id = service.add_item(&product, Dec::from_int(2)).unwrap();

    service.increment(&item_id).unwrap();
    assert_eq!(service.item_count(), Some(Dec::from_int(3)));

    service.decrement(&item_id).unwrap();
    assert_eq!(service.item_count(), Some(Dec::from_int(2)));
}

#[test]
fn test_decrement_to_zero_removes() {
    let mut service = CartService::new();
    let product = create_test_product("p1", "Test Product", Dec::from_int(10));
    let item_id = service.add_item(&product, Dec::one()).unwrap();

    service.decrement(&item_id).unwrap();

    assert!(service.is_empty());
}

#[test]
fn test_remove_item() {
    let mut service = CartService::new();
    let product = create_test_product("p1", "Test Product", Dec::from_int(10));
    let item_id = service.add_item(&product, Dec::from_int(2)).unwrap();

    service.remove_item(&item_id).unwrap();

    assert!(service.is_empty());
}

#[test]
fn test_remove_nonexistent_item() {
    let mut service = CartService::new();

    let result = service.remove_item("nonexistent");
    assert!(matches!(result, Err(CartError::ItemNotFound(_))));
}

#[test]
fn test_apply_item_discount() {
    let mut service = CartService::new();
    let product = create_test_product("p1", "Test Product", Dec::from_int(100));
    let item_id = service.add_item(&product, Dec::one()).unwrap();

    service.apply_item_discount(&item_id, Dec::from_int(10)).unwrap();

    let cart = service.get_cart();
    let item = cart.find_item(&item_id).unwrap();
    assert_eq!(item.line_discount, Dec::from_int(10));
}

#[test]
fn test_apply_invalid_discount() {
    let mut service = CartService::new();
    let product = create_test_product("p1", "Test Product", Dec::from_int(100));
    let item_id = service.add_item(&product, Dec::one()).unwrap();

    let result = service.apply_item_discount(&item_id, Dec::from_int(-5));
    assert!(matches!(result, Err(CartError::InvalidDiscount(_))));

    let result = service.apply_item_discount(&item_id, Dec::from_int(150));
    assert!(matches!(result, Err(CartError::InvalidDiscount(_))));
}

#[test]
fn test_apply_cart_discount() {
    let mut service = CartService::new();
    let product = create_test_product("p1", "Test Product", Dec::from_int(100));
    service.add_item(&product, Dec::one()).unwrap();

    service.apply_cart_discount(Dec::from_int(10)).unwrap();

    let cart = service.get_cart();
    assert_eq!(cart.discount_total, Dec::from_int(10));
}

#[test]
fn test_clear_cart_discount() {
    let mut service = CartService::new();
    let product = create_test_product("p1", "Test Product", Dec::from_int(100));
    service.add_item(&product, Dec::one()).unwrap();
    service.apply_cart_discount(Dec::from_int(10)).unwrap();

    service.clear_cart_discount().unwrap();

    let cart = service.get_cart();
    assert_eq!(cart.cart_discount_percent, Dec::zero());
}

#[test]
fn test_set_customer() {
    let mut service = CartService::new();

    service.set_customer(Some("cust-001".to_string()), Some("John Doe".to_string()), Dec::from_int(500));

    let cart = service.get_cart();
    assert_eq!(cart.customer_id, Some("cust-001".to_string()));
    assert_eq!(cart.customer_name, Some("John Doe".to_string()));
    assert_eq!(cart.customer_balance, Dec::from_int(500));
}

#[test]
fn test_clear_customer() {
    let mut service = CartService::new();
    service.set_customer(Some("cust-001".to_string()), Some("John Doe".to_string()), Dec::from_int(500));

    service.clear_customer();

    let cart = service.get_cart();
    assert_eq!(cart.customer_id, None);
}

#[test]
fn test_clear_preserves_customer() {
    let mut service = CartService::new();
    let product = create_test_product("p1", "Test Product", Dec::from_int(10));
    service.add_item(&product, Dec::from_int(2)).unwrap();
    service.set_customer(Some("cust-001".to_string()), Some("John Doe".to_string()), Dec::from_int(500));

    service.clear();

    let cart = service.get_cart();
    assert!(cart.is_empty());
    assert_eq!(cart.customer_id, Some("cust-001".to_string()));
}

#[test]
fn test_clear_all() {
    let mut service = CartService::new();
    let product = create_test_product("p1", "Test Product", Dec::from_int(10));
    service.add_item(&product, Dec::from_int(2)).unwrap();
    service.set_customer(Some("cust-001".to_string()), Some("John Doe".to_string()), Dec::from_int(500));

    service.clear_all();

    let cart = service.get_cart();
    assert!(cart.is_empty());
    assert_eq!(cart.customer_id, None);
}

#[test]
fn test_has_product() {
    let mut service = CartService::new();
    let product = create_test_product("p1", "Test Product", Dec::from_int(10));

    assert!(!service.has_product("p1"));

    service.add_item(&product, Dec::one()).unwrap();

    assert!(service.has_product("p1"));
    assert!(!service.has_product("p2"));
}

#[test]
fn test_get_product_quantity() {
    let mut service = CartService::new();
    let product = create_test_product("p1", "Test Product", Dec::from_int(10));

    assert_eq!(service.get_product_quantity("p1"), Dec::zero());

    service.add_item(&product, Dec::from_int(3)).unwrap();

    assert_eq!(service.get_product_quantity("p1"), Dec::from_int(3));
}

#[test]
fn test_grand_total() {
    let mut service = CartService::new();
    let product = create_test_product("p1", "Test Product", Dec::from_int(10));
    service.add_item(&product, Dec::from_int(2)).unwrap();

    assert_eq!(service.grand_total(), Dec::from_int(23));
}

#[test]
fn test_validate_for_checkout() {
    let mut service = CartService::new();

    let result = service.validate_for_checkout();
    assert!(matches!(result, Err(CartError::EmptyCart)));

    let product = create_test_product("p1", "Test Product", Dec::from_int(10));
    service.add_item(&product, Dec::one()).unwrap();

    let result = service.validate_for_checkout();
    assert!(result.is_ok());
}

#[test]
fn test_replace_cart() {
    let mut service = CartService::new();
    let product = create_test_product("p1", "Original", Dec::from_int(10));
    service.add_item(&product, Dec::one()).unwrap();

    let mut new_cart = Cart::new();
    new_cart.items.push(CartItem::new(&create_test_product("p2", "Replaced", Dec::from_int(20)), Dec::from_int(5)).unwrap());

    service.replace_cart(new_cart).unwrap();

    assert_eq!(service.line_count(), 1);
    assert_eq!(service.item_count(), Some(Dec::from_int(5)));

    let cart = service.get_cart();
    assert_eq!(cart.items[0].product_name, "Replaced");
}

#[test]
fn test_set_item_note() {
    let mut service = CartService::new();
    let product = create_test_product("p1", "Test Product", Dec::from_int(10));
    let item_id = service.add_item(&product, Dec::one()).unwrap();

    service.set_item_note(&item_id, Some("Extra spicy".to_string())).unwrap();

    let cart = service.get_cart();
    let item = cart.find_item(&item_id).unwrap();
    assert_eq!(item.note, Some("Extra spicy".to_string()));
}

#[test]
fn test_with_cart() {
    let mut cart = Cart::new();
    let product = create_test_product("p1", "Test Product", Dec::from_int(10));
    cart.items.push(CartItem::new(&product, Dec::from_int(3)).unwrap());
    cart.recalculate().unwrap();

    let service = CartService::with_cart(cart);

    assert_eq!(service.item_count(), Some(Dec::from_int(3)));
}

#[test]
fn a_stored_cart_is_restored_with_its_operator() {
    let mut service = CartService::new();
    let mut cart = Cart::new();
    cart.items.push(CartItem::new(&create_test_product("p1", "Kept", Dec::from_int(10)), Dec::from_int(2)).unwrap());
    cart.recalculate().unwrap();

    assert!(!service.restore(None));
    assert!(!service.restore(Some((None, Err("corrupt".to_string())))));
    assert!(!service.restore(Some((None, Ok(Cart::new())))));
    assert!(service.is_empty());

    assert!(service.restore(Some((Some("op-7".to_string()), Ok(cart)))));
    assert_eq!(service.line_count(), 1);
    assert_eq!(service.operator(), &Some("op-7".to_string()));
}

#[test]
fn cart_errors_read_as_sentences() {
    assert_eq!(CartError::ItemNotFound("x".to_string()).message(), "Item not found: x");
    assert_eq!(CartError::EmptyCart.message(), "Cart is empty");
    assert_eq!(CartError::InvalidDiscount("150".to_string()).message(), "Invalid discount: 150");
}
