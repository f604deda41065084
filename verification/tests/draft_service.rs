use pos_terminal::dec::Dec;
use pos_terminal::models::cart::{Cart, CartItem};
use pos_terminal::models::product::{Product, ProductUnit};
use pos_terminal::services::draft_service::{check_can_hold, recall_at, Draft, DraftError, MAX_DRAFTS_PER_OPERATOR};
use pos_terminal::time::UtcInstant;

fn now() -> UtcInstant {
    let t = chrono::Utc::now();
    UtcInstant::from_timestamp(t.timestamp(), t.timestamp_subsec_nanos())
}

fn create_test_cart() -> Cart {
    let product = Product {
        id: "prod-001".to_string(),
        sku: "SKU001".to_string(),
        barcode: Some("1234567890".to_string()),
        name: "Test Product".to_string(),
        name_ar: Some("منتج تجريبي".to_string()),
        price: Dec::from_int(10),
        tax_rate: Dec::from_int(15),
        tax_inclusive: false,
        unit: ProductUnit::Unit,
        ..Default::default()
    };

    let mut cart = Cart::new();
    cart.items.push(CartItem::new(&product, Dec::from_int(2)).unwrap());
    cart.customer_id = Some("cust-001".to_string());
    cart.customer_name = Some("Test Customer".to_string());
    cart.recalculate().unwrap();
    cart
}

#[test]
fn test_save_cart_creates_draft() {
    let cart = create_test_cart();
    assert!(check_can_hold(&cart, 0).is_ok());
    let draft = Draft::from_cart_at(&cart, Some("Test Draft".to_string()), Some("op-1".to_string()), Some("shift-1".to_string()), Some(24), now());

    assert_eq!(draft.name, Some("Test Draft".to_string()));
    assert_eq!(draft.item_count, 1);
    assert_eq!(draft.customer_name, Some("Test Customer".to_string()));
}

#[test]
fn test_save_empty_cart_fails() {
    let cart = Cart::new();
    let result = check_can_hold(&cart, 0);
    assert!(matches!(result, Err(DraftError::EmptyCart)));
}

#[test]
fn test_recall_draft() {
    let cart = create_test_cart();
    let at = now();
    let draft = Draft::from_cart_at(&cart, None, Some("op-1".to_string()), Some("shift-1".to_string()), Some(24), at);

    let recalled_cart = recall_at(draft, "draft-1", at).unwrap();

    assert_eq!(recalled_cart.line_count(), 1);
    assert_eq!(recalled_cart.customer_name, Some("Test Customer".to_string()));
}

#[test]
fn test_draft_display_name() {
    let cart = create_test_cart();

    let draft1 = Draft::from_cart_at(&cart, Some("My Draft".to_string()), Some("op-1".to_string()), Some("shift-1".to_string()), Some(24), now());
    assert_eq!(draft1.display_name(), "My Draft");

    let draft2 = Draft::from_cart_at(&cart, None, Some("op-1".to_string()), Some("shift-1".to_string()), Some(24), now());
    assert_eq!(draft2.display_name(), "Unnamed Draft");
}

#[test]
fn test_draft_expiry() {
    let cart = create_test_cart();
    let at = now();

    let draft = Draft::from_cart_at(&cart, None, Some("op-1".to_string()), None, Some(24), at);
    assert!(draft.expires_at.is_some());
    assert!(!draft.is_expired());
    assert!(draft.time_until_expiry_at(at).unwrap() > 23 * 3600 * 1_000_000_000i128);

    let draft2 = Draft::from_cart_at(&cart, None, Some("op-1".to_string()), None, None, at);
    assert!(draft2.expires_at.is_none());
    assert!(!draft2.is_expired());
}

#[test]
fn test_draft_limit() {
    let cart = create_test_cart();
    for held in 0..MAX_DRAFTS_PER_OPERATOR {
        assert!(check_can_hold(&cart, held).is_ok());
    }
    let result = check_can_hold(&cart, MAX_DRAFTS_PER_OPERATOR);
    assert!(matches!(result, Err(DraftError::LimitExceeded(_))));
}

#[test]
fn test_draft_cart_discount_preserved() {
    let mut cart = create_test_cart();
    cart.cart_discount_percent = Dec::from_int(10);
    cart.recalculate().unwrap();
    let original_total = cart.grand_total;

    let at = now();
    let draft = Draft::from_cart_at(&cart, None, Some("op-1".to_string()), Some("shift-1".to_string()), Some(24), at);
    let recalled = recall_at(draft, "draft-1", at).unwrap();

    assert_eq!(recalled.cart_discount_percent, Dec::from_int(10));
    assert_eq!(recalled.grand_total, original_total);
}

#[test]
fn test_draft_from_cart_item_details() {
    let cart = create_test_cart();
    let draft = Draft::from_cart_at(&cart, Some("Test".to_string()), None, None, None, now());

    assert_eq!(draft.item_count, 1);
    assert_eq!(draft.total_quantity, Dec::from_int(2));
    assert!(draft.total_amount.is_positive());
}

#[test]
fn an_expired_draft_is_refused_and_named() {
    let cart = create_test_cart();
    let at = UtcInstant::from_timestamp(1_000_000, 0);
    let draft = Draft::from_cart_at(&cart, None, None, None, Some(1), at);
    let later = UtcInstant::from_timestamp(1_000_000 + 3601, 0);
    assert!(draft.is_expired_at(later));
    assert_eq!(draft.time_until_expiry_at(later), Some(0));
    assert_eq!(recall_at(draft, "d-9", later).err(), Some(DraftError::Expired("d-9".to_string())));
}
