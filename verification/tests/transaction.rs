use pos_terminal::dec::Dec;
use pos_terminal::models::cart::{Cart, CartItem};
use pos_terminal::models::operator::{OperatorId, RecordedOperatorName};
use pos_terminal::models::parse::ParseError;
use pos_terminal::models::product::{Product, ProductUnit};
use pos_terminal::models::transaction::{
    generate_receipt_number, generate_transaction_number, Payment, PaymentMethod, Transaction,
    TransactionItem, TransactionStatus,
};

fn operator() -> OperatorId {
    OperatorId::new("op-1").expect("a non-blank id")
}

fn recorded() -> RecordedOperatorName {
    RecordedOperatorName::new("Ahmed").expect("a non-blank name")
}

fn create_test_product() -> Product {
    Product {
        id: "prod-001".to_string(),
        sku: "SKU001".to_string(),
        barcode: Some("1234567890123".to_string()),
        name: "Test Product".to_string(),
        name_ar: Some("منتج تجريبي".to_string()),
        price: Dec::from_int(10),
        tax_rate: Dec::from_int(15),
        tax_inclusive: false,
        unit: ProductUnit::Unit,
        ..Default::default()
    }
}

fn create_test_cart() -> Cart {
    let product = create_test_product();
    let mut cart = Cart::new();
    cart.items.push(CartItem::new(&product, Dec::from_int(2)).unwrap());
    cart.recalculate().unwrap();
    cart
}

#[test]
fn test_transaction_status_conversion() {
    assert_eq!(TransactionStatus::Draft.as_str(), "DRAFT");
    assert_eq!(TransactionStatus::Completed.as_str(), "COMPLETED");
    assert_eq!(TransactionStatus::Voided.as_str(), "VOIDED");
    assert_eq!(TransactionStatus::Returned.as_str(), "RETURNED");

    assert_eq!(TransactionStatus::from_str("DRAFT"), Ok(TransactionStatus::Draft));
    assert_eq!(TransactionStatus::from_str("completed"), Ok(TransactionStatus::Completed));
}

#[test]
fn transaction_status_from_str_rejects_unknown_and_names_it() {
    assert_eq!(
        TransactionStatus::from_str("invalid"),
        Err(ParseError::TransactionStatus("invalid".to_string()))
    );
    let message = TransactionStatus::from_str("invalid").unwrap_err().message();
    assert!(message.contains("invalid"), "{message}");
}

#[test]
fn test_payment_method_conversion() {
    assert_eq!(PaymentMethod::Cash.as_str(), "CASH");
    assert_eq!(PaymentMethod::Card.as_str(), "CARD");
    assert_eq!(PaymentMethod::Wallet.as_str(), "WALLET");
    assert_eq!(PaymentMethod::Credit.as_str(), "CREDIT");

    assert_eq!(PaymentMethod::from_str("CASH"), Ok(PaymentMethod::Cash));
    assert_eq!(PaymentMethod::from_str("card"), Ok(PaymentMethod::Card));
}

#[test]
fn payment_method_from_str_rejects_unknown_and_names_it() {
    assert_eq!(
        PaymentMethod::from_str("invalid"),
        Err(ParseError::PaymentMethod("invalid".to_string()))
    );
    let message = PaymentMethod::from_str("invalid").unwrap_err().message();
    assert!(message.contains("invalid"), "{message}");
}

#[test]
fn transaction_status_and_payment_method_defaults_are_unchanged() {
    assert_eq!(TransactionStatus::default(), TransactionStatus::Draft);
    assert_eq!(PaymentMethod::default(), PaymentMethod::Cash);
}

#[test]
fn test_payment_method_display_name() {
    assert_eq!(PaymentMethod::Cash.display_name("en"), "Cash");
    assert_eq!(PaymentMethod::Cash.display_name("ar"), "نقدي");
    assert_eq!(PaymentMethod::Card.display_name("en"), "Card");
    assert_eq!(PaymentMethod::Card.display_name("ar"), "بطاقة");
}

#[test]
fn test_payment_cash() {
    let payment = Payment::cash(Dec::from_int(100), "LYD");
    assert_eq!(payment.method, PaymentMethod::Cash);
    assert_eq!(payment.amount, Dec::from_int(100));
    assert_eq!(payment.currency, "LYD");
    assert!(payment.card_last_four.is_none());
}

#[test]
fn test_payment_card() {
    let payment = Payment::card(Dec::from_int(100), "LYD", "1234", "VISA", "AUTH123");
    assert_eq!(payment.method, PaymentMethod::Card);
    assert_eq!(payment.amount, Dec::from_int(100));
    assert_eq!(payment.card_last_four, Some("1234".to_string()));
    assert_eq!(payment.card_type, Some("VISA".to_string()));
    assert_eq!(payment.auth_code, Some("AUTH123".to_string()));
}

#[test]
fn test_payment_wallet() {
    let payment = Payment::wallet(Dec::from_int(50), "LYD", "Sadad", "TXN123");
    assert_eq!(payment.method, PaymentMethod::Wallet);
    assert_eq!(payment.wallet_type, Some("Sadad".to_string()));
    assert_eq!(payment.reference, Some("TXN123".to_string()));
}

#[test]
fn test_transaction_item_from_cart_item() {
    let product = create_test_product();
    let cart_item = CartItem::new(&product, Dec::from_int(2)).unwrap();
    let txn_item = TransactionItem::from_cart_item(&cart_item);

    assert_eq!(txn_item.product_id, "prod-001");
    assert_eq!(txn_item.quantity, Dec::from_int(2));
    assert_eq!(txn_item.unit_price, Dec::from_int(10));
    assert_eq!(txn_item.line_total, Dec::from_int(23));
}

#[test]
fn test_transaction_item_display_name() {
    let product = create_test_product();
    let cart_item = CartItem::new(&product, Dec::one()).unwrap();
    let txn_item = TransactionItem::from_cart_item(&cart_item);

    assert_eq!(txn_item.display_name("en"), "Test Product");
    assert_eq!(txn_item.display_name("ar"), "منتج تجريبي");
}

#[test]
fn test_transaction_new() {
    let txn = Transaction::new("sale", "LYD", "shift-1", "TERM-001", operator(), recorded());

    assert_eq!(txn.transaction_type, "sale");
    assert_eq!(txn.currency, "LYD");
    assert_eq!(txn.shift_id, "shift-1");
    assert_eq!(txn.terminal_id, "TERM-001");
    assert_eq!(txn.operator_id, operator());
    assert_eq!(txn.operator_name, Some(recorded()));
    assert_eq!(txn.status, TransactionStatus::Draft);
    assert!(txn.transaction_number.starts_with("TXN"));
}

#[test]
fn test_transaction_from_cart() {
    let cart = create_test_cart();
    let txn = Transaction::from_cart(&cart, "LYD", "shift-1", "TERM-001", operator(), recorded());

    assert_eq!(txn.items.len(), 1);
    assert_eq!(txn.subtotal, Dec::from_int(20));
    assert_eq!(txn.tax_total, Dec::from_int(3));
    assert_eq!(txn.grand_total, Dec::from_int(23));
}

#[test]
fn test_transaction_add_cash_payment() {
    let cart = create_test_cart();
    let mut txn =
        Transaction::from_cart(&cart, "LYD", "shift-1", "TERM-001", operator(), recorded());

    txn.add_cash_payment(Dec::from_int(30));

    assert_eq!(txn.payments.len(), 1);
    assert_eq!(txn.total_paid(), Some(Dec::from_int(30)));
    assert_eq!(txn.is_fully_paid(), Some(true));
    assert_eq!(txn.change_due(), Some(Dec::from_int(7)));
}

#[test]
fn test_transaction_add_card_payment() {
    let cart = create_test_cart();
    let mut txn =
        Transaction::from_cart(&cart, "LYD", "shift-1", "TERM-001", operator(), recorded());

    txn.add_card_payment(Dec::from_int(23), "1234", "VISA", "AUTH123");

    assert_eq!(txn.payments.len(), 1);
    assert_eq!(txn.is_fully_paid(), Some(true));
    assert_eq!(txn.payments[0].card_last_four, Some("1234".to_string()));
}

#[test]
fn test_transaction_split_payment() {
    let cart = create_test_cart();
    let mut txn =
        Transaction::from_cart(&cart, "LYD", "shift-1", "TERM-001", operator(), recorded());

    txn.add_cash_payment(Dec::from_int(10));
    assert_eq!(txn.is_fully_paid(), Some(false));
    assert_eq!(txn.remaining(), Some(Dec::from_int(13)));

    txn.add_card_payment(Dec::from_int(13), "5678", "MASTERCARD", "AUTH456");
    assert_eq!(txn.is_fully_paid(), Some(true));
    assert_eq!(txn.remaining(), Some(Dec::zero()));
}

#[test]
fn test_transaction_complete() {
    let cart = create_test_cart();
    let mut txn =
        Transaction::from_cart(&cart, "LYD", "shift-1", "TERM-001", operator(), recorded());

    assert!(txn.complete().is_err());

    txn.add_cash_payment(Dec::from_int(25));
    assert!(txn.complete().is_ok());
    assert_eq!(txn.status, TransactionStatus::Completed);
    assert!(txn.completed_at.is_some());

    assert!(txn.complete().is_err());
}

#[test]
fn test_transaction_void() {
    let cart = create_test_cart();
    let mut txn =
        Transaction::from_cart(&cart, "LYD", "shift-1", "TERM-001", operator(), recorded());

    assert!(txn.can_void());
    assert!(txn.void("Customer changed mind").is_ok());
    assert_eq!(txn.status, TransactionStatus::Voided);
    assert_eq!(txn.void_reason, Some("Customer changed mind".to_string()));
    assert!(txn.voided_at.is_some());

    assert!(txn.void("Duplicate void").is_err());
    assert!(!txn.can_void());
}

#[test]
fn test_transaction_item_count() {
    let cart = create_test_cart();
    let txn = Transaction::from_cart(&cart, "LYD", "shift-1", "TERM-001", operator(), recorded());

    assert_eq!(txn.item_count(), Some(Dec::from_int(2)));
    assert_eq!(txn.line_count(), 1);
}

#[test]
fn test_transaction_is_sale_return() {
    let sale = Transaction::new("sale", "LYD", "s1", "t1", operator(), recorded());
    let ret = Transaction::new("return", "LYD", "s1", "t1", operator(), recorded());

    assert!(sale.is_sale());
    assert!(!sale.is_return());
    assert!(!ret.is_sale());
    assert!(ret.is_return());
}

#[test]
fn test_transaction_has_customer() {
    let mut txn = Transaction::new("sale", "LYD", "s1", "t1", operator(), recorded());
    assert!(!txn.has_customer());

    txn.customer_id = Some("cust-001".to_string());
    assert!(txn.has_customer());
}

#[test]
fn test_transaction_number_generation() {
    let num1 = generate_transaction_number();
    let num2 = generate_transaction_number();

    assert!(num1.starts_with("TXN"));
    assert!(num2.starts_with("TXN"));
    assert_eq!(num1.len(), 17);
}

#[test]
fn test_receipt_number_generation() {
    let receipt = generate_receipt_number("TERM-001", 42);
    assert!(receipt.starts_with("TERM-001-"));
    assert!(receipt.ends_with("-000042"));
}

#[test]
fn test_set_receipt_number() {
    let mut txn = Transaction::new("sale", "LYD", "s1", "t1", operator(), recorded());
    assert!(txn.receipt_number.is_none());

    txn.set_receipt_number("RCP-001");
    assert_eq!(txn.receipt_number, Some("RCP-001".to_string()));
}

#[test]
fn complete_names_an_unpaid_draft() {
    let cart = create_test_cart();
    let mut txn =
        Transaction::from_cart(&cart, "LYD", "shift-1", "TERM-001", operator(), recorded());
    txn.add_cash_payment(Dec::from_int(20));
    assert!(txn.complete().is_err());
    assert_eq!(txn.status, TransactionStatus::Draft);
    assert_eq!(txn.change_due(), Some(Dec::zero()));
}
