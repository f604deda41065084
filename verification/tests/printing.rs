use pos_terminal::dec::Dec;
use pos_terminal::models::cart::{Cart, CartItem};
use pos_terminal::models::operator::{OperatorId, RecordedOperatorName};
use pos_terminal::models::product::{Product, ProductUnit};
use pos_terminal::models::transaction::Transaction;
use pos_terminal::printing::{PrintCommand, PrintService, PrinterConfig, ShiftReport, ARABIC_CODE_PAGE};

fn create_test_product() -> Product {
    Product {
        id: "prod-001".to_string(),
        sku: "SKU001".to_string(),
        barcode: Some("1234567890123".to_string()),
        name: "Test Product".to_string(),
        name_ar: Some("منتج تجريبي".to_string()),
        price: Dec::from_int(10),
        tax_rate: Dec::from_int(15),
        tax_inclusive: false,
        unit: ProductUnit::Unit,
        ..Default::default()
    }
}

fn create_test_cart() -> Cart {
    let product = create_test_product();
    let mut cart = Cart::new();
    cart.items.push(CartItem::new(&product, Dec::from_int(2)).unwrap());
    cart.recalculate().unwrap();
    cart
}

fn sale(cart: &Cart, cashier: &str) -> Transaction {
    Transaction::from_cart(
        cart,
        "LYD",
        "shift-1",
        "TERM-001",
        OperatorId::new("op-1").unwrap(),
        RecordedOperatorName::new(cashier).unwrap(),
    )
}

fn create_test_transaction() -> Transaction {
    let cart = create_test_cart();
    let mut txn = sale(&cart, "Ahmed Mohamed");
    txn.add_cash_payment(Dec::from_int(30));
    txn.set_receipt_number("RCP-001");
    txn
}

fn create_test_shift_report() -> ShiftReport {
    ShiftReport {
        shift_number: "SH-2024-001".to_string(),
        operator_name: "Ahmed Mohamed".to_string(),
        terminal_id: "TERM-001".to_string(),
        start_time: "2024-12-12 08:00".to_string(),
        end_time: Some("2024-12-12 16:00".to_string()),
        transaction_count: 45,
        gross_sales: Dec::from_int(1500),
        discounts: Dec::from_int(50),
        tax: Dec::new(2175, 1),
        net_sales: Dec::new(16675, 1),
        cash_total: Dec::from_int(800),
        card_total: Dec::from_int(600),
        wallet_total: Dec::from_int(200),
        credit_total: Dec::new(675, 1),
        opening_float: Dec::from_int(200),
        expected_cash: Dec::from_int(1000),
        counted_cash: Some(Dec::from_int(995)),
        cash_variance: Some(Dec::from_int(-5)),
        return_count: 2,
        return_total: Dec::from_int(35),
        void_count: 1,
        currency: "LYD".to_string(),
    }
}

/// The text a document prints, one line per text-bearing command.
fn text_of(commands: &[PrintCommand]) -> String {
    let mut out = String::new();
    for c in commands {
        match c {
            PrintCommand::Line(s) => out.push_str(s),
            PrintCommand::TwoColumns(l, r, _) => {
                out.push_str(l);
                out.push(' ');
                out.push_str(r);
            },
            PrintCommand::Barcode128(s) | PrintCommand::QrCode(s, _) => out.push_str(s),
            _ => {},
        }
        out.push('\n');
    }
    out
}

#[test]
fn test_printer_config_default() {
    let config = PrinterConfig::default();
    assert!(config.printer_path.is_none());
    assert_eq!(config.paper_width, 42);
    assert_eq!(config.store_name, "E2Manage POS");
}

#[test]
fn test_print_service_new() {
    let config = PrinterConfig::default();
    let service = PrintService::new(config);
    assert!(!service.has_printer());
}

#[test]
fn test_print_service_console_only() {
    let service = PrintService::console_only();
    assert!(!service.has_printer());
}

#[test]
fn test_print_service_set_printer_path() {
    let mut service = PrintService::console_only();
    assert!(!service.has_printer());

    service.set_printer_path(Some("/dev/usb/lp0".to_string()));
    assert!(service.has_printer());

    service.set_printer_path(None);
    assert!(!service.has_printer());
}

#[test]
fn test_build_receipt_english() {
    let config = PrinterConfig {
        store_name: "Test Store".to_string(),
        store_address: "123 Test St".to_string(),
        ..Default::default()
    };
    let service = PrintService::new(config);
    let txn = create_test_transaction();

    let commands = service.build_receipt(&txn, "en");
    assert!(!commands.is_empty());

    let text = text_of(&commands);
    assert!(text.contains("Test Store"));
    assert!(text.contains("Receipt No:"));
    assert!(text.contains("Cashier:"));
}

#[test]
fn test_build_receipt_arabic() {
    let config = PrinterConfig {
        store_name: "Test Store".to_string(),
        store_name_ar: Some("متجر التجربة".to_string()),
        ..Default::default()
    };
    let service = PrintService::new(config);
    let txn = create_test_transaction();

    let commands = service.build_receipt(&txn, "ar");
    assert!(!commands.is_empty());
    assert!(commands.contains(&PrintCommand::CodePage(23)));
    assert_eq!(ARABIC_CODE_PAGE, 23);
}

#[test]
fn test_build_x_report() {
    let service = PrintService::console_only();
    let report = create_test_shift_report();

    let commands = service.build_x_report(&report, "en");
    assert!(!commands.is_empty());

    let text = text_of(&commands);
    assert!(text.contains("X REPORT"));
    assert!(text.contains("Non-Clearing Report"));
}

#[test]
fn test_build_z_report() {
    let service = PrintService::console_only();
    let report = create_test_shift_report();

    let commands = service.build_z_report(&report, "en");
    assert!(!commands.is_empty());

    let text = text_of(&commands);
    assert!(text.contains("Z REPORT"));
    assert!(text.contains("CLEARING REPORT"));
}

#[test]
fn test_open_drawer_console() {
    let service = PrintService::console_only();
    let commands = service.drawer_commands();
    assert_eq!(commands, vec![PrintCommand::Init, PrintCommand::OpenDrawer]);
}

#[test]
fn test_test_print_console() {
    let service = PrintService::console_only();
    let commands = service.test_page();
    let text = text_of(&commands);
    assert!(text.contains("TEST PRINT"));
    assert!(commands.contains(&PrintCommand::Barcode128("TEST123".to_string())));
    assert_eq!(commands.last(), Some(&PrintCommand::Cut));
}

#[test]
fn test_shift_report_default() {
    let report = ShiftReport::default();
    assert!(report.shift_number.is_empty());
    assert_eq!(report.transaction_count, 0);
    assert_eq!(report.gross_sales, Dec::zero());
}

#[test]
fn test_receipt_with_customer() {
    let cart = create_test_cart();
    let mut txn = sale(&cart, "Ahmed");
    txn.customer_id = Some("cust-001".to_string());
    txn.customer_name = Some("John Doe".to_string());
    txn.add_cash_payment(Dec::from_int(30));

    let service = PrintService::console_only();
    let commands = service.build_receipt(&txn, "en");

    let text = text_of(&commands);
    assert!(text.contains("Customer:"));
    assert!(text.contains("John Doe"));
}

#[test]
fn test_receipt_with_card_payment() {
    let cart = create_test_cart();
    let mut txn = sale(&cart, "Ahmed");
    txn.add_card_payment(Dec::from_int(23), "1234", "VISA", "AUTH123");

    let service = PrintService::console_only();
    let commands = service.build_receipt(&txn, "en");

    let text = text_of(&commands);
    assert!(text.contains("VISA"));
    assert!(text.contains("*1234"));
}

#[test]
fn test_receipt_with_discount() {
    let product = create_test_product();
    let mut cart = Cart::new();
    let mut item = CartItem::new(&product, Dec::from_int(2)).unwrap();
    item.apply_discount_percent(Dec::from_int(10)).unwrap();
    cart.items.push(item);
    cart.recalculate().unwrap();

    let mut txn = sale(&cart, "Ahmed");
    txn.add_cash_payment(Dec::from_int(30));

    let service = PrintService::console_only();
    let commands = service.build_receipt(&txn, "en");

    let text = text_of(&commands);
    assert!(text.contains("Discount"));
}

#[test]
fn test_receipt_barcode_disabled() {
    let config = PrinterConfig { print_barcode: false, ..Default::default() };
    let service = PrintService::new(config);
    let txn = create_test_transaction();

    let commands = service.build_receipt(&txn, "en");

    let has_barcode = commands.iter().any(|c| matches!(c, PrintCommand::Barcode128(_)));
    assert!(!has_barcode);
}

#[test]
fn test_receipt_qr_enabled() {
    let config = PrinterConfig { print_qr_code: true, ..Default::default() };
    let service = PrintService::new(config);
    let txn = create_test_transaction();

    let commands = service.build_receipt(&txn, "en");

    let has_qr = commands.iter().any(|c| matches!(c, PrintCommand::QrCode(_, _)));
    assert!(has_qr);
}

#[test]
fn a_receipt_lays_out_its_lines_totals_and_change_exactly() {
    let service = PrintService::console_only();
    let txn = create_test_transaction();
    let commands = service.build_receipt(&txn, "en");
    let w = 42;
    assert_eq!(commands[0], PrintCommand::Init);
    assert!(commands.contains(&PrintCommand::TwoColumns("Receipt No:".to_string(), "RCP-001".to_string(), w)));
    assert!(commands.contains(&PrintCommand::TwoColumns("Cashier:".to_string(), "Ahmed Mohamed".to_string(), w)));
    assert!(commands.contains(&PrintCommand::Line("Test Product".to_string())));
    assert!(commands.contains(&PrintCommand::TwoColumns("  2 x 10".to_string(), "23.00".to_string(), w)), "{commands:?}");
    assert!(commands.contains(&PrintCommand::TwoColumns("TOTAL:".to_string(), "LYD 23.00".to_string(), w)));
    assert!(commands.contains(&PrintCommand::TwoColumns("  Cash".to_string(), "30".to_string(), w)));
    assert!(commands.contains(&PrintCommand::TwoColumns("Subtotal:".to_string(), "20".to_string(), w)));
    assert!(commands.contains(&PrintCommand::TwoColumns("Tax:".to_string(), "3.00".to_string(), w)));
    assert!(commands.contains(&PrintCommand::TwoColumns("Change:".to_string(), "7.00".to_string(), w)));
    assert!(commands.contains(&PrintCommand::Barcode128("RCP-001".to_string())));
    assert!(commands.contains(&PrintCommand::Line("2 item(s)".to_string())));
    let n = commands.len();
    assert_eq!(&commands[n - 3..], &[PrintCommand::Feed(3), PrintCommand::Cut, PrintCommand::OpenDrawer]);
}

#[test]
fn a_z_report_signs_the_variance() {
    let service = PrintService::console_only();
    let report = create_test_shift_report();
    let commands = service.build_z_report(&report, "en");
    assert!(commands.contains(&PrintCommand::TwoColumns("Variance:".to_string(), "-5".to_string(), 42)));
    assert!(commands.contains(&PrintCommand::TwoColumns("Returns:".to_string(), "2 (35)".to_string(), 42)));
    let balanced = ShiftReport { cash_variance: Some(Dec::zero()), ..create_test_shift_report() };
    let commands = service.build_z_report(&balanced, "en");
    assert!(commands.contains(&PrintCommand::TwoColumns("Variance:".to_string(), "0.000".to_string(), 42)));
}

#[test]
fn an_arabic_x_report_uses_arabic_labels() {
    let service = PrintService::console_only();
    let report = create_test_shift_report();
    let commands = service.build_x_report(&report, "ar");
    assert_eq!(commands[1], PrintCommand::CodePage(ARABIC_CODE_PAGE));
    assert!(text_of(&commands).contains("تقرير X"));
}
