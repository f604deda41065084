use pos_terminal::dec::Dec;
use pos_terminal::models::parse::ParseError;
use pos_terminal::models::product::{
    Category, Product, ProductNature, ProductSearchResult, ProductType, ProductUnit,
};

#[test]
fn test_product_display_name() {
    let product = Product { name: "Milk".to_string(), name_ar: Some("حليب".to_string()), ..Default::default() };

    assert_eq!(product.display_name("en"), "Milk");
    assert_eq!(product.display_name("ar"), "حليب");
    assert_eq!(product.display_name("fr"), "Milk");
}

#[test]
fn test_product_display_name_no_arabic() {
    let product = Product { name: "Milk".to_string(), name_ar: None, ..Default::default() };
    assert_eq!(product.display_name("ar"), "Milk");
}

#[test]
fn test_price_with_tax_exclusive() {
    let product = Product {
        price: Dec::from_int(100),
        tax_rate: Dec::from_int(15),
        tax_inclusive: false,
        ..Default::default()
    };
    assert_eq!(product.price_with_tax(), Some(Dec::from_int(115)));
}

#[test]
fn test_price_with_tax_inclusive() {
    let product = Product {
        price: Dec::from_int(115),
        tax_rate: Dec::from_int(15),
        tax_inclusive: true,
        ..Default::default()
    };
    assert_eq!(product.price_with_tax(), Some(Dec::from_int(115)));
}

#[test]
fn test_tax_amount_exclusive() {
    let product = Product {
        price: Dec::from_int(100),
        tax_rate: Dec::from_int(15),
        tax_inclusive: false,
        ..Default::default()
    };
    assert_eq!(product.tax_amount(Dec::from_int(2)), Some(Dec::from_int(30)));
}

#[test]
fn test_tax_amount_inclusive() {
    let product = Product {
        price: Dec::from_int(115),
        tax_rate: Dec::from_int(15),
        tax_inclusive: true,
        ..Default::default()
    };
    assert_eq!(product.tax_amount(Dec::one()), Some(Dec::from_int(15)));
}

#[test]
fn test_line_total() {
    let product = Product {
        price: Dec::from_int(10),
        tax_rate: Dec::from_int(10),
        tax_inclusive: false,
        ..Default::default()
    };
    assert_eq!(product.line_total(Dec::from_int(3)), Some(Dec::from_int(33)));
}

#[test]
fn test_is_in_stock() {
    let mut product = Product { stock_qty: 10, allow_negative_stock: false, ..Default::default() };

    assert!(product.is_in_stock());

    product.stock_qty = 0;
    assert!(!product.is_in_stock());

    product.allow_negative_stock = true;
    assert!(product.is_in_stock());
}

#[test]
fn test_can_sell() {
    let product = Product { stock_qty: 5, allow_negative_stock: false, ..Default::default() };

    assert!(product.can_sell(5));
    assert!(!product.can_sell(6));

    let product_negative = Product { stock_qty: 0, allow_negative_stock: true, ..Default::default() };
    assert!(product_negative.can_sell(100));
}

#[test]
fn test_product_unit_label() {
    assert_eq!(ProductUnit::Kg.label("en"), "Kg");
    assert_eq!(ProductUnit::Kg.label("ar"), "كجم");
    assert_eq!(ProductUnit::Unit.label("en"), "Unit");
    assert_eq!(ProductUnit::Unit.label("ar"), "وحدة");
}

#[test]
fn test_product_unit_allows_decimal() {
    assert!(ProductUnit::Kg.allows_decimal());
    assert!(ProductUnit::Liter.allows_decimal());
    assert!(!ProductUnit::Unit.allows_decimal());
    assert!(!ProductUnit::Box.allows_decimal());
}

#[test]
fn test_product_unit_from_str() {
    assert_eq!("KG".parse::<ProductUnit>().unwrap(), ProductUnit::Kg);
    assert_eq!("kg".parse::<ProductUnit>().unwrap(), ProductUnit::Kg);
    assert_eq!("UNIT".parse::<ProductUnit>().unwrap(), ProductUnit::Unit);
    assert_eq!("INVALID".parse::<ProductUnit>().unwrap(), ProductUnit::Unit);
}

#[test]
fn test_category_display_name() {
    let category = Category { name: "Food".to_string(), name_ar: Some("طعام".to_string()), ..Default::default() };

    assert_eq!(category.display_name("en"), "Food");
    assert_eq!(category.display_name("ar"), "طعام");
}

#[test]
fn test_category_is_root() {
    let root = Category { parent_id: None, ..Default::default() };
    let child = Category { parent_id: Some("parent-1".to_string()), ..Default::default() };

    assert!(root.is_root());
    assert!(!child.is_root());
}

#[test]
fn test_category_color_or_default() {
    let with_color = Category { color: Some("#FF5722".to_string()), ..Default::default() };
    let without_color = Category { color: None, ..Default::default() };

    assert_eq!(with_color.color_or_default(), "#FF5722");
    assert_eq!(without_color.color_or_default(), "#6366f1");
}

#[test]
fn test_product_search_result() {
    let result = ProductSearchResult::empty("test");
    assert!(result.is_empty());
    assert_eq!(result.query, "test");
    assert_eq!(result.total_count, 0);
}

#[test]
fn test_product_type_raw_material_from_str() {
    assert_eq!(ProductType::from_str("RAW_MATERIAL"), Ok(ProductType::RawMaterial));
    assert_eq!(ProductType::from_str("raw_material"), Ok(ProductType::RawMaterial));
}

#[test]
fn test_product_type_raw_material_as_str() {
    assert_eq!(ProductType::RawMaterial.as_str(), "RAW_MATERIAL");
}

#[test]
fn test_product_type_raw_material_display() {
    assert_eq!(format!("{}", ProductType::RawMaterial.as_str()), "RAW_MATERIAL");
}

#[test]
fn test_product_type_unknown_is_rejected_and_named() {
    assert_eq!(
        ProductType::from_str("TOTALLY_UNKNOWN_TYPE"),
        Err(ParseError::ProductType("TOTALLY_UNKNOWN_TYPE".to_string()))
    );
    let message = ProductType::from_str("TOTALLY_UNKNOWN_TYPE").unwrap_err().message();
    assert!(message.contains("TOTALLY_UNKNOWN_TYPE"), "{message}");
    assert_eq!("TOTALLY_UNKNOWN_TYPE".parse::<ProductType>().unwrap_or_default(), ProductType::PhysicalGood);
}

#[test]
fn product_nature_unknown_is_rejected_and_named() {
    assert_eq!(
        ProductNature::from_str("NOT_A_NATURE"),
        Err(ParseError::ProductNature("NOT_A_NATURE".to_string()))
    );
    assert_eq!(ProductNature::from_str("HYBRID"), Ok(ProductNature::Hybrid));
}

#[test]
fn test_product_type_all_known_variants_round_trip() {
    let variants = [
        (ProductType::PhysicalGood, "PHYSICAL_GOOD"),
        (ProductType::Consumable, "CONSUMABLE"),
        (ProductType::Bundle, "BUNDLE"),
        (ProductType::Service, "SERVICE"),
        (ProductType::Fee, "FEE"),
        (ProductType::Labor, "LABOR"),
        (ProductType::Digital, "DIGITAL"),
        (ProductType::Subscription, "SUBSCRIPTION"),
        (ProductType::Rental, "RENTAL"),
        (ProductType::Warranty, "WARRANTY"),
        (ProductType::RawMaterial, "RAW_MATERIAL"),
    ];

    for (variant, s) in &variants {
        assert_eq!(variant.as_str(), *s, "as_str mismatch for {:?}", variant);
        assert_eq!(ProductType::from_str(s), Ok(*variant), "from_str mismatch for {}", s);
    }
}

#[test]
fn product_price_with_tax_overflow_is_none() {
    let product = Product {
        price: Dec::from_parts(79228162514264337593543950335, 0).unwrap(),
        tax_rate: Dec::from_int(15),
        tax_inclusive: false,
        ..Default::default()
    };
    assert_eq!(product.price_with_tax(), None);
}
