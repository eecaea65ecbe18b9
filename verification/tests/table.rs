use base_search::table::{
    infer_role, infer_semantic, normalize_header_for_display, stable_column_id,
    validate_fixed_value, ColumnRole, ColumnStorage, SemanticField, TableShape,
};

#[test]
fn table_shape_keeps_every_source_column_first_class() {
    let shape = TableShape::from_headers(vec![
        "SKU".to_string(),
        "Price EUR".to_string(),
        "Origin country".to_string(),
        "SKU".to_string(),
        "".to_string(),
    ]);

    assert_eq!(shape.columns.len(), 5);
    assert_eq!(shape.columns[0].id, "sku");
    assert_eq!(shape.columns[1].role, ColumnRole::Money);
    assert_eq!(shape.columns[2].role, ColumnRole::Country);
    assert_eq!(shape.columns[3].id, "sku_2");
    assert_eq!(shape.columns[4].header, "Column 5");
}

#[test]
fn common_business_headers_get_conservative_semantics() {
    let shape = TableShape::from_headers(vec![
        "Brand".to_string(),
        "Recipient".to_string(),
        "Product code".to_string(),
        "Value USD".to_string(),
        "Net kg".to_string(),
    ]);

    let semantics = shape
        .columns
        .iter()
        .map(|column| (column.id.as_str(), column.semantic))
        .collect::<Vec<_>>();
    assert_eq!(semantics[0], ("brand", Some(SemanticField::Trademark)));
    assert_eq!(semantics[1], ("recipient", Some(SemanticField::Recipient)));
    assert_eq!(semantics[2], ("product_code", Some(SemanticField::ProductCode)));
    assert_eq!(semantics[3], ("value_usd", Some(SemanticField::Value)));
    assert_eq!(semantics[4], ("net_kg", Some(SemanticField::NetWeight)));
}

#[test]
fn repeated_headers_are_numbered() {
    let shape = TableShape::from_headers(vec![
        "  Total   value ".to_string(),
        "TOTAL VALUE".to_string(),
        "total-value".to_string(),
    ]);
    let seen = shape
        .columns
        .iter()
        .map(|column| (column.id.as_str(), column.header.as_str(), column.source_index))
        .collect::<Vec<_>>();
    assert_eq!(seen[0], ("total_value", "Total value", 0));
    assert_eq!(seen[1], ("total_value_2", "TOTAL VALUE (2)", 1));
    assert_eq!(seen[2], ("total_value_3", "total-value (3)", 2));
    assert!(shape.columns.iter().all(|column| column.storage == ColumnStorage::SourceJson));
}

#[test]
fn pinned_meanings_replace_inferred_ones() {
    let shape = TableShape::from_headers(vec!["Brand".to_string(), "Other".to_string()])
        .with_semantics(vec![
            ("other".to_string(), SemanticField::Sender),
            ("missing".to_string(), SemanticField::Date),
            ("other".to_string(), SemanticField::Recipient),
        ]);
    assert_eq!(shape.columns[0].semantic, Some(SemanticField::Trademark));
    assert_eq!(shape.columns[1].semantic, Some(SemanticField::Recipient));
}

#[test]
fn column_ids_are_lowered_slugs() {
    assert_eq!(stable_column_id("Value USD", 0), "value_usd");
    assert_eq!(stable_column_id("  --Країна (походж.)--", 3), "країна_походж");
    assert_eq!(stable_column_id("!!!", 3), "column_4");
    assert_eq!(normalize_header_for_display(" a \t b ", 0), "a b");
    assert_eq!(normalize_header_for_display("   ", 9), "Column 10");
}

#[test]
fn roles_follow_the_words_of_a_header() {
    assert_eq!(infer_role("Дата документа"), ColumnRole::Date);
    assert_eq!(infer_role("Year"), ColumnRole::Year);
    assert_eq!(infer_role("Yearly"), ColumnRole::Text);
    assert_eq!(infer_role("Код товару"), ColumnRole::Code);
    assert_eq!(infer_role("Invoice number"), ColumnRole::Identifier);
    assert_eq!(infer_role("Вага нетто"), ColumnRole::Weight);
    assert_eq!(infer_role("Qty"), ColumnRole::Number);
    assert_eq!(infer_semantic("ship_from", ColumnRole::Text), Some(SemanticField::DispatchCountry));
    assert_eq!(infer_semantic("рік", ColumnRole::Year), Some(SemanticField::Date));
    assert_eq!(infer_semantic("nothing", ColumnRole::Text), None);
}

#[test]
fn fixed_values_are_checked() {
    assert_eq!(validate_fixed_value(SemanticField::Currency, "  USD "), Ok("USD".to_string()));
    assert_eq!(
        validate_fixed_value(SemanticField::Sender, "x"),
        Err("Fixed values are not supported for Sender; use Currency or WeightUnit.".to_string())
    );
    assert_eq!(
        validate_fixed_value(SemanticField::WeightUnit, " \u{a0}"),
        Err("Fixed WeightUnit value must not be empty.".to_string())
    );
    assert_eq!(
        validate_fixed_value(SemanticField::Currency, &"x".repeat(33)),
        Err("Fixed Currency value must be at most 32 characters.".to_string())
    );
    assert_eq!(
        validate_fixed_value(SemanticField::Currency, &"ї".repeat(32)),
        Ok("ї".repeat(32))
    );
}
