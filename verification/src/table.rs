//! Source tables: columns, their roles and their meanings.
use vstd::prelude::*;
use vstd::string::*;

use crate::number::{decimal, decimal_text};
use crate::text::{
    alphanumeric, among, chars_of, collapse_ws, collapsed, contains, holds, is_alphanumeric,
    holds_some, is_among, joined_runs, lower_chars, lower_each, same, trim, trimmed,
    trimmed_is_stable, views, word_stands,
};

verus! {

/// Domain-neutral role inferred from a source column.
///
/// These roles describe how a column can be searched, filtered, aggregated, or
/// displayed. They are not tied to one document layout.
#[derive(Clone, Copy, Debug, PartialEq, Eq, Structural)]
pub enum ColumnRole {
    Text,
    Number,
    Date,
    Year,
    Country,
    Code,
    Identifier,
    Money,
    Weight,
}

/// Optional semantic meaning attached by a profile.
///
/// An import preserves every source column even when no semantic field is
/// known. Conservative header inference and profiles can add these hints for
/// better analytics, but the raw columns remain the source of truth.
#[derive(Clone, Copy, Debug, PartialEq, Eq, PartialOrd, Ord, Hash, Structural)]
pub enum SemanticField {
    Date,
    DeclarationNumber,
    CompanyCode,
    Sender,
    Recipient,
    ProductCode,
    Description,
    Trademark,
    Country,
    OriginCountry,
    DispatchCountry,
    TradeCountry,
    Quantity,
    NetWeight,
    GrossWeight,
    Value,
    Currency,
    WeightUnit,
}

/// The two meanings a person may pin for a whole table instead of a column.
///
/// They are exactly the measures analytics refuses to combine without: money is
/// never added across currencies, weights never across units.
pub const FIXABLE_SEMANTICS: [SemanticField; 2] = [
    SemanticField::Currency,
    SemanticField::WeightUnit,
];

/// Longest fixed value accepted. Currency codes and unit names are short; the
/// bound exists so a pasted paragraph cannot become a grouping label.
pub const MAX_FIXED_VALUE_CHARS: usize = 32;

/// The name of a meaning.
pub open spec fn semantic_label(semantic: SemanticField) -> Seq<char> {
    match semantic {
        SemanticField::Date => "Date"@,
        SemanticField::DeclarationNumber => "DeclarationNumber"@,
        SemanticField::CompanyCode => "CompanyCode"@,
        SemanticField::Sender => "Sender"@,
        SemanticField::Recipient => "Recipient"@,
        SemanticField::ProductCode => "ProductCode"@,
        SemanticField::Description => "Description"@,
        SemanticField::Trademark => "Trademark"@,
        SemanticField::Country => "Country"@,
        SemanticField::OriginCountry => "OriginCountry"@,
        SemanticField::DispatchCountry => "DispatchCountry"@,
        SemanticField::TradeCountry => "TradeCountry"@,
        SemanticField::Quantity => "Quantity"@,
        SemanticField::NetWeight => "NetWeight"@,
        SemanticField::GrossWeight => "GrossWeight"@,
        SemanticField::Value => "Value"@,
        SemanticField::Currency => "Currency"@,
        SemanticField::WeightUnit => "WeightUnit"@,
    }
}

/// The name of a meaning, as it appears in messages.
pub fn semantic_name(semantic: SemanticField) -> (r: &'static str)
    ensures
        r@ == semantic_label(semantic),
{
    match semantic {
        SemanticField::Date => "Date",
        SemanticField::DeclarationNumber => "DeclarationNumber",
        SemanticField::CompanyCode => "CompanyCode",
        SemanticField::Sender => "Sender",
        SemanticField::Recipient => "Recipient",
        SemanticField::ProductCode => "ProductCode",
        SemanticField::Description => "Description",
        SemanticField::Trademark => "Trademark",
        SemanticField::Country => "Country",
        SemanticField::OriginCountry => "OriginCountry",
        SemanticField::DispatchCountry => "DispatchCountry",
        SemanticField::TradeCountry => "TradeCountry",
        SemanticField::Quantity => "Quantity",
        SemanticField::NetWeight => "NetWeight",
        SemanticField::GrossWeight => "GrossWeight",
        SemanticField::Value => "Value",
        SemanticField::Currency => "Currency",
        SemanticField::WeightUnit => "WeightUnit",
    }
}

/// The meanings that may be pinned for a whole table.
pub open spec fn fixable(semantic: SemanticField) -> bool {
    FIXABLE_SEMANTICS@.contains(semantic)
}

/// Tests whether a meaning may be pinned for a whole table.
pub fn is_fixable(semantic: SemanticField) -> (r: bool)
    ensures
        r == fixable(semantic),
        r == (semantic == SemanticField::Currency || semantic == SemanticField::WeightUnit),
{
    assert(FIXABLE_SEMANTICS@[0] == SemanticField::Currency);
    assert(FIXABLE_SEMANTICS@[1] == SemanticField::WeightUnit);
    semantic == FIXABLE_SEMANTICS[0] || semantic == FIXABLE_SEMANTICS[1]
}

/// The outcome of pinning a value: the trimmed value, or the refusal.
pub open spec fn fixed_value(semantic: SemanticField, value: Seq<char>) -> Result<
    Seq<char>,
    Seq<char>,
> {
    let name = semantic_label(semantic);
    if !fixable(semantic) {
        Err("Fixed values are not supported for "@ + name + "; use Currency or WeightUnit."@)
    } else if trimmed(value).len() == 0 {
        Err("Fixed "@ + name + " value must not be empty."@)
    } else if trimmed(value).len() > MAX_FIXED_VALUE_CHARS {
        Err("Fixed "@ + name + " value must be at most "@ + decimal(32) + " characters."@)
    } else {
        Ok(trimmed(value))
    }
}

/// Two outcomes with the same texts.
pub open spec fn same_outcome(r: Result<String, String>, model: Result<Seq<char>, Seq<char>>) -> bool {
    match r {
        Ok(v) => model == Ok::<Seq<char>, Seq<char>>(v@),
        Err(e) => model == Err::<Seq<char>, Seq<char>>(e@),
    }
}

/// Checks one pinned value and returns it trimmed.
///
/// Import and the post-import editor both resolve through here, so a value the
/// importer would have refused cannot arrive later through the other door.
pub fn validate_fixed_value(semantic: SemanticField, value: &str) -> (r: Result<String, String>)
    ensures
        same_outcome(r, fixed_value(semantic, value@)),
{
    let name = semantic_name(semantic);
    if !is_fixable(semantic) {
        let mut message = String::from_str("Fixed values are not supported for ");
        message.append(name);
        message.append("; use Currency or WeightUnit.");
        return Err(message);
    }
    let value = trim(value);
    let count: usize = value.as_str().unicode_len();
    if count == 0 {
        let mut message = String::from_str("Fixed ");
        message.append(name);
        message.append(" value must not be empty.");
        return Err(message);
    }
    if count > MAX_FIXED_VALUE_CHARS {
        let mut message = String::from_str("Fixed ");
        message.append(name);
        message.append(" value must be at most ");
        message.append(decimal_text(MAX_FIXED_VALUE_CHARS as u64).as_str());
        message.append(" characters.");
        return Err(message);
    }
    Ok(value)
}

/// Where the values of a column are kept.
#[derive(Clone, Debug, PartialEq, Eq)]
pub enum ColumnStorage {
    SourceJson,
    SchemaColumn(String),
}

impl Default for ColumnStorage {
    fn default() -> (r: Self)
        ensures
            r is SourceJson,
    {
        ColumnStorage::SourceJson
    }
}

/// One column of a source table.
#[derive(Clone, Debug, PartialEq, Eq)]
pub struct SourceColumn {
    pub id: String,
    pub header: String,
    pub source_index: usize,
    pub role: ColumnRole,
    pub semantic: Option<SemanticField>,
    pub storage: ColumnStorage,
}

/// The columns of a source table, in their order.
#[derive(Clone, Debug, PartialEq, Eq)]
pub struct TableShape {
    pub columns: Vec<SourceColumn>,
}

/// Durable identity and storage contract for one column in one source schema.
///
/// `field_id` is safe to expose in saved queries. It is never used as a SQL
/// identifier; canonical storage names are validated against the built-in
/// schema before SQL is generated.
#[derive(Clone, Debug, PartialEq, Eq)]
pub struct SourceSchemaField {
    pub field_id: String,
    pub schema_id: i64,
    pub source_index: usize,
    pub raw_header: String,
    pub header: String,
    pub normalized_header: String,
    pub role: ColumnRole,
    pub semantic: Option<SemanticField>,
    pub storage: ColumnStorage,
}

/// One stable interpretation of an ordered source table.
#[derive(Clone, Debug, PartialEq, Eq)]
pub struct SourceSchema {
    pub id: i64,
    pub public_id: String,
    pub fingerprint: String,
    pub fingerprint_version: u32,
    pub fixed_currency: Option<String>,
    pub fixed_weight_unit: Option<String>,
    pub columns: Vec<SourceSchemaField>,
}

/// Provenance for one successfully imported file sheet or delimited table.
#[derive(Clone, Debug, PartialEq, Eq)]
pub struct ImportSource {
    pub id: i64,
    pub public_id: String,
    pub schema_id: i64,
    pub schema_public_id: String,
    pub source_file: String,
    pub table_name: String,
    pub import_fingerprint: String,
    pub imported_at: String,
}

/// The header shown for a column: its words, or its number where it has none.
pub open spec fn display_header(header: Seq<char>, source_index: int) -> Seq<char> {
    if collapsed(header).len() == 0 {
        "Column "@ + decimal((source_index + 1) as nat)
    } else {
        collapsed(header)
    }
}

/// The header shown for a column.
pub fn normalize_header_for_display(header: &str, source_index: usize) -> (r: String)
    requires
        source_index < usize::MAX,
    ensures
        r@ == display_header(header@, source_index as int),
{
    let words = collapse_ws(header);
    if words.as_str().unicode_len() == 0 {
        let mut out = String::from_str("Column ");
        out.append(decimal_text((source_index + 1) as u64).as_str());
        out
    } else {
        words
    }
}

/// The alphanumeric runs of a header, lowered, with one underscore between them.
pub open spec fn header_slug(header: Seq<char>) -> Seq<char> {
    joined_runs(lower_chars(header), |c: char| alphanumeric(c), '_')
}

/// The column id that a header gives ("Value USD" gives "value_usd").
pub open spec fn column_id(header: Seq<char>, source_index: int) -> Seq<char> {
    if header_slug(header).len() == 0 {
        "column_"@ + decimal((source_index + 1) as nat)
    } else {
        header_slug(header)
    }
}

/// Header-based column id ("Value USD" -> "value_usd").
pub fn stable_column_id(header: &str, source_index: usize) -> (r: String)
    requires
        source_index < usize::MAX,
    ensures
        r@ == column_id(header@, source_index as int),
{
    let v = lower_each(&chars_of(header));
    let ghost keep = |c: char| alphanumeric(c);
    let mut out = String::new();
    let mut fresh = true;
    let mut empty = true;
    let mut i: usize = 0;
    while i < v.len()
        invariant
            i <= v.len(),
            keep == (|c: char| alphanumeric(c)),
            out@ == joined_runs(v@.take(i as int), keep, '_'),
            empty == (out@.len() == 0),
            fresh == (i == 0 || !alphanumeric(v@[i - 1])),
        decreases v.len() - i,
    {
        let c = v[i];
        assert(v@.take(i + 1).drop_last() =~= v@.take(i as int));
        assert(v@.take(i + 1).last() == c);
        assert(i > 0 ==> v@.take(i + 1)[i - 1] == v@[i - 1]);
        if !is_alphanumeric(c) {
            fresh = true;
        } else {
            if fresh && !empty {
                out.push('_');
            }
            out.push(c);
            fresh = false;
            empty = false;
        }
        i += 1;
    }
    assert(v@.take(v@.len() as int) =~= v@);
    if empty {
        let mut out = String::from_str("column_");
        out.append(decimal_text((source_index + 1) as u64).as_str());
        out
    } else {
        out
    }
}

/// The role that a column's id suggests.
pub open spec fn role_of_id(id: Seq<char>) -> ColumnRole {
    if holds(id, "date"@) || holds(id, "дата"@) {
        ColumnRole::Date
    } else if id == "year"@ || holds(id, "рік"@) || holds(id, "год"@) {
        ColumnRole::Year
    } else if holds(id, "country"@) || holds(id, "краї"@) || holds(id, "стра"@) {
        ColumnRole::Country
    } else if holds(id, "code"@) || holds(id, "код"@) || holds(id, "sku"@) {
        ColumnRole::Code
    } else if holds(id, "id"@) || holds(id, "number"@) || holds(id, "номер"@) {
        ColumnRole::Identifier
    } else if holds(id, "price"@) || holds(id, "value"@) || holds(id, "amount"@) || holds(
        id,
        "варт"@,
    ) || holds(id, "сум"@) {
        ColumnRole::Money
    } else if holds(id, "weight"@) || holds(id, "вага"@) || holds(id, "kg"@) {
        ColumnRole::Weight
    } else if holds(id, "qty"@) || holds(id, "quantity"@) || holds(id, "кільк"@) {
        ColumnRole::Number
    } else {
        ColumnRole::Text
    }
}

/// The role that a header suggests.
pub fn infer_role(header: &str) -> (r: ColumnRole)
    ensures
        r == role_of_id(column_id(header@, 0)),
{
    let id = stable_column_id(header, 0);
    let lower = id.as_str();
    if contains(lower, "date") || contains(lower, "дата") {
        ColumnRole::Date
    } else if same(lower, "year") || contains(lower, "рік") || contains(lower, "год") {
        ColumnRole::Year
    } else if contains(lower, "country") || contains(lower, "краї") || contains(lower, "стра") {
        ColumnRole::Country
    } else if contains(lower, "code") || contains(lower, "код") || contains(lower, "sku") {
        ColumnRole::Code
    } else if contains(lower, "id") || contains(lower, "number") || contains(lower, "номер") {
        ColumnRole::Identifier
    } else if contains(lower, "price") || contains(lower, "value") || contains(lower, "amount")
        || contains(lower, "варт") || contains(lower, "сум") {
        ColumnRole::Money
    } else if contains(lower, "weight") || contains(lower, "вага") || contains(lower, "kg") {
        ColumnRole::Weight
    } else if contains(lower, "qty") || contains(lower, "quantity") || contains(lower, "кільк") {
        ColumnRole::Number
    } else {
        ColumnRole::Text
    }
}

pub const DATE_IDS: [&'static str; 5] = [
    "date", "order_date", "document_date", "declaration_date", "clearance_date",
];

pub const DECLARATION_NUMBER_IDS: [&'static str; 9] = [
    "declaration", "declaration_no", "declaration_number", "declaration_id", "invoice",
    "invoice_no", "invoice_number", "document_no", "document_number",
];

pub const SENDER_IDS: [&'static str; 10] = [
    "sender", "sender_name", "supplier", "supplier_name", "exporter", "exporter_name", "shipper",
    "shipper_name", "seller", "seller_name",
];

pub const RECIPIENT_IDS: [&'static str; 12] = [
    "recipient", "recipient_name", "receiver", "receiver_name", "buyer", "buyer_name", "customer",
    "customer_name", "importer", "importer_name", "consignee", "consignee_name",
];

pub const COMPANY_CODE_IDS: [&'static str; 9] = [
    "edrpou", "company_code", "company_id", "recipient_code", "recipient_id", "buyer_code",
    "buyer_id", "importer_code", "importer_id",
];

pub const PRODUCT_CODE_IDS: [&'static str; 13] = [
    "product_code", "goods_code", "commodity_code", "item_code", "sku", "hs_code", "hscode", "hs",
    "uktzed", "ukt_zed", "uktzed_code", "tnved", "tnved_code",
];

pub const DESCRIPTION_IDS: [&'static str; 8] = [
    "description", "product_description", "goods_description", "item_description",
    "commodity_description", "product_name", "goods_name", "item_name",
];

pub const TRADEMARK_IDS: [&'static str; 6] = [
    "trademark", "trade_mark", "brand", "brand_name", "mark", "manufacturer_brand",
];

pub const ORIGIN_COUNTRY_IDS: [&'static str; 4] = [
    "origin", "origin_country", "country_origin", "country_of_origin",
];

pub const DISPATCH_COUNTRY_IDS: [&'static str; 7] = [
    "dispatch_country", "country_dispatch", "country_of_dispatch", "ship_from", "shipping_country",
    "departure_country", "source_country",
];

pub const TRADE_COUNTRY_IDS: [&'static str; 4] = [
    "trade_country", "trading_country", "country_of_trade", "seller_country",
];

pub const QUANTITY_IDS: [&'static str; 5] = ["quantity", "qty", "count", "units", "unit_count"];

pub const NET_WEIGHT_IDS: [&'static str; 5] = [
    "net_kg", "net_weight", "net_weight_kg", "weight_net", "weight_net_kg",
];

pub const GROSS_WEIGHT_IDS: [&'static str; 5] = [
    "gross_kg", "gross_weight", "gross_weight_kg", "weight_gross", "weight_gross_kg",
];

pub const VALUE_IDS: [&'static str; 10] = [
    "value", "value_usd", "amount", "amount_usd", "total_value", "total_value_usd",
    "invoice_value", "invoice_value_usd", "customs_value", "customs_value_usd",
];

pub const CURRENCY_IDS: [&'static str; 6] = [
    "currency", "currency_code", "value_currency", "amount_currency", "ccy", "iso_currency",
];

pub const WEIGHT_UNIT_IDS: [&'static str; 5] = [
    "weight_unit", "net_weight_unit", "mass_unit", "weight_uom", "mass_uom",
];

/// The meaning that a column's id and role suggest.
pub open spec fn semantic_of_id(id: Seq<char>, role: ColumnRole) -> Option<SemanticField> {
    if among(id, DATE_IDS@) {
        Some(SemanticField::Date)
    } else if among(id, DECLARATION_NUMBER_IDS@) {
        Some(SemanticField::DeclarationNumber)
    } else if among(id, SENDER_IDS@) {
        Some(SemanticField::Sender)
    } else if among(id, RECIPIENT_IDS@) {
        Some(SemanticField::Recipient)
    } else if among(id, COMPANY_CODE_IDS@) {
        Some(SemanticField::CompanyCode)
    } else if among(id, PRODUCT_CODE_IDS@) {
        Some(SemanticField::ProductCode)
    } else if among(id, DESCRIPTION_IDS@) {
        Some(SemanticField::Description)
    } else if among(id, TRADEMARK_IDS@) {
        Some(SemanticField::Trademark)
    } else if id == "country"@ {
        Some(SemanticField::Country)
    } else if among(id, ORIGIN_COUNTRY_IDS@) {
        Some(SemanticField::OriginCountry)
    } else if among(id, DISPATCH_COUNTRY_IDS@) {
        Some(SemanticField::DispatchCountry)
    } else if among(id, TRADE_COUNTRY_IDS@) {
        Some(SemanticField::TradeCountry)
    } else if among(id, QUANTITY_IDS@) {
        Some(SemanticField::Quantity)
    } else if among(id, NET_WEIGHT_IDS@) {
        Some(SemanticField::NetWeight)
    } else if among(id, GROSS_WEIGHT_IDS@) {
        Some(SemanticField::GrossWeight)
    } else if among(id, VALUE_IDS@) {
        Some(SemanticField::Value)
    } else if among(id, CURRENCY_IDS@) {
        Some(SemanticField::Currency)
    } else if among(id, WEIGHT_UNIT_IDS@) {
        Some(SemanticField::WeightUnit)
    } else if role == ColumnRole::Year {
        Some(SemanticField::Date)
    } else {
        None
    }
}

/// The meaning that a column's id and role suggest.
pub fn infer_semantic(id: &str, role: ColumnRole) -> (r: Option<SemanticField>)
    ensures
        r == semantic_of_id(id@, role),
{
    if is_among(id, &DATE_IDS) {
        Some(SemanticField::Date)
    } else if is_among(id, &DECLARATION_NUMBER_IDS) {
        Some(SemanticField::DeclarationNumber)
    } else if is_among(id, &SENDER_IDS) {
        Some(SemanticField::Sender)
    } else if is_among(id, &RECIPIENT_IDS) {
        Some(SemanticField::Recipient)
    } else if is_among(id, &COMPANY_CODE_IDS) {
        Some(SemanticField::CompanyCode)
    } else if is_among(id, &PRODUCT_CODE_IDS) {
        Some(SemanticField::ProductCode)
    } else if is_among(id, &DESCRIPTION_IDS) {
        Some(SemanticField::Description)
    } else if is_among(id, &TRADEMARK_IDS) {
        Some(SemanticField::Trademark)
    } else if same(id, "country") {
        Some(SemanticField::Country)
    } else if is_among(id, &ORIGIN_COUNTRY_IDS) {
        Some(SemanticField::OriginCountry)
    } else if is_among(id, &DISPATCH_COUNTRY_IDS) {
        Some(SemanticField::DispatchCountry)
    } else if is_among(id, &TRADE_COUNTRY_IDS) {
        Some(SemanticField::TradeCountry)
    } else if is_among(id, &QUANTITY_IDS) {
        Some(SemanticField::Quantity)
    } else if is_among(id, &NET_WEIGHT_IDS) {
        Some(SemanticField::NetWeight)
    } else if is_among(id, &GROSS_WEIGHT_IDS) {
        Some(SemanticField::GrossWeight)
    } else if is_among(id, &VALUE_IDS) {
        Some(SemanticField::Value)
    } else if is_among(id, &CURRENCY_IDS) {
        Some(SemanticField::Currency)
    } else if is_among(id, &WEIGHT_UNIT_IDS) {
        Some(SemanticField::WeightUnit)
    } else if role == ColumnRole::Year {
        Some(SemanticField::Date)
    } else {
        None
    }
}

/// The id that a column's header gives before repetitions are told apart.
pub open spec fn base_id(headers: Seq<Seq<char>>, i: int) -> Seq<char> {
    column_id(display_header(headers[i], i), i)
}

/// How many of the first `n` columns share the base id `id`.
pub open spec fn times_seen(headers: Seq<Seq<char>>, id: Seq<char>, n: int) -> nat
    decreases n,
{
    if n <= 0 {
        0
    } else {
        times_seen(headers, id, n - 1) + (if base_id(headers, n - 1) == id {
            1nat
        } else {
            0nat
        })
    }
}

/// How many columns in front of column `i` share its base id.
pub open spec fn repetition(headers: Seq<Seq<char>>, i: int) -> nat {
    times_seen(headers, base_id(headers, i), i)
}

/// The id of column `i`: a repeated base id is numbered from its second column on.
pub open spec fn shaped_id(headers: Seq<Seq<char>>, i: int) -> Seq<char> {
    if repetition(headers, i) == 0 {
        base_id(headers, i)
    } else {
        base_id(headers, i) + "_"@ + decimal(repetition(headers, i) + 1)
    }
}

/// The header of column `i`: a repeated one is numbered from its second column on.
pub open spec fn shaped_header(headers: Seq<Seq<char>>, i: int) -> Seq<char> {
    if repetition(headers, i) == 0 {
        display_header(headers[i], i)
    } else {
        display_header(headers[i], i) + " ("@ + decimal(repetition(headers, i) + 1) + ")"@
    }
}

/// `column` is what the headers of a table say of column `i`.
pub open spec fn shaped_column(headers: Seq<Seq<char>>, i: int, column: SourceColumn) -> bool {
    &&& column.id@ == shaped_id(headers, i)
    &&& column.header@ == shaped_header(headers, i)
    &&& column.source_index == i
    &&& column.role == role_of_id(column_id(shaped_header(headers, i), 0))
    &&& column.semantic == semantic_of_id(shaped_id(headers, i), column.role)
    &&& column.storage is SourceJson
}

/// Counts the columns so far that share a base id.
fn count_seen(bases: &Vec<String>, id: &String, Ghost(headers): Ghost<Seq<Seq<char>>>) -> (r: usize)
    requires
        forall|j: int| 0 <= j < bases@.len() ==> (#[trigger] bases@[j])@ == base_id(headers, j),
    ensures
        r == times_seen(headers, id@, bases@.len() as int),
        r <= bases@.len(),
{
    let mut seen: usize = 0;
    let mut j: usize = 0;
    while j < bases.len()
        invariant
            j <= bases.len(),
            seen <= j,
            seen == times_seen(headers, id@, j as int),
            forall|k: int| 0 <= k < bases@.len() ==> (#[trigger] bases@[k])@ == base_id(
                headers,
                k,
            ),
        decreases bases.len() - j,
    {
        assert(bases@[j as int]@ == base_id(headers, j as int));
        if bases[j] == *id {
            seen += 1;
        }
        j += 1;
    }
    seen
}

/// The meaning that a list of pins gives an id: the last pin counts.
pub open spec fn pinned_semantic(
    semantics: Seq<(String, SemanticField)>,
    id: Seq<char>,
) -> Option<SemanticField>
    decreases semantics.len(),
{
    if semantics.len() == 0 {
        None
    } else if semantics.last().0@ == id {
        Some(semantics.last().1)
    } else {
        pinned_semantic(semantics.drop_last(), id)
    }
}

/// Looks a pinned meaning up.
pub fn find_pinned(semantics: &Vec<(String, SemanticField)>, id: &String) -> (r: Option<
    SemanticField,
>)
    ensures
        r == pinned_semantic(semantics@, id@),
{
    let mut n: usize = semantics.len();
    assert(semantics@.take(n as int) =~= semantics@);
    while n > 0
        invariant
            n <= semantics.len(),
            pinned_semantic(semantics@.take(n as int), id@) == pinned_semantic(semantics@, id@),
        decreases n,
    {
        assert(semantics@.take(n as int).drop_last() =~= semantics@.take(n - 1));
        assert(semantics@.take(n as int).last() == semantics@[n - 1]);
        if semantics[n - 1].0 == *id {
            return Some(semantics[n - 1].1);
        }
        n -= 1;
    }
    None
}

impl TableShape {
    /// The shape that a row of headers gives: every source column stays, in its place.
    pub fn from_headers(headers: Vec<String>) -> (shape: Self)
        ensures
            shape.columns@.len() == headers@.len(),
            forall|i: int|
                0 <= i < headers@.len() ==> shaped_column(
                    views(headers@),
                    i,
                    #[trigger] shape.columns@[i],
                ),
    {
        let ghost texts = views(headers@);
        let mut columns: Vec<SourceColumn> = Vec::new();
        let mut bases: Vec<String> = Vec::new();
        let mut i: usize = 0;
        while i < headers.len()
            invariant
                i <= headers.len(),
                texts == views(headers@),
                columns@.len() == i,
                bases@.len() == i,
                forall|j: int|
                    0 <= j < i ==> (#[trigger] bases@[j])@ == base_id(texts, j),
                forall|j: int|
                    0 <= j < i ==> shaped_column(texts, j, #[trigger] columns@[j]),
            decreases headers.len() - i,
        {
            assert(texts[i as int] == headers@[i as int]@);
            let display = normalize_header_for_display(headers[i].as_str(), i);
            let base = stable_column_id(display.as_str(), i);
            let seen: usize = count_seen(&bases, &base, Ghost(texts));
            let mut id = base.clone();
            let mut header = display;
            if seen > 0 {
                let number = decimal_text((seen + 1) as u64);
                id.append("_");
                id.append(number.as_str());
                header.append(" (");
                header.append(number.as_str());
                header.append(")");
            }
            let role = infer_role(header.as_str());
            let semantic = infer_semantic(id.as_str(), role);
            let column = SourceColumn {
                id,
                header,
                source_index: i,
                role,
                semantic,
                storage: ColumnStorage::SourceJson,
            };
            assert(shaped_column(texts, i as int, column));
            columns.push(column);
            bases.push(base);
            i += 1;
        }
        TableShape { columns }
    }

    /// The same columns, with the meanings that are pinned by column id.
    pub fn with_semantics(self, semantics: Vec<(String, SemanticField)>) -> (shape: Self)
        ensures
            shape.columns@.len() == self.columns@.len(),
            forall|i: int|
                0 <= i < self.columns@.len() ==> (#[trigger] shape.columns@[i]) == (SourceColumn {
                    semantic: match pinned_semantic(semantics@, self.columns@[i].id@) {
                        Some(semantic) => Some(semantic),
                        None => self.columns@[i].semantic,
                    },
                    ..self.columns@[i]
                }),
    {
        let mut columns = self.columns;
        let ghost before = columns@;
        let mut i: usize = 0;
        while i < columns.len()
            invariant
                i <= columns.len(),
                columns@.len() == before.len(),
                forall|j: int| i <= j < before.len() ==> columns@[j] == before[j],
                forall|j: int|
                    0 <= j < i ==> (#[trigger] columns@[j]) == (SourceColumn {
                        semantic: match pinned_semantic(semantics@, before[j].id@) {
                            Some(semantic) => Some(semantic),
                            None => before[j].semantic,
                        },
                        ..before[j]
                    }),
            decreases columns.len() - i,
        {
            match find_pinned(&semantics, &columns[i].id) {
                Some(semantic) => {
                    columns[i].semantic = Some(semantic);
                },
                None => {},
            }
            i += 1;
        }
        TableShape { columns }
    }
}

/// A pinned value that was accepted is accepted again, as it is: it cannot arrive
/// later in another form.
pub proof fn accepted_value_is_stable(semantic: SemanticField, value: Seq<char>)
    requires
        fixed_value(semantic, value) is Ok,
    ensures
        fixed_value(semantic, fixed_value(semantic, value)->Ok_0) == fixed_value(semantic, value),
{
    trimmed_is_stable(value);
}

/// The column ids that go by a meaning.
pub open spec fn ids_of(meaning: SemanticField) -> Seq<Seq<char>> {
    match meaning {
        SemanticField::Country => seq!["country"@],
        SemanticField::Date => views_of(DATE_IDS@),
        SemanticField::DeclarationNumber => views_of(DECLARATION_NUMBER_IDS@),
        SemanticField::Sender => views_of(SENDER_IDS@),
        SemanticField::Recipient => views_of(RECIPIENT_IDS@),
        SemanticField::CompanyCode => views_of(COMPANY_CODE_IDS@),
        SemanticField::ProductCode => views_of(PRODUCT_CODE_IDS@),
        SemanticField::Description => views_of(DESCRIPTION_IDS@),
        SemanticField::Trademark => views_of(TRADEMARK_IDS@),
        SemanticField::OriginCountry => views_of(ORIGIN_COUNTRY_IDS@),
        SemanticField::DispatchCountry => views_of(DISPATCH_COUNTRY_IDS@),
        SemanticField::TradeCountry => views_of(TRADE_COUNTRY_IDS@),
        SemanticField::Quantity => views_of(QUANTITY_IDS@),
        SemanticField::NetWeight => views_of(NET_WEIGHT_IDS@),
        SemanticField::GrossWeight => views_of(GROSS_WEIGHT_IDS@),
        SemanticField::Value => views_of(VALUE_IDS@),
        SemanticField::Currency => views_of(CURRENCY_IDS@),
        SemanticField::WeightUnit => views_of(WEIGHT_UNIT_IDS@),
    }
}

/// What the texts of a list say.
pub open spec fn views_of(list: Seq<&'static str>) -> Seq<Seq<char>> {
    list.map_values(|s: &'static str| s@)
}

/// A listed text stands in the list of what the texts say.
proof fn among_views(id: Seq<char>, list: Seq<&'static str>)
    ensures
        among(id, list) <==> views_of(list).contains(id),
{
    if among(id, list) {
        let i = choose|i: int| 0 <= i < list.len() && (#[trigger] list[i])@ == id;
        assert(views_of(list)[i] == id);
    }
    if views_of(list).contains(id) {
        let i = choose|i: int| 0 <= i < views_of(list).len() && views_of(list)[i] == id;
        assert(list[i]@ == id);
    }
}

/// A column has the meaning that lists its id, and a listed id always has a
/// meaning; a year without one is a date.
pub proof fn an_id_has_the_meaning_that_lists_it(id: Seq<char>, role: ColumnRole)
    ensures
        match semantic_of_id(id, role) {
            Some(meaning) => ids_of(meaning).contains(id) || (role == ColumnRole::Year && meaning
                == SemanticField::Date),
            None => role != ColumnRole::Year && forall|meaning: SemanticField|
                !(#[trigger] ids_of(meaning)).contains(id),
        },
        (exists|meaning: SemanticField| (#[trigger] ids_of(meaning)).contains(id))
            ==> semantic_of_id(id, role) is Some && ids_of(
            semantic_of_id(id, role)->0,
        ).contains(id),
{
    assert(seq!["country"@].contains(id) <==> id == "country"@) by {
        assert(seq!["country"@][0] == "country"@);
    }
    among_views(id, DATE_IDS@);
    among_views(id, DECLARATION_NUMBER_IDS@);
    among_views(id, SENDER_IDS@);
    among_views(id, RECIPIENT_IDS@);
    among_views(id, COMPANY_CODE_IDS@);
    among_views(id, PRODUCT_CODE_IDS@);
    among_views(id, DESCRIPTION_IDS@);
    among_views(id, TRADEMARK_IDS@);
    among_views(id, ORIGIN_COUNTRY_IDS@);
    among_views(id, DISPATCH_COUNTRY_IDS@);
    among_views(id, TRADE_COUNTRY_IDS@);
    among_views(id, QUANTITY_IDS@);
    among_views(id, NET_WEIGHT_IDS@);
    among_views(id, GROSS_WEIGHT_IDS@);
    among_views(id, VALUE_IDS@);
    among_views(id, CURRENCY_IDS@);
    among_views(id, WEIGHT_UNIT_IDS@);
}

/// A column's role is told by a word of its id: an id without any of the words is
/// a text.
pub proof fn a_role_is_told_by_its_words(id: Seq<char>)
    ensures
        role_of_id(id) == ColumnRole::Date <==> holds(id, "date"@) || holds(id, "дата"@),
        role_of_id(id) == ColumnRole::Year ==> id == "year"@ || holds(id, "рік"@) || holds(
            id,
            "год"@,
        ),
        role_of_id(id) == ColumnRole::Country ==> holds(id, "country"@) || holds(id, "краї"@)
            || holds(id, "стра"@),
        role_of_id(id) == ColumnRole::Code ==> holds(id, "code"@) || holds(id, "код"@) || holds(
            id,
            "sku"@,
        ),
        role_of_id(id) == ColumnRole::Identifier ==> holds(id, "id"@) || holds(id, "number"@)
            || holds(id, "номер"@),
        role_of_id(id) == ColumnRole::Money ==> holds(id, "price"@) || holds(id, "value"@)
            || holds(id, "amount"@) || holds(id, "варт"@) || holds(id, "сум"@),
        role_of_id(id) == ColumnRole::Weight ==> holds(id, "weight"@) || holds(id, "вага"@)
            || holds(id, "kg"@),
        role_of_id(id) == ColumnRole::Number ==> holds(id, "qty"@) || holds(id, "quantity"@)
            || holds(id, "кільк"@),
        holds(id, "country"@) ==> role_of_id(id) != ColumnRole::Code && role_of_id(id)
            != ColumnRole::Identifier && role_of_id(id) != ColumnRole::Money && role_of_id(id)
            != ColumnRole::Weight && role_of_id(id) != ColumnRole::Number && role_of_id(id)
            != ColumnRole::Text,
        holds(id, "code"@) || holds(id, "number"@) || holds(id, "value"@) || holds(id, "weight"@)
            || holds(id, "quantity"@) || holds(id, "price"@) || holds(id, "amount"@) || holds(
            id,
            "kg"@,
        ) || holds(id, "qty"@) || holds(id, "id"@) ==> role_of_id(id) != ColumnRole::Text,
{
}

/// Only a currency and a weight unit can be pinned for a whole table, to a text of
/// one to thirty-two characters but for the blanks around it.
pub proof fn only_units_are_pinned(semantic: SemanticField, value: Seq<char>)
    ensures
        fixed_value(semantic, value) is Ok <==> (semantic == SemanticField::Currency || semantic
            == SemanticField::WeightUnit) && 1 <= trimmed(value).len() <= 32,
        fixed_value(semantic, value) is Ok ==> fixed_value(semantic, value)->Ok_0 == trimmed(value),
{
    assert(FIXABLE_SEMANTICS@[0] == SemanticField::Currency);
    assert(FIXABLE_SEMANTICS@[1] == SemanticField::WeightUnit);
}

/// A column without a header is shown and named by its number, counted from one.
pub proof fn a_bare_column_is_named_by_its_number(header: Seq<char>, index: int)
    requires
        0 <= index,
    ensures
        collapsed(header).len() == 0 ==> display_header(header, index) == "Column "@ + decimal(
            (index + 1) as nat,
        ),
        collapsed(header).len() > 0 ==> display_header(header, index) == collapsed(header),
        header_slug(header).len() == 0 ==> column_id(header, index) == "column_"@ + decimal(
            (index + 1) as nat,
        ),
{
}

/// The meaning that was pinned last for a column stands, and a column that was not
/// pinned has none.
pub proof fn the_last_pin_stands(
    semantics: Seq<(String, SemanticField)>,
    id: String,
    meaning: SemanticField,
    other: Seq<char>,
)
    ensures
        pinned_semantic(semantics.push((id, meaning)), id@) == Some(meaning),
        other != id@ ==> pinned_semantic(semantics.push((id, meaning)), other) == pinned_semantic(
            semantics,
            other,
        ),
        pinned_semantic(Seq::empty(), other) is None,
{
    assert(semantics.push((id, meaning)).drop_last() =~= semantics);
}

/// The ids of one list hold its words.
#[verifier::spinoff_prover]
#[verifier::rlimit(80)]
proof fn net_weight_ids_say_it()
    ensures
        forall|i: int|
            0 <= i < 5 ==> holds_some((#[trigger] NET_WEIGHT_IDS@[i])@, seq!["net"@]),
{
    assert forall|i: int| 0 <= i < 5 implies holds_some(
        (#[trigger] NET_WEIGHT_IDS@[i])@,
        seq!["net"@],
    ) by {
        let words = seq!["net"@];
        assert(holds_some("net_kg"@, words)) by {
            reveal_strlit("net_kg");
            reveal_strlit("net");
            word_stands("net_kg"@, words, 0, 0);
        }
        assert(holds_some("net_weight"@, words)) by {
            reveal_strlit("net_weight");
            reveal_strlit("net");
            word_stands("net_weight"@, words, 0, 0);
        }
        assert(holds_some("net_weight_kg"@, words)) by {
            reveal_strlit("net_weight_kg");
            reveal_strlit("net");
            word_stands("net_weight_kg"@, words, 0, 0);
        }
        assert(holds_some("weight_net"@, words)) by {
            reveal_strlit("weight_net");
            reveal_strlit("net");
            word_stands("weight_net"@, words, 0, 7);
        }
        assert(holds_some("weight_net_kg"@, words)) by {
            reveal_strlit("weight_net_kg");
            reveal_strlit("net");
            word_stands("weight_net_kg"@, words, 0, 7);
        }
    }
}

/// The ids of one list hold its words.
#[verifier::spinoff_prover]
#[verifier::rlimit(80)]
proof fn gross_weight_ids_say_it()
    ensures
        forall|i: int|
            0 <= i < 5 ==> holds_some((#[trigger] GROSS_WEIGHT_IDS@[i])@, seq!["gross"@]),
{
    assert forall|i: int| 0 <= i < 5 implies holds_some(
        (#[trigger] GROSS_WEIGHT_IDS@[i])@,
        seq!["gross"@],
    ) by {
        let words = seq!["gross"@];
        assert(holds_some("gross_kg"@, words)) by {
            reveal_strlit("gross_kg");
            reveal_strlit("gross");
            word_stands("gross_kg"@, words, 0, 0);
        }
        assert(holds_some("gross_weight"@, words)) by {
            reveal_strlit("gross_weight");
            reveal_strlit("gross");
            word_stands("gross_weight"@, words, 0, 0);
        }
        assert(holds_some("gross_weight_kg"@, words)) by {
            reveal_strlit("gross_weight_kg");
            reveal_strlit("gross");
            word_stands("gross_weight_kg"@, words, 0, 0);
        }
        assert(holds_some("weight_gross"@, words)) by {
            reveal_strlit("weight_gross");
            reveal_strlit("gross");
            word_stands("weight_gross"@, words, 0, 7);
        }
        assert(holds_some("weight_gross_kg"@, words)) by {
            reveal_strlit("weight_gross_kg");
            reveal_strlit("gross");
            word_stands("weight_gross_kg"@, words, 0, 7);
        }
    }
}

/// The ids of one list hold its words.
#[verifier::spinoff_prover]
#[verifier::rlimit(80)]
proof fn sender_ids_say_it()
    ensures
        forall|i: int|
            0 <= i < 10 ==> holds_some((#[trigger] SENDER_IDS@[i])@, seq!["sender"@, "supplier"@, "exporter"@, "shipper"@, "seller"@]),
{
    assert forall|i: int| 0 <= i < 10 implies holds_some(
        (#[trigger] SENDER_IDS@[i])@,
        seq!["sender"@, "supplier"@, "exporter"@, "shipper"@, "seller"@],
    ) by {
        let words = seq!["sender"@, "supplier"@, "exporter"@, "shipper"@, "seller"@];
        assert(holds_some("sender"@, words)) by {
            reveal_strlit("sender");
            word_stands("sender"@, words, 0, 0);
        }
        assert(holds_some("sender_name"@, words)) by {
            reveal_strlit("sender_name");
            reveal_strlit("sender");
            word_stands("sender_name"@, words, 0, 0);
        }
        assert(holds_some("supplier"@, words)) by {
            reveal_strlit("supplier");
            word_stands("supplier"@, words, 1, 0);
        }
        assert(holds_some("supplier_name"@, words)) by {
            reveal_strlit("supplier_name");
            reveal_strlit("supplier");
            word_stands("supplier_name"@, words, 1, 0);
        }
        assert(holds_some("exporter"@, words)) by {
            reveal_strlit("exporter");
            word_stands("exporter"@, words, 2, 0);
        }
        assert(holds_some("exporter_name"@, words)) by {
            reveal_strlit("exporter_name");
            reveal_strlit("exporter");
            word_stands("exporter_name"@, words, 2, 0);
        }
        assert(holds_some("shipper"@, words)) by {
            reveal_strlit("shipper");
            word_stands("shipper"@, words, 3, 0);
        }
        assert(holds_some("shipper_name"@, words)) by {
            reveal_strlit("shipper_name");
            reveal_strlit("shipper");
            word_stands("shipper_name"@, words, 3, 0);
        }
        assert(holds_some("seller"@, words)) by {
            reveal_strlit("seller");
            word_stands("seller"@, words, 4, 0);
        }
        assert(holds_some("seller_name"@, words)) by {
            reveal_strlit("seller_name");
            reveal_strlit("seller");
            word_stands("seller_name"@, words, 4, 0);
        }
    }
}

/// The ids of one list hold its words.
#[verifier::spinoff_prover]
#[verifier::rlimit(80)]
proof fn recipient_ids_say_it()
    ensures
        forall|i: int|
            0 <= i < 12 ==> holds_some((#[trigger] RECIPIENT_IDS@[i])@, seq!["recipient"@, "receiver"@, "buyer"@, "customer"@, "importer"@, "consignee"@]),
{
    assert forall|i: int| 0 <= i < 12 implies holds_some(
        (#[trigger] RECIPIENT_IDS@[i])@,
        seq!["recipient"@, "receiver"@, "buyer"@, "customer"@, "importer"@, "consignee"@],
    ) by {
        let words = seq!["recipient"@, "receiver"@, "buyer"@, "customer"@, "importer"@, "consignee"@];
        assert(holds_some("recipient"@, words)) by {
            reveal_strlit("recipient");
            word_stands("recipient"@, words, 0, 0);
        }
        assert(holds_some("recipient_name"@, words)) by {
            reveal_strlit("recipient_name");
            reveal_strlit("recipient");
            word_stands("recipient_name"@, words, 0, 0);
        }
        assert(holds_some("receiver"@, words)) by {
            reveal_strlit("receiver");
            word_stands("receiver"@, words, 1, 0);
        }
        assert(holds_some("receiver_name"@, words)) by {
            reveal_strlit("receiver_name");
            reveal_strlit("receiver");
            word_stands("receiver_name"@, words, 1, 0);
        }
        assert(holds_some("buyer"@, words)) by {
            reveal_strlit("buyer");
            word_stands("buyer"@, words, 2, 0);
        }
        assert(holds_some("buyer_name"@, words)) by {
            reveal_strlit("buyer_name");
            reveal_strlit("buyer");
            word_stands("buyer_name"@, words, 2, 0);
        }
        assert(holds_some("customer"@, words)) by {
            reveal_strlit("customer");
            word_stands("customer"@, words, 3, 0);
        }
        assert(holds_some("customer_name"@, words)) by {
            reveal_strlit("customer_name");
            reveal_strlit("customer");
            word_stands("customer_name"@, words, 3, 0);
        }
        assert(holds_some("importer"@, words)) by {
            reveal_strlit("importer");
            word_stands("importer"@, words, 4, 0);
        }
        assert(holds_some("importer_name"@, words)) by {
            reveal_strlit("importer_name");
            reveal_strlit("importer");
            word_stands("importer_name"@, words, 4, 0);
        }
        assert(holds_some("consignee"@, words)) by {
            reveal_strlit("consignee");
            word_stands("consignee"@, words, 5, 0);
        }
        assert(holds_some("consignee_name"@, words)) by {
            reveal_strlit("consignee_name");
            reveal_strlit("consignee");
            word_stands("consignee_name"@, words, 5, 0);
        }
    }
}

/// The ids of one list hold its words.
#[verifier::spinoff_prover]
#[verifier::rlimit(80)]
proof fn origin_country_ids_say_it()
    ensures
        forall|i: int|
            0 <= i < 4 ==> holds_some((#[trigger] ORIGIN_COUNTRY_IDS@[i])@, seq!["origin"@]),
{
    assert forall|i: int| 0 <= i < 4 implies holds_some(
        (#[trigger] ORIGIN_COUNTRY_IDS@[i])@,
        seq!["origin"@],
    ) by {
        let words = seq!["origin"@];
        assert(holds_some("origin"@, words)) by {
            reveal_strlit("origin");
            word_stands("origin"@, words, 0, 0);
        }
        assert(holds_some("origin_country"@, words)) by {
            reveal_strlit("origin_country");
            reveal_strlit("origin");
            word_stands("origin_country"@, words, 0, 0);
        }
        assert(holds_some("country_origin"@, words)) by {
            reveal_strlit("country_origin");
            reveal_strlit("origin");
            word_stands("country_origin"@, words, 0, 8);
        }
        assert(holds_some("country_of_origin"@, words)) by {
            reveal_strlit("country_of_origin");
            reveal_strlit("origin");
            word_stands("country_of_origin"@, words, 0, 11);
        }
    }
}

/// The ids of one list hold its words.
#[verifier::spinoff_prover]
#[verifier::rlimit(80)]
proof fn dispatch_country_ids_say_it()
    ensures
        forall|i: int|
            0 <= i < 7 ==> holds_some((#[trigger] DISPATCH_COUNTRY_IDS@[i])@, seq!["dispatch"@, "ship"@, "departure"@, "source"@]),
{
    assert forall|i: int| 0 <= i < 7 implies holds_some(
        (#[trigger] DISPATCH_COUNTRY_IDS@[i])@,
        seq!["dispatch"@, "ship"@, "departure"@, "source"@],
    ) by {
        let words = seq!["dispatch"@, "ship"@, "departure"@, "source"@];
        assert(holds_some("dispatch_country"@, words)) by {
            reveal_strlit("dispatch_country");
            reveal_strlit("dispatch");
            word_stands("dispatch_country"@, words, 0, 0);
        }
        assert(holds_some("country_dispatch"@, words)) by {
            reveal_strlit("country_dispatch");
            reveal_strlit("dispatch");
            word_stands("country_dispatch"@, words, 0, 8);
        }
        assert(holds_some("country_of_dispatch"@, words)) by {
            reveal_strlit("country_of_dispatch");
            reveal_strlit("dispatch");
            word_stands("country_of_dispatch"@, words, 0, 11);
        }
        assert(holds_some("ship_from"@, words)) by {
            reveal_strlit("ship_from");
            reveal_strlit("ship");
            word_stands("ship_from"@, words, 1, 0);
        }
        assert(holds_some("shipping_country"@, words)) by {
            reveal_strlit("shipping_country");
            reveal_strlit("ship");
            word_stands("shipping_country"@, words, 1, 0);
        }
        assert(holds_some("departure_country"@, words)) by {
            reveal_strlit("departure_country");
            reveal_strlit("departure");
            word_stands("departure_country"@, words, 2, 0);
        }
        assert(holds_some("source_country"@, words)) by {
            reveal_strlit("source_country");
            reveal_strlit("source");
            word_stands("source_country"@, words, 3, 0);
        }
    }
}

/// The ids of one list hold its words.
#[verifier::spinoff_prover]
#[verifier::rlimit(80)]
proof fn trade_country_ids_say_it()
    ensures
        forall|i: int|
            0 <= i < 4 ==> holds_some((#[trigger] TRADE_COUNTRY_IDS@[i])@, seq!["trad"@, "seller"@]),
{
    assert forall|i: int| 0 <= i < 4 implies holds_some(
        (#[trigger] TRADE_COUNTRY_IDS@[i])@,
        seq!["trad"@, "seller"@],
    ) by {
        let words = seq!["trad"@, "seller"@];
        assert(holds_some("trade_country"@, words)) by {
            reveal_strlit("trade_country");
            reveal_strlit("trad");
            word_stands("trade_country"@, words, 0, 0);
        }
        assert(holds_some("trading_country"@, words)) by {
            reveal_strlit("trading_country");
            reveal_strlit("trad");
            word_stands("trading_country"@, words, 0, 0);
        }
        assert(holds_some("country_of_trade"@, words)) by {
            reveal_strlit("country_of_trade");
            reveal_strlit("trad");
            word_stands("country_of_trade"@, words, 0, 11);
        }
        assert(holds_some("seller_country"@, words)) by {
            reveal_strlit("seller_country");
            reveal_strlit("seller");
            word_stands("seller_country"@, words, 1, 0);
        }
    }
}

/// The ids of one list hold its words.
#[verifier::spinoff_prover]
#[verifier::rlimit(80)]
proof fn date_ids_say_it()
    ensures
        forall|i: int|
            0 <= i < 5 ==> holds_some((#[trigger] DATE_IDS@[i])@, seq!["date"@]),
{
    assert forall|i: int| 0 <= i < 5 implies holds_some(
        (#[trigger] DATE_IDS@[i])@,
        seq!["date"@],
    ) by {
        let words = seq!["date"@];
        assert(holds_some("date"@, words)) by {
            reveal_strlit("date");
            word_stands("date"@, words, 0, 0);
        }
        assert(holds_some("order_date"@, words)) by {
            reveal_strlit("order_date");
            reveal_strlit("date");
            word_stands("order_date"@, words, 0, 6);
        }
        assert(holds_some("document_date"@, words)) by {
            reveal_strlit("document_date");
            reveal_strlit("date");
            word_stands("document_date"@, words, 0, 9);
        }
        assert(holds_some("declaration_date"@, words)) by {
            reveal_strlit("declaration_date");
            reveal_strlit("date");
            word_stands("declaration_date"@, words, 0, 12);
        }
        assert(holds_some("clearance_date"@, words)) by {
            reveal_strlit("clearance_date");
            reveal_strlit("date");
            word_stands("clearance_date"@, words, 0, 10);
        }
    }
}

/// The ids of one list hold its words.
#[verifier::spinoff_prover]
#[verifier::rlimit(80)]
proof fn declaration_number_ids_say_it()
    ensures
        forall|i: int|
            0 <= i < 9 ==> holds_some((#[trigger] DECLARATION_NUMBER_IDS@[i])@, seq!["declaration"@, "invoice"@, "document"@]),
{
    assert forall|i: int| 0 <= i < 9 implies holds_some(
        (#[trigger] DECLARATION_NUMBER_IDS@[i])@,
        seq!["declaration"@, "invoice"@, "document"@],
    ) by {
        let words = seq!["declaration"@, "invoice"@, "document"@];
        assert(holds_some("declaration"@, words)) by {
            reveal_strlit("declaration");
            word_stands("declaration"@, words, 0, 0);
        }
        assert(holds_some("declaration_no"@, words)) by {
            reveal_strlit("declaration_no");
            reveal_strlit("declaration");
            word_stands("declaration_no"@, words, 0, 0);
        }
        assert(holds_some("declaration_number"@, words)) by {
            reveal_strlit("declaration_number");
            reveal_strlit("declaration");
            word_stands("declaration_number"@, words, 0, 0);
        }
        assert(holds_some("declaration_id"@, words)) by {
            reveal_strlit("declaration_id");
            reveal_strlit("declaration");
            word_stands("declaration_id"@, words, 0, 0);
        }
        assert(holds_some("invoice"@, words)) by {
            reveal_strlit("invoice");
            word_stands("invoice"@, words, 1, 0);
        }
        assert(holds_some("invoice_no"@, words)) by {
            reveal_strlit("invoice_no");
            reveal_strlit("invoice");
            word_stands("invoice_no"@, words, 1, 0);
        }
        assert(holds_some("invoice_number"@, words)) by {
            reveal_strlit("invoice_number");
            reveal_strlit("invoice");
            word_stands("invoice_number"@, words, 1, 0);
        }
        assert(holds_some("document_no"@, words)) by {
            reveal_strlit("document_no");
            reveal_strlit("document");
            word_stands("document_no"@, words, 2, 0);
        }
        assert(holds_some("document_number"@, words)) by {
            reveal_strlit("document_number");
            reveal_strlit("document");
            word_stands("document_number"@, words, 2, 0);
        }
    }
}

/// The ids of one list hold its words.
#[verifier::spinoff_prover]
#[verifier::rlimit(80)]
proof fn company_code_ids_say_it()
    ensures
        forall|i: int|
            0 <= i < 9 ==> holds_some((#[trigger] COMPANY_CODE_IDS@[i])@, seq!["edrpou"@, "_code"@, "_id"@]),
{
    assert forall|i: int| 0 <= i < 9 implies holds_some(
        (#[trigger] COMPANY_CODE_IDS@[i])@,
        seq!["edrpou"@, "_code"@, "_id"@],
    ) by {
        let words = seq!["edrpou"@, "_code"@, "_id"@];
        assert(holds_some("edrpou"@, words)) by {
            reveal_strlit("edrpou");
            word_stands("edrpou"@, words, 0, 0);
        }
        assert(holds_some("company_code"@, words)) by {
            reveal_strlit("company_code");
            reveal_strlit("_code");
            word_stands("company_code"@, words, 1, 7);
        }
        assert(holds_some("company_id"@, words)) by {
            reveal_strlit("company_id");
            reveal_strlit("_id");
            word_stands("company_id"@, words, 2, 7);
        }
        assert(holds_some("recipient_code"@, words)) by {
            reveal_strlit("recipient_code");
            reveal_strlit("_code");
            word_stands("recipient_code"@, words, 1, 9);
        }
        assert(holds_some("recipient_id"@, words)) by {
            reveal_strlit("recipient_id");
            reveal_strlit("_id");
            word_stands("recipient_id"@, words, 2, 9);
        }
        assert(holds_some("buyer_code"@, words)) by {
            reveal_strlit("buyer_code");
            reveal_strlit("_code");
            word_stands("buyer_code"@, words, 1, 5);
        }
        assert(holds_some("buyer_id"@, words)) by {
            reveal_strlit("buyer_id");
            reveal_strlit("_id");
            word_stands("buyer_id"@, words, 2, 5);
        }
        assert(holds_some("importer_code"@, words)) by {
            reveal_strlit("importer_code");
            reveal_strlit("_code");
            word_stands("importer_code"@, words, 1, 8);
        }
        assert(holds_some("importer_id"@, words)) by {
            reveal_strlit("importer_id");
            reveal_strlit("_id");
            word_stands("importer_id"@, words, 2, 8);
        }
    }
}

/// The ids of one list hold its words.
#[verifier::spinoff_prover]
#[verifier::rlimit(80)]
proof fn product_code_ids_say_it()
    ensures
        forall|i: int|
            0 <= i < 13 ==> holds_some((#[trigger] PRODUCT_CODE_IDS@[i])@, seq!["code"@, "sku"@, "hs"@, "ukt"@, "tnved"@]),
{
    assert forall|i: int| 0 <= i < 13 implies holds_some(
        (#[trigger] PRODUCT_CODE_IDS@[i])@,
        seq!["code"@, "sku"@, "hs"@, "ukt"@, "tnved"@],
    ) by {
        let words = seq!["code"@, "sku"@, "hs"@, "ukt"@, "tnved"@];
        assert(holds_some("product_code"@, words)) by {
            reveal_strlit("product_code");
            reveal_strlit("code");
            word_stands("product_code"@, words, 0, 8);
        }
        assert(holds_some("goods_code"@, words)) by {
            reveal_strlit("goods_code");
            reveal_strlit("code");
            word_stands("goods_code"@, words, 0, 6);
        }
        assert(holds_some("commodity_code"@, words)) by {
            reveal_strlit("commodity_code");
            reveal_strlit("code");
            word_stands("commodity_code"@, words, 0, 10);
        }
        assert(holds_some("item_code"@, words)) by {
            reveal_strlit("item_code");
            reveal_strlit("code");
            word_stands("item_code"@, words, 0, 5);
        }
        assert(holds_some("sku"@, words)) by {
            reveal_strlit("sku");
            word_stands("sku"@, words, 1, 0);
        }
        assert(holds_some("hs_code"@, words)) by {
            reveal_strlit("hs_code");
            reveal_strlit("code");
            word_stands("hs_code"@, words, 0, 3);
        }
        assert(holds_some("hscode"@, words)) by {
            reveal_strlit("hscode");
            reveal_strlit("code");
            word_stands("hscode"@, words, 0, 2);
        }
        assert(holds_some("hs"@, words)) by {
            reveal_strlit("hs");
            word_stands("hs"@, words, 2, 0);
        }
        assert(holds_some("uktzed"@, words)) by {
            reveal_strlit("uktzed");
            reveal_strlit("ukt");
            word_stands("uktzed"@, words, 3, 0);
        }
        assert(holds_some("ukt_zed"@, words)) by {
            reveal_strlit("ukt_zed");
            reveal_strlit("ukt");
            word_stands("ukt_zed"@, words, 3, 0);
        }
        assert(holds_some("uktzed_code"@, words)) by {
            reveal_strlit("uktzed_code");
            reveal_strlit("code");
            word_stands("uktzed_code"@, words, 0, 7);
        }
        assert(holds_some("tnved"@, words)) by {
            reveal_strlit("tnved");
            word_stands("tnved"@, words, 4, 0);
        }
        assert(holds_some("tnved_code"@, words)) by {
            reveal_strlit("tnved_code");
            reveal_strlit("code");
            word_stands("tnved_code"@, words, 0, 6);
        }
    }
}

/// The ids of one list hold its words.
#[verifier::spinoff_prover]
#[verifier::rlimit(80)]
proof fn description_ids_say_it()
    ensures
        forall|i: int|
            0 <= i < 8 ==> holds_some((#[trigger] DESCRIPTION_IDS@[i])@, seq!["description"@, "name"@]),
{
    assert forall|i: int| 0 <= i < 8 implies holds_some(
        (#[trigger] DESCRIPTION_IDS@[i])@,
        seq!["description"@, "name"@],
    ) by {
        let words = seq!["description"@, "name"@];
        assert(holds_some("description"@, words)) by {
            reveal_strlit("description");
            word_stands("description"@, words, 0, 0);
        }
        assert(holds_some("product_description"@, words)) by {
            reveal_strlit("product_description");
            reveal_strlit("description");
            word_stands("product_description"@, words, 0, 8);
        }
        assert(holds_some("goods_description"@, words)) by {
            reveal_strlit("goods_description");
            reveal_strlit("description");
            word_stands("goods_description"@, words, 0, 6);
        }
        assert(holds_some("item_description"@, words)) by {
            reveal_strlit("item_description");
            reveal_strlit("description");
            word_stands("item_description"@, words, 0, 5);
        }
        assert(holds_some("commodity_description"@, words)) by {
            reveal_strlit("commodity_description");
            reveal_strlit("description");
            word_stands("commodity_description"@, words, 0, 10);
        }
        assert(holds_some("product_name"@, words)) by {
            reveal_strlit("product_name");
            reveal_strlit("name");
            word_stands("product_name"@, words, 1, 8);
        }
        assert(holds_some("goods_name"@, words)) by {
            reveal_strlit("goods_name");
            reveal_strlit("name");
            word_stands("goods_name"@, words, 1, 6);
        }
        assert(holds_some("item_name"@, words)) by {
            reveal_strlit("item_name");
            reveal_strlit("name");
            word_stands("item_name"@, words, 1, 5);
        }
    }
}

/// The ids of one list hold its words.
#[verifier::spinoff_prover]
#[verifier::rlimit(80)]
proof fn trademark_ids_say_it()
    ensures
        forall|i: int|
            0 <= i < 6 ==> holds_some((#[trigger] TRADEMARK_IDS@[i])@, seq!["mark"@, "brand"@]),
{
    assert forall|i: int| 0 <= i < 6 implies holds_some(
        (#[trigger] TRADEMARK_IDS@[i])@,
        seq!["mark"@, "brand"@],
    ) by {
        let words = seq!["mark"@, "brand"@];
        assert(holds_some("trademark"@, words)) by {
            reveal_strlit("trademark");
            reveal_strlit("mark");
            word_stands("trademark"@, words, 0, 5);
        }
        assert(holds_some("trade_mark"@, words)) by {
            reveal_strlit("trade_mark");
            reveal_strlit("mark");
            word_stands("trade_mark"@, words, 0, 6);
        }
        assert(holds_some("brand"@, words)) by {
            reveal_strlit("brand");
            word_stands("brand"@, words, 1, 0);
        }
        assert(holds_some("brand_name"@, words)) by {
            reveal_strlit("brand_name");
            reveal_strlit("brand");
            word_stands("brand_name"@, words, 1, 0);
        }
        assert(holds_some("mark"@, words)) by {
            reveal_strlit("mark");
            word_stands("mark"@, words, 0, 0);
        }
        assert(holds_some("manufacturer_brand"@, words)) by {
            reveal_strlit("manufacturer_brand");
            reveal_strlit("brand");
            word_stands("manufacturer_brand"@, words, 1, 13);
        }
    }
}

/// The ids of one list hold its words.
#[verifier::spinoff_prover]
#[verifier::rlimit(80)]
proof fn quantity_ids_say_it()
    ensures
        forall|i: int|
            0 <= i < 5 ==> holds_some((#[trigger] QUANTITY_IDS@[i])@, seq!["quantity"@, "qty"@, "count"@, "units"@]),
{
    assert forall|i: int| 0 <= i < 5 implies holds_some(
        (#[trigger] QUANTITY_IDS@[i])@,
        seq!["quantity"@, "qty"@, "count"@, "units"@],
    ) by {
        let words = seq!["quantity"@, "qty"@, "count"@, "units"@];
        assert(holds_some("quantity"@, words)) by {
            reveal_strlit("quantity");
            word_stands("quantity"@, words, 0, 0);
        }
        assert(holds_some("qty"@, words)) by {
            reveal_strlit("qty");
            word_stands("qty"@, words, 1, 0);
        }
        assert(holds_some("count"@, words)) by {
            reveal_strlit("count");
            word_stands("count"@, words, 2, 0);
        }
        assert(holds_some("units"@, words)) by {
            reveal_strlit("units");
            word_stands("units"@, words, 3, 0);
        }
        assert(holds_some("unit_count"@, words)) by {
            reveal_strlit("unit_count");
            reveal_strlit("count");
            word_stands("unit_count"@, words, 2, 5);
        }
    }
}

/// The ids of one list hold its words.
#[verifier::spinoff_prover]
#[verifier::rlimit(80)]
proof fn value_ids_say_it()
    ensures
        forall|i: int|
            0 <= i < 10 ==> holds_some((#[trigger] VALUE_IDS@[i])@, seq!["value"@, "amount"@]),
{
    assert forall|i: int| 0 <= i < 10 implies holds_some(
        (#[trigger] VALUE_IDS@[i])@,
        seq!["value"@, "amount"@],
    ) by {
        let words = seq!["value"@, "amount"@];
        assert(holds_some("value"@, words)) by {
            reveal_strlit("value");
            word_stands("value"@, words, 0, 0);
        }
        assert(holds_some("value_usd"@, words)) by {
            reveal_strlit("value_usd");
            reveal_strlit("value");
            word_stands("value_usd"@, words, 0, 0);
        }
        assert(holds_some("amount"@, words)) by {
            reveal_strlit("amount");
            word_stands("amount"@, words, 1, 0);
        }
        assert(holds_some("amount_usd"@, words)) by {
            reveal_strlit("amount_usd");
            reveal_strlit("amount");
            word_stands("amount_usd"@, words, 1, 0);
        }
        assert(holds_some("total_value"@, words)) by {
            reveal_strlit("total_value");
            reveal_strlit("value");
            word_stands("total_value"@, words, 0, 6);
        }
        assert(holds_some("total_value_usd"@, words)) by {
            reveal_strlit("total_value_usd");
            reveal_strlit("value");
            word_stands("total_value_usd"@, words, 0, 6);
        }
        assert(holds_some("invoice_value"@, words)) by {
            reveal_strlit("invoice_value");
            reveal_strlit("value");
            word_stands("invoice_value"@, words, 0, 8);
        }
        assert(holds_some("invoice_value_usd"@, words)) by {
            reveal_strlit("invoice_value_usd");
            reveal_strlit("value");
            word_stands("invoice_value_usd"@, words, 0, 8);
        }
        assert(holds_some("customs_value"@, words)) by {
            reveal_strlit("customs_value");
            reveal_strlit("value");
            word_stands("customs_value"@, words, 0, 8);
        }
        assert(holds_some("customs_value_usd"@, words)) by {
            reveal_strlit("customs_value_usd");
            reveal_strlit("value");
            word_stands("customs_value_usd"@, words, 0, 8);
        }
    }
}

/// The ids of one list hold its words.
#[verifier::spinoff_prover]
#[verifier::rlimit(80)]
proof fn currency_ids_say_it()
    ensures
        forall|i: int|
            0 <= i < 6 ==> holds_some((#[trigger] CURRENCY_IDS@[i])@, seq!["currency"@, "ccy"@]),
{
    assert forall|i: int| 0 <= i < 6 implies holds_some(
        (#[trigger] CURRENCY_IDS@[i])@,
        seq!["currency"@, "ccy"@],
    ) by {
        let words = seq!["currency"@, "ccy"@];
        assert(holds_some("currency"@, words)) by {
            reveal_strlit("currency");
            word_stands("currency"@, words, 0, 0);
        }
        assert(holds_some("currency_code"@, words)) by {
            reveal_strlit("currency_code");
            reveal_strlit("currency");
            word_stands("currency_code"@, words, 0, 0);
        }
        assert(holds_some("value_currency"@, words)) by {
            reveal_strlit("value_currency");
            reveal_strlit("currency");
            word_stands("value_currency"@, words, 0, 6);
        }
        assert(holds_some("amount_currency"@, words)) by {
            reveal_strlit("amount_currency");
            reveal_strlit("currency");
            word_stands("amount_currency"@, words, 0, 7);
        }
        assert(holds_some("ccy"@, words)) by {
            reveal_strlit("ccy");
            word_stands("ccy"@, words, 1, 0);
        }
        assert(holds_some("iso_currency"@, words)) by {
            reveal_strlit("iso_currency");
            reveal_strlit("currency");
            word_stands("iso_currency"@, words, 0, 4);
        }
    }
}

/// The ids of one list hold its words.
#[verifier::spinoff_prover]
#[verifier::rlimit(80)]
proof fn weight_unit_ids_say_it()
    ensures
        forall|i: int|
            0 <= i < 5 ==> holds_some((#[trigger] WEIGHT_UNIT_IDS@[i])@, seq!["unit"@, "uom"@]),
{
    assert forall|i: int| 0 <= i < 5 implies holds_some(
        (#[trigger] WEIGHT_UNIT_IDS@[i])@,
        seq!["unit"@, "uom"@],
    ) by {
        let words = seq!["unit"@, "uom"@];
        assert(holds_some("weight_unit"@, words)) by {
            reveal_strlit("weight_unit");
            reveal_strlit("unit");
            word_stands("weight_unit"@, words, 0, 7);
        }
        assert(holds_some("net_weight_unit"@, words)) by {
            reveal_strlit("net_weight_unit");
            reveal_strlit("unit");
            word_stands("net_weight_unit"@, words, 0, 11);
        }
        assert(holds_some("mass_unit"@, words)) by {
            reveal_strlit("mass_unit");
            reveal_strlit("unit");
            word_stands("mass_unit"@, words, 0, 5);
        }
        assert(holds_some("weight_uom"@, words)) by {
            reveal_strlit("weight_uom");
            reveal_strlit("uom");
            word_stands("weight_uom"@, words, 1, 7);
        }
        assert(holds_some("mass_uom"@, words)) by {
            reveal_strlit("mass_uom");
            reveal_strlit("uom");
            word_stands("mass_uom"@, words, 1, 5);
        }
    }
}

/// An id of a net weight says net, and one of a gross weight says gross.
pub proof fn ids_say_which_weight()
    ensures
        NET_WEIGHT_IDS@.len() == 5,
        forall|i: int|
            0 <= i < 5 ==> holds_some((#[trigger] NET_WEIGHT_IDS@[i])@, seq!["net"@]),
        GROSS_WEIGHT_IDS@.len() == 5,
        forall|i: int|
            0 <= i < 5 ==> holds_some((#[trigger] GROSS_WEIGHT_IDS@[i])@, seq!["gross"@]),
{
    net_weight_ids_say_it();
    gross_weight_ids_say_it();
}

/// An id of the sender names who sends, and one of the recipient names who receives.
pub proof fn ids_say_which_party()
    ensures
        SENDER_IDS@.len() == 10,
        forall|i: int|
            0 <= i < 10 ==> holds_some((#[trigger] SENDER_IDS@[i])@, seq!["sender"@, "supplier"@, "exporter"@, "shipper"@, "seller"@]),
        RECIPIENT_IDS@.len() == 12,
        forall|i: int|
            0 <= i < 12 ==> holds_some((#[trigger] RECIPIENT_IDS@[i])@, seq!["recipient"@, "receiver"@, "buyer"@, "customer"@, "importer"@, "consignee"@]),
{
    sender_ids_say_it();
    recipient_ids_say_it();
}

/// An id of a country says what the country stands for.
pub proof fn ids_say_which_country()
    ensures
        ORIGIN_COUNTRY_IDS@.len() == 4,
        forall|i: int|
            0 <= i < 4 ==> holds_some((#[trigger] ORIGIN_COUNTRY_IDS@[i])@, seq!["origin"@]),
        DISPATCH_COUNTRY_IDS@.len() == 7,
        forall|i: int|
            0 <= i < 7 ==> holds_some((#[trigger] DISPATCH_COUNTRY_IDS@[i])@, seq!["dispatch"@, "ship"@, "departure"@, "source"@]),
        TRADE_COUNTRY_IDS@.len() == 4,
        forall|i: int|
            0 <= i < 4 ==> holds_some((#[trigger] TRADE_COUNTRY_IDS@[i])@, seq!["trad"@, "seller"@]),
{
    origin_country_ids_say_it();
    dispatch_country_ids_say_it();
    trade_country_ids_say_it();
}

/// An id of a date says date, and one of a declaration's number names the document.
pub proof fn ids_say_which_document()
    ensures
        DATE_IDS@.len() == 5,
        forall|i: int|
            0 <= i < 5 ==> holds_some((#[trigger] DATE_IDS@[i])@, seq!["date"@]),
        DECLARATION_NUMBER_IDS@.len() == 9,
        forall|i: int|
            0 <= i < 9 ==> holds_some((#[trigger] DECLARATION_NUMBER_IDS@[i])@, seq!["declaration"@, "invoice"@, "document"@]),
{
    date_ids_say_it();
    declaration_number_ids_say_it();
}

/// An id of a code, a description or a trademark says so.
pub proof fn ids_say_which_goods()
    ensures
        COMPANY_CODE_IDS@.len() == 9,
        forall|i: int|
            0 <= i < 9 ==> holds_some((#[trigger] COMPANY_CODE_IDS@[i])@, seq!["edrpou"@, "_code"@, "_id"@]),
        PRODUCT_CODE_IDS@.len() == 13,
        forall|i: int|
            0 <= i < 13 ==> holds_some((#[trigger] PRODUCT_CODE_IDS@[i])@, seq!["code"@, "sku"@, "hs"@, "ukt"@, "tnved"@]),
        DESCRIPTION_IDS@.len() == 8,
        forall|i: int|
            0 <= i < 8 ==> holds_some((#[trigger] DESCRIPTION_IDS@[i])@, seq!["description"@, "name"@]),
        TRADEMARK_IDS@.len() == 6,
        forall|i: int|
            0 <= i < 6 ==> holds_some((#[trigger] TRADEMARK_IDS@[i])@, seq!["mark"@, "brand"@]),
{
    company_code_ids_say_it();
    product_code_ids_say_it();
    description_ids_say_it();
    trademark_ids_say_it();
}

/// An id of a measure or its unit says what it is.
pub proof fn ids_say_which_measure()
    ensures
        QUANTITY_IDS@.len() == 5,
        forall|i: int|
            0 <= i < 5 ==> holds_some((#[trigger] QUANTITY_IDS@[i])@, seq!["quantity"@, "qty"@, "count"@, "units"@]),
        VALUE_IDS@.len() == 10,
        forall|i: int|
            0 <= i < 10 ==> holds_some((#[trigger] VALUE_IDS@[i])@, seq!["value"@, "amount"@]),
        CURRENCY_IDS@.len() == 6,
        forall|i: int|
            0 <= i < 6 ==> holds_some((#[trigger] CURRENCY_IDS@[i])@, seq!["currency"@, "ccy"@]),
        WEIGHT_UNIT_IDS@.len() == 5,
        forall|i: int|
            0 <= i < 5 ==> holds_some((#[trigger] WEIGHT_UNIT_IDS@[i])@, seq!["unit"@, "uom"@]),
{
    quantity_ids_say_it();
    value_ids_say_it();
    currency_ids_say_it();
    weight_unit_ids_say_it();
}

} // verus!
