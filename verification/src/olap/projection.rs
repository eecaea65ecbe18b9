//! What the projection reads from the database, and the tables it keeps.
use vstd::prelude::*;
use vstd::string::*;

use crate::analytics::AnalyticsSectionKind;
use crate::number::{decimal, decimal_text, signed_decimal, signed_text};
use crate::olap::filter::RollupSelector;
use crate::olap::sections::{code_label, code_label_sql, code_level, label_of, rollup_key};
use crate::olap::sql::{fill, filled, glue, str_views};
use crate::olap::statements::{section_rollup_sql, section_rollup_text};
use crate::table::{
    ColumnStorage, SemanticField, SourceColumn, SourceSchema, SourceSchemaField, TableShape,
};
use crate::text::{glued, holds, join, joined, part_stands, run, run_stands, same, text_stands, views};

verus! {

/// Creates the tables of the projection.
pub const PROJECTION_TABLES_SQL: &'static str = "CREATE TABLE records (
            id BIGINT,
            year BIGINT,
            declaration_number VARCHAR,
            sender_label VARCHAR,
            sender_text VARCHAR,
            recipient_label VARCHAR,
            recipient_text VARCHAR,
            edrpou_label VARCHAR,
            edrpou_key VARCHAR,
            product_code VARCHAR,
            product_code_text VARCHAR,
            description VARCHAR,
            description_text VARCHAR,
            trademark_label VARCHAR,
            trademark_key VARCHAR,
            origin_key VARCHAR,
            dispatch_key VARCHAR,
            trade_key VARCHAR,
            month VARCHAR,
            value_num DOUBLE,
            net_kg_num DOUBLE,
            gross_kg_num DOUBLE,
            quantity_num DOUBLE,
            rfv_num DOUBLE,
            rmv_net_num DOUBLE,
            rmv_extra_num DOUBLE,
            rmv_gross_num DOUBLE,
            min_base_num DOUBLE,
            currency_key VARCHAR,
            weight_unit_key VARCHAR,
            dup_first_file VARCHAR
        );
        CREATE TABLE projection_meta(key VARCHAR PRIMARY KEY, value VARCHAR);";

/// Makes the source note its changes.
pub const SOURCE_TRACKING_SQL: &'static str = "CREATE TABLE IF NOT EXISTS base_search_olap_state (
            singleton INTEGER PRIMARY KEY CHECK(singleton = 1),
            generation TEXT NOT NULL,
            dirty INTEGER NOT NULL CHECK(dirty IN (0, 1)),
            tracking_version TEXT NOT NULL
        );
        INSERT OR IGNORE INTO base_search_olap_state
            (singleton, generation, dirty, tracking_version)
        VALUES (1, lower(hex(randomblob(16))), 1, '1');
        UPDATE base_search_olap_state
        SET generation = lower(hex(randomblob(16))),
            dirty = 1,
            tracking_version = '1'
        WHERE singleton = 1 AND tracking_version <> '1';
        DROP TRIGGER IF EXISTS base_search_olap_records_insert;
        DROP TRIGGER IF EXISTS base_search_olap_records_update;
        DROP TRIGGER IF EXISTS base_search_olap_records_delete;
        CREATE TRIGGER base_search_olap_records_insert AFTER INSERT ON records BEGIN
            UPDATE base_search_olap_state
            SET generation = lower(hex(randomblob(16))), dirty = 1
            WHERE singleton = 1 AND dirty = 0;
        END;
        CREATE TRIGGER base_search_olap_records_update AFTER UPDATE ON records BEGIN
            UPDATE base_search_olap_state
            SET generation = lower(hex(randomblob(16))), dirty = 1
            WHERE singleton = 1 AND dirty = 0;
        END;
        CREATE TRIGGER base_search_olap_records_delete AFTER DELETE ON records BEGIN
            UPDATE base_search_olap_state
            SET generation = lower(hex(randomblob(16))), dirty = 1
            WHERE singleton = 1 AND dirty = 0;
        END;";

/// Settles the generation of the source: a changed source gets a new one.
pub const SOURCE_GENERATION_SQL: &'static str = "UPDATE base_search_olap_state
                 SET generation = CASE
                        WHEN dirty = 1 THEN lower(hex(randomblob(16)))
                        ELSE generation
                     END,
                     dirty = 0
                 WHERE singleton = 1 AND tracking_version = ?";

/// Reads the generation of the source.
pub const SOURCE_STATE_SQL: &'static str = "SELECT generation, dirty, tracking_version
                 FROM base_search_olap_state WHERE singleton = 1";

/// Reads the triggers that note changes.
pub const SOURCE_TRIGGERS_SQL: &'static str = "SELECT name, COALESCE(sql, '')
             FROM sqlite_schema
             WHERE type = 'trigger' AND tbl_name = 'records'
               AND name LIKE 'base_search_olap_records_%'
             ORDER BY name";

/// Creates the rollups but for their sections and prices.
pub const ROLLUP_FOUNDATION_SQL: &'static str = "CREATE VIEW rollup_records AS
            SELECT
                'occurrences'::VARCHAR AS record_scope,
                records.*,
                CASE weight_unit_key
                    WHEN 'kg' THEN net_kg_num
                    WHEN 'g' THEN net_kg_num * 0.001
                    WHEN 'tonne' THEN net_kg_num * 1000.0
                    WHEN 'lb' THEN net_kg_num * 0.45359237
                END AS net_weight_kg,
                CASE weight_unit_key
                    WHEN 'kg' THEN gross_kg_num
                    WHEN 'g' THEN gross_kg_num * 0.001
                    WHEN 'tonne' THEN gross_kg_num * 1000.0
                    WHEN 'lb' THEN gross_kg_num * 0.45359237
                END AS gross_weight_kg
            FROM records
            UNION ALL
            SELECT
                'canonical'::VARCHAR AS record_scope,
                records.*,
                CASE weight_unit_key
                    WHEN 'kg' THEN net_kg_num
                    WHEN 'g' THEN net_kg_num * 0.001
                    WHEN 'tonne' THEN net_kg_num * 1000.0
                    WHEN 'lb' THEN net_kg_num * 0.45359237
                END AS net_weight_kg,
                CASE weight_unit_key
                    WHEN 'kg' THEN gross_kg_num
                    WHEN 'g' THEN gross_kg_num * 0.001
                    WHEN 'tonne' THEN gross_kg_num * 1000.0
                    WHEN 'lb' THEN gross_kg_num * 0.45359237
                END AS gross_weight_kg
            FROM records WHERE dup_first_file IS NULL;

         CREATE VIEW rollup_expanded AS
            SELECT rollup_records.*, 0::BIGINT AS year_key FROM rollup_records
            UNION ALL
            SELECT rollup_records.*, year AS year_key
            FROM rollup_records WHERE year IS NOT NULL AND year <> 0;

         CREATE TABLE rollup_overview AS
            SELECT
                record_scope,
                year_key,
                COUNT(*)::BIGINT AS row_count,
                COUNT(DISTINCT NULLIF(declaration_number, ''))::BIGINT AS declaration_count,
                COUNT(DISTINCT NULLIF(sender_label, ''))::BIGINT AS distinct_senders,
                COUNT(DISTINCT NULLIF(recipient_label, ''))::BIGINT AS distinct_recipients,
                COUNT(DISTINCT NULLIF(edrpou_label, ''))::BIGINT AS distinct_edrpou,
                COUNT(DISTINCT NULLIF(trademark_label, ''))::BIGINT AS distinct_trademarks,
                COUNT(DISTINCT NULLIF(product_code, ''))::BIGINT AS distinct_product_codes,
                COUNT(DISTINCT NULLIF(origin_key, ''))::BIGINT AS distinct_origin_countries,
                COUNT(DISTINCT NULLIF(dispatch_key, ''))::BIGINT AS distinct_dispatch_countries,
                COUNT(DISTINCT NULLIF(trade_key, ''))::BIGINT AS distinct_trade_countries,
                CASE
                    WHEN COUNT(value_num) = 0 THEN 0.0
                    WHEN COUNT(*) FILTER (
                        WHERE value_num IS NOT NULL AND (
                            COALESCE(currency_key, '') = ''
                            OR starts_with(currency_key, '__unknown__')
                        )
                    ) > 0 THEN NULL
                    WHEN COUNT(DISTINCT currency_key) FILTER (
                        WHERE value_num IS NOT NULL
                          AND NOT starts_with(currency_key, '__unknown__')
                    ) = 1 AND MIN(currency_key) FILTER (
                        WHERE value_num IS NOT NULL
                          AND NOT starts_with(currency_key, '__unknown__')
                    ) = 'USD' THEN SUM(value_num)
                    ELSE NULL
                END AS total_value_usd,
                COALESCE(SUM(gross_weight_kg), 0.0) AS total_gross_kg,
                COALESCE(SUM(net_weight_kg), 0.0) AS total_net_kg,
                COALESCE(SUM(quantity_num), 0.0) AS total_quantity,
                CASE
                    WHEN COUNT(value_num) = 0 THEN 'empty'
                    WHEN COUNT(*) FILTER (
                        WHERE value_num IS NOT NULL AND (
                            COALESCE(currency_key, '') = ''
                            OR starts_with(currency_key, '__unknown__')
                        )
                    ) > 0 THEN 'unavailable'
                    WHEN COUNT(DISTINCT currency_key) FILTER (
                        WHERE value_num IS NOT NULL
                          AND NOT starts_with(currency_key, '__unknown__')
                    ) = 1 AND MIN(currency_key) FILTER (
                        WHERE value_num IS NOT NULL
                          AND NOT starts_with(currency_key, '__unknown__')
                    ) = 'USD' THEN 'single_usd'
                    ELSE 'partitioned'
                END AS monetary_mode,
                CASE
                    WHEN COUNT(net_kg_num) = 0 THEN 'empty'
                    WHEN COUNT(*) FILTER (WHERE net_kg_num IS NOT NULL
                                           AND net_weight_kg IS NULL) > 0
                        THEN 'unavailable'
                    ELSE 'normalized_kg'
                END AS weight_mode
            FROM rollup_expanded
            GROUP BY record_scope, year_key;

         INSERT INTO rollup_overview
            SELECT
                empty_scope.record_scope,
                0,
                0, 0, 0, 0, 0, 0, 0, 0, 0, 0,
                0.0, 0.0, 0.0, 0.0,
                'empty', 'empty'
            FROM (VALUES ('canonical'), ('occurrences')) AS empty_scope(record_scope)
            WHERE NOT EXISTS (
                SELECT 1 FROM rollup_overview existing
                WHERE existing.record_scope = empty_scope.record_scope
                  AND existing.year_key = 0
            );

         CREATE TABLE rollup_monthly AS
            SELECT
                record_scope,
                year_key,
                month,
                COUNT(*)::BIGINT AS rows_count,
                COUNT(DISTINCT NULLIF(declaration_number, ''))::BIGINT AS declarations_count,
                CASE
                    WHEN COUNT(value_num) = 0 THEN 0.0
                    WHEN COUNT(*) FILTER (
                        WHERE value_num IS NOT NULL AND (
                            COALESCE(currency_key, '') = ''
                            OR starts_with(currency_key, '__unknown__')
                        )
                    ) > 0 THEN NULL
                    WHEN COUNT(DISTINCT currency_key) FILTER (
                        WHERE value_num IS NOT NULL
                          AND NOT starts_with(currency_key, '__unknown__')
                    ) = 1 AND MIN(currency_key) FILTER (
                        WHERE value_num IS NOT NULL
                          AND NOT starts_with(currency_key, '__unknown__')
                    ) = 'USD' THEN SUM(value_num)
                    ELSE NULL
                END AS total_value_usd,
                COALESCE(SUM(net_weight_kg), 0.0) AS total_net_kg,
                COALESCE(SUM(CASE WHEN value_num IS NOT NULL AND net_weight_kg > 0
                    THEN value_num ELSE 0.0 END), 0.0) AS paired_value,
                COALESCE(SUM(CASE WHEN value_num IS NOT NULL AND net_weight_kg > 0
                    THEN net_weight_kg ELSE 0.0 END), 0.0) AS paired_net_kg,
                COALESCE(SUM(value_num), 0.0) AS total_value,
                COUNT(value_num) AS valued_rows,
                COUNT(net_kg_num) AS net_rows,
                COALESCE(SUM(net_kg_num), 0.0) AS net_source_total,
                COUNT(CASE WHEN value_num IS NOT NULL AND net_kg_num > 0
                    THEN 1 END) AS paired_row_count,
                COALESCE(SUM(CASE WHEN value_num IS NOT NULL AND net_kg_num > 0
                    THEN value_num END), 0.0) AS paired_source_value,
                COALESCE(SUM(CASE WHEN value_num IS NOT NULL AND net_kg_num > 0
                    THEN net_kg_num END), 0.0) AS paired_source_net
            FROM rollup_expanded
            WHERE month IS NOT NULL AND month <> ''
            GROUP BY record_scope, year_key, month;

         CREATE TABLE rollup_currency_totals AS
            SELECT
                record_scope,
                year_key,
                COALESCE(currency_key, '') AS currency_key,
                COUNT(value_num)::BIGINT AS valued_rows,
                COALESCE(SUM(value_num), 0.0) AS total_value
            FROM rollup_expanded
            WHERE value_num IS NOT NULL
            GROUP BY record_scope, year_key, COALESCE(currency_key, '');

         CREATE TABLE rollup_sections (
            record_scope VARCHAR,
            year_key BIGINT,
            kind VARCHAR,
            hs_level INTEGER,
            label VARCHAR,
            rows_count BIGINT,
            declarations_count BIGINT,
            companies_count BIGINT,
            total_value_usd DOUBLE,
            total_net_kg DOUBLE,
            total_gross_kg DOUBLE,
            total_quantity DOUBLE,
            paired_value DOUBLE,
            paired_net_kg DOUBLE,
            total_value DOUBLE,
            valued_rows BIGINT,
            net_rows BIGINT,
            gross_rows BIGINT,
            net_source_total DOUBLE,
            gross_source_total DOUBLE,
            paired_row_count BIGINT,
            paired_source_value DOUBLE,
            paired_source_net DOUBLE
         );";

/// Creates the rollups of prices.
pub const ROLLUP_PRICES_SQL: &'static str = "CREATE TABLE rollup_price_per_kg_baselines AS
            WITH priced AS (
                SELECT
                    record_scope,
                    year_key,
                    COALESCE(currency_key, '') AS currency_key,
                    COALESCE(weight_unit_key, '') AS weight_unit_key,
                    product_code,
                    trademark_label,
                    origin_key,
                    value_num,
                    net_weight_kg,
                    value_num / net_weight_kg AS price_per_kg
                FROM rollup_expanded
                WHERE value_num IS NOT NULL
                  AND net_weight_kg IS NOT NULL
                  AND net_weight_kg > 0
                  AND COALESCE(currency_key, '') <> ''
                  AND NOT starts_with(currency_key, '__unknown__')
            ), cohorts AS (
                SELECT *, 'all'::VARCHAR AS cohort_kind, ''::VARCHAR AS cohort_label
                FROM priced
                UNION ALL
                SELECT *, 'product_code', product_code FROM priced
                WHERE product_code IS NOT NULL AND product_code <> ''
                UNION ALL
                SELECT *, 'trademark', trademark_label FROM priced
                WHERE trademark_label IS NOT NULL AND trademark_label <> ''
                UNION ALL
                SELECT *, 'origin_country', origin_key FROM priced
                WHERE origin_key IS NOT NULL AND origin_key <> ''
            )
            SELECT
                record_scope,
                year_key,
                cohort_kind,
                cohort_label,
                currency_key,
                weight_unit_key,
                COUNT(*)::BIGINT AS sample_count,
                AVG(price_per_kg) AS average,
                MIN(price_per_kg) AS minimum,
                MAX(price_per_kg) AS maximum,
                SUM(value_num) / NULLIF(SUM(net_weight_kg), 0) AS weighted_average,
                quantile_cont(price_per_kg, 0.25) AS p25,
                quantile_cont(price_per_kg, 0.5) AS median,
                quantile_cont(price_per_kg, 0.75) AS p75
            FROM cohorts
            GROUP BY record_scope, year_key, cohort_kind, cohort_label,
                     currency_key, weight_unit_key;

         ANALYZE rollup_overview;
         ANALYZE rollup_monthly;
         ANALYZE rollup_sections;
         ANALYZE rollup_currency_totals;
         ANALYZE rollup_price_per_kg_baselines;";

/// Reads what the rollups of a scope and a year can answer.
pub const ROLLUP_MODES_SQL: &'static str = "SELECT monetary_mode, weight_mode FROM rollup_overview
         WHERE record_scope = ? AND year_key = ? LIMIT 1";

/// Reads the headline of a scope and a year.
pub const ROLLUP_OVERVIEW_SQL: &'static str = "SELECT
            row_count,
            declaration_count,
            distinct_senders,
            distinct_recipients,
            distinct_edrpou,
            distinct_trademarks,
            distinct_product_codes,
            distinct_origin_countries,
            distinct_dispatch_countries,
            distinct_trade_countries,
            total_quantity
         FROM rollup_overview
         WHERE record_scope = ? AND year_key = ? LIMIT 1";

/// Reads the newest months of a scope and a year.
pub const ROLLUP_MONTHS_SQL: &'static str = "SELECT month, rows_count, declarations_count, total_value_usd, total_net_kg,
                    paired_value, paired_net_kg, total_value, valued_rows, net_rows,
                    net_source_total, paired_row_count, paired_source_value, paired_source_net
             FROM rollup_monthly
             WHERE record_scope = ? AND year_key = ?
             ORDER BY month DESC LIMIT @";

/// Reads a section of a scope and a year.
pub const ROLLUP_SECTION_SQL: &'static str = "SELECT label, rows_count, declarations_count, companies_count,
                    total_value_usd, total_net_kg, total_gross_kg, total_quantity,
                    paired_value, paired_net_kg, total_value, valued_rows, net_rows,
                    gross_rows, net_source_total, gross_source_total,
                    paired_row_count, paired_source_value, paired_source_net
             FROM rollup_sections
             WHERE record_scope = ? AND year_key = ? AND kind = ? AND hs_level = ?
             ORDER BY total_value DESC, total_net_kg DESC,
                      rows_count DESC, label
             LIMIT ?";

/// A column of the projection that the source's columns give.
#[derive(Clone, Copy, Debug, PartialEq, Eq, Structural)]
pub enum ProjectionValue {
    Label(SemanticField),
    Text(SemanticField),
    Country(SemanticField),
    Number(SemanticField),
    Month(SemanticField),
    CurrencyKey,
    WeightUnitKey,
}

/// The meaning that a column of the source needs to give a value.
pub open spec fn meaning_of(value: ProjectionValue) -> SemanticField {
    match value {
        ProjectionValue::Label(field) => field,
        ProjectionValue::Text(field) => field,
        ProjectionValue::Country(field) => field,
        ProjectionValue::Number(field) => field,
        ProjectionValue::Month(field) => field,
        ProjectionValue::CurrencyKey => SemanticField::Currency,
        ProjectionValue::WeightUnitKey => SemanticField::WeightUnit,
    }
}

impl ProjectionValue {
    /// The meaning that a column of the source needs to give the value.
    pub fn semantic(self) -> (r: Option<SemanticField>)
        ensures
            r == Some(meaning_of(self)),
    {
        match self {
            ProjectionValue::Label(field) => Some(field),
            ProjectionValue::Text(field) => Some(field),
            ProjectionValue::Country(field) => Some(field),
            ProjectionValue::Number(field) => Some(field),
            ProjectionValue::Month(field) => Some(field),
            ProjectionValue::CurrencyKey => Some(SemanticField::Currency),
            ProjectionValue::WeightUnitKey => Some(SemanticField::WeightUnit),
        }
    }
}

/// Copies where a column's values are kept.
fn copy_storage(storage: &ColumnStorage) -> (r: ColumnStorage)
    ensures
        r == *storage,
{
    match storage {
        ColumnStorage::SourceJson => ColumnStorage::SourceJson,
        ColumnStorage::SchemaColumn(name) => ColumnStorage::SchemaColumn(name.clone()),
    }
}

/// The column of a table shape that a field of a schema stands for.
pub open spec fn column_of(field: SourceSchemaField) -> SourceColumn {
    SourceColumn {
        id: field.field_id,
        header: field.header,
        source_index: field.source_index,
        role: field.role,
        semantic: field.semantic,
        storage: field.storage,
    }
}

/// The table shape of a source schema.
pub fn source_schema_shape(schema: &SourceSchema) -> (r: TableShape)
    ensures
        r.columns@ == schema.columns@.map_values(|field: SourceSchemaField| column_of(field)),
{
    let ghost all = schema.columns@.map_values(|field: SourceSchemaField| column_of(field));
    let mut columns: Vec<SourceColumn> = Vec::new();
    let mut i: usize = 0;
    while i < schema.columns.len()
        invariant
            i <= schema.columns@.len(),
            all == schema.columns@.map_values(|field: SourceSchemaField| column_of(field)),
            columns@ == all.take(i as int),
        decreases schema.columns.len() - i,
    {
        let field = &schema.columns[i];
        columns.push(
            SourceColumn {
                id: field.field_id.clone(),
                header: field.header.clone(),
                source_index: field.source_index,
                role: field.role,
                semantic: field.semantic,
                storage: copy_storage(&field.storage),
            },
        );
        assert(columns@ =~= all.take(i + 1));
        i += 1;
    }
    assert(all.take(i as int) =~= all);
    TableShape { columns }
}

/// A source schema with the expression that its columns give for a value.
#[derive(Clone, Debug)]
pub struct SchemaExpression {
    pub schema: SourceSchema,
    pub expression: Option<String>,
}

/// Whether a schema has a column of a meaning.
pub open spec fn has_meaning(schema: SourceSchema, semantic: SemanticField) -> bool {
    exists|i: int|
        0 <= i < schema.columns@.len() && #[trigger] schema.columns@[i].semantic == Some(semantic)
}

/// Whether a schema has a column of a meaning.
pub fn maps_meaning(schema: &SourceSchema, semantic: SemanticField) -> (r: bool)
    ensures
        r == has_meaning(*schema, semantic),
{
    let mut i: usize = 0;
    while i < schema.columns.len()
        invariant
            i <= schema.columns@.len(),
            forall|k: int| 0 <= k < i ==> #[trigger] schema.columns@[k].semantic != Some(semantic),
        decreases schema.columns.len() - i,
    {
        match schema.columns[i].semantic {
            Some(found) => if found == semantic {
                assert(schema.columns@[i as int].semantic == Some(semantic));
                return true;
            },
            None => {},
        }
        i += 1;
    }
    false
}

/// The expression of a value for the rows of one schema. A currency or a weight
/// unit can be pinned, so it does not need a column.
pub open spec fn schema_value(
    value: ProjectionValue,
    entry: SchemaExpression,
    missing: Seq<char>,
) -> Seq<char> {
    if value is CurrencyKey || value is WeightUnitKey || has_meaning(
        entry.schema,
        meaning_of(value),
    ) {
        match entry.expression {
            Some(e) => e@,
            None => missing,
        }
    } else {
        missing
    }
}

/// The branches of a value, one for each schema.
pub open spec fn schema_branches(
    value: ProjectionValue,
    schemas: Seq<SchemaExpression>,
    missing: Seq<char>,
) -> Seq<Seq<char>> {
    schemas.map_values(
        |entry: SchemaExpression|
            "WHEN "@ + signed_decimal(entry.schema.id as int) + " THEN "@ + schema_value(
                value,
                entry,
                missing,
            ),
    )
}

/// The expression of a value over all rows: each schema has its own branch, and
/// rows without a schema have theirs.
pub open spec fn value_text(
    value: ProjectionValue,
    legacy: Option<Seq<char>>,
    schemas: Seq<SchemaExpression>,
    missing: Seq<char>,
    alias: Seq<char>,
) -> Seq<char> {
    let plain = match legacy {
        Some(e) => e,
        None => missing,
    };
    if schemas.len() == 0 {
        plain
    } else {
        "CASE "@ + alias + ".schema_id "@ + joined(schema_branches(value, schemas, missing), " "@)
            + " ELSE "@ + plain + " END"@
    }
}

/// The expression of a value over all rows. A schema that has no column of the
/// value's meaning gives the missing value, never that of another schema.
pub fn schema_aware_projection_value(
    value: ProjectionValue,
    legacy: Option<&str>,
    schemas: &Vec<SchemaExpression>,
    missing: &str,
    alias: &str,
) -> (r: String)
    ensures
        r@ == value_text(
            value,
            match legacy {
                Some(e) => Some(e@),
                None => None,
            },
            schemas@,
            missing@,
            alias@,
        ),
{
    let plain = match legacy {
        Some(e) => e,
        None => missing,
    };
    if schemas.len() == 0 {
        return String::from_str(plain);
    }
    let ghost all = schema_branches(value, schemas@, missing@);
    let mut branches: Vec<String> = Vec::new();
    let mut i: usize = 0;
    assert(views(branches@) =~= all.take(0));
    while i < schemas.len()
        invariant
            i <= schemas@.len(),
            all == schema_branches(value, schemas@, missing@),
            views(branches@) == all.take(i as int),
        decreases schemas.len() - i,
    {
        let entry = &schemas[i];
        let semantic = match value.semantic() {
            Some(semantic) => semantic,
            None => SemanticField::Currency,
        };
        let pinned = matches!(value, ProjectionValue::CurrencyKey | ProjectionValue::WeightUnitKey);
        let used = pinned || maps_meaning(&entry.schema, semantic);
        let mut branch = String::from_str("WHEN ");
        branch.append(signed_text(entry.schema.id).as_str());
        branch.append(" THEN ");
        match &entry.expression {
            Some(e) => if used {
                branch.append(e.as_str());
            } else {
                branch.append(missing);
            },
            None => {
                branch.append(missing);
            },
        }
        let ghost before = views(branches@);
        assert(branch@ == all[i as int]);
        branches.push(branch);
        assert(views(branches@) =~= before.push(all[i as int]));
        assert(all.take(i + 1) =~= all.take(i as int).push(all[i as int]));
        i += 1;
    }
    assert(all.take(i as int) =~= all);
    let mut out = String::from_str("CASE ");
    out.append(alias);
    out.append(".schema_id ");
    out.append(join(&branches, " ").as_str());
    out.append(" ELSE ");
    out.append(plain);
    out.append(" END");
    out
}

/// The values that the projection reads, in the order of its columns, each with
/// what stands for it where it is missing.
pub open spec fn read_values() -> Seq<(ProjectionValue, Seq<char>)> {
    seq![
        (ProjectionValue::Label(SemanticField::DeclarationNumber), "''"@),
        (ProjectionValue::Label(SemanticField::Sender), "''"@),
        (ProjectionValue::Text(SemanticField::Sender), "''"@),
        (ProjectionValue::Label(SemanticField::Recipient), "''"@),
        (ProjectionValue::Text(SemanticField::Recipient), "''"@),
        (ProjectionValue::Label(SemanticField::CompanyCode), "''"@),
        (ProjectionValue::Text(SemanticField::CompanyCode), "''"@),
        (ProjectionValue::Label(SemanticField::ProductCode), "''"@),
        (ProjectionValue::Text(SemanticField::ProductCode), "''"@),
        (ProjectionValue::Label(SemanticField::Description), "''"@),
        (ProjectionValue::Text(SemanticField::Description), "''"@),
        (ProjectionValue::Label(SemanticField::Trademark), "''"@),
        (ProjectionValue::Text(SemanticField::Trademark), "''"@),
        (ProjectionValue::Country(SemanticField::OriginCountry), "''"@),
        (ProjectionValue::Country(SemanticField::DispatchCountry), "''"@),
        (ProjectionValue::Country(SemanticField::TradeCountry), "''"@),
        (ProjectionValue::Month(SemanticField::Date), "''"@),
        (ProjectionValue::Number(SemanticField::Value), "NULL"@),
        (ProjectionValue::Number(SemanticField::NetWeight), "NULL"@),
        (ProjectionValue::Number(SemanticField::GrossWeight), "NULL"@),
        (ProjectionValue::Number(SemanticField::Quantity), "NULL"@),
        (ProjectionValue::CurrencyKey, "'__unknown__'"@),
        (ProjectionValue::WeightUnitKey, "'__unknown__'"@),
    ]
}

/// A value that the projection reads, with what stands for it where it is
/// missing.
#[derive(Clone, Copy, Debug)]
pub struct ReadValue {
    pub value: ProjectionValue,
    pub missing: &'static str,
}

/// What some read values say.
pub open spec fn read_views(values: Seq<ReadValue>) -> Seq<(ProjectionValue, Seq<char>)> {
    values.map_values(|v: ReadValue| (v.value, v.missing@))
}

/// The values that the projection reads, in the order of its columns.
pub fn projection_values() -> (r: Vec<ReadValue>)
    ensures
        read_views(r@) == read_values(),
{
    let mut out: Vec<ReadValue> = Vec::new();
    out.push(ReadValue { value: ProjectionValue::Label(SemanticField::DeclarationNumber), missing: "''" });
    out.push(ReadValue { value: ProjectionValue::Label(SemanticField::Sender), missing: "''" });
    out.push(ReadValue { value: ProjectionValue::Text(SemanticField::Sender), missing: "''" });
    out.push(ReadValue { value: ProjectionValue::Label(SemanticField::Recipient), missing: "''" });
    out.push(ReadValue { value: ProjectionValue::Text(SemanticField::Recipient), missing: "''" });
    out.push(ReadValue { value: ProjectionValue::Label(SemanticField::CompanyCode), missing: "''" });
    out.push(ReadValue { value: ProjectionValue::Text(SemanticField::CompanyCode), missing: "''" });
    out.push(ReadValue { value: ProjectionValue::Label(SemanticField::ProductCode), missing: "''" });
    out.push(ReadValue { value: ProjectionValue::Text(SemanticField::ProductCode), missing: "''" });
    out.push(ReadValue { value: ProjectionValue::Label(SemanticField::Description), missing: "''" });
    out.push(ReadValue { value: ProjectionValue::Text(SemanticField::Description), missing: "''" });
    out.push(ReadValue { value: ProjectionValue::Label(SemanticField::Trademark), missing: "''" });
    out.push(ReadValue { value: ProjectionValue::Text(SemanticField::Trademark), missing: "''" });
    out.push(ReadValue { value: ProjectionValue::Country(SemanticField::OriginCountry), missing: "''" });
    out.push(ReadValue { value: ProjectionValue::Country(SemanticField::DispatchCountry), missing: "''" });
    out.push(ReadValue { value: ProjectionValue::Country(SemanticField::TradeCountry), missing: "''" });
    out.push(ReadValue { value: ProjectionValue::Month(SemanticField::Date), missing: "''" });
    out.push(ReadValue { value: ProjectionValue::Number(SemanticField::Value), missing: "NULL" });
    out.push(ReadValue { value: ProjectionValue::Number(SemanticField::NetWeight), missing: "NULL" });
    out.push(ReadValue { value: ProjectionValue::Number(SemanticField::GrossWeight), missing: "NULL" });
    out.push(ReadValue { value: ProjectionValue::Number(SemanticField::Quantity), missing: "NULL" });
    out.push(ReadValue { value: ProjectionValue::CurrencyKey, missing: "'__unknown__'" });
    out.push(ReadValue { value: ProjectionValue::WeightUnitKey, missing: "'__unknown__'" });
    assert(read_views(out@) =~= read_values());
    out
}

/// The year of a row: the year that the source stores, or, where it stores none,
/// that of the month.
pub open spec fn year_text(alias: Seq<char>, month: Seq<char>) -> Seq<char> {
    "COALESCE("@ + alias + ".year, CAST(NULLIF(SUBSTR("@ + month + ", 1, 4), '') AS INTEGER))"@
}

/// The pieces of the statement that reads the records of the source, in order.
pub open spec fn select_pieces(
    expressions: Seq<Seq<char>>,
    alias: Seq<char>,
    join: Seq<char>,
) -> Seq<Seq<char>> {
    seq![
        "SELECT\n            r.id,\n            "@,
        year_text(alias, expressions[16]),
        ",\n            "@,
        expressions[0],
        ",\n            "@,
        expressions[1],
        ",\n            "@,
        expressions[2],
        ",\n            "@,
        expressions[3],
        ",\n            "@,
        expressions[4],
        ",\n            "@,
        expressions[5],
        ",\n            text_key("@,
        expressions[6],
        "),\n            "@,
        expressions[7],
        ",\n            "@,
        expressions[8],
        ",\n            "@,
        expressions[9],
        ",\n            "@,
        expressions[10],
        ",\n            "@,
        expressions[11],
        ",\n            text_key("@,
        expressions[12],
        "),\n            "@,
        expressions[13],
        ",\n            "@,
        expressions[14],
        ",\n            "@,
        expressions[15],
        ",\n            "@,
        expressions[16],
        ",\n            "@,
        expressions[17],
        ",\n            "@,
        expressions[18],
        ",\n            "@,
        expressions[19],
        ",\n            "@,
        expressions[20],
        ",\n            "@,
        "p.rfv_num,\n            "@,
        "p.rmv_net_num,\n            "@,
        "p.rmv_extra_num,\n            "@,
        "p.rmv_gross_num,\n            "@,
        "p.min_base_num,\n            "@,
        expressions[21],
        ",\n            "@,
        expressions[22],
        ",\n            r.dup_first_file\n         FROM records r"@,
        join,
        "\n         ORDER BY r.id"@,
    ]
}

/// The statement that reads the records of the source, from the expressions of
/// the values that the projection reads.
pub open spec fn select_text(expressions: Seq<Seq<char>>, alias: Seq<char>, join: Seq<char>) -> Seq<
    char,
> {
    glued(select_pieces(expressions, alias, join))
}

/// The statement that reads the records of the source.
pub fn projection_select_sql(expressions: &Vec<String>, alias: &str, payload_join: &str) -> (r:
    String)
    requires
        expressions@.len() == read_values().len(),
    ensures
        r@ == select_text(views(expressions@), alias@, payload_join@),
{
    let mut year = String::from_str("COALESCE(");
    year.append(alias);
    year.append(".year, CAST(NULLIF(SUBSTR(");
    year.append(expressions[16].as_str());
    year.append(", 1, 4), '') AS INTEGER))");
    let pieces: [&str; 56] = [
        "SELECT\n            r.id,\n            ",
        year.as_str(),
        ",\n            ",
        expressions[0].as_str(),
        ",\n            ",
        expressions[1].as_str(),
        ",\n            ",
        expressions[2].as_str(),
        ",\n            ",
        expressions[3].as_str(),
        ",\n            ",
        expressions[4].as_str(),
        ",\n            ",
        expressions[5].as_str(),
        ",\n            text_key(",
        expressions[6].as_str(),
        "),\n            ",
        expressions[7].as_str(),
        ",\n            ",
        expressions[8].as_str(),
        ",\n            ",
        expressions[9].as_str(),
        ",\n            ",
        expressions[10].as_str(),
        ",\n            ",
        expressions[11].as_str(),
        ",\n            text_key(",
        expressions[12].as_str(),
        "),\n            ",
        expressions[13].as_str(),
        ",\n            ",
        expressions[14].as_str(),
        ",\n            ",
        expressions[15].as_str(),
        ",\n            ",
        expressions[16].as_str(),
        ",\n            ",
        expressions[17].as_str(),
        ",\n            ",
        expressions[18].as_str(),
        ",\n            ",
        expressions[19].as_str(),
        ",\n            ",
        expressions[20].as_str(),
        ",\n            ",
        "p.rfv_num,\n            ",
        "p.rmv_net_num,\n            ",
        "p.rmv_extra_num,\n            ",
        "p.rmv_gross_num,\n            ",
        "p.min_base_num,\n            ",
        expressions[21].as_str(),
        ",\n            ",
        expressions[22].as_str(),
        ",\n            r.dup_first_file\n         FROM records r",
        payload_join,
        "\n         ORDER BY r.id",
    ];
    assert(str_views(pieces@) =~= select_pieces(views(expressions@), alias@, payload_join@));
    glue(&pieces)
}

/// The statement reads the id, the year, each expression in the order of the
/// projection's columns, company codes and trademarks also as keys, then the source
/// prices, the currency, the weight unit and the file of the first copy, from the
/// records with the joined payload, by id.
pub proof fn each_expression_is_read_in_its_place(
    expressions: Seq<Seq<char>>,
    alias: Seq<char>,
    join: Seq<char>,
)
    ensures
        holds(
            select_text(expressions, alias, join),
            "SELECT\n            r.id,\n            "@
                + year_text(alias, expressions[16])
                + ",\n            "@
                + expressions[0]
                + ",\n            "@
                + expressions[1]
                + ",\n            "@
                + expressions[2]
                + ",\n            "@
                + expressions[3]
                + ",\n            "@
                + expressions[4],
        ),
        holds(
            select_text(expressions, alias, join),
            expressions[4]
                + ",\n            "@
                + expressions[5]
                + ",\n            text_key("@
                + expressions[6]
                + "),\n            "@
                + expressions[7]
                + ",\n            "@
                + expressions[8],
        ),
        holds(
            select_text(expressions, alias, join),
            expressions[8]
                + ",\n            "@
                + expressions[9]
                + ",\n            "@
                + expressions[10]
                + ",\n            "@
                + expressions[11]
                + ",\n            text_key("@
                + expressions[12],
        ),
        holds(
            select_text(expressions, alias, join),
            expressions[12]
                + "),\n            "@
                + expressions[13]
                + ",\n            "@
                + expressions[14]
                + ",\n            "@
                + expressions[15]
                + ",\n            "@
                + expressions[16],
        ),
        holds(
            select_text(expressions, alias, join),
            expressions[16]
                + ",\n            "@
                + expressions[17]
                + ",\n            "@
                + expressions[18]
                + ",\n            "@
                + expressions[19]
                + ",\n            "@
                + expressions[20],
        ),
        holds(
            select_text(expressions, alias, join),
            expressions[20]
                + ",\n            "@
                + "p.rfv_num,\n            "@
                + "p.rmv_net_num,\n            "@
                + "p.rmv_extra_num,\n            "@
                + "p.rmv_gross_num,\n            "@
                + "p.min_base_num,\n            "@
                + expressions[21]
                + ",\n            "@
                + expressions[22],
        ),
        holds(
            select_text(expressions, alias, join),
            expressions[22]
                + ",\n            r.dup_first_file\n         FROM records r"@
                + join
                + "\n         ORDER BY r.id"@,
        ),
{
    reveal_with_fuel(run, 12);
    let pieces = select_pieces(expressions, alias, join);
    run_stands(pieces, 0, 12);
    run_stands(pieces, 11, 9);
    run_stands(pieces, 19, 9);
    run_stands(pieces, 27, 9);
    run_stands(pieces, 35, 9);
    run_stands(pieces, 43, 10);
    run_stands(pieces, 52, 4);
}

/// The statement that reads the newest months of a scope and a year.
pub fn rollup_months_sql(limit: u64) -> (r: String)
    ensures
        r@ == filled(ROLLUP_MONTHS_SQL@, seq![decimal(limit as nat)]),
{
    let count = decimal_text(limit);
    let parts: [&str; 1] = [count.as_str()];
    assert(str_views(parts@) =~= seq![count@]);
    fill(ROLLUP_MONTHS_SQL, &parts)
}

/// Whether the rollups of a scope and a year can answer: their money is in
/// dollars only, or there is none, and their weights are all in known units, or
/// there are none. Where the rollups have no row, there is nothing to mistake.
pub open spec fn modes_are_safe(money: Seq<char>, weight: Seq<char>) -> bool {
    (money == "single_usd"@ || money == "empty"@) && (weight == "normalized_kg"@ || weight
        == "empty"@)
}

/// The modes of the rollups of a scope and a year.
#[derive(Clone, Debug)]
pub struct RollupModes {
    pub money: String,
    pub weight: String,
}

/// Whether the rollups of a scope and a year can answer.
pub fn rollup_semantics_are_safe(modes: &Option<RollupModes>) -> (r: bool)
    ensures
        r == (match modes {
            Some(m) => modes_are_safe(m.money@, m.weight@),
            None => true,
        }),
{
    match modes {
        Some(m) => {
            let money = same(m.money.as_str(), "single_usd") || same(m.money.as_str(), "empty");
            let weight = same(m.weight.as_str(), "normalized_kg") || same(
                m.weight.as_str(),
                "empty",
            );
            money && weight
        },
        None => true,
    }
}

/// What a query was answered from.
#[derive(Clone, Copy, Debug, PartialEq, Eq, Structural)]
pub enum DuckAnalyticsSource {
    Detail,
    Rollup,
}

/// What a query is answered from: the rollups where it selects some and they can
/// answer, else the detail.
pub fn answer_source(selector: &Option<RollupSelector>, modes: &Option<RollupModes>) -> (r:
    DuckAnalyticsSource)
    ensures
        r == (if *selector is Some && (match modes {
            Some(m) => modes_are_safe(m.money@, m.weight@),
            None => true,
        }) {
            DuckAnalyticsSource::Rollup
        } else {
            DuckAnalyticsSource::Detail
        }),
{
    match selector {
        Some(_) => if rollup_semantics_are_safe(modes) {
            DuckAnalyticsSource::Rollup
        } else {
            DuckAnalyticsSource::Detail
        },
        None => DuckAnalyticsSource::Detail,
    }
}

/// The sections that have a rollup of one level, with the expressions of their
/// labels.
pub const FLAT_ROLLUPS: [&'static str; 8] = [
    "recipients",
    "senders",
    "edrpou",
    "trademarks",
    "product_groups",
    "origin_countries",
    "dispatch_countries",
    "trade_countries",
];

/// The expressions of the labels, in the order of the sections.
pub const FLAT_LABELS: [&'static str; 8] = [
    "recipient_label",
    "sender_label",
    "edrpou_label",
    "trademark_label",
    "SUBSTR(description, 1, 80)",
    "origin_key",
    "dispatch_key",
    "trade_key",
];

/// The levels of product codes that have a rollup.
pub const CODE_LEVELS: [u8; 8] = [2, 3, 4, 5, 6, 7, 8, 10];

/// A statement that fills rollups, with what is said before the reason where it
/// fails.
#[derive(Clone, Debug)]
pub struct RollupStatement {
    pub sql: String,
    pub problem: String,
}

/// What some statements say.
pub open spec fn statement_views(statements: Seq<RollupStatement>) -> Seq<(Seq<char>, Seq<char>)> {
    statements.map_values(|s: RollupStatement| (s.sql@, s.problem@))
}

/// What is said where the rollup of a section cannot be filled.
pub open spec fn section_problem(kind: Seq<char>) -> Seq<char> {
    "Could not create DuckDB "@ + kind + " rollup: "@
}

/// The statements of the first `n` sections of one level.
pub open spec fn flat_statements(n: int) -> Seq<(Seq<char>, Seq<char>)>
    decreases n,
{
    if n <= 0 {
        Seq::empty()
    } else {
        flat_statements(n - 1).push(
            (
                section_rollup_text(FLAT_ROLLUPS@[n - 1]@, 0, FLAT_LABELS@[n - 1]@),
                section_problem(FLAT_ROLLUPS@[n - 1]@),
            ),
        )
    }
}

/// The statements of the first `n` levels of product codes.
pub open spec fn code_statements(n: int) -> Seq<(Seq<char>, Seq<char>)>
    decreases n,
{
    if n <= 0 {
        Seq::empty()
    } else {
        code_statements(n - 1).push(
            (
                section_rollup_text(
                    "product_codes"@,
                    CODE_LEVELS@[n - 1] as nat,
                    code_label(CODE_LEVELS@[n - 1]),
                ),
                section_problem("product_codes"@),
            ),
        )
    }
}

/// All statements that fill the rollups, in their order.
pub open spec fn rollup_texts() -> Seq<(Seq<char>, Seq<char>)> {
    seq![(ROLLUP_FOUNDATION_SQL@, "Could not create DuckDB rollup foundation: "@)]
        + flat_statements(8) + code_statements(8) + seq![
        (ROLLUP_PRICES_SQL@, "Could not create DuckDB price rollups: "@),
    ]
}

/// The statement that fills the rollup of a section.
fn section_statement(kind: &str, hs_level: u8, label: &str) -> (r: RollupStatement)
    ensures
        r.sql@ == section_rollup_text(kind@, hs_level as nat, label@),
        r.problem@ == section_problem(kind@),
{
    let mut problem = String::from_str("Could not create DuckDB ");
    problem.append(kind);
    problem.append(" rollup: ");
    RollupStatement { sql: section_rollup_sql(kind, hs_level, label), problem }
}

/// The statements that fill the rollups, in their order.
pub fn build_rollups() -> (r: Vec<RollupStatement>)
    ensures
        statement_views(r@) == rollup_texts(),
{
    let mut out: Vec<RollupStatement> = Vec::new();
    out.push(
        RollupStatement {
            sql: String::from_str(ROLLUP_FOUNDATION_SQL),
            problem: String::from_str("Could not create DuckDB rollup foundation: "),
        },
    );
    let ghost first = statement_views(out@);
    assert(first =~= seq![
        (ROLLUP_FOUNDATION_SQL@, "Could not create DuckDB rollup foundation: "@),
    ]);
    let mut i: usize = 0;
    assert(first =~= first + flat_statements(0));
    while i < 8
        invariant
            i <= 8,
            statement_views(out@) == first + flat_statements(i as int),
        decreases 8 - i,
    {
        let ghost before = statement_views(out@);
        let statement = section_statement(FLAT_ROLLUPS[i], 0, FLAT_LABELS[i]);
        let ghost said = (statement.sql@, statement.problem@);
        out.push(statement);
        assert(statement_views(out@) =~= before.push(said));
        assert(first + flat_statements(i + 1) =~= (first + flat_statements(i as int)).push(said));
        i += 1;
    }
    let ghost second = statement_views(out@);
    let mut k: usize = 0;
    assert(second =~= second + code_statements(0));
    while k < 8
        invariant
            k <= 8,
            statement_views(out@) == second + code_statements(k as int),
        decreases 8 - k,
    {
        let ghost before = statement_views(out@);
        let level: u8 = CODE_LEVELS[k];
        let label = code_label_sql(level);
        let statement = section_statement("product_codes", level, label.as_str());
        let ghost said = (statement.sql@, statement.problem@);
        out.push(statement);
        assert(statement_views(out@) =~= before.push(said));
        assert(second + code_statements(k + 1) =~= (second + code_statements(k as int)).push(said));
        k += 1;
    }
    let ghost before = statement_views(out@);
    out.push(
        RollupStatement {
            sql: String::from_str(ROLLUP_PRICES_SQL),
            problem: String::from_str("Could not create DuckDB price rollups: "),
        },
    );
    assert(statement_views(out@) =~= before.push(
        (ROLLUP_PRICES_SQL@, "Could not create DuckDB price rollups: "@),
    ));
    assert(statement_views(out@) =~= rollup_texts());
    out
}

/// Every level at which product codes are grouped has a rollup.
pub proof fn every_level_has_a_rollup(hs_level: u8)
    ensures
        exists|k: int| 0 <= k < 8 && #[trigger] CODE_LEVELS@[k] == code_level(hs_level),
{
    let k = if code_level(hs_level) == 10 {
        7
    } else {
        code_level(hs_level) - 2
    };
    assert(CODE_LEVELS@[k] == code_level(hs_level));
}

/// Both ways to answer group a section alike: the rollup that is kept under a
/// section's key has the labels by which the detail is grouped.
pub proof fn rollup_groups_like_the_detail(kind: AnalyticsSectionKind, hs_level: u8)
    requires
        kind != AnalyticsSectionKind::ProductCodes,
    ensures
        exists|k: int|
            0 <= k < 8 && #[trigger] FLAT_ROLLUPS@[k]@ == rollup_key(kind) && FLAT_LABELS@[k]@
                == label_of(kind, hs_level),
{
    let k: int = match kind {
        AnalyticsSectionKind::Recipients => 0,
        AnalyticsSectionKind::Senders => 1,
        AnalyticsSectionKind::Edrpou => 2,
        AnalyticsSectionKind::Trademarks => 3,
        AnalyticsSectionKind::ProductGroups => 4,
        AnalyticsSectionKind::OriginCountries => 5,
        AnalyticsSectionKind::DispatchCountries => 6,
        _ => 7,
    };
    assert(FLAT_ROLLUPS@[k]@ == rollup_key(kind));
}

/// Rollups are not trusted where their money cannot be told or is in several
/// currencies, or where a weight's unit is not known.
pub proof fn doubtful_rollups_do_not_answer(mode: Seq<char>)
    ensures
        !modes_are_safe("unavailable"@, mode),
        !modes_are_safe("partitioned"@, mode),
        !modes_are_safe(mode, "unavailable"@),
        modes_are_safe("single_usd"@, "normalized_kg"@),
        modes_are_safe("empty"@, "empty"@),
        modes_are_safe("single_usd"@, "empty"@),
        modes_are_safe("empty"@, "normalized_kg"@),
{
    reveal_strlit("unavailable");
    reveal_strlit("partitioned");
    reveal_strlit("single_usd");
    reveal_strlit("empty");
    reveal_strlit("normalized_kg");
    assert("unavailable"@.len() == 11 && "partitioned"@.len() == 11);
    assert("single_usd"@.len() == 10 && "empty"@.len() == 5 && "normalized_kg"@.len() == 13);
}

/// The year of a row is the one that the source stores, or else the first four
/// characters of its month.
pub proof fn a_year_is_stored_or_leads_the_month(alias: Seq<char>, month: Seq<char>)
    ensures
        holds(year_text(alias, month), "COALESCE("@ + alias + ".year, "@),
        holds(year_text(alias, month), "SUBSTR("@ + month + ", 1, 4)"@),
{
    reveal_strlit("COALESCE(");
    reveal_strlit(".year, CAST(NULLIF(SUBSTR(");
    reveal_strlit(".year, ");
    reveal_strlit("CAST(NULLIF(SUBSTR(");
    reveal_strlit("CAST(NULLIF(");
    reveal_strlit("SUBSTR(");
    reveal_strlit(", 1, 4), '') AS INTEGER))");
    reveal_strlit(", 1, 4)");
    reveal_strlit(", '') AS INTEGER))");
    let none = Seq::<char>::empty();
    let stored = "COALESCE("@ + alias + ".year, "@;
    let leading = "SUBSTR("@ + month + ", 1, 4)"@;
    assert(".year, CAST(NULLIF(SUBSTR("@ =~= ".year, "@ + "CAST(NULLIF("@ + "SUBSTR("@);
    assert(", 1, 4), '') AS INTEGER))"@ =~= ", 1, 4)"@ + ", '') AS INTEGER))"@);
    part_stands(none, stored, "CAST(NULLIF("@ + leading + ", '') AS INTEGER))"@);
    assert(year_text(alias, month) =~= none + stored + ("CAST(NULLIF("@ + leading
        + ", '') AS INTEGER))"@));
    part_stands(stored + "CAST(NULLIF("@, leading, ", '') AS INTEGER))"@);
    assert(year_text(alias, month) =~= stored + "CAST(NULLIF("@ + leading
        + ", '') AS INTEGER))"@);
}

/// The projection reads each meaning into its own columns: names and codes as they
/// are shown and as they are searched, countries, the month, and the value before
/// the net weight, the gross weight and the quantity. What is missing is an empty
/// text, no number, or an unknown unit.
pub proof fn each_meaning_is_read_into_its_columns()
    ensures
        read_values().len() == 23,
        read_values()[0].0 == ProjectionValue::Label(SemanticField::DeclarationNumber),
        read_values()[1].0 == ProjectionValue::Label(SemanticField::Sender),
        read_values()[2].0 == ProjectionValue::Text(SemanticField::Sender),
        read_values()[3].0 == ProjectionValue::Label(SemanticField::Recipient),
        read_values()[4].0 == ProjectionValue::Text(SemanticField::Recipient),
        read_values()[5].0 == ProjectionValue::Label(SemanticField::CompanyCode),
        read_values()[6].0 == ProjectionValue::Text(SemanticField::CompanyCode),
        read_values()[7].0 == ProjectionValue::Label(SemanticField::ProductCode),
        read_values()[8].0 == ProjectionValue::Text(SemanticField::ProductCode),
        read_values()[9].0 == ProjectionValue::Label(SemanticField::Description),
        read_values()[10].0 == ProjectionValue::Text(SemanticField::Description),
        read_values()[11].0 == ProjectionValue::Label(SemanticField::Trademark),
        read_values()[12].0 == ProjectionValue::Text(SemanticField::Trademark),
        read_values()[13].0 == ProjectionValue::Country(SemanticField::OriginCountry),
        read_values()[14].0 == ProjectionValue::Country(SemanticField::DispatchCountry),
        read_values()[15].0 == ProjectionValue::Country(SemanticField::TradeCountry),
        read_values()[16].0 == ProjectionValue::Month(SemanticField::Date),
        read_values()[17].0 == ProjectionValue::Number(SemanticField::Value),
        read_values()[18].0 == ProjectionValue::Number(SemanticField::NetWeight),
        read_values()[19].0 == ProjectionValue::Number(SemanticField::GrossWeight),
        read_values()[20].0 == ProjectionValue::Number(SemanticField::Quantity),
        read_values()[21].0 == ProjectionValue::CurrencyKey,
        read_values()[22].0 == ProjectionValue::WeightUnitKey,
        forall|k: int| 0 <= k < 17 ==> (#[trigger] read_values()[k]).1 == "''"@,
        forall|k: int| 17 <= k < 21 ==> (#[trigger] read_values()[k]).1 == "NULL"@,
        forall|k: int| 21 <= k < 23 ==> (#[trigger] read_values()[k]).1 == "'__unknown__'"@,
{
}

/// A schema that has no column of a meaning gives the missing value for it, and a
/// schema that has one gives its own expression; a currency and a weight unit need
/// no column.
pub proof fn a_schema_gives_its_own_values(
    value: ProjectionValue,
    entry: SchemaExpression,
    missing: Seq<char>,
)
    ensures
        meaning_of(ProjectionValue::CurrencyKey) == SemanticField::Currency,
        meaning_of(ProjectionValue::WeightUnitKey) == SemanticField::WeightUnit,
        entry.expression is None ==> schema_value(value, entry, missing) == missing,
        entry.expression is Some && (value is CurrencyKey || value is WeightUnitKey)
            ==> schema_value(value, entry, missing) == entry.expression->0@,
        entry.expression is Some && has_meaning(entry.schema, meaning_of(value)) ==> schema_value(
            value,
            entry,
            missing,
        ) == entry.expression->0@,
        !(value is CurrencyKey) && !(value is WeightUnitKey) && !has_meaning(
            entry.schema,
            meaning_of(value),
        ) ==> schema_value(value, entry, missing) == missing,
{
}

/// The headline is read in the order in which it is counted, from one scope and year.
pub proof fn the_kept_headline_reads_each_count()
    ensures
        holds(ROLLUP_OVERVIEW_SQL@, "row_count,\n            declaration_count,\n            distinct_senders,\n            distinct_recipients,\n            distinct_edrpou,\n            distinct_trademarks,"@),
        holds(ROLLUP_OVERVIEW_SQL@, "distinct_product_codes,\n            distinct_origin_countries,\n            distinct_dispatch_countries,\n            distinct_trade_countries,\n            total_quantity"@),
        holds(ROLLUP_OVERVIEW_SQL@, "WHERE record_scope = ? AND year_key = ?"@),
{
    reveal_strlit(
        "SELECT\n            row_count,\n            declaration_count,\n            distinct_senders,\n            distinct_recipients,\n            distinct_edrpou,\n            distinct_trademarks,\n            distinct_product_codes,\n            distinct_origin_countries,\n            distinct_dispatch_countries,\n            distinct_trade_countries,\n            total_quantity\n         FROM rollup_overview\n         WHERE record_scope = ? AND year_key = ? LIMIT 1",
    );
    assert(holds(ROLLUP_OVERVIEW_SQL@, "row_count,\n            declaration_count,\n            distinct_senders,\n            distinct_recipients,\n            distinct_edrpou,\n            distinct_trademarks,"@)) by {
        reveal_strlit("row_count,\n            declaration_count,\n            distinct_senders,\n            distinct_recipients,\n            distinct_edrpou,\n            distinct_trademarks,");
        text_stands(ROLLUP_OVERVIEW_SQL@, "row_count,\n            declaration_count,\n            distinct_senders,\n            distinct_recipients,\n            distinct_edrpou,\n            distinct_trademarks,"@, 19);
    }
    assert(holds(ROLLUP_OVERVIEW_SQL@, "distinct_product_codes,\n            distinct_origin_countries,\n            distinct_dispatch_countries,\n            distinct_trade_countries,\n            total_quantity"@)) by {
        reveal_strlit("distinct_product_codes,\n            distinct_origin_countries,\n            distinct_dispatch_countries,\n            distinct_trade_countries,\n            total_quantity");
        text_stands(ROLLUP_OVERVIEW_SQL@, "distinct_product_codes,\n            distinct_origin_countries,\n            distinct_dispatch_countries,\n            distinct_trade_countries,\n            total_quantity"@, 198);
    }
    assert(holds(ROLLUP_OVERVIEW_SQL@, "WHERE record_scope = ? AND year_key = ?"@)) by {
        reveal_strlit("WHERE record_scope = ? AND year_key = ?");
        text_stands(ROLLUP_OVERVIEW_SQL@, "WHERE record_scope = ? AND year_key = ?"@, 406);
    }
}

/// The months are read with their totals in order, of one scope and year, the newest
/// first.
pub proof fn the_kept_months_read_each_total()
    ensures
        holds(ROLLUP_MONTHS_SQL@, "month, rows_count, declarations_count, total_value_usd, total_net_kg,"@),
        holds(ROLLUP_MONTHS_SQL@, "paired_value, paired_net_kg, total_value, valued_rows, net_rows,"@),
        holds(ROLLUP_MONTHS_SQL@, "net_source_total, paired_row_count, paired_source_value, paired_source_net"@),
        holds(ROLLUP_MONTHS_SQL@, "WHERE record_scope = ? AND year_key = ?\n             ORDER BY month DESC LIMIT @"@),
{
    reveal_strlit(
        "SELECT month, rows_count, declarations_count, total_value_usd, total_net_kg,\n                    paired_value, paired_net_kg, total_value, valued_rows, net_rows,\n                    net_source_total, paired_row_count, paired_source_value, paired_source_net\n             FROM rollup_monthly\n             WHERE record_scope = ? AND year_key = ?\n             ORDER BY month DESC LIMIT @",
    );
    assert(holds(ROLLUP_MONTHS_SQL@, "month, rows_count, declarations_count, total_value_usd, total_net_kg,"@)) by {
        reveal_strlit("month, rows_count, declarations_count, total_value_usd, total_net_kg,");
        text_stands(ROLLUP_MONTHS_SQL@, "month, rows_count, declarations_count, total_value_usd, total_net_kg,"@, 7);
    }
    assert(holds(ROLLUP_MONTHS_SQL@, "paired_value, paired_net_kg, total_value, valued_rows, net_rows,"@)) by {
        reveal_strlit("paired_value, paired_net_kg, total_value, valued_rows, net_rows,");
        text_stands(ROLLUP_MONTHS_SQL@, "paired_value, paired_net_kg, total_value, valued_rows, net_rows,"@, 97);
    }
    assert(holds(ROLLUP_MONTHS_SQL@, "net_source_total, paired_row_count, paired_source_value, paired_source_net"@)) by {
        reveal_strlit("net_source_total, paired_row_count, paired_source_value, paired_source_net");
        text_stands(ROLLUP_MONTHS_SQL@, "net_source_total, paired_row_count, paired_source_value, paired_source_net"@, 182);
    }
    assert(holds(ROLLUP_MONTHS_SQL@, "WHERE record_scope = ? AND year_key = ?\n             ORDER BY month DESC LIMIT @"@)) by {
        reveal_strlit("WHERE record_scope = ? AND year_key = ?\n             ORDER BY month DESC LIMIT @");
        text_stands(ROLLUP_MONTHS_SQL@, "WHERE record_scope = ? AND year_key = ?\n             ORDER BY month DESC LIMIT @"@, 303);
    }
}

/// A section is read with its totals in order, the net before the gross weight, of
/// one scope, year, kind and level, the greatest values first.
pub proof fn the_kept_sections_read_each_total()
    ensures
        holds(ROLLUP_SECTION_SQL@, "label, rows_count, declarations_count, companies_count,"@),
        holds(ROLLUP_SECTION_SQL@, "total_value_usd, total_net_kg, total_gross_kg, total_quantity,"@),
        holds(ROLLUP_SECTION_SQL@, "paired_value, paired_net_kg, total_value, valued_rows, net_rows,"@),
        holds(ROLLUP_SECTION_SQL@, "gross_rows, net_source_total, gross_source_total,"@),
        holds(ROLLUP_SECTION_SQL@, "paired_row_count, paired_source_value, paired_source_net"@),
        holds(ROLLUP_SECTION_SQL@, "WHERE record_scope = ? AND year_key = ? AND kind = ? AND hs_level = ?"@),
        holds(ROLLUP_SECTION_SQL@, "ORDER BY total_value DESC, total_net_kg DESC,"@),
{
    reveal_strlit(
        "SELECT label, rows_count, declarations_count, companies_count,\n                    total_value_usd, total_net_kg, total_gross_kg, total_quantity,\n                    paired_value, paired_net_kg, total_value, valued_rows, net_rows,\n                    gross_rows, net_source_total, gross_source_total,\n                    paired_row_count, paired_source_value, paired_source_net\n             FROM rollup_sections\n             WHERE record_scope = ? AND year_key = ? AND kind = ? AND hs_level = ?\n             ORDER BY total_value DESC, total_net_kg DESC,\n                      rows_count DESC, label\n             LIMIT ?",
    );
    assert(holds(ROLLUP_SECTION_SQL@, "label, rows_count, declarations_count, companies_count,"@)) by {
        reveal_strlit("label, rows_count, declarations_count, companies_count,");
        text_stands(ROLLUP_SECTION_SQL@, "label, rows_count, declarations_count, companies_count,"@, 7);
    }
    assert(holds(ROLLUP_SECTION_SQL@, "total_value_usd, total_net_kg, total_gross_kg, total_quantity,"@)) by {
        reveal_strlit("total_value_usd, total_net_kg, total_gross_kg, total_quantity,");
        text_stands(ROLLUP_SECTION_SQL@, "total_value_usd, total_net_kg, total_gross_kg, total_quantity,"@, 83);
    }
    assert(holds(ROLLUP_SECTION_SQL@, "paired_value, paired_net_kg, total_value, valued_rows, net_rows,"@)) by {
        reveal_strlit("paired_value, paired_net_kg, total_value, valued_rows, net_rows,");
        text_stands(ROLLUP_SECTION_SQL@, "paired_value, paired_net_kg, total_value, valued_rows, net_rows,"@, 166);
    }
    assert(holds(ROLLUP_SECTION_SQL@, "gross_rows, net_source_total, gross_source_total,"@)) by {
        reveal_strlit("gross_rows, net_source_total, gross_source_total,");
        text_stands(ROLLUP_SECTION_SQL@, "gross_rows, net_source_total, gross_source_total,"@, 251);
    }
    assert(holds(ROLLUP_SECTION_SQL@, "paired_row_count, paired_source_value, paired_source_net"@)) by {
        reveal_strlit("paired_row_count, paired_source_value, paired_source_net");
        text_stands(ROLLUP_SECTION_SQL@, "paired_row_count, paired_source_value, paired_source_net"@, 321);
    }
    assert(holds(ROLLUP_SECTION_SQL@, "WHERE record_scope = ? AND year_key = ? AND kind = ? AND hs_level = ?"@)) by {
        reveal_strlit("WHERE record_scope = ? AND year_key = ? AND kind = ? AND hs_level = ?");
        text_stands(ROLLUP_SECTION_SQL@, "WHERE record_scope = ? AND year_key = ? AND kind = ? AND hs_level = ?"@, 425);
    }
    assert(holds(ROLLUP_SECTION_SQL@, "ORDER BY total_value DESC, total_net_kg DESC,"@)) by {
        reveal_strlit("ORDER BY total_value DESC, total_net_kg DESC,");
        text_stands(ROLLUP_SECTION_SQL@, "ORDER BY total_value DESC, total_net_kg DESC,"@, 508);
    }
}

/// The modes of money and weight are read, in this order, of one scope and year.
pub proof fn the_kept_modes_are_of_one_scope_and_year()
    ensures
        holds(ROLLUP_MODES_SQL@, "SELECT monetary_mode, weight_mode FROM rollup_overview"@),
        holds(ROLLUP_MODES_SQL@, "WHERE record_scope = ? AND year_key = ?"@),
{
    reveal_strlit(
        "SELECT monetary_mode, weight_mode FROM rollup_overview\n         WHERE record_scope = ? AND year_key = ? LIMIT 1",
    );
    assert(holds(ROLLUP_MODES_SQL@, "SELECT monetary_mode, weight_mode FROM rollup_overview"@)) by {
        reveal_strlit("SELECT monetary_mode, weight_mode FROM rollup_overview");
        text_stands(ROLLUP_MODES_SQL@, "SELECT monetary_mode, weight_mode FROM rollup_overview"@, 0);
    }
    assert(holds(ROLLUP_MODES_SQL@, "WHERE record_scope = ? AND year_key = ?"@)) by {
        reveal_strlit("WHERE record_scope = ? AND year_key = ?");
        text_stands(ROLLUP_MODES_SQL@, "WHERE record_scope = ? AND year_key = ?"@, 64);
    }
}

/// Prices are kept as value by net kilograms, over rows with a value, a net weight
/// and a known currency, with the figures that they are named for.
pub proof fn kept_prices_are_value_by_net_kilograms()
    ensures
        holds(ROLLUP_PRICES_SQL@, "value_num / net_weight_kg AS price_per_kg"@),
        holds(ROLLUP_PRICES_SQL@, "WHERE value_num IS NOT NULL\n                  AND net_weight_kg IS NOT NULL\n                  AND net_weight_kg > 0"@),
        holds(ROLLUP_PRICES_SQL@, "AND NOT starts_with(currency_key, '__unknown__')"@),
        holds(ROLLUP_PRICES_SQL@, "AVG(price_per_kg) AS average"@),
        holds(ROLLUP_PRICES_SQL@, "MIN(price_per_kg) AS minimum"@),
        holds(ROLLUP_PRICES_SQL@, "MAX(price_per_kg) AS maximum"@),
        holds(ROLLUP_PRICES_SQL@, "SUM(value_num) / NULLIF(SUM(net_weight_kg), 0) AS weighted_average"@),
        holds(ROLLUP_PRICES_SQL@, "quantile_cont(price_per_kg, 0.25) AS p25"@),
        holds(ROLLUP_PRICES_SQL@, "quantile_cont(price_per_kg, 0.5) AS median"@),
        holds(ROLLUP_PRICES_SQL@, "quantile_cont(price_per_kg, 0.75) AS p75"@),
        holds(ROLLUP_PRICES_SQL@, "'product_code', product_code FROM priced"@),
        holds(ROLLUP_PRICES_SQL@, "'trademark', trademark_label FROM priced"@),
        holds(ROLLUP_PRICES_SQL@, "'origin_country', origin_key FROM priced"@),
{
    reveal_strlit(
        "CREATE TABLE rollup_price_per_kg_baselines AS\n            WITH priced AS (\n                SELECT\n                    record_scope,\n                    year_key,\n                    COALESCE(currency_key, '') AS currency_key,\n                    COALESCE(weight_unit_key, '') AS weight_unit_key,\n                    product_code,\n                    trademark_label,\n                    origin_key,\n                    value_num,\n                    net_weight_kg,\n                    value_num / net_weight_kg AS price_per_kg\n                FROM rollup_expanded\n                WHERE value_num IS NOT NULL\n                  AND net_weight_kg IS NOT NULL\n                  AND net_weight_kg > 0\n                  AND COALESCE(currency_key, '') <> ''\n                  AND NOT starts_with(currency_key, '__unknown__')\n            ), cohorts AS (\n                SELECT *, 'all'::VARCHAR AS cohort_kind, ''::VARCHAR AS cohort_label\n                FROM priced\n                UNION ALL\n                SELECT *, 'product_code', product_code FROM priced\n                WHERE product_code IS NOT NULL AND product_code <> ''\n                UNION ALL\n                SELECT *, 'trademark', trademark_label FROM priced\n                WHERE trademark_label IS NOT NULL AND trademark_label <> ''\n                UNION ALL\n                SELECT *, 'origin_country', origin_key FROM priced\n                WHERE origin_key IS NOT NULL AND origin_key <> ''\n            )\n            SELECT\n                record_scope,\n                year_key,\n                cohort_kind,\n                cohort_label,\n                currency_key,\n                weight_unit_key,\n                COUNT(*)::BIGINT AS sample_count,\n                AVG(price_per_kg) AS average,\n                MIN(price_per_kg) AS minimum,\n                MAX(price_per_kg) AS maximum,\n                SUM(value_num) / NULLIF(SUM(net_weight_kg), 0) AS weighted_average,\n                quantile_cont(price_per_kg, 0.25) AS p25,\n                quantile_cont(price_per_kg, 0.5) AS median,\n                quantile_cont(price_per_kg, 0.75) AS p75\n            FROM cohorts\n            GROUP BY record_scope, year_key, cohort_kind, cohort_label,\n                     currency_key, weight_unit_key;\n\n         ANALYZE rollup_overview;\n         ANALYZE rollup_monthly;\n         ANALYZE rollup_sections;\n         ANALYZE rollup_currency_totals;\n         ANALYZE rollup_price_per_kg_baselines;",
    );
    assert(holds(ROLLUP_PRICES_SQL@, "value_num / net_weight_kg AS price_per_kg"@)) by {
        reveal_strlit("value_num / net_weight_kg AS price_per_kg");
        text_stands(ROLLUP_PRICES_SQL@, "value_num / net_weight_kg AS price_per_kg"@, 485);
    }
    assert(holds(ROLLUP_PRICES_SQL@, "WHERE value_num IS NOT NULL\n                  AND net_weight_kg IS NOT NULL\n                  AND net_weight_kg > 0"@)) by {
        reveal_strlit("WHERE value_num IS NOT NULL\n                  AND net_weight_kg IS NOT NULL\n                  AND net_weight_kg > 0");
        text_stands(ROLLUP_PRICES_SQL@, "WHERE value_num IS NOT NULL\n                  AND net_weight_kg IS NOT NULL\n                  AND net_weight_kg > 0"@, 580);
    }
    assert(holds(ROLLUP_PRICES_SQL@, "AND NOT starts_with(currency_key, '__unknown__')"@)) by {
        reveal_strlit("AND NOT starts_with(currency_key, '__unknown__')");
        text_stands(ROLLUP_PRICES_SQL@, "AND NOT starts_with(currency_key, '__unknown__')"@, 769);
    }
    assert(holds(ROLLUP_PRICES_SQL@, "AVG(price_per_kg) AS average"@)) by {
        reveal_strlit("AVG(price_per_kg) AS average");
        text_stands(ROLLUP_PRICES_SQL@, "AVG(price_per_kg) AS average"@, 1727);
    }
    assert(holds(ROLLUP_PRICES_SQL@, "MIN(price_per_kg) AS minimum"@)) by {
        reveal_strlit("MIN(price_per_kg) AS minimum");
        text_stands(ROLLUP_PRICES_SQL@, "MIN(price_per_kg) AS minimum"@, 1773);
    }
    assert(holds(ROLLUP_PRICES_SQL@, "MAX(price_per_kg) AS maximum"@)) by {
        reveal_strlit("MAX(price_per_kg) AS maximum");
        text_stands(ROLLUP_PRICES_SQL@, "MAX(price_per_kg) AS maximum"@, 1819);
    }
    assert(holds(ROLLUP_PRICES_SQL@, "SUM(value_num) / NULLIF(SUM(net_weight_kg), 0) AS weighted_average"@)) by {
        reveal_strlit("SUM(value_num) / NULLIF(SUM(net_weight_kg), 0) AS weighted_average");
        text_stands(ROLLUP_PRICES_SQL@, "SUM(value_num) / NULLIF(SUM(net_weight_kg), 0) AS weighted_average"@, 1865);
    }
    assert(holds(ROLLUP_PRICES_SQL@, "quantile_cont(price_per_kg, 0.25) AS p25"@)) by {
        reveal_strlit("quantile_cont(price_per_kg, 0.25) AS p25");
        text_stands(ROLLUP_PRICES_SQL@, "quantile_cont(price_per_kg, 0.25) AS p25"@, 1949);
    }
    assert(holds(ROLLUP_PRICES_SQL@, "quantile_cont(price_per_kg, 0.5) AS median"@)) by {
        reveal_strlit("quantile_cont(price_per_kg, 0.5) AS median");
        text_stands(ROLLUP_PRICES_SQL@, "quantile_cont(price_per_kg, 0.5) AS median"@, 2007);
    }
    assert(holds(ROLLUP_PRICES_SQL@, "quantile_cont(price_per_kg, 0.75) AS p75"@)) by {
        reveal_strlit("quantile_cont(price_per_kg, 0.75) AS p75");
        text_stands(ROLLUP_PRICES_SQL@, "quantile_cont(price_per_kg, 0.75) AS p75"@, 2067);
    }
    assert(holds(ROLLUP_PRICES_SQL@, "'product_code', product_code FROM priced"@)) by {
        reveal_strlit("'product_code', product_code FROM priced");
        text_stands(ROLLUP_PRICES_SQL@, "'product_code', product_code FROM priced"@, 1011);
    }
    assert(holds(ROLLUP_PRICES_SQL@, "'trademark', trademark_label FROM priced"@)) by {
        reveal_strlit("'trademark', trademark_label FROM priced");
        text_stands(ROLLUP_PRICES_SQL@, "'trademark', trademark_label FROM priced"@, 1174);
    }
    assert(holds(ROLLUP_PRICES_SQL@, "'origin_country', origin_key FROM priced"@)) by {
        reveal_strlit("'origin_country', origin_key FROM priced");
        text_stands(ROLLUP_PRICES_SQL@, "'origin_country', origin_key FROM priced"@, 1343);
    }
}

/// A source that was changed gets a new generation, and one that was not keeps its
/// own.
pub proof fn a_changed_source_gets_a_new_generation()
    ensures
        holds(SOURCE_GENERATION_SQL@, "WHEN dirty = 1 THEN lower(hex(randomblob(16)))"@),
        holds(SOURCE_GENERATION_SQL@, "ELSE generation"@),
        holds(SOURCE_GENERATION_SQL@, "dirty = 0"@),
{
    reveal_strlit(
        "UPDATE base_search_olap_state\n                 SET generation = CASE\n                        WHEN dirty = 1 THEN lower(hex(randomblob(16)))\n                        ELSE generation\n                     END,\n                     dirty = 0\n                 WHERE singleton = 1 AND tracking_version = ?",
    );
    assert(holds(SOURCE_GENERATION_SQL@, "WHEN dirty = 1 THEN lower(hex(randomblob(16)))"@)) by {
        reveal_strlit("WHEN dirty = 1 THEN lower(hex(randomblob(16)))");
        text_stands(SOURCE_GENERATION_SQL@, "WHEN dirty = 1 THEN lower(hex(randomblob(16)))"@, 93);
    }
    assert(holds(SOURCE_GENERATION_SQL@, "ELSE generation"@)) by {
        reveal_strlit("ELSE generation");
        text_stands(SOURCE_GENERATION_SQL@, "ELSE generation"@, 164);
    }
    assert(holds(SOURCE_GENERATION_SQL@, "dirty = 0"@)) by {
        reveal_strlit("dirty = 0");
        text_stands(SOURCE_GENERATION_SQL@, "dirty = 0"@, 227);
    }
}

/// The rollups keep what their columns are named for: net weights as net and gross
/// weights as gross, each party under its own count, pairs of value and net weight;
/// rows repeated from another file are left out of the canonical scope.
pub proof fn the_rollups_keep_what_their_columns_name()
    ensures
        holds(ROLLUP_FOUNDATION_SQL@, "FROM records WHERE dup_first_file IS NULL;"@),
        holds(ROLLUP_FOUNDATION_SQL@, "WHERE year IS NOT NULL AND year <> 0;"@),
        holds(ROLLUP_FOUNDATION_SQL@, "WHEN 'kg' THEN net_kg_num\n                    WHEN 'g' THEN net_kg_num * 0.001\n                    WHEN 'tonne' THEN net_kg_num * 1000.0\n                    WHEN 'lb' THEN net_kg_num * 0.45359237\n                END AS net_weight_kg"@),
        holds(ROLLUP_FOUNDATION_SQL@, "WHEN 'kg' THEN gross_kg_num\n                    WHEN 'g' THEN gross_kg_num * 0.001\n                    WHEN 'tonne' THEN gross_kg_num * 1000.0\n                    WHEN 'lb' THEN gross_kg_num * 0.45359237\n                END AS gross_weight_kg"@),
        holds(ROLLUP_FOUNDATION_SQL@, "COUNT(DISTINCT NULLIF(declaration_number, ''))::BIGINT AS declaration_count"@),
        holds(ROLLUP_FOUNDATION_SQL@, "COUNT(DISTINCT NULLIF(sender_label, ''))::BIGINT AS distinct_senders"@),
        holds(ROLLUP_FOUNDATION_SQL@, "COUNT(DISTINCT NULLIF(recipient_label, ''))::BIGINT AS distinct_recipients"@),
        holds(ROLLUP_FOUNDATION_SQL@, "COUNT(DISTINCT NULLIF(edrpou_label, ''))::BIGINT AS distinct_edrpou"@),
        holds(ROLLUP_FOUNDATION_SQL@, "COUNT(DISTINCT NULLIF(trademark_label, ''))::BIGINT AS distinct_trademarks"@),
        holds(ROLLUP_FOUNDATION_SQL@, "COUNT(DISTINCT NULLIF(product_code, ''))::BIGINT AS distinct_product_codes"@),
        holds(ROLLUP_FOUNDATION_SQL@, "COUNT(DISTINCT NULLIF(origin_key, ''))::BIGINT AS distinct_origin_countries"@),
        holds(ROLLUP_FOUNDATION_SQL@, "COUNT(DISTINCT NULLIF(dispatch_key, ''))::BIGINT AS distinct_dispatch_countries"@),
        holds(ROLLUP_FOUNDATION_SQL@, "COUNT(DISTINCT NULLIF(trade_key, ''))::BIGINT AS distinct_trade_countries"@),
        holds(ROLLUP_FOUNDATION_SQL@, "COALESCE(SUM(gross_weight_kg), 0.0) AS total_gross_kg"@),
        holds(ROLLUP_FOUNDATION_SQL@, "COALESCE(SUM(net_weight_kg), 0.0) AS total_net_kg"@),
        holds(ROLLUP_FOUNDATION_SQL@, "COALESCE(SUM(quantity_num), 0.0) AS total_quantity"@),
        holds(ROLLUP_FOUNDATION_SQL@, "THEN value_num ELSE 0.0 END), 0.0) AS paired_value"@),
        holds(ROLLUP_FOUNDATION_SQL@, "THEN net_weight_kg ELSE 0.0 END), 0.0) AS paired_net_kg"@),
        holds(ROLLUP_FOUNDATION_SQL@, "COALESCE(SUM(value_num), 0.0) AS total_value"@),
        holds(ROLLUP_FOUNDATION_SQL@, "COUNT(net_kg_num) AS net_rows"@),
        holds(ROLLUP_FOUNDATION_SQL@, "rows_count BIGINT,\n            declarations_count BIGINT,\n            companies_count BIGINT,\n            total_value_usd DOUBLE,\n            total_net_kg DOUBLE,\n            total_gross_kg DOUBLE,\n            total_quantity DOUBLE,\n            paired_value DOUBLE,\n            paired_net_kg DOUBLE,\n            total_value DOUBLE,\n            valued_rows BIGINT,\n            net_rows BIGINT,\n            gross_rows BIGINT,\n            net_source_total DOUBLE,\n            gross_source_total DOUBLE,\n            paired_row_count BIGINT,\n            paired_source_value DOUBLE,\n            paired_source_net DOUBLE"@),
{
    reveal_strlit(
        "CREATE VIEW rollup_records AS\n            SELECT\n                'occurrences'::VARCHAR AS record_scope,\n                records.*,\n                CASE weight_unit_key\n                    WHEN 'kg' THEN net_kg_num\n                    WHEN 'g' THEN net_kg_num * 0.001\n                    WHEN 'tonne' THEN net_kg_num * 1000.0\n                    WHEN 'lb' THEN net_kg_num * 0.45359237\n                END AS net_weight_kg,\n                CASE weight_unit_key\n                    WHEN 'kg' THEN gross_kg_num\n                    WHEN 'g' THEN gross_kg_num * 0.001\n                    WHEN 'tonne' THEN gross_kg_num * 1000.0\n                    WHEN 'lb' THEN gross_kg_num * 0.45359237\n                END AS gross_weight_kg\n            FROM records\n            UNION ALL\n            SELECT\n                'canonical'::VARCHAR AS record_scope,\n                records.*,\n                CASE weight_unit_key\n                    WHEN 'kg' THEN net_kg_num\n                    WHEN 'g' THEN net_kg_num * 0.001\n                    WHEN 'tonne' THEN net_kg_num * 1000.0\n                    WHEN 'lb' THEN net_kg_num * 0.45359237\n                END AS net_weight_kg,\n                CASE weight_unit_key\n                    WHEN 'kg' THEN gross_kg_num\n                    WHEN 'g' THEN gross_kg_num * 0.001\n                    WHEN 'tonne' THEN gross_kg_num * 1000.0\n                    WHEN 'lb' THEN gross_kg_num * 0.45359237\n                END AS gross_weight_kg\n            FROM records WHERE dup_first_file IS NULL;\n\n         CREATE VIEW rollup_expanded AS\n            SELECT rollup_records.*, 0::BIGINT AS year_key FROM rollup_records\n            UNION ALL\n            SELECT rollup_records.*, year AS year_key\n            FROM rollup_records WHERE year IS NOT NULL AND year <> 0;\n\n         CREATE TABLE rollup_overview AS\n            SELECT\n                record_scope,\n                year_key,\n                COUNT(*)::BIGINT AS row_count,\n                COUNT(DISTINCT NULLIF(declaration_number, ''))::BIGINT AS declaration_count,\n                COUNT(DISTINCT NULLIF(sender_label, ''))::BIGINT AS distinct_senders,\n                COUNT(DISTINCT NULLIF(recipient_label, ''))::BIGINT AS distinct_recipients,\n                COUNT(DISTINCT NULLIF(edrpou_label, ''))::BIGINT AS distinct_edrpou,\n                COUNT(DISTINCT NULLIF(trademark_label, ''))::BIGINT AS distinct_trademarks,\n                COUNT(DISTINCT NULLIF(product_code, ''))::BIGINT AS distinct_product_codes,\n                COUNT(DISTINCT NULLIF(origin_key, ''))::BIGINT AS distinct_origin_countries,\n                COUNT(DISTINCT NULLIF(dispatch_key, ''))::BIGINT AS distinct_dispatch_countries,\n                COUNT(DISTINCT NULLIF(trade_key, ''))::BIGINT AS distinct_trade_countries,\n                CASE\n                    WHEN COUNT(value_num) = 0 THEN 0.0\n                    WHEN COUNT(*) FILTER (\n                        WHERE value_num IS NOT NULL AND (\n                            COALESCE(currency_key, '') = ''\n                            OR starts_with(currency_key, '__unknown__')\n                        )\n                    ) > 0 THEN NULL\n                    WHEN COUNT(DISTINCT currency_key) FILTER (\n                        WHERE value_num IS NOT NULL\n                          AND NOT starts_with(currency_key, '__unknown__')\n                    ) = 1 AND MIN(currency_key) FILTER (\n                        WHERE value_num IS NOT NULL\n                          AND NOT starts_with(currency_key, '__unknown__')\n                    ) = 'USD' THEN SUM(value_num)\n                    ELSE NULL\n                END AS total_value_usd,\n                COALESCE(SUM(gross_weight_kg), 0.0) AS total_gross_kg,\n                COALESCE(SUM(net_weight_kg), 0.0) AS total_net_kg,\n                COALESCE(SUM(quantity_num), 0.0) AS total_quantity,\n                CASE\n                    WHEN COUNT(value_num) = 0 THEN 'empty'\n                    WHEN COUNT(*) FILTER (\n                        WHERE value_num IS NOT NULL AND (\n                            COALESCE(currency_key, '') = ''\n                            OR starts_with(currency_key, '__unknown__')\n                        )\n                    ) > 0 THEN 'unavailable'\n                    WHEN COUNT(DISTINCT currency_key) FILTER (\n                        WHERE value_num IS NOT NULL\n                          AND NOT starts_with(currency_key, '__unknown__')\n                    ) = 1 AND MIN(currency_key) FILTER (\n                        WHERE value_num IS NOT NULL\n                          AND NOT starts_with(currency_key, '__unknown__')\n                    ) = 'USD' THEN 'single_usd'\n                    ELSE 'partitioned'\n                END AS monetary_mode,\n                CASE\n                    WHEN COUNT(net_kg_num) = 0 THEN 'empty'\n                    WHEN COUNT(*) FILTER (WHERE net_kg_num IS NOT NULL\n                                           AND net_weight_kg IS NULL) > 0\n                        THEN 'unavailable'\n                    ELSE 'normalized_kg'\n                END AS weight_mode\n            FROM rollup_expanded\n            GROUP BY record_scope, year_key;\n\n         INSERT INTO rollup_overview\n            SELECT\n                empty_scope.record_scope,\n                0,\n                0, 0, 0, 0, 0, 0, 0, 0, 0, 0,\n                0.0, 0.0, 0.0, 0.0,\n                'empty', 'empty'\n            FROM (VALUES ('canonical'), ('occurrences')) AS empty_scope(record_scope)\n            WHERE NOT EXISTS (\n                SELECT 1 FROM rollup_overview existing\n                WHERE existing.record_scope = empty_scope.record_scope\n                  AND existing.year_key = 0\n            );\n\n         CREATE TABLE rollup_monthly AS\n            SELECT\n                record_scope,\n                year_key,\n                month,\n                COUNT(*)::BIGINT AS rows_count,\n                COUNT(DISTINCT NULLIF(declaration_number, ''))::BIGINT AS declarations_count,\n                CASE\n                    WHEN COUNT(value_num) = 0 THEN 0.0\n                    WHEN COUNT(*) FILTER (\n                        WHERE value_num IS NOT NULL AND (\n                            COALESCE(currency_key, '') = ''\n                            OR starts_with(currency_key, '__unknown__')\n                        )\n                    ) > 0 THEN NULL\n                    WHEN COUNT(DISTINCT currency_key) FILTER (\n                        WHERE value_num IS NOT NULL\n                          AND NOT starts_with(currency_key, '__unknown__')\n                    ) = 1 AND MIN(currency_key) FILTER (\n                        WHERE value_num IS NOT NULL\n                          AND NOT starts_with(currency_key, '__unknown__')\n                    ) = 'USD' THEN SUM(value_num)\n                    ELSE NULL\n                END AS total_value_usd,\n                COALESCE(SUM(net_weight_kg), 0.0) AS total_net_kg,\n                COALESCE(SUM(CASE WHEN value_num IS NOT NULL AND net_weight_kg > 0\n                    THEN value_num ELSE 0.0 END), 0.0) AS paired_value,\n                COALESCE(SUM(CASE WHEN value_num IS NOT NULL AND net_weight_kg > 0\n                    THEN net_weight_kg ELSE 0.0 END), 0.0) AS paired_net_kg,\n                COALESCE(SUM(value_num), 0.0) AS total_value,\n                COUNT(value_num) AS valued_rows,\n                COUNT(net_kg_num) AS net_rows,\n                COALESCE(SUM(net_kg_num), 0.0) AS net_source_total,\n                COUNT(CASE WHEN value_num IS NOT NULL AND net_kg_num > 0\n                    THEN 1 END) AS paired_row_count,\n                COALESCE(SUM(CASE WHEN value_num IS NOT NULL AND net_kg_num > 0\n                    THEN value_num END), 0.0) AS paired_source_value,\n                COALESCE(SUM(CASE WHEN value_num IS NOT NULL AND net_kg_num > 0\n                    THEN net_kg_num END), 0.0) AS paired_source_net\n            FROM rollup_expanded\n            WHERE month IS NOT NULL AND month <> ''\n            GROUP BY record_scope, year_key, month;\n\n         CREATE TABLE rollup_currency_totals AS\n            SELECT\n                record_scope,\n                year_key,\n                COALESCE(currency_key, '') AS currency_key,\n                COUNT(value_num)::BIGINT AS valued_rows,\n                COALESCE(SUM(value_num), 0.0) AS total_value\n            FROM rollup_expanded\n            WHERE value_num IS NOT NULL\n            GROUP BY record_scope, year_key, COALESCE(currency_key, '');\n\n         CREATE TABLE rollup_sections (\n            record_scope VARCHAR,\n            year_key BIGINT,\n            kind VARCHAR,\n            hs_level INTEGER,\n            label VARCHAR,\n            rows_count BIGINT,\n            declarations_count BIGINT,\n            companies_count BIGINT,\n            total_value_usd DOUBLE,\n            total_net_kg DOUBLE,\n            total_gross_kg DOUBLE,\n            total_quantity DOUBLE,\n            paired_value DOUBLE,\n            paired_net_kg DOUBLE,\n            total_value DOUBLE,\n            valued_rows BIGINT,\n            net_rows BIGINT,\n            gross_rows BIGINT,\n            net_source_total DOUBLE,\n            gross_source_total DOUBLE,\n            paired_row_count BIGINT,\n            paired_source_value DOUBLE,\n            paired_source_net DOUBLE\n         );",
    );
    assert(holds(ROLLUP_FOUNDATION_SQL@, "FROM records WHERE dup_first_file IS NULL;"@)) by {
        reveal_strlit("FROM records WHERE dup_first_file IS NULL;");
        text_stands(ROLLUP_FOUNDATION_SQL@, "FROM records WHERE dup_first_file IS NULL;"@, 1473);
    }
    assert(holds(ROLLUP_FOUNDATION_SQL@, "WHERE year IS NOT NULL AND year <> 0;"@)) by {
        reveal_strlit("WHERE year IS NOT NULL AND year <> 0;");
        text_stands(ROLLUP_FOUNDATION_SQL@, "WHERE year IS NOT NULL AND year <> 0;"@, 1744);
    }
    assert(holds(ROLLUP_FOUNDATION_SQL@, "WHEN 'kg' THEN net_kg_num\n                    WHEN 'g' THEN net_kg_num * 0.001\n                    WHEN 'tonne' THEN net_kg_num * 1000.0\n                    WHEN 'lb' THEN net_kg_num * 0.45359237\n                END AS net_weight_kg"@)) by {
        reveal_strlit("WHEN 'kg' THEN net_kg_num\n                    WHEN 'g' THEN net_kg_num * 0.001\n                    WHEN 'tonne' THEN net_kg_num * 1000.0\n                    WHEN 'lb' THEN net_kg_num * 0.45359237\n                END AS net_weight_kg");
        text_stands(ROLLUP_FOUNDATION_SQL@, "WHEN 'kg' THEN net_kg_num\n                    WHEN 'g' THEN net_kg_num * 0.001\n                    WHEN 'tonne' THEN net_kg_num * 1000.0\n                    WHEN 'lb' THEN net_kg_num * 0.45359237\n                END AS net_weight_kg"@, 189);
    }
    assert(holds(ROLLUP_FOUNDATION_SQL@, "WHEN 'kg' THEN gross_kg_num\n                    WHEN 'g' THEN gross_kg_num * 0.001\n                    WHEN 'tonne' THEN gross_kg_num * 1000.0\n                    WHEN 'lb' THEN gross_kg_num * 0.45359237\n                END AS gross_weight_kg"@)) by {
        reveal_strlit("WHEN 'kg' THEN gross_kg_num\n                    WHEN 'g' THEN gross_kg_num * 0.001\n                    WHEN 'tonne' THEN gross_kg_num * 1000.0\n                    WHEN 'lb' THEN gross_kg_num * 0.45359237\n                END AS gross_weight_kg");
        text_stands(ROLLUP_FOUNDATION_SQL@, "WHEN 'kg' THEN gross_kg_num\n                    WHEN 'g' THEN gross_kg_num * 0.001\n                    WHEN 'tonne' THEN gross_kg_num * 1000.0\n                    WHEN 'lb' THEN gross_kg_num * 0.45359237\n                END AS gross_weight_kg"@, 480);
    }
    assert(holds(ROLLUP_FOUNDATION_SQL@, "COUNT(DISTINCT NULLIF(declaration_number, ''))::BIGINT AS declaration_count"@)) by {
        reveal_strlit("COUNT(DISTINCT NULLIF(declaration_number, ''))::BIGINT AS declaration_count");
        text_stands(ROLLUP_FOUNDATION_SQL@, "COUNT(DISTINCT NULLIF(declaration_number, ''))::BIGINT AS declaration_count"@, 1962);
    }
    assert(holds(ROLLUP_FOUNDATION_SQL@, "COUNT(DISTINCT NULLIF(sender_label, ''))::BIGINT AS distinct_senders"@)) by {
        reveal_strlit("COUNT(DISTINCT NULLIF(sender_label, ''))::BIGINT AS distinct_senders");
        text_stands(ROLLUP_FOUNDATION_SQL@, "COUNT(DISTINCT NULLIF(sender_label, ''))::BIGINT AS distinct_senders"@, 2055);
    }
    assert(holds(ROLLUP_FOUNDATION_SQL@, "COUNT(DISTINCT NULLIF(recipient_label, ''))::BIGINT AS distinct_recipients"@)) by {
        reveal_strlit("COUNT(DISTINCT NULLIF(recipient_label, ''))::BIGINT AS distinct_recipients");
        text_stands(ROLLUP_FOUNDATION_SQL@, "COUNT(DISTINCT NULLIF(recipient_label, ''))::BIGINT AS distinct_recipients"@, 2141);
    }
    assert(holds(ROLLUP_FOUNDATION_SQL@, "COUNT(DISTINCT NULLIF(edrpou_label, ''))::BIGINT AS distinct_edrpou"@)) by {
        reveal_strlit("COUNT(DISTINCT NULLIF(edrpou_label, ''))::BIGINT AS distinct_edrpou");
        text_stands(ROLLUP_FOUNDATION_SQL@, "COUNT(DISTINCT NULLIF(edrpou_label, ''))::BIGINT AS distinct_edrpou"@, 2233);
    }
    assert(holds(ROLLUP_FOUNDATION_SQL@, "COUNT(DISTINCT NULLIF(trademark_label, ''))::BIGINT AS distinct_trademarks"@)) by {
        reveal_strlit("COUNT(DISTINCT NULLIF(trademark_label, ''))::BIGINT AS distinct_trademarks");
        text_stands(ROLLUP_FOUNDATION_SQL@, "COUNT(DISTINCT NULLIF(trademark_label, ''))::BIGINT AS distinct_trademarks"@, 2318);
    }
    assert(holds(ROLLUP_FOUNDATION_SQL@, "COUNT(DISTINCT NULLIF(product_code, ''))::BIGINT AS distinct_product_codes"@)) by {
        reveal_strlit("COUNT(DISTINCT NULLIF(product_code, ''))::BIGINT AS distinct_product_codes");
        text_stands(ROLLUP_FOUNDATION_SQL@, "COUNT(DISTINCT NULLIF(product_code, ''))::BIGINT AS distinct_product_codes"@, 2410);
    }
    assert(holds(ROLLUP_FOUNDATION_SQL@, "COUNT(DISTINCT NULLIF(origin_key, ''))::BIGINT AS distinct_origin_countries"@)) by {
        reveal_strlit("COUNT(DISTINCT NULLIF(origin_key, ''))::BIGINT AS distinct_origin_countries");
        text_stands(ROLLUP_FOUNDATION_SQL@, "COUNT(DISTINCT NULLIF(origin_key, ''))::BIGINT AS distinct_origin_countries"@, 2502);
    }
    assert(holds(ROLLUP_FOUNDATION_SQL@, "COUNT(DISTINCT NULLIF(dispatch_key, ''))::BIGINT AS distinct_dispatch_countries"@)) by {
        reveal_strlit("COUNT(DISTINCT NULLIF(dispatch_key, ''))::BIGINT AS distinct_dispatch_countries");
        text_stands(ROLLUP_FOUNDATION_SQL@, "COUNT(DISTINCT NULLIF(dispatch_key, ''))::BIGINT AS distinct_dispatch_countries"@, 2595);
    }
    assert(holds(ROLLUP_FOUNDATION_SQL@, "COUNT(DISTINCT NULLIF(trade_key, ''))::BIGINT AS distinct_trade_countries"@)) by {
        reveal_strlit("COUNT(DISTINCT NULLIF(trade_key, ''))::BIGINT AS distinct_trade_countries");
        text_stands(ROLLUP_FOUNDATION_SQL@, "COUNT(DISTINCT NULLIF(trade_key, ''))::BIGINT AS distinct_trade_countries"@, 2692);
    }
    assert(holds(ROLLUP_FOUNDATION_SQL@, "COALESCE(SUM(gross_weight_kg), 0.0) AS total_gross_kg"@)) by {
        reveal_strlit("COALESCE(SUM(gross_weight_kg), 0.0) AS total_gross_kg");
        text_stands(ROLLUP_FOUNDATION_SQL@, "COALESCE(SUM(gross_weight_kg), 0.0) AS total_gross_kg"@, 3648);
    }
    assert(holds(ROLLUP_FOUNDATION_SQL@, "COALESCE(SUM(net_weight_kg), 0.0) AS total_net_kg"@)) by {
        reveal_strlit("COALESCE(SUM(net_weight_kg), 0.0) AS total_net_kg");
        text_stands(ROLLUP_FOUNDATION_SQL@, "COALESCE(SUM(net_weight_kg), 0.0) AS total_net_kg"@, 3719);
    }
    assert(holds(ROLLUP_FOUNDATION_SQL@, "COALESCE(SUM(quantity_num), 0.0) AS total_quantity"@)) by {
        reveal_strlit("COALESCE(SUM(quantity_num), 0.0) AS total_quantity");
        text_stands(ROLLUP_FOUNDATION_SQL@, "COALESCE(SUM(quantity_num), 0.0) AS total_quantity"@, 3786);
    }
    assert(holds(ROLLUP_FOUNDATION_SQL@, "THEN value_num ELSE 0.0 END), 0.0) AS paired_value"@)) by {
        reveal_strlit("THEN value_num ELSE 0.0 END), 0.0) AS paired_value");
        text_stands(ROLLUP_FOUNDATION_SQL@, "THEN value_num ELSE 0.0 END), 0.0) AS paired_value"@, 6995);
    }
    assert(holds(ROLLUP_FOUNDATION_SQL@, "THEN net_weight_kg ELSE 0.0 END), 0.0) AS paired_net_kg"@)) by {
        reveal_strlit("THEN net_weight_kg ELSE 0.0 END), 0.0) AS paired_net_kg");
        text_stands(ROLLUP_FOUNDATION_SQL@, "THEN net_weight_kg ELSE 0.0 END), 0.0) AS paired_net_kg"@, 7150);
    }
    assert(holds(ROLLUP_FOUNDATION_SQL@, "COALESCE(SUM(value_num), 0.0) AS total_value"@)) by {
        reveal_strlit("COALESCE(SUM(value_num), 0.0) AS total_value");
        text_stands(ROLLUP_FOUNDATION_SQL@, "COALESCE(SUM(value_num), 0.0) AS total_value"@, 7223);
    }
    assert(holds(ROLLUP_FOUNDATION_SQL@, "COUNT(net_kg_num) AS net_rows"@)) by {
        reveal_strlit("COUNT(net_kg_num) AS net_rows");
        text_stands(ROLLUP_FOUNDATION_SQL@, "COUNT(net_kg_num) AS net_rows"@, 7334);
    }
    assert(holds(ROLLUP_FOUNDATION_SQL@, "rows_count BIGINT,\n            declarations_count BIGINT,\n            companies_count BIGINT,\n            total_value_usd DOUBLE,\n            total_net_kg DOUBLE,\n            total_gross_kg DOUBLE,\n            total_quantity DOUBLE,\n            paired_value DOUBLE,\n            paired_net_kg DOUBLE,\n            total_value DOUBLE,\n            valued_rows BIGINT,\n            net_rows BIGINT,\n            gross_rows BIGINT,\n            net_source_total DOUBLE,\n            gross_source_total DOUBLE,\n            paired_row_count BIGINT,\n            paired_source_value DOUBLE,\n            paired_source_net DOUBLE"@)) by {
        reveal_strlit("rows_count BIGINT,\n            declarations_count BIGINT,\n            companies_count BIGINT,\n            total_value_usd DOUBLE,\n            total_net_kg DOUBLE,\n            total_gross_kg DOUBLE,\n            total_quantity DOUBLE,\n            paired_value DOUBLE,\n            paired_net_kg DOUBLE,\n            total_value DOUBLE,\n            valued_rows BIGINT,\n            net_rows BIGINT,\n            gross_rows BIGINT,\n            net_source_total DOUBLE,\n            gross_source_total DOUBLE,\n            paired_row_count BIGINT,\n            paired_source_value DOUBLE,\n            paired_source_net DOUBLE");
        text_stands(ROLLUP_FOUNDATION_SQL@, "rows_count BIGINT,\n            declarations_count BIGINT,\n            companies_count BIGINT,\n            total_value_usd DOUBLE,\n            total_net_kg DOUBLE,\n            total_gross_kg DOUBLE,\n            total_quantity DOUBLE,\n            paired_value DOUBLE,\n            paired_net_kg DOUBLE,\n            total_value DOUBLE,\n            valued_rows BIGINT,\n            net_rows BIGINT,\n            gross_rows BIGINT,\n            net_source_total DOUBLE,\n            gross_source_total DOUBLE,\n            paired_row_count BIGINT,\n            paired_source_value DOUBLE,\n            paired_source_net DOUBLE"@, 8641);
    }
}

/// The columns of the projection stand in the order in which the records of the
/// source are read.
pub proof fn the_projection_has_its_columns_in_order()
    ensures
        holds(PROJECTION_TABLES_SQL@, "id BIGINT,\n            year BIGINT,\n            declaration_number VARCHAR,\n            sender_label VARCHAR,\n            sender_text VARCHAR,\n            recipient_label VARCHAR,\n            recipient_text VARCHAR,\n            edrpou_label VARCHAR,\n            edrpou_key VARCHAR,\n            product_code VARCHAR,\n            product_code_text VARCHAR"@),
        holds(PROJECTION_TABLES_SQL@, "description VARCHAR,\n            description_text VARCHAR,\n            trademark_label VARCHAR,\n            trademark_key VARCHAR,\n            origin_key VARCHAR,\n            dispatch_key VARCHAR,\n            trade_key VARCHAR,\n            month VARCHAR"@),
        holds(PROJECTION_TABLES_SQL@, "month VARCHAR,\n            value_num DOUBLE,\n            net_kg_num DOUBLE,\n            gross_kg_num DOUBLE,\n            quantity_num DOUBLE,\n            rfv_num DOUBLE,\n            rmv_net_num DOUBLE,\n            rmv_extra_num DOUBLE,\n            rmv_gross_num DOUBLE,\n            min_base_num DOUBLE,\n            currency_key VARCHAR,\n            weight_unit_key VARCHAR,\n            dup_first_file VARCHAR"@),
{
    reveal_strlit(
        "CREATE TABLE records (\n            id BIGINT,\n            year BIGINT,\n            declaration_number VARCHAR,\n            sender_label VARCHAR,\n            sender_text VARCHAR,\n            recipient_label VARCHAR,\n            recipient_text VARCHAR,\n            edrpou_label VARCHAR,\n            edrpou_key VARCHAR,\n            product_code VARCHAR,\n            product_code_text VARCHAR,\n            description VARCHAR,\n            description_text VARCHAR,\n            trademark_label VARCHAR,\n            trademark_key VARCHAR,\n            origin_key VARCHAR,\n            dispatch_key VARCHAR,\n            trade_key VARCHAR,\n            month VARCHAR,\n            value_num DOUBLE,\n            net_kg_num DOUBLE,\n            gross_kg_num DOUBLE,\n            quantity_num DOUBLE,\n            rfv_num DOUBLE,\n            rmv_net_num DOUBLE,\n            rmv_extra_num DOUBLE,\n            rmv_gross_num DOUBLE,\n            min_base_num DOUBLE,\n            currency_key VARCHAR,\n            weight_unit_key VARCHAR,\n            dup_first_file VARCHAR\n        );\n        CREATE TABLE projection_meta(key VARCHAR PRIMARY KEY, value VARCHAR);",
    );
    assert(holds(PROJECTION_TABLES_SQL@, "id BIGINT,\n            year BIGINT,\n            declaration_number VARCHAR,\n            sender_label VARCHAR,\n            sender_text VARCHAR,\n            recipient_label VARCHAR,\n            recipient_text VARCHAR,\n            edrpou_label VARCHAR,\n            edrpou_key VARCHAR,\n            product_code VARCHAR,\n            product_code_text VARCHAR"@)) by {
        reveal_strlit("id BIGINT,\n            year BIGINT,\n            declaration_number VARCHAR,\n            sender_label VARCHAR,\n            sender_text VARCHAR,\n            recipient_label VARCHAR,\n            recipient_text VARCHAR,\n            edrpou_label VARCHAR,\n            edrpou_key VARCHAR,\n            product_code VARCHAR,\n            product_code_text VARCHAR");
        text_stands(PROJECTION_TABLES_SQL@, "id BIGINT,\n            year BIGINT,\n            declaration_number VARCHAR,\n            sender_label VARCHAR,\n            sender_text VARCHAR,\n            recipient_label VARCHAR,\n            recipient_text VARCHAR,\n            edrpou_label VARCHAR,\n            edrpou_key VARCHAR,\n            product_code VARCHAR,\n            product_code_text VARCHAR"@, 35);
    }
    assert(holds(PROJECTION_TABLES_SQL@, "description VARCHAR,\n            description_text VARCHAR,\n            trademark_label VARCHAR,\n            trademark_key VARCHAR,\n            origin_key VARCHAR,\n            dispatch_key VARCHAR,\n            trade_key VARCHAR,\n            month VARCHAR"@)) by {
        reveal_strlit("description VARCHAR,\n            description_text VARCHAR,\n            trademark_label VARCHAR,\n            trademark_key VARCHAR,\n            origin_key VARCHAR,\n            dispatch_key VARCHAR,\n            trade_key VARCHAR,\n            month VARCHAR");
        text_stands(PROJECTION_TABLES_SQL@, "description VARCHAR,\n            description_text VARCHAR,\n            trademark_label VARCHAR,\n            trademark_key VARCHAR,\n            origin_key VARCHAR,\n            dispatch_key VARCHAR,\n            trade_key VARCHAR,\n            month VARCHAR"@, 402);
    }
    assert(holds(PROJECTION_TABLES_SQL@, "month VARCHAR,\n            value_num DOUBLE,\n            net_kg_num DOUBLE,\n            gross_kg_num DOUBLE,\n            quantity_num DOUBLE,\n            rfv_num DOUBLE,\n            rmv_net_num DOUBLE,\n            rmv_extra_num DOUBLE,\n            rmv_gross_num DOUBLE,\n            min_base_num DOUBLE,\n            currency_key VARCHAR,\n            weight_unit_key VARCHAR,\n            dup_first_file VARCHAR"@)) by {
        reveal_strlit("month VARCHAR,\n            value_num DOUBLE,\n            net_kg_num DOUBLE,\n            gross_kg_num DOUBLE,\n            quantity_num DOUBLE,\n            rfv_num DOUBLE,\n            rmv_net_num DOUBLE,\n            rmv_extra_num DOUBLE,\n            rmv_gross_num DOUBLE,\n            min_base_num DOUBLE,\n            currency_key VARCHAR,\n            weight_unit_key VARCHAR,\n            dup_first_file VARCHAR");
        text_stands(PROJECTION_TABLES_SQL@, "month VARCHAR,\n            value_num DOUBLE,\n            net_kg_num DOUBLE,\n            gross_kg_num DOUBLE,\n            quantity_num DOUBLE,\n            rfv_num DOUBLE,\n            rmv_net_num DOUBLE,\n            rmv_extra_num DOUBLE,\n            rmv_gross_num DOUBLE,\n            min_base_num DOUBLE,\n            currency_key VARCHAR,\n            weight_unit_key VARCHAR,\n            dup_first_file VARCHAR"@, 642);
    }
}

/// Every row that is put in, changed or taken out gives an unchanged source a new
/// generation and marks it as changed.
pub proof fn every_change_of_the_source_is_noted()
    ensures
        holds(SOURCE_TRACKING_SQL@, "AFTER INSERT ON records BEGIN\n            UPDATE base_search_olap_state\n            SET generation = lower(hex(randomblob(16))), dirty = 1\n            WHERE singleton = 1 AND dirty = 0;"@),
        holds(SOURCE_TRACKING_SQL@, "AFTER UPDATE ON records BEGIN\n            UPDATE base_search_olap_state\n            SET generation = lower(hex(randomblob(16))), dirty = 1\n            WHERE singleton = 1 AND dirty = 0;"@),
        holds(SOURCE_TRACKING_SQL@, "AFTER DELETE ON records BEGIN\n            UPDATE base_search_olap_state\n            SET generation = lower(hex(randomblob(16))), dirty = 1\n            WHERE singleton = 1 AND dirty = 0;"@),
{
    reveal_strlit(
        "CREATE TABLE IF NOT EXISTS base_search_olap_state (\n            singleton INTEGER PRIMARY KEY CHECK(singleton = 1),\n            generation TEXT NOT NULL,\n            dirty INTEGER NOT NULL CHECK(dirty IN (0, 1)),\n            tracking_version TEXT NOT NULL\n        );\n        INSERT OR IGNORE INTO base_search_olap_state\n            (singleton, generation, dirty, tracking_version)\n        VALUES (1, lower(hex(randomblob(16))), 1, '1');\n        UPDATE base_search_olap_state\n        SET generation = lower(hex(randomblob(16))),\n            dirty = 1,\n            tracking_version = '1'\n        WHERE singleton = 1 AND tracking_version <> '1';\n        DROP TRIGGER IF EXISTS base_search_olap_records_insert;\n        DROP TRIGGER IF EXISTS base_search_olap_records_update;\n        DROP TRIGGER IF EXISTS base_search_olap_records_delete;\n        CREATE TRIGGER base_search_olap_records_insert AFTER INSERT ON records BEGIN\n            UPDATE base_search_olap_state\n            SET generation = lower(hex(randomblob(16))), dirty = 1\n            WHERE singleton = 1 AND dirty = 0;\n        END;\n        CREATE TRIGGER base_search_olap_records_update AFTER UPDATE ON records BEGIN\n            UPDATE base_search_olap_state\n            SET generation = lower(hex(randomblob(16))), dirty = 1\n            WHERE singleton = 1 AND dirty = 0;\n        END;\n        CREATE TRIGGER base_search_olap_records_delete AFTER DELETE ON records BEGIN\n            UPDATE base_search_olap_state\n            SET generation = lower(hex(randomblob(16))), dirty = 1\n            WHERE singleton = 1 AND dirty = 0;\n        END;",
    );
    assert(holds(SOURCE_TRACKING_SQL@, "AFTER INSERT ON records BEGIN\n            UPDATE base_search_olap_state\n            SET generation = lower(hex(randomblob(16))), dirty = 1\n            WHERE singleton = 1 AND dirty = 0;"@)) by {
        reveal_strlit("AFTER INSERT ON records BEGIN\n            UPDATE base_search_olap_state\n            SET generation = lower(hex(randomblob(16))), dirty = 1\n            WHERE singleton = 1 AND dirty = 0;");
        text_stands(SOURCE_TRACKING_SQL@, "AFTER INSERT ON records BEGIN\n            UPDATE base_search_olap_state\n            SET generation = lower(hex(randomblob(16))), dirty = 1\n            WHERE singleton = 1 AND dirty = 0;"@, 890);
    }
    assert(holds(SOURCE_TRACKING_SQL@, "AFTER UPDATE ON records BEGIN\n            UPDATE base_search_olap_state\n            SET generation = lower(hex(randomblob(16))), dirty = 1\n            WHERE singleton = 1 AND dirty = 0;"@)) by {
        reveal_strlit("AFTER UPDATE ON records BEGIN\n            UPDATE base_search_olap_state\n            SET generation = lower(hex(randomblob(16))), dirty = 1\n            WHERE singleton = 1 AND dirty = 0;");
        text_stands(SOURCE_TRACKING_SQL@, "AFTER UPDATE ON records BEGIN\n            UPDATE base_search_olap_state\n            SET generation = lower(hex(randomblob(16))), dirty = 1\n            WHERE singleton = 1 AND dirty = 0;"@, 1144);
    }
    assert(holds(SOURCE_TRACKING_SQL@, "AFTER DELETE ON records BEGIN\n            UPDATE base_search_olap_state\n            SET generation = lower(hex(randomblob(16))), dirty = 1\n            WHERE singleton = 1 AND dirty = 0;"@)) by {
        reveal_strlit("AFTER DELETE ON records BEGIN\n            UPDATE base_search_olap_state\n            SET generation = lower(hex(randomblob(16))), dirty = 1\n            WHERE singleton = 1 AND dirty = 0;");
        text_stands(SOURCE_TRACKING_SQL@, "AFTER DELETE ON records BEGIN\n            UPDATE base_search_olap_state\n            SET generation = lower(hex(randomblob(16))), dirty = 1\n            WHERE singleton = 1 AND dirty = 0;"@, 1398);
    }
}

} // verus!
