use base_search::analytics::{
    AnalyticsCurrencyTotal, AnalyticsFilterField, AnalyticsMeasures, AnalyticsScope,
    AnalyticsSectionKind, PriceMetricKind, Real,
};
use base_search::calendar::moment_text;
use base_search::engines::DuckDbAnalyticsEngine;
use base_search::olap::answers::{
    analytics_from_rollups, analytics_scoped_detail, analytics_section, measure_plan,
    projection_row_count, rollup_section,
};
use base_search::olap::benchmark::{
    benchmark_runs, benchmark_scenarios, measure_duck_scenario, run_duckdb_benchmark,
    scenario_rows, MeasuredRun, OlapBenchmarkOptions, ScenarioMeasure,
};
use base_search::olap::building::{
    backup_path, build_projection_file, build_projection_replacing, built_projection,
    default_projection_path, replace_file_preserving_backup, start_build, start_fill,
    start_replace, temporary_projection_path, BuildRecord, BuildStep, FillStage, ReplaceStep,
    RowTally,
};
use base_search::olap::contract::{
    check_tracking, check_triggers, hash_part, hash_query_rows, rollup_contract_fingerprint,
    source_contract, source_fingerprint, SourceContract, SourceState, SourceTrigger, SqlValue,
    PROJECTION_SCHEMA_VERSION, ROLLUP_CONTRACT, ROLLUP_RULES_VERSION, ROLLUP_SCHEMA_VERSION,
    SOURCE_TRIGGERS,
};
use base_search::olap::filter::{
    supports_projection_query, supports_rollup_query, DuckFilter, FilterKeys, RollupSelector,
};
use base_search::olap::measures::{
    currency_is_known, currency_total, group_pairs, inherited_projection_usd, is_positive,
    projection_measures, projection_usd_compat, read_count, value_per_weight, weight_factor,
    weight_total, ExclusionCounts, PairSums, PairedRow,
};
use base_search::olap::meta::{
    prepare_source_generation, projection_is_current, read_projection_meta,
    read_projection_meta_value, require_rollup_schema, rules_are_current, validate_rollups,
    write_projection_meta, MetaEntry, ROLLUP_TABLES,
};
use base_search::olap::prices::{
    price_cohorts, price_metrics, projection_price_metric,
    projection_value_per_net_weight_metric,
    source_price_statements, CohortCells, CurrencyUnit, PriceCells,
};
use base_search::olap::projection::{
    answer_source, build_rollups, maps_meaning, projection_select_sql, projection_values,
    rollup_months_sql, rollup_semantics_are_safe, schema_aware_projection_value,
    source_schema_shape, DuckAnalyticsSource, ProjectionValue, RollupModes, SchemaExpression,
};
use base_search::olap::sections::{
    code_digits, code_label_sql, group_row, month_row, month_series, projection_overview,
    projection_section_grouping, rollup_overview, rollup_section_contract, share_basis,
    GroupCells, MonthCells, OverviewCounts, ShareBasis,
};
use base_search::olap::sql::{fill, sql_string};
use base_search::olap::statements::{
    clamp, count_sql, months_sql, normalized_weight_sql, section_sql,
};
use base_search::paths::FilePath;
use base_search::query::{Query, QueryExpr, RecordScope};
use base_search::table::{
    ColumnRole, ColumnStorage, SemanticField, SourceSchema, SourceSchemaField,
};

fn held(value: f64) -> Real {
    Real { bits: value.to_bits() }
}

fn path(text: &str) -> FilePath {
    FilePath {
        root: String::new(),
        parts: text.split('/').map(str::to_string).collect(),
    }
}

fn keys() -> FilterKeys {
    FilterKeys {
        year: None,
        trademark: String::new(),
        edrpou: String::new(),
        trade_country: String::new(),
        dispatch_country: String::new(),
        origin_country: String::new(),
    }
}

fn everything() -> Query {
    Query { record_scope: RecordScope::Occurrences, ..Query::default() }
}

#[test]
fn a_literal_keeps_its_text() {
    assert_eq!(sql_string("O'Brien"), "'O''Brien'");
    assert_eq!(sql_string(""), "''");
    assert_eq!(sql_string("'; DROP TABLE records; --"), "'''; DROP TABLE records; --'");
    assert_eq!(fill("a @ b @", &["1", "@"]), "a 1 b @");
}

#[test]
fn a_query_becomes_conditions() {
    let mut query = Query::default();
    query.text = "  Яблуко's ".to_string();
    query.filters.year = "2024".to_string();
    query.filters.product_code = " 8517 ".to_string();
    query.filters.sender = "АПЕЛЬСИН".to_string();
    query.filters.origin_country = "China".to_string();
    let keys = FilterKeys { year: Some(2024), origin_country: "CN".to_string(), ..keys() };
    let filter = DuckFilter::from_query(&query, &keys);
    assert_eq!(filter.conditions.len(), 6);
    assert_eq!(filter.conditions[0], "dup_first_file IS NULL");
    assert!(filter.conditions[1].starts_with("contains(lower(coalesce(description, '')"));
    assert!(filter.conditions[1].ends_with("'яблуко''s')"));
    assert_eq!(filter.conditions[2], "year = 2024");
    assert_eq!(
        filter.conditions[3],
        "starts_with(coalesce(product_code_text, ''), '8517')"
    );
    assert_eq!(
        filter.conditions[4],
        "contains(lower(coalesce(sender_text, '')), 'апельсин')"
    );
    assert_eq!(filter.conditions[5], "origin_key = 'CN'");
    assert!(filter.where_sql().starts_with("WHERE dup_first_file IS NULL AND contains("));
    assert!(filter.where_extra_sql().ends_with(" AND origin_key = 'CN' AND"));

    let nothing = DuckFilter::from_query(&everything(), &self::keys());
    assert_eq!(nothing.where_sql(), "");
    assert_eq!(nothing.where_extra_sql(), "WHERE");
    assert_eq!(count_sql(&nothing).trim(), "SELECT COUNT(*) FROM records");
}

#[test]
fn only_a_query_for_a_year_is_answered_by_a_rollup() {
    let mut query = Query::default();
    let all = RollupSelector::from_query(&query).unwrap();
    assert_eq!((all.record_scope, all.year_key), ("canonical", 0));
    query.filters.year = " 2024 ".to_string();
    query.record_scope = RecordScope::Occurrences;
    let year = RollupSelector::from_query(&query).unwrap();
    assert_eq!((year.record_scope, year.year_key), ("occurrences", 2024));
    for year in ["0", "-1", "soon", "2024-03"] {
        query.filters.year = year.to_string();
        assert!(!supports_rollup_query(&query), "{year}");
    }
    query.filters.year = String::new();
    query.filters.sender = "x".to_string();
    assert!(RollupSelector::from_query(&query).is_none());
    assert!(supports_projection_query(&query));
    query.filters.sender = String::new();
    query.advanced = Some(QueryExpr { rules: "{}".to_string(), conditions: 1 });
    assert!(!supports_projection_query(&query));
    assert!(!supports_rollup_query(&query));
}

#[test]
fn a_rollup_answers_only_what_it_can() {
    let selector = RollupSelector::from_query(&Query::default());
    let modes = |money: &str, weight: &str| {
        Some(RollupModes { money: money.to_string(), weight: weight.to_string() })
    };
    for (money, money_is_safe) in
        [("single_usd", true), ("empty", true), ("unavailable", false), ("partitioned", false)]
    {
        for (weight, weight_is_safe) in
            [("normalized_kg", true), ("empty", true), ("unavailable", false)]
        {
            let modes = modes(money, weight);
            let safe = money_is_safe && weight_is_safe;
            assert_eq!(rollup_semantics_are_safe(&modes), safe, "{money} {weight}");
            let source = if safe { DuckAnalyticsSource::Rollup } else { DuckAnalyticsSource::Detail };
            assert_eq!(answer_source(&selector, &modes), source, "{money} {weight}");
        }
    }
    assert!(rollup_semantics_are_safe(&None));
    assert_eq!(answer_source(&selector, &None), DuckAnalyticsSource::Rollup);
    assert_eq!(answer_source(&None, &None), DuckAnalyticsSource::Detail);
}

#[test]
fn currencies_and_units_are_told_by_their_keys() {
    assert!(currency_is_known("USD"));
    assert!(!currency_is_known(""));
    assert!(!currency_is_known("__unknown__:3"));
    assert_eq!(weight_factor("kg"), Some(held(1.0)));
    assert_eq!(weight_factor("g"), Some(held(0.001)));
    assert_eq!(weight_factor("tonne"), Some(held(1000.0)));
    assert_eq!(weight_factor("lb"), Some(held(0.45359237)));
    assert_eq!(weight_factor("stone"), None);
    assert_eq!(read_count(-3), 0);
    assert_eq!(read_count(3), 3);
    assert!(is_positive(held(0.5)) && is_positive(held(f64::INFINITY)));
    assert!(!is_positive(held(0.0)) && !is_positive(held(-0.0)) && !is_positive(held(-1.0)));
    assert!(!is_positive(held(f64::NAN)));
    let total = currency_total("EUR".to_string(), 2, None);
    assert_eq!((total.known, total.valued_rows, total.total_value), (true, 2, held(0.0)));
    let weight = weight_total("lb".to_string(), 1, Some(held(2.0)), Some(held(0.9)));
    assert_eq!(weight.normalized_unit.as_deref(), Some("kg"));
    assert_eq!(weight_total("box".to_string(), 1, None, None).normalized_unit, None);
}

fn pair(currency: &str, unit: &str, rows: i64) -> PairedRow {
    PairedRow { currency: currency.to_string(), source_unit: unit.to_string(), rows }
}

#[test]
fn paired_rows_are_grouped_by_currency() {
    let groups = group_pairs(&vec![
        pair("USD", "lb", 2),
        pair("EUR", "kg", 1),
        pair("USD", "kg", 3),
        pair("USD", "kg", -5),
    ]);
    let shown: Vec<(&str, Vec<&str>, u64, Vec<usize>)> = groups
        .iter()
        .map(|group| {
            (
                group.currency.as_str(),
                group.source_units.iter().map(String::as_str).collect(),
                group.paired_rows,
                group.members.clone(),
            )
        })
        .collect();
    assert_eq!(
        shown,
        vec![
            ("EUR", vec!["kg"], 1, vec![1]),
            ("USD", vec!["kg", "lb"], 5, vec![0, 2, 3]),
        ]
    );
    let ratio = value_per_weight(groups[1].clone(), held(10.0), held(4.0), held(2.5));
    assert_eq!(ratio.value_per_weight, Some(held(2.5)));
    assert_eq!(ratio.normalized_weight_unit, "kg");
    let none = value_per_weight(groups[0].clone(), held(10.0), held(0.0), held(f64::INFINITY));
    assert_eq!(none.value_per_weight, None);
}

fn no_exclusions() -> ExclusionCounts {
    ExclusionCounts {
        value_without_known_currency: 0,
        net_weight_without_known_unit: 0,
        gross_weight_without_known_unit: 0,
        ratio_without_known_currency: 0,
        ratio_without_known_weight_unit: 0,
        ratio_with_zero_or_missing_weight: 0,
    }
}

#[test]
fn measures_hold_one_ratio_for_each_currency() {
    let pairs = vec![
        pair("USD", "lb", 2),
        pair("EUR", "kg", 1),
        pair("USD", "kg", 3),
        pair("USD", "kg", -5),
    ];
    let sums = vec![
        PairSums { total_value: held(8.0), total_weight: held(0.0), quotient: held(0.0) },
        PairSums { total_value: held(10.0), total_weight: held(4.0), quotient: held(2.5) },
    ];
    let totals = vec![currency_total("USD".to_string(), 5, Some(held(10.0)))];
    let measures =
        projection_measures(totals, Vec::new(), Vec::new(), &pairs, &sums, no_exclusions());
    let shown: Vec<(&str, Vec<&str>, u64, Option<Real>)> = measures
        .value_per_net_weight
        .iter()
        .map(|ratio| {
            (
                ratio.currency.as_str(),
                ratio.source_weight_units.iter().map(String::as_str).collect(),
                ratio.paired_rows,
                ratio.value_per_weight,
            )
        })
        .collect();
    assert_eq!(
        shown,
        vec![
            ("EUR", vec!["kg"], 1, None),
            ("USD", vec!["kg", "lb"], 5, Some(held(2.5))),
        ]
    );
    assert_eq!(measures.compatible_value_total.unwrap().currency, "USD");
    assert_eq!(
        measures.compatible_value_per_net_weight.unwrap().value_per_weight,
        Some(held(2.5))
    );
}

fn money(totals: &[(&str, f64)]) -> AnalyticsMeasures {
    let totals: Vec<AnalyticsCurrencyTotal> = totals
        .iter()
        .map(|(currency, total)| currency_total(currency.to_string(), 1, Some(held(*total))))
        .collect();
    let (pairs, sums) = (Vec::new(), Vec::new());
    projection_measures(totals, Vec::new(), Vec::new(), &pairs, &sums, no_exclusions())
}

#[test]
fn dollars_are_told_only_where_there_are_only_dollars() {
    let usd = projection_usd_compat(&money(&[("USD", 10.0)])).unwrap();
    assert_eq!(usd.total_value_usd, held(10.0));
    assert_eq!(projection_usd_compat(&money(&[("EUR", 10.0)])), None);
    assert_eq!(projection_usd_compat(&money(&[("USD", 10.0), ("EUR", 5.0)])), None);
    assert_eq!(projection_usd_compat(&money(&[("__unknown__", 10.0)])), None);
    let inherited =
        inherited_projection_usd(true, held(10.0), held(4.0), held(2.5)).unwrap();
    assert_eq!(inherited.avg_value_per_net_kg, Some(held(2.5)));
    let weightless = inherited_projection_usd(true, held(10.0), held(0.0), held(9.0)).unwrap();
    assert_eq!(weightless.avg_value_per_net_kg, None);
    assert_eq!(inherited_projection_usd(false, held(10.0), held(4.0), held(2.5)), None);
}

#[test]
fn sections_have_a_key_a_level_and_a_filter() {
    for (level, digits) in [(0, 2), (1, 2), (2, 2), (5, 5), (8, 8), (9, 8), (10, 10), (200, 10)] {
        assert_eq!(code_digits(level), digits);
    }
    assert_eq!(code_label_sql(10), "product_code");
    assert_eq!(code_label_sql(4), "SUBSTR(product_code, 1, 4)");
    assert_eq!(
        rollup_section_contract(AnalyticsSectionKind::ProductCodes, 4),
        ("product_codes", 4, Some(AnalyticsFilterField::ProductCode))
    );
    assert_eq!(
        rollup_section_contract(AnalyticsSectionKind::Senders, 4),
        ("senders", 0, Some(AnalyticsFilterField::Sender))
    );
    let grouping = projection_section_grouping(AnalyticsSectionKind::ProductGroups, 4);
    assert_eq!(grouping.label_sql, "SUBSTR(description, 1, 80)");
    assert_eq!(grouping.filter_field, Some(AnalyticsFilterField::Description));
    assert_eq!(share_basis(held(1.0), held(1.0)), ShareBasis::Value);
    assert_eq!(share_basis(held(0.0), held(1.0)), ShareBasis::NetWeight);
    assert_eq!(share_basis(held(-1.0), held(0.0)), ShareBasis::Rows);
    assert_eq!((clamp(0, 1, 5), clamp(9, 1, 5), clamp(3, 1, 5)), (1, 5, 3));
}

#[test]
fn rows_of_a_section_carry_their_filter() {
    let cells = GroupCells {
        label: "CN".to_string(),
        rows: 4,
        declarations: 3,
        companies: -1,
        total_value: Some(held(10.0)),
        total_net_kg: None,
        total_gross_kg: Some(held(5.0)),
        total_quantity: None,
        paired_weight: Some(held(4.0)),
        quotient: held(2.5),
        share_percent: held(12.5),
    };
    let row = group_row(
        cells.clone(),
        Some(AnalyticsFilterField::OriginCountry),
        true,
        AnalyticsMeasures::default(),
    );
    assert_eq!((row.rows, row.declarations, row.companies), (4, 3, 0));
    assert_eq!(row.total_value_usd, held(10.0));
    assert_eq!(row.avg_value_per_net_kg, held(2.5));
    let action = row.filter_action.unwrap();
    assert_eq!((action.field, action.value.as_str()), (AnalyticsFilterField::OriginCountry, "CN"));
    let plain = group_row(cells, None, false, AnalyticsMeasures::default());
    assert_eq!(plain.total_value_usd, held(0.0));
    assert_eq!(plain.compatible_usd, None);
    assert_eq!(plain.filter_action, None);
}

fn month(name: &str) -> MonthCells {
    MonthCells {
        month: name.to_string(),
        rows: 1,
        declarations: 1,
        total_value: None,
        total_net_kg: None,
        paired_weight: None,
        quotient: held(0.0),
    }
}

#[test]
fn months_are_handed_out_from_the_oldest_on() {
    let rows = ["2024-03", "2024-02", "2024-01"]
        .iter()
        .map(|name| month_row(month(name), false, AnalyticsMeasures::default()))
        .collect();
    let months: Vec<String> = month_series(rows).into_iter().map(|row| row.month).collect();
    assert_eq!(months, ["2024-01", "2024-02", "2024-03"]);
}

#[test]
fn an_overview_counts_nothing_where_there_is_no_rollup() {
    let counts = OverviewCounts {
        rows: 7,
        declarations: 6,
        senders: 5,
        recipients: 4,
        edrpou: 3,
        trademarks: 2,
        product_codes: 1,
        origin_countries: 8,
        dispatch_countries: 9,
        trade_countries: 10,
        quantity: Some(held(3.0)),
    };
    let overview =
        projection_overview(counts, held(2.0), held(3.0), money(&[("USD", 10.0)]));
    assert_eq!(overview.row_count, 7);
    assert_eq!(overview.distinct_trade_countries, 10);
    assert_eq!(overview.total_value_usd, held(10.0));
    let none = rollup_overview(None, held(0.0), held(0.0), AnalyticsMeasures::default());
    assert_eq!((none.row_count, none.distinct_senders), (0, 0));
}

#[test]
fn the_plan_of_an_answer_follows_the_scope() {
    let plan = analytics_scoped_detail(
        &everything(),
        &keys(),
        25,
        12,
        Some(AnalyticsScope::Countries),
        4,
    )
    .unwrap();
    let kinds: Vec<AnalyticsSectionKind> = plan.sections.iter().map(|s| s.kind).collect();
    assert_eq!(
        kinds,
        [
            AnalyticsSectionKind::OriginCountries,
            AnalyticsSectionKind::DispatchCountries,
            AnalyticsSectionKind::TradeCountries,
        ]
    );
    assert!(plan.prices.is_none());
    let prices =
        analytics_scoped_detail(&everything(), &keys(), 25, 12, Some(AnalyticsScope::Prices), 4)
            .unwrap();
    assert!(prices.sections.is_empty());
    assert_eq!(prices.prices.unwrap().source_prices.len(), 5);

    let mut advanced = everything();
    advanced.advanced = Some(QueryExpr { rules: "{}".to_string(), conditions: 2 });
    let refusal = analytics_scoped_detail(&advanced, &keys(), 25, 12, None, 4).unwrap_err();
    assert_eq!(projection_row_count(&advanced, &keys()).unwrap_err(), refusal);
    assert_eq!(
        analytics_section(&advanced, &keys(), AnalyticsSectionKind::Senders, 4, 5).unwrap_err(),
        refusal
    );
    let filter = DuckFilter::from_query(&everything(), &keys());
    assert_eq!(projection_row_count(&everything(), &keys()).unwrap(), count_sql(&filter));
    let one = analytics_section(&everything(), &keys(), AnalyticsSectionKind::Senders, 4, 5).unwrap();
    assert_eq!(one.section.sql, section_sql(&filter, "sender_label", 5));
    assert!(one.section.sql.contains("sender_label"));
    assert_eq!(plan.months, months_sql(&filter, 12));
    assert_eq!(plan.measures.currency_totals, measure_plan(&filter).currency_totals);
    let selector = RollupSelector::from_query(&everything()).unwrap();
    let scope = Some(AnalyticsScope::Products);
    let products = analytics_from_rollups(&everything(), &keys(), selector, 25, 36, scope, 10);
    assert_eq!(
        (products.selector.record_scope, products.selector.year_key),
        (selector.record_scope, selector.year_key)
    );
    assert!(products.overview.contains("FROM rollup_overview"));
    assert_eq!(products.months, rollup_months_sql(36));
    assert!(products.months.ends_with("ORDER BY month DESC LIMIT 36"));
    assert!(products.section.contains("FROM rollup_sections"));
    assert_eq!(products.sections.len(), 3);
    assert!(products.prices.is_none());
    let headline = analytics_from_rollups(&everything(), &keys(), selector, 25, 36, None, 10);
    assert!(headline.sections.is_empty() && headline.prices.is_none());
    let section = rollup_section(AnalyticsSectionKind::ProductCodes, 10, 25);
    assert_eq!((section.key, section.level, section.limit), ("product_codes", 10, 25));
    assert!(normalized_weight_sql("net_kg_num").contains("net_kg_num"));
}

fn state() -> SourceState {
    SourceState {
        generation: "g1".to_string(),
        dirty: 0,
        tracking_version: "1".to_string(),
        records_schema: "r".to_string(),
        state_schema: "s".to_string(),
        source_schemas_schema: "a".to_string(),
        source_columns_schema: "b".to_string(),
        import_sources_schema: "c".to_string(),
        triggers: SOURCE_TRIGGERS
            .iter()
            .map(|name| SourceTrigger { name: name.to_string(), sql: "t".to_string() })
            .collect(),
        semantic_mapping: "m".to_string(),
        source_identity: "/data/base.db".to_string(),
        source_schemas: vec![vec![SqlValue::Integer(-1), SqlValue::Text(b"x".to_vec())]],
        source_columns: Vec::new(),
        import_sources: vec![vec![SqlValue::Null], vec![SqlValue::Real(held(1.5))]],
    }
}

fn sized(bytes: &[u8]) -> Vec<u8> {
    let mut out = (bytes.len() as u64).to_le_bytes().to_vec();
    out.extend_from_slice(bytes);
    out
}

fn labelled(label: &str, value: &str) -> Vec<u8> {
    let mut out = sized(label.as_bytes());
    out.extend(sized(value.as_bytes()));
    out
}

fn sha256_hex(bytes: &[u8]) -> String {
    <sha2::Sha256 as sha2::Digest>::digest(bytes)
        .iter()
        .map(|byte| format!("{byte:02x}"))
        .collect()
}

#[test]
fn the_rollup_rules_have_an_identity() {
    let mut bytes = labelled("schema", ROLLUP_SCHEMA_VERSION);
    bytes.extend(labelled("rules", ROLLUP_RULES_VERSION));
    bytes.extend(labelled("contract", ROLLUP_CONTRACT));
    assert_eq!(rollup_contract_fingerprint(), sha256_hex(&bytes));
    let mut parts = Vec::new();
    hash_part(&mut parts, "ab", "c");
    assert_eq!(parts, labelled("ab", "c"));
    let mut others = Vec::new();
    hash_part(&mut others, "a", "bc");
    assert_ne!(parts, others);
}

#[test]
fn tables_are_hashed_row_by_row() {
    let mut bytes = Vec::new();
    hash_query_rows(
        &mut bytes,
        "t",
        &vec![
            vec![SqlValue::Integer(-2), SqlValue::Blob(vec![7])],
            vec![SqlValue::Real(held(-0.5)), SqlValue::Null],
        ],
    );
    let mut expected = labelled("table_state", "t");
    expected.push(0xff);
    expected.extend(0u64.to_le_bytes());
    expected.push(1);
    expected.extend((-2i64).to_le_bytes());
    expected.extend(1u64.to_le_bytes());
    expected.push(4);
    expected.extend(sized(&[7]));
    expected.push(0xff);
    expected.extend(0u64.to_le_bytes());
    expected.push(2);
    expected.extend((-0.5f64).to_bits().to_le_bytes());
    expected.extend(1u64.to_le_bytes());
    expected.push(0);
    assert_eq!(bytes, expected);
}

#[test]
fn a_source_is_known_by_what_shapes_its_records() {
    let contract = source_contract(state()).unwrap();
    assert_eq!(contract.generation, "g1");
    assert_eq!(contract.fingerprint, source_fingerprint(&state()));
    assert_eq!(contract.fingerprint.len(), 64);
    let mut other = state();
    other.source_identity = "/data/copy.db".to_string();
    assert_ne!(source_fingerprint(&other), contract.fingerprint);
    let mut dirty = state();
    dirty.dirty = 1;
    assert_ne!(source_fingerprint(&dirty), contract.fingerprint);
    let mut old = state();
    old.tracking_version = "0".to_string();
    assert_eq!(
        source_contract(old).unwrap_err(),
        "SQLite projection generation is incompatible."
    );
    let mut untracked = state();
    untracked.triggers.pop();
    assert_eq!(
        source_contract(untracked).unwrap_err(),
        "SQLite projection tracking triggers are missing or incompatible."
    );
    assert!(check_tracking("1").is_ok());
    assert!(check_triggers(&state().triggers).is_ok());
    let mut swapped = state().triggers;
    swapped.swap(0, 1);
    assert!(check_triggers(&swapped).is_err());
}

fn contract() -> SourceContract {
    SourceContract { generation: "g1".to_string(), fingerprint: "f1".to_string() }
}

#[test]
fn a_projection_record_reads_back() {
    let entries = write_projection_meta("/data/base.db", 12, 40, &contract(), "now");
    let meta = read_projection_meta(&entries, "missing").unwrap();
    assert_eq!(meta.source_sqlite, "/data/base.db");
    assert_eq!((meta.rows, meta.max_record_id), (12, 40));
    assert_eq!(meta.schema_version, PROJECTION_SCHEMA_VERSION);
    assert_eq!(meta.built_at, "now");
    assert!(rules_are_current(&meta));
    assert!(projection_is_current(&meta, &contract()));
    let changed = SourceContract { generation: "g2".to_string(), fingerprint: "f1".to_string() };
    assert!(!projection_is_current(&meta, &changed));
    let here = FilePath { root: String::new(), parts: vec!["base.db".to_string()] };
    let engine = DuckDbAnalyticsEngine::new(here.clone(), here);
    let failed = || Err("locked".to_string());
    assert_eq!(engine.is_current(Ok(meta.clone()), Ok(contract())), Ok(true));
    assert_eq!(engine.is_current(Ok(meta.clone()), Ok(changed)), Ok(false));
    assert_eq!(engine.is_current(Ok(meta.clone()), failed()), Err("locked".to_string()));
    assert_eq!(engine.is_current(Err("gone".to_string()), failed()), Err("gone".to_string()));
    let mut old = meta;
    old.schema_version = "0".to_string();
    assert_eq!(engine.is_current(Ok(old), failed()), Ok(false));

    let without = |key: &str| -> Vec<MetaEntry> {
        entries.iter().filter(|entry| entry.key != key).cloned().collect()
    };
    assert_eq!(
        read_projection_meta(&without("built_at"), "no row").unwrap_err(),
        "Could not read projection metadata built_at: no row"
    );
    assert_eq!(read_projection_meta_value(&entries, "rows", "no row").unwrap(), "12");
    let mut older = without("max_record_id");
    older.push(MetaEntry { key: "max_id".to_string(), value: "41".to_string() });
    assert_eq!(read_projection_meta(&older, "no row").unwrap().max_record_id, 41);
    let mut wrong = without("rows");
    wrong.push(MetaEntry { key: "rows".to_string(), value: "many".to_string() });
    let problem = "many".parse::<u64>().unwrap_err();
    assert_eq!(
        read_projection_meta(&wrong, "no row").unwrap_err(),
        format!("Invalid projection row count: {problem}")
    );
    wrong.pop();
    wrong.push(MetaEntry { key: "rows".to_string(), value: "99999999999999999999".to_string() });
    assert!(read_projection_meta(&wrong, "no row").unwrap_err().contains("too large"));
}

#[test]
fn rollups_have_to_fit_their_rows() {
    assert!(require_rollup_schema(&[1, 1, 1, 1, 1]).is_ok());
    let missing = require_rollup_schema(&[1, 1, 0, 1, 1]).unwrap_err();
    assert!(missing.contains(ROLLUP_TABLES[2]), "{missing}");
    assert!(validate_rollups(10, 10, 8, 8).is_ok());
    assert!(validate_rollups(10, 9, 8, 8).is_err());
    assert!(validate_rollups(10, 10, 8, 7).is_err());
    assert!(prepare_source_generation(1).is_ok());
    assert!(prepare_source_generation(0).is_err());
}

/// What stands in the three places while a file takes the place of another.
#[derive(Clone, Debug, PartialEq)]
struct Places {
    new_file: Option<u32>,
    place: Option<u32>,
    backup: Option<u32>,
}

fn replace(mut files: Places, fails: &[&str]) -> (Places, Result<(), String>) {
    let mut step = start_replace(files.backup.is_some());
    loop {
        let label = match &step {
            ReplaceStep::RemoveBackup => "clear",
            ReplaceStep::Look => "look",
            ReplaceStep::MoveAside => "aside",
            ReplaceStep::Install { .. } => "install",
            ReplaceStep::DropBackup => "drop",
            ReplaceStep::Restore { .. } => "restore",
            ReplaceStep::Done => return (files, Ok(())),
            ReplaceStep::Failed(reason) => return (files, Err(reason.clone())),
        };
        let outcome = if fails.contains(&label) {
            Err("denied".to_string())
        } else {
            match label {
                "clear" | "drop" => files.backup = None,
                "aside" => files.backup = files.place.take(),
                "install" => files.place = files.new_file.take(),
                "restore" => files.place = files.backup.take(),
                _ => {}
            }
            Ok(files.place.is_some())
        };
        step = replace_file_preserving_backup(step, outcome, "p.duckdb", "p.backup");
    }
}

#[test]
fn the_projection_in_use_is_not_lost() {
    let before = Places { new_file: Some(2), place: Some(1), backup: None };
    let (after, outcome) = replace(before.clone(), &[]);
    assert_eq!(outcome, Ok(()));
    assert_eq!(after, Places { new_file: None, place: Some(2), backup: None });
    let (after, outcome) = replace(before.clone(), &["install"]);
    assert_eq!(
        outcome.unwrap_err(),
        "Could not install DuckDB projection p.duckdb: denied"
    );
    assert_eq!(after, before);
    let (after, outcome) = replace(before.clone(), &["install", "restore"]);
    assert_eq!(
        outcome.unwrap_err(),
        "Could not install DuckDB projection p.duckdb: denied; the previous projection could not be restored from p.backup: denied"
    );
    assert_eq!(after.backup, Some(1));
    let (after, outcome) = replace(before.clone(), &["aside"]);
    assert_eq!(
        outcome.unwrap_err(),
        "Could not move existing projection p.duckdb to backup p.backup: denied"
    );
    assert_eq!(after, before);
    let left = Places { backup: Some(9), ..before };
    assert_eq!(
        replace(left.clone(), &["clear"]).1.unwrap_err(),
        "Could not remove stale backup p.backup: denied"
    );
    assert_eq!(replace(left, &[]).0.place, Some(2));
    let first = Places { new_file: Some(2), place: None, backup: None };
    assert_eq!(replace(first, &[]).0.place, Some(2));
}

fn replacing(exists: bool, fails: &str, current: bool) -> (Vec<&'static str>, Result<(), String>) {
    let mut step = start_build(exists);
    let mut trace = Vec::new();
    loop {
        let label = match &step {
            BuildStep::ClearTemporary => "clear",
            BuildStep::Build => "build",
            BuildStep::Validate => "validate",
            BuildStep::Lock => "lock",
            BuildStep::Install => "install",
            BuildStep::Discard { .. } => "discard",
            BuildStep::Done => return (trace, Ok(())),
            BuildStep::Failed(reason) => return (trace, Err(reason.clone())),
        };
        trace.push(label);
        let outcome = if fails == label {
            Err("denied".to_string())
        } else {
            Ok(label != "validate" || current)
        };
        step = build_projection_replacing(step, outcome, "p.tmp");
    }
}

#[test]
fn only_a_current_projection_is_put_in_place() {
    let (trace, outcome) = replacing(false, "", true);
    assert_eq!(trace, ["build", "validate", "lock", "install"]);
    assert_eq!(outcome, Ok(()));
    let (trace, outcome) = replacing(true, "", false);
    assert_eq!(trace, ["clear", "build", "validate", "discard"]);
    assert_eq!(
        outcome.unwrap_err(),
        "SQLite changed while the DuckDB projection was being built; keeping the previous projection."
    );
    for (fails, message) in [
        ("clear", "Could not remove stale temporary DuckDB projection p.tmp: denied"),
        ("build", "denied"),
        ("validate", "Could not validate the new DuckDB projection: denied"),
        ("lock", "DuckDB projection access lock is poisoned."),
        ("install", "denied"),
    ] {
        assert_eq!(replacing(true, fails, true).1.unwrap_err(), message);
    }
}

#[test]
fn a_projection_file_is_filled_stage_by_stage() {
    let mut stage = start_fill(false);
    let mut stages = 0;
    while !matches!(stage, FillStage::Done) {
        assert!(!matches!(stage, FillStage::Failed(_)));
        stage = build_projection_file(stage, Ok(()), "p");
        stages += 1;
    }
    assert_eq!(stages, 15);
    assert!(matches!(start_fill(true), FillStage::RemoveOld));
    match build_projection_file(FillStage::RemoveOld, Err("denied".to_string()), "p") {
        FillStage::Failed(reason) => {
            assert_eq!(reason, "Could not replace DuckDB projection p: denied")
        }
        other => panic!("{other:?}"),
    }
    for (stage, said) in [
        (FillStage::PrepareGeneration, "Could not prepare the SQLite projection generation: "),
        (FillStage::CheckGeneration, ""),
        (FillStage::SelectRows, ""),
        (FillStage::PrepareRows, "Could not read projection columns from SQLite: "),
        (FillStage::CopyRows, ""),
    ] {
        match build_projection_file(stage, Err("full".to_string()), "p") {
            FillStage::Failed(reason) => assert_eq!(reason, format!("{said}full")),
            other => panic!("{other:?}"),
        }
    }
}

#[test]
fn a_build_tells_what_it_copied() {
    let tally = RowTally::new().note(7).note(3).note(-2);
    assert_eq!((tally.rows, tally.max_record_id), (3, 7));
    let source = "/data/base.db".to_string();
    let record = BuildRecord::new(source, tally, contract(), 1_709_210_096, 250_000_000);
    assert_eq!(record.built_at, "2024-02-29T12:34:56.250+00:00");
    let meta = read_projection_meta(&record.entries(), "missing").unwrap();
    let build = built_projection(path("p.duckdb"), record, held(5.0));
    assert_eq!((build.rows, build.max_record_id), (3, 7));
    assert_eq!((meta.rows, meta.max_record_id), (build.rows, build.max_record_id));
    assert_eq!((meta.schema_version.as_str(), build.schema_version.as_str()), ("8", "8"));
    assert_eq!((meta.rollup_schema_version.as_str(), meta.rollup_rules_version.as_str()), ("3", "2"));
    assert_eq!(meta.rollup_fingerprint, rollup_contract_fingerprint());
    assert_eq!(meta.source_sqlite, "/data/base.db");
    assert_eq!(meta.built_at, build.built_at);
    assert!(!meta.built_at.is_empty());
    assert_eq!(moment_text(0, 0), "1970-01-01T00:00:00+00:00");
    assert_eq!(moment_text(86_399, 1), "1970-01-01T23:59:59.000000001+00:00");
    assert_eq!(moment_text(253_402_300_800, 1_000), "+10000-01-01T00:00:00.000001+00:00");
    assert_eq!(build.rollup_fingerprint, rollup_contract_fingerprint());
    assert_eq!(default_projection_path(&path("data/base.db")), path("data/base.duckdb"));
    assert_eq!(
        temporary_projection_path(&path("data/base.duckdb"), "build", 41, 2),
        path("data/base.duckdb.build.41.2.tmp")
    );
    assert_eq!(
        backup_path(&path("data/base.duckdb"), "refresh"),
        path("data/base.duckdb.refresh.backup")
    );
}

fn source_schema() -> SourceSchema {
    let field = |index: usize, header: &str, semantic: Option<SemanticField>| SourceSchemaField {
        field_id: format!("f{index}"),
        schema_id: 7,
        source_index: index,
        raw_header: header.to_string(),
        header: header.to_string(),
        normalized_header: header.to_lowercase(),
        role: ColumnRole::Text,
        semantic,
        storage: ColumnStorage::SourceJson,
    };
    SourceSchema {
        id: 7,
        public_id: "s7".to_string(),
        fingerprint: "x".to_string(),
        fingerprint_version: 1,
        fixed_currency: Some("USD".to_string()),
        fixed_weight_unit: None,
        columns: vec![
            field(0, "Seller", Some(SemanticField::Sender)),
            field(1, "Colour", None),
        ],
    }
}

#[test]
fn projected_values_are_read_by_the_schema_of_a_row() {
    let schema = source_schema();
    assert!(maps_meaning(&schema, SemanticField::Sender));
    assert!(!maps_meaning(&schema, SemanticField::Recipient));
    let shape = source_schema_shape(&schema);
    assert_eq!(shape.columns.len(), 2);
    assert_eq!(shape.columns[0].semantic, Some(SemanticField::Sender));
    let value = ProjectionValue::Label(SemanticField::Sender);
    assert_eq!(value.semantic(), Some(SemanticField::Sender));
    let sql = schema_aware_projection_value(
        value,
        Some("legacy_sender"),
        &vec![SchemaExpression { schema, expression: Some("own_sender".to_string()) }],
        "NULL",
        "r",
    );
    assert!(sql.contains("own_sender") && sql.contains("legacy_sender"), "{sql}");
    assert!(sql.contains("7"), "{sql}");
    let values = projection_values();
    assert_eq!(values.len(), 23);
    let expressions: Vec<String> = (0..23).map(|n| format!("e{n}")).collect();
    let select = projection_select_sql(&expressions, "r", "JOIN payload");
    assert!(select.contains("e0") && select.contains("e22") && select.contains("JOIN payload"));
    assert!(rollup_months_sql(6).contains('6'));
    let rollups = build_rollups();
    assert!(rollups.len() > 2);
}

#[test]
fn price_cohorts_are_told_by_currency() {
    let cells = |currency: &str, count: i64| CohortCells {
        currency: currency.to_string(),
        count,
        average: Some(held(2.0)),
        minimum: Some(held(1.0)),
        maximum: Some(held(3.0)),
        weighted_average: Some(held(2.5)),
        p25: None,
        median: Some(held(2.0)),
        p75: None,
        numerator_total: None,
        denominator_total: None,
    };
    let unit = |currency: &str, unit: &str| CurrencyUnit {
        currency: currency.to_string(),
        unit: unit.to_string(),
    };
    let units = vec![unit("EUR", "kg"), unit("USD", "kg"), unit("USD", "lb")];
    let one = price_cohorts(&vec![cells("USD", 4)], &units);
    assert_eq!(one[0].source_weight_units, ["kg", "lb"]);
    assert_eq!(one[0].normalized_weight_unit, "kg");
    let metric = projection_value_per_net_weight_metric(&vec![cells("USD", 4)], &units, 3);
    assert_eq!((metric.count, metric.excluded_rows), (4, 3));
    assert_eq!(metric.weighted_average, held(2.5));
    let two = vec![cells("USD", 4), cells("EUR", 2)];
    let metric = projection_value_per_net_weight_metric(&two, &units, -1);
    assert_eq!((metric.count, metric.excluded_rows, metric.cohorts.len()), (0, 0, 2));
    assert_eq!(metric.average, held(0.0));
    let price = PriceCells {
        count: 5,
        average: Some(held(2.0)),
        minimum: None,
        maximum: None,
        weighted_average: held(1.5),
        p25: None,
        median: None,
        p75: None,
    };
    let metrics = price_metrics(&two, &units, 0, &vec![price; 5]);
    let shown: Vec<(PriceMetricKind, u64)> =
        metrics.iter().map(|metric| (metric.kind, metric.count)).collect();
    assert_eq!(
        shown,
        [
            (PriceMetricKind::ValuePerNetKg, 0),
            (PriceMetricKind::RfvUsdKg, 5),
            (PriceMetricKind::RmvNetUsdKg, 5),
            (PriceMetricKind::RmvUsdExtraUnit, 5),
            (PriceMetricKind::RmvGrossUsdKg, 5),
            (PriceMetricKind::MinBaseUsdKg, 5),
        ]
    );
    let plain = projection_price_metric(PriceMetricKind::RfvUsdKg, price);
    assert_eq!((plain.kind, plain.count), (PriceMetricKind::RfvUsdKg, 5));
    assert_eq!(plain.weighted_average, held(1.5));
    let filter = DuckFilter::from_query(&everything(), &keys());
    let kinds: Vec<PriceMetricKind> =
        source_price_statements(&filter).iter().map(|s| s.kind).collect();
    assert_eq!(
        kinds,
        [
            PriceMetricKind::RfvUsdKg,
            PriceMetricKind::RmvNetUsdKg,
            PriceMetricKind::RmvUsdExtraUnit,
            PriceMetricKind::RmvGrossUsdKg,
            PriceMetricKind::MinBaseUsdKg,
        ]
    );
}

#[test]
fn a_benchmark_measures_its_scenarios() {
    let options = OlapBenchmarkOptions {
        warmups: 1,
        repeat: 0,
        page_limit: 50,
        section_limit: 5,
        pivot_rows: 10,
        pivot_cols: 4,
    };
    let filter = DuckFilter::from_query(&everything(), &keys());
    let scenarios = benchmark_scenarios(&filter, &options);
    assert!(!scenarios.is_empty());
    assert!(scenarios.iter().all(|scenario| !scenario.statements.is_empty()));
    assert_eq!(benchmark_runs(&options), (1, 1));
    assert_eq!(scenario_rows(&vec![3, 4]), 7);
    let runs = vec![
        MeasuredRun { output_rows: 3, ms: held(1.0) },
        MeasuredRun { output_rows: 4, ms: held(2.0) },
    ];
    let measure = ScenarioMeasure {
        runs,
        average_ms: held(1.5),
        minimum_ms: held(1.0),
        maximum_ms: held(2.0),
    };
    let measured = measure_duck_scenario(&scenarios[0], &measure);
    assert_eq!(measured.name, scenarios[0].name);
    assert_eq!(measured.output_rows, 4);
    assert_eq!(measured.runs_ms, vec![held(1.0), held(2.0)]);
    assert_eq!(measured.maximum_ms, held(2.0));
    let twice = OlapBenchmarkOptions { repeat: 2, ..options };
    let report =
        run_duckdb_benchmark(9, everything(), &filter, &twice, vec![measure.clone(); 8]);
    assert_eq!((report.backend, report.total_database_rows), ("duckdb", 9));
    assert_eq!(report.unindexed_rows, 0);
    let names: Vec<&str> = report.scenarios.iter().map(|scenario| scenario.name).collect();
    assert_eq!(
        names,
        vec![
            "Search count",
            "First result page",
            "Analytics overview",
            "Companies aggregation",
            "Products aggregation",
            "Countries aggregation",
            "Price metrics",
            "Pivot: recipient by month",
        ]
    );
    assert!(report.scenarios.iter().all(|scenario| scenario.runs_ms.len() == 2));
    assert_eq!(report.query, everything());
    assert!(report.query_is_empty);
}
