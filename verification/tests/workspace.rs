use base_search::analytics::{
    pivot_filter_action, Analytics, AnalyticsCurrencyTotal, AnalyticsFilterField,
    AnalyticsGroupRow, AnalyticsMeasures, AnalyticsOverview, AnalyticsScope, AnalyticsSection,
    AnalyticsSectionKind, AnalyticsValuePerWeight, PivotDim, Real,
};
use base_search::assembly::{
    analytics_full, analytics_previews, analytics_scoped, previewed_kinds, scope_kinds,
    section_rows,
};
use base_search::engines::{
    rows_to_ask, search_page, DuckDbAnalyticsEngine, ImportSink, SqliteEngine,
};
use base_search::export::{
    admit_export, after_rows, csv_head, csv_row, csv_safe_cell, export_selected, resolve_fields,
    start_export, temp_export_path, validate_sort, visible_field_ids, with_default_extension,
    ExportError, ExportFormat, ExportRun, ExportSelectionError, ExportStep, BATCH,
    MAX_EXPORT_FIELDS, XLSX_MAX_ROWS,
};
use base_search::number::{decimal_text, parse_signed, parse_unsigned, signed_text};
use base_search::ordered::{insert_text, map_of_pairs, rank_texts, OrderedMap, Rank};
use base_search::paths::FilePath;
use base_search::query::{
    analytics_should_run, FieldInfo, Filters, Query, QueryExpr, RecordScope, ResultSort,
};
use base_search::records::{FtsRepairError, ImportQuality};
use base_search::sample::{
    draw, sample_row, SAMPLE_CODES, SAMPLE_HEADERS, SAMPLE_RECIPIENTS, SAMPLE_ROWS, SAMPLE_SEED,
};
use base_search::store::{
    clear_all, extra_headers, field_catalog, field_catalog_cached, query_schema_ids, record_card,
    refresh_detected_currencies, remember_extra_headers, result_fields, scan_extra_headers,
    set_column_semantic, set_workspace_fixed_values, sql_value_to_text, with_statement_deadline,
    BackedColumn, CardSource, CatalogSource, CurrencyStep, ClearStep, DiagnosticValue, KeyedHeader, SchemaOfField, STATEMENT_DEADLINE_EXCEEDED,
};
use base_search::table::{SemanticField, TableShape};
use base_search::text::{collapse_ws, contains, find, join, same, split_words, starts_with, trim};
use base_search::wording::{
    analytics_compare_label, analytics_report_label, compare_delta_title, compare_empty,
    compare_hint, compare_previous_year_label, compare_run_label, compare_text_label,
    prompt_language, report_copy_label, report_export_label, report_hint, report_title, Lang,
};

fn path(text: &str) -> FilePath {
    FilePath {
        root: String::new(),
        parts: text.split('/').map(str::to_string).collect(),
    }
}

fn texts(values: &[&str]) -> Vec<String> {
    values.iter().map(|value| value.to_string()).collect()
}

fn field(id: &str) -> FieldInfo {
    FieldInfo { id: id.to_string(), label: id.to_uppercase() }
}

fn catalog() -> Vec<FieldInfo> {
    vec![field("date"), field("sender"), field("value")]
}

fn ids(fields: &[FieldInfo]) -> Vec<&str> {
    fields.iter().map(|field| field.id.as_str()).collect()
}

#[test]
fn exported_fields_are_those_that_were_selected() {
    let all = resolve_fields(&catalog(), None).unwrap();
    assert_eq!(ids(&all), ["date", "sender", "value"]);
    let chosen = resolve_fields(&catalog(), Some(&texts(&["value", "date"]))).unwrap();
    assert_eq!(ids(&chosen), ["value", "date"]);
    assert_eq!(chosen[0].label, "VALUE");
    let refusal = |selected: &[&str]| {
        resolve_fields(&catalog(), Some(&texts(selected))).unwrap_err().message()
    };
    assert_eq!(refusal(&[]), "Select at least one export field.");
    assert_eq!(refusal(&["date", "date"]), "Export field 'date' was selected more than once.");
    assert_eq!(refusal(&["date", "colour"]), "Unknown export field: 'colour'.");
    let many: Vec<String> = (0..MAX_EXPORT_FIELDS + 1).map(|n| format!("f{n}")).collect();
    assert_eq!(
        resolve_fields(&catalog(), Some(&many)).unwrap_err().message(),
        format!(
            "Selected {} export fields; the maximum is {MAX_EXPORT_FIELDS}.",
            MAX_EXPORT_FIELDS + 1
        )
    );
    let by = |id: &str| ResultSort { field: id.to_string(), descending: true };
    assert!(validate_sort(&catalog(), None).is_ok());
    assert!(validate_sort(&catalog(), Some(&by("sender"))).is_ok());
    match validate_sort(&catalog(), Some(&by("colour"))).unwrap_err() {
        ExportSelectionError::UnknownSortField(id) => assert_eq!(id, "colour"),
        other => panic!("{other:?}"),
    }
    assert_eq!(
        visible_field_ids(&catalog(), &vec![true, false, true]),
        Some(texts(&["date", "value"]))
    );
}

#[test]
fn the_format_is_told_by_the_extension() {
    assert_eq!(ExportFormat::from_path(&path("a/b.CSV")).unwrap(), ExportFormat::Csv);
    assert_eq!(admit_export(&path("b.xlsx"), XLSX_MAX_ROWS).unwrap(), ExportFormat::Xlsx);
    match admit_export(&path("b.xlsx"), XLSX_MAX_ROWS + 1).unwrap_err() {
        ExportError::TooManyRowsForXlsx(rows) => assert_eq!(rows, XLSX_MAX_ROWS + 1),
        other => panic!("{other:?}"),
    }
    assert!(admit_export(&path("b.csv"), XLSX_MAX_ROWS + 1).is_ok());
    match admit_export(&path("b.PDF"), 1).unwrap_err() {
        ExportError::UnsupportedExtension(extension) => assert_eq!(extension, "pdf"),
        other => panic!("{other:?}"),
    }
    assert!(matches!(start_export(true, 1).unwrap_err(), ExportError::Cancelled));
    assert!(matches!(start_export(false, 0).unwrap_err(), ExportError::Other(_)));
    assert!(start_export(false, 1).is_ok());
    assert_eq!(with_default_extension(&path("a/b"), "csv"), path("a/b.csv"));
    assert_eq!(with_default_extension(&path("a/b.xlsx"), "csv"), path("a/b.xlsx"));
    assert_eq!(temp_export_path(&path("a/b.csv"), 7, 9), path("a/b.csv.7.9.tmp"));
}

#[test]
fn a_formula_is_no_formula_in_an_export() {
    for value in ["=1+1", "+1", "-1", "@x", " \t=1", "\r\n@x"] {
        let safe = csv_safe_cell(value);
        assert_eq!(safe, format!("'{value}"));
        assert_eq!(csv_safe_cell(&safe), safe);
    }
    for value in ["", "1-1", "a=b", "'=1", "\u{a0}=1"] {
        assert_eq!(csv_safe_cell(value), value);
    }
}

/// As many fields as are asked for.
fn columns(count: usize) -> Vec<FieldInfo> {
    catalog().into_iter().cycle().take(count).collect()
}

#[test]
fn rows_are_written_as_delimited_text() {
    let head = csv_head(&catalog());
    assert_eq!(head, "\u{feff}DATE;SENDER;VALUE\r\n".as_bytes());
    let row = csv_row(&columns(3), &texts(&["=1", "say \"hi\"; now", "x"])).unwrap();
    assert_eq!(row, b"'=1;\"say \"\"hi\"\"; now\";x\r\n");
    assert_eq!(
        csv_row(&columns(3), &texts(&["a"])).unwrap_err(),
        "CSV error: found record with 1 fields, but the previous record has 3 fields"
    );
    assert_eq!(
        csv_row(&columns(1), &texts(&["a", "b"])).unwrap_err(),
        "CSV error: found record with 2 fields, but the previous record has 1 fields"
    );
    assert_eq!(
        csv_row(&columns(0), &texts(&["a"])).unwrap_err(),
        "CSV error: found record with 1 fields, but the previous record has 0 fields"
    );
    assert_eq!(
        csv_row(&columns(2), &texts(&[])).unwrap_err(),
        "CSV error: found record with 0 fields, but the previous record has 2 fields"
    );
    assert_eq!(csv_row(&columns(1), &texts(&[""])).unwrap(), b"\"\"\r\n");
    assert_eq!(csv_row(&columns(0), &texts(&[])).unwrap(), b"\"\"\r\n");
    assert_eq!(csv_row(&columns(2), &texts(&["", ""])).unwrap(), b";\r\n");
    assert_eq!(
        csv_row(&columns(5), &texts(&["a\nb", "c\rd", "\"", "e, f\t", "ґ"])).unwrap(),
        "\"a\nb\";\"c\rd\";\"\"\"\";e, f\t;ґ\r\n".as_bytes()
    );
}

#[test]
fn an_export_takes_its_place_only_once_it_is_written() {
    assert!(matches!(after_rows(Ok(4), true), ExportStep::RemoveOld { written: 4 }));
    assert!(matches!(after_rows(Ok(4), false), ExportStep::Rename { written: 4 }));
    let step = export_selected(ExportStep::RemoveOld { written: 4 }, Ok(()));
    assert!(matches!(step, ExportStep::Rename { written: 4 }));
    assert!(matches!(export_selected(step, Ok(())), ExportStep::Done(4)));
    let failed = export_selected(after_rows(Err(ExportError::Cancelled), true), Ok(()));
    assert!(matches!(failed, ExportStep::Failed(ExportError::Cancelled)));
    match export_selected(ExportStep::Rename { written: 4 }, Err("denied".to_string())) {
        ExportStep::Failed(ExportError::Other(reason)) => assert_eq!(reason, "denied"),
        other => panic!("{other:?}"),
    }
}

#[test]
fn an_export_goes_on_until_it_fails_or_is_cancelled() {
    let mut run = ExportRun::new(3);
    assert!(run.begin_row(false));
    assert_eq!(run.end_row(Ok(())), (true, false));
    run.written = BATCH - 1;
    assert_eq!(run.end_row(Ok(())), (true, true));
    assert!(matches!(run.finish(false), Ok(n) if n == BATCH));
    let mut run = ExportRun::new(3);
    assert!(!run.begin_row(true));
    assert!(matches!(run.finish(false), Err(ExportError::Cancelled)));
    let mut run = ExportRun::new(3);
    assert_eq!(run.end_row(Err("full".to_string())), (false, false));
    assert!(matches!(run.finish(true), Err(ExportError::Other(_))));
    assert!(matches!(ExportRun::new(3).finish(true), Err(ExportError::Cancelled)));
}

#[test]
fn sqlite_engine_exposes_its_database() {
    let engine = SqliteEngine::new(path("data/engine.db"));
    assert_eq!(engine.engine_id(), "sqlite");
    assert_eq!(engine.db_path(), &path("data/engine.db"));
}

#[test]
fn a_page_tells_whether_another_follows() {
    let rows = |n: usize| vec![texts(&["x"]); n];
    let page = search_page(catalog(), vec![1, 2, 3], rows(3), vec![None; 3], 2);
    assert!(page.has_next);
    assert_eq!((page.ids, page.rows.len(), page.duplicate_of.len()), (vec![1, 2], 2, 2));
    let last = search_page(catalog(), vec![1, 2], rows(2), vec![None; 2], 2);
    assert!(!last.has_next);
    assert_eq!(rows_to_ask(25), 26);
    assert_eq!(rows_to_ask(u64::MAX), u64::MAX);
}

#[test]
fn a_stale_projection_does_not_answer() {
    let engine = DuckDbAnalyticsEngine::new(path("base.db"), path("base.duckdb"));
    assert_eq!(engine.engine_id(), "duckdb");
    assert_eq!(engine.projection_path(), &path("base.duckdb"));
    assert_eq!(engine.sqlite_path(), &path("base.db"));
    let plain = Query::default();
    assert!(engine.ensure_usable(&plain, true, Ok(true)).is_ok());
    let stale = "DuckDB analytics projection is missing or stale.";
    assert_eq!(engine.ensure_usable(&plain, false, Ok(true)).unwrap_err(), stale);
    assert_eq!(engine.ensure_usable(&plain, true, Ok(false)).unwrap_err(), stale);
    assert_eq!(
        engine.ensure_usable(&plain, true, Err("locked".to_string())).unwrap_err(),
        "locked"
    );
    let text = Query { text: "apple".to_string(), ..Query::default() };
    assert_eq!(
        engine.ensure_usable(&text, true, Ok(true)).unwrap_err(),
        "DuckDB analytics does not execute FTS text queries."
    );
    let rules = Query {
        advanced: Some(QueryExpr { rules: "{}".to_string(), conditions: 1 }),
        ..Query::default()
    };
    assert_eq!(
        engine.ensure_usable(&rules, true, Ok(true)).unwrap_err(),
        "DuckDB analytics does not support this advanced query."
    );
}

#[test]
fn imports_go_to_the_database() {
    let engine = SqliteEngine::new(path("base.db"));
    assert_eq!(ImportSink::engine_id(&engine), "sqlite");
}

#[test]
fn a_query_without_anything_is_empty() {
    let mut query = Query::default();
    assert!(query.is_empty());
    assert_eq!(query.record_scope, RecordScope::Canonical);
    query.filters.year = "  ".to_string();
    assert!(query.filters.is_empty() && query.is_empty());
    query.filters.year = "2026".to_string();
    assert!(!query.filters.is_empty() && !query.is_empty());
    query.filters.clear();
    assert_eq!(query.filters, Filters::default());
    query.advanced = Some(QueryExpr { rules: String::new(), conditions: 0 });
    assert!(query.is_empty());
    query.advanced = Some(QueryExpr { rules: "{}".to_string(), conditions: 2 });
    assert!(!query.is_empty());
    assert!(!analytics_should_run(&Query::default()));
    assert!(analytics_should_run(&query));
}

fn row(label: &str) -> AnalyticsGroupRow {
    AnalyticsGroupRow { label: label.to_string(), ..Default::default() }
}

fn rows(labels: &[&str]) -> Vec<AnalyticsGroupRow> {
    labels.iter().map(|label| row(label)).collect()
}

fn section(kind: AnalyticsSectionKind, labels: &[&str]) -> AnalyticsSection {
    AnalyticsSection { kind, rows: rows(labels) }
}

fn labels(rows: &[AnalyticsGroupRow]) -> Vec<&str> {
    rows.iter().map(|row| row.label.as_str()).collect()
}

#[test]
fn an_answer_is_put_together_from_its_scopes() {
    let overview = || AnalyticsOverview { row_count: 5, ..Default::default() };
    let scoped = |scope: AnalyticsScope, names: &[&str]| -> Analytics {
        let rows = scope_kinds(Some(scope)).iter().map(|_| rows(names)).collect();
        analytics_scoped(overview(), Vec::new(), Some(scope), rows, Vec::new())
    };
    let companies = scoped(AnalyticsScope::Companies, &["c"]);
    let kinds: Vec<AnalyticsSectionKind> =
        companies.company_sections.iter().map(|section| section.kind).collect();
    assert_eq!(
        kinds,
        [
            AnalyticsSectionKind::Edrpou,
            AnalyticsSectionKind::Recipients,
            AnalyticsSectionKind::Senders,
        ]
    );
    assert!(companies.product_sections.is_empty());
    assert_eq!(labels(&companies.top_recipients), ["c"]);
    let full = analytics_full(
        companies,
        scoped(AnalyticsScope::Products, &["p"]),
        scoped(AnalyticsScope::Countries, &["l"]),
        scoped(AnalyticsScope::Prices, &[]),
    );
    assert_eq!(full.overview.row_count, 5);
    assert_eq!(
        (full.company_sections.len(), full.product_sections.len(), full.country_sections.len()),
        (3, 3, 3)
    );
    assert_eq!(labels(&full.top_senders), ["c"]);
    assert_eq!(labels(&full.top_product_codes), ["p"]);
    assert_eq!(labels(&full.top_trademarks), ["p"]);
    assert_eq!(labels(&full.top_origin_countries), ["l"]);
    let sections = vec![
        section(AnalyticsSectionKind::Senders, &["a"]),
        section(AnalyticsSectionKind::Senders, &["b"]),
    ];
    assert_eq!(labels(&section_rows(&sections, AnalyticsSectionKind::Senders)), ["a"]);
    assert!(section_rows(&sections, AnalyticsSectionKind::Edrpou).is_empty());
    let kinds = previewed_kinds();
    assert_eq!(kinds.len(), 3);
    let preview = analytics_previews(
        overview(),
        rows(&["c"]),
        rows(&["p"]),
        rows(&["l"]),
    );
    assert_eq!(preview.company_sections.len(), 1);
    assert_eq!(preview.country_sections[0].kind, kinds[2]);
}

#[test]
fn measures_tell_a_single_currency() {
    let total = |currency: &str, known: bool| AnalyticsCurrencyTotal {
        currency: currency.to_string(),
        known,
        valued_rows: 1,
        total_value: Real { bits: 2.0f64.to_bits() },
    };
    let of = |totals: Vec<AnalyticsCurrencyTotal>| AnalyticsMeasures {
        compatible_value_total: totals.first().cloned(),
        currency_totals: totals,
        ..Default::default()
    };
    let two = Real { bits: 2.0f64.to_bits() };
    assert_eq!(of(vec![total("EUR", true)]).single_currency_total(), Some((two, "EUR")));
    assert_eq!(of(vec![total("__unknown__", false)]).single_currency_total(), Some((two, "")));
    assert_eq!(of(vec![]).single_currency_total(), None);
    assert_eq!(of(vec![total("EUR", true), total("USD", true)]).single_currency_total(), None);
    assert_eq!(of(vec![total("USD", true)]).compatible_usd_total(), Some(two));
    assert_eq!(of(vec![total("EUR", true)]).compatible_usd_total(), None);
    let ratio = AnalyticsMeasures {
        value_per_net_weight: vec![AnalyticsValuePerWeight {
            currency: "USD".to_string(),
            value_per_weight: Some(two),
            ..Default::default()
        }],
        ..Default::default()
    };
    assert_eq!(ratio.single_currency_per_net_kg(), Some((two, "USD")));
    assert_eq!(AnalyticsScope::Prices.index(), 3);
    assert_eq!(PivotDim::Month.filter_field(), None);
    let action = pivot_filter_action(PivotDim::Sender, "X".to_string()).unwrap();
    assert_eq!(action.field, AnalyticsFilterField::Sender);
    assert_eq!(pivot_filter_action(PivotDim::Year, "2024".to_string()), None);
}

#[test]
fn a_statement_beyond_its_deadline_is_told() {
    assert_eq!(with_statement_deadline(Ok(5), true), Ok(5));
    assert_eq!(
        with_statement_deadline::<u8>(Err("interrupted".to_string()), true),
        Err(STATEMENT_DEADLINE_EXCEEDED.to_string())
    );
    assert_eq!(
        with_statement_deadline::<u8>(Err("syntax".to_string()), false),
        Err("syntax".to_string())
    );
    assert_eq!(sql_value_to_text(DiagnosticValue::Null), "NULL");
    assert_eq!(sql_value_to_text(DiagnosticValue::Integer(-7)), "-7");
    assert_eq!(sql_value_to_text(DiagnosticValue::Text("x".to_string())), "x");
    assert_eq!(sql_value_to_text(DiagnosticValue::Blob(3)), "<blob 3>");
}

#[test]
fn the_catalog_is_taken_from_what_is_there() {
    assert_eq!(field_catalog(0, false), CatalogSource::Shape);
    assert_eq!(field_catalog(3, false), CatalogSource::Schemas);
    assert_eq!(field_catalog(3, true), CatalogSource::SchemasAndShape);
    let broken = || "broken".to_string();
    assert_eq!(result_fields(Ok(0), Err(broken())), Ok(CatalogSource::Shape));
    assert_eq!(result_fields(Ok(3), Err(broken())), Err(broken()));
    assert_eq!(result_fields(Err(broken()), Ok(true)), Err(broken()));
    assert_eq!(result_fields(Ok(3), Ok(true)), Ok(CatalogSource::SchemasAndShape));
    assert_eq!(field_catalog_cached(Ok(3), Err(broken())), CatalogSource::Schemas);
    assert_eq!(field_catalog_cached(Err(broken()), Ok(true)), CatalogSource::Shape);
    assert_eq!(record_card(Ok(None), Ok(false), broken()), Ok(CardSource::Shape));
    assert_eq!(record_card(Ok(Some(4)), Ok(true), broken()), Ok(CardSource::Schema(4)));
    assert_eq!(record_card(Ok(Some(4)), Ok(false), broken()), Err(broken()));
    assert_eq!(
        set_workspace_fixed_values(Some(" USD "), None).unwrap(),
        (Some("USD".to_string()), None)
    );
    let header = |key: &str, header: &str| KeyedHeader {
        key: key.to_string(),
        header: header.to_string(),
    };
    let names = scan_extra_headers(&vec![
        header("colour", "Colour"),
        header("shape", "Shape"),
        header("colour", "COLOUR"),
    ]);
    assert_eq!(names, texts(&["Colour", "Shape"]));
    let known = vec![header("colour", "Colour")];
    let new = vec![header("", " "), header("size", "Size"), header("colour", "COLOUR")];
    assert_eq!(remember_extra_headers(&known, &new), texts(&["Colour", "Size"]));
    assert_eq!(extra_headers(None, Ok(new)), Ok(texts(&["Size", "COLOUR"])));
    assert_eq!(extra_headers(Some(texts(&["Kept"])), Err("x".to_string())), Ok(texts(&["Kept"])));
    assert_eq!(extra_headers(None, Err("x".to_string())), Err("x".to_string()));
    let of = |field: &str, schema: i64| SchemaOfField {
        field_id: field.to_string(),
        schema_id: schema,
    };
    assert_eq!(
        query_schema_ids(&texts(&["b", "a", "x", "b"]), &vec![of("a", 7), of("b", 3)]),
        vec![3, 7]
    );
}

#[test]
fn clearing_is_done_whole_or_not_at_all() {
    let run = |fails: &str| {
        let mut step = ClearStep::Begin;
        let mut trace = Vec::new();
        loop {
            let label = match &step {
                ClearStep::Begin => "begin",
                ClearStep::Remove => "remove",
                ClearStep::Commit => "commit",
                ClearStep::RollBack { .. } => "roll back",
                other => return (trace, format!("{other:?}")),
            };
            trace.push(label);
            let outcome = if label == fails { Err("locked".to_string()) } else { Ok(()) };
            step = clear_all(step, outcome);
        }
    };
    assert_eq!(run("").0, ["begin", "remove", "commit"]);
    assert_eq!(run("remove").0, ["begin", "remove", "roll back"]);
    assert!(run("remove").1.contains("locked"));
    assert_eq!(run("begin").0, ["begin"]);
}

#[test]
fn sample_records_are_the_same_every_time() {
    let mut x = SAMPLE_SEED;
    x ^= x << 13;
    x ^= x >> 7;
    x ^= x << 17;
    assert_eq!(draw(SAMPLE_SEED), x);
    let mut seed = SAMPLE_SEED;
    for _ in 0..SAMPLE_ROWS {
        let row = sample_row(seed);
        assert!(row.recipient < SAMPLE_RECIPIENTS.len() && row.recipient < SAMPLE_CODES.len());
        assert!((1..=12).contains(&row.month) && (1..=27).contains(&row.day));
        assert!(row.net_tenths < 5000 && (3..43).contains(&row.price));
        seed = row.seed;
    }
    assert_eq!(sample_row(SAMPLE_SEED), sample_row(SAMPLE_SEED));
    assert_eq!(sample_row(SAMPLE_SEED).recipient as u64, x % 5);
    assert_eq!(SAMPLE_HEADERS.len(), 14);
}

#[test]
fn numbers_are_written_and_read() {
    for n in [0, 7, 10, 4294967296, u64::MAX] {
        assert_eq!(decimal_text(n), n.to_string());
        assert_eq!(parse_unsigned(&decimal_text(n), u64::MAX), Some(n));
    }
    for n in [0, -1, i64::MIN, i64::MAX] {
        assert_eq!(signed_text(n), n.to_string());
        assert_eq!(parse_signed(&signed_text(n)), Some(n));
    }
    for text in ["", "+", "-", "1 ", "1.0", "١", "99999999999999999999"] {
        assert_eq!(parse_unsigned(text, u64::MAX), text.parse::<u64>().ok(), "{text}");
        assert_eq!(parse_signed(text), text.parse::<i64>().ok(), "{text}");
    }
    assert_eq!(parse_unsigned("+8", 100), Some(8));
    assert_eq!(parse_unsigned("65536", 65535), None);
}

#[test]
fn texts_are_trimmed_and_searched() {
    assert_eq!(trim(" \u{a0}\u{3000}a b\u{2028}"), "a b");
    assert_eq!(collapse_ws("  a\t\n b  "), "a b");
    assert_eq!(collapse_ws(&collapse_ws(" x  y ")), "x y");
    assert!(contains("Пошук", "шук") && contains("x", ""));
    assert!(!contains("a", "ab"));
    assert!(starts_with("Пошук", "По") && !starts_with("По", "Пош"));
    let chars = |text: &str| text.chars().collect::<Vec<char>>();
    assert_eq!(find(&chars("abcabc"), &chars("ca")), Some(2));
    assert_eq!(find(&chars("abc"), &chars("x")), None);
    assert!(same("a", "a") && !same("a", "A"));
    assert_eq!(join(&texts(&["a", "", "b"]), "-"), "a--b");
    assert_eq!(split_words("  one  two ").len(), 2);
}

#[test]
fn maps_are_kept_in_order() {
    let mut map: OrderedMap<String, u8> = OrderedMap::new();
    for (key, value) in [("b", 1), ("a", 2), ("b", 3)] {
        map.insert(key.to_string(), value);
    }
    assert_eq!(map.entries, vec![("a".to_string(), 2), ("b".to_string(), 3)]);
    assert_eq!(map.get(&"b".to_string()), Some(&3));
    map.remove(&"a".to_string());
    assert!(!map.contains_key(&"a".to_string()) && map.len() == 1);
    let pairs: OrderedMap<usize, char> = map_of_pairs(vec![(9, 'x'), (2, 'y'), (9, 'z')]);
    assert_eq!(pairs.entries, vec![(2, 'y'), (9, 'z')]);
    let mut sorted = Vec::new();
    for text in ["b", "a", "b", "ab"] {
        insert_text(&mut sorted, text);
    }
    assert_eq!(sorted, texts(&["a", "ab", "b"]));
    for (a, b) in [("a", "b"), ("a", "ab"), ("Z", "a"), ("я", "я"), ("\u{ffff}", "\u{10000}")] {
        let rank = match a.cmp(b) {
            std::cmp::Ordering::Less => Rank::Below,
            std::cmp::Ordering::Equal => Rank::Same,
            std::cmp::Ordering::Greater => Rank::Above,
        };
        assert!(
            matches!(
                (rank_texts(a, b), rank),
                (Rank::Below, Rank::Below) | (Rank::Same, Rank::Same) | (Rank::Above, Rank::Above)
            ),
            "{a} {b}"
        );
    }
}

#[test]
fn warnings_are_kept_as_one_text() {
    let quality = ImportQuality { warnings: texts(&["one", "two"]), ..Default::default() };
    assert_eq!(quality.warnings_text(), "one\ntwo");
    let back = ImportQuality::default().with_warnings_text("one\n\n two \n".to_string());
    assert!(back.warnings.contains(&"one".to_string()));
    assert_eq!(
        FtsRepairError::SourceChanged.message(),
        "records changed during FTS rebuild; the live index was kept"
    );
    assert_eq!(FtsRepairError::Validation("x".to_string()).message(), "x");
}

#[test]
fn words_are_said_in_the_chosen_language() {
    assert_eq!(report_title(Lang::Ua), "Звіт по поточному запиту");
    assert_eq!(report_title(Lang::En), "Report for the current query");
    assert_eq!(report_title(Lang::De), "Report for the current query");
    assert_eq!(analytics_report_label(Lang::Ua), "Звіт");
    assert_eq!(analytics_report_label(Lang::Zh), "Report");
    assert!(report_hint(Lang::Ua).starts_with("Короткий підсумок для роботи: "));
    assert!(report_hint(Lang::En).starts_with("A clean working summary: "));
    assert_eq!(report_copy_label(Lang::Ua), "Копіювати звіт");
    assert_eq!(report_copy_label(Lang::En), "Copy report");
    assert_eq!(report_export_label(Lang::Ua), "Експорт HTML/PDF");
    assert_eq!(report_export_label(Lang::En), "Export HTML/PDF");
    assert_eq!(analytics_compare_label(Lang::Ua), "Порівняння");
    assert_eq!(analytics_compare_label(Lang::En), "Compare");
    assert!(compare_hint(Lang::Ua).starts_with("Порівняйте поточний запит "));
    assert!(compare_hint(Lang::En).starts_with("Compare the current query "));
    assert_eq!(compare_text_label(Lang::Ua), "Порівняти з:");
    assert_eq!(compare_text_label(Lang::En), "Compare with:");
    assert_eq!(compare_previous_year_label(Lang::Ua), "Попередній рік");
    assert_eq!(compare_previous_year_label(Lang::En), "Previous year");
    assert_eq!(compare_run_label(Lang::Ua), "Порівняти");
    assert_eq!(compare_run_label(Lang::En), "Compare");
    assert_eq!(
        compare_empty(Lang::Ua),
        "Вкажіть текст або рік для порівняння і натисніть «Порівняти»."
    );
    assert_eq!(
        compare_empty(Lang::En),
        "Enter a text or year to compare with, then click Compare."
    );
    assert_eq!(compare_delta_title(Lang::Ua), "Різниця");
    assert_eq!(compare_delta_title(Lang::En), "Difference");
    assert_eq!(prompt_language(Some(Lang::Ua), Some(Lang::En)), Lang::Ua);
    assert_eq!(prompt_language(None, Some(Lang::Ua)), Lang::Ua);
    assert_eq!(prompt_language(None, None), Lang::En);
}

#[test]
fn a_column_is_given_its_meaning_where_the_schemas_own_it() {
    let trademark = Some(SemanticField::Trademark);
    let mut shape = Some(TableShape::from_headers(texts(&["Seller", "Colour"])));
    let id = shape.as_ref().unwrap().columns[1].id.clone();
    let backed = |id: &str, fields: Vec<i64>| BackedColumn { id: id.to_string(), fields };
    let registered = Ok(Some(vec![backed("other", vec![1]), backed(&id, vec![7, 8])]));
    let asked = std::cell::RefCell::new(Vec::new());
    let write = |fields: &Vec<i64>, semantic: Option<SemanticField>| {
        asked.borrow_mut().push((fields.clone(), semantic));
        Ok(true)
    };
    assert!(set_column_semantic(&registered, &mut shape, &id, trademark, write));
    assert_eq!(*asked.borrow(), vec![(vec![7, 8], trademark)]);
    assert_ne!(shape.as_ref().unwrap().columns[1].semantic, trademark);
    let fails = |_: &Vec<i64>, _: Option<SemanticField>| Err("locked".to_string());
    assert!(!set_column_semantic(&registered, &mut shape, &id, trademark, fails));
    let untouched = |_: &Vec<i64>, _: Option<SemanticField>| Ok(false);
    assert!(!set_column_semantic(&registered, &mut shape, &id, trademark, untouched));
    let never = |_: &Vec<i64>, _: Option<SemanticField>| -> Result<bool, String> {
        panic!("nothing is written")
    };
    assert!(!set_column_semantic(&registered, &mut shape, "unknown", None, never));
    let none = Ok(Some(Vec::new()));
    assert!(!set_column_semantic(&none, &mut shape, &id, trademark, never));
    assert_ne!(shape.as_ref().unwrap().columns[1].semantic, trademark);

    for legacy in [Ok(None), Err("no table".to_string())] {
        let mut shape = shape.clone();
        let other = shape.as_ref().unwrap().columns[0].clone();
        assert!(set_column_semantic(&legacy, &mut shape, &id, trademark, never));
        assert_eq!(shape.as_ref().unwrap().columns[1].semantic, trademark);
        assert_eq!(shape.as_ref().unwrap().columns[0], other);
        assert!(!set_column_semantic(&legacy, &mut shape, "nothing", None, never));
        assert!(!set_column_semantic(&legacy, &mut None, &id, trademark, never));
    }
}

#[test]
fn a_detected_currency_is_stored_or_its_failure_said() {
    assert_eq!(
        refresh_detected_currencies(7, Ok(Some("EUR".to_string()))),
        CurrencyStep::Store { schema_id: 7, currency: Some("EUR".to_string()) }
    );
    assert_eq!(
        refresh_detected_currencies(8, Ok(None)),
        CurrencyStep::Store { schema_id: 8, currency: None }
    );
    assert_eq!(
        refresh_detected_currencies(9, Err("locked".to_string())),
        CurrencyStep::Say(
            "[base-search] could not read the currency evidence: locked".to_string()
        )
    );
}

#[test]
fn the_filled_share_is_a_quotient_of_counted_cells() {
    let with = |non_empty_cells: u64, empty_cells: u64| ImportQuality {
        non_empty_cells,
        empty_cells,
        ..Default::default()
    };
    assert_eq!(with(0, 0).filled_percent(), None);
    assert_eq!(with(3, 1).filled_percent(), Some((3, 4)));
    assert_eq!(with(0, 5).filled_percent(), Some((0, 5)));
}
