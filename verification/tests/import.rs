use base_search::calendar::{excel_serial_to_iso, format_date, format_time, normalize_date, Serial};
use base_search::digest::{hex_text, le_bytes, ContentHasher};
use base_search::import::aliases::{canonical_column, match_header, normalize_header};
use base_search::import::cells::{
    cell_has_value, header_text, normalize_cell, normalize_value, row_hash_cells, strip_marks,
    Cell, CellValue, Moment,
};
use base_search::import::columns::{
    apply_semantic_overrides, recognized_columns, remove_source_from_mapping, shape_for_headers,
    unmapped_columns,
};
use base_search::import::delimited::{
    clean_preview_field, delimited_record_widths, detect_delimiter,
};
use base_search::import::detection::{detect_table, display_headers, find_header, table_width};
use base_search::import::fingerprint::import_fingerprint;
use base_search::import::mapping::ColSrc;
use base_search::import::options::{
    apply_fixed_values, validate_fixed_values, validate_import_options, FixedValues, ImportOptions,
    Overrides,
};
use base_search::import::preview::{
    peek_delimited_file, peek_file, preview_sheet, shorten, ReadFile, ReadSheet,
};
use base_search::import::rows::{
    batch_is_full, batch_written, collect_extra, data_row, goes_on, plan_table, sheet_is_empty,
    start_detected_import, take_row, RowAssembler, RowPlan, RowSink, SinkStep, BATCH_SIZE,
    MISSING_HEADER,
};
use base_search::import::sampling::{
    bare_number_text, looks_like_code, looks_like_country, looks_like_header_label,
    looks_like_name, row_width, DETECTION_BUFFER_ROWS,
};
use base_search::import::summary::{
    count_quality_cells, finalize_quality, import_file_with_options, is_mostly_empty,
    merge_sheet_summary, push_quality_warning, start_import, FileSummary, ImportAction, ImportOutcome,
};
use base_search::import::workbook::{
    delimited_decisions, find_sheet, import_file_inner, select_sheets, sheet_fixed_values,
    sheet_overrides, source_name, FileRun, WorkbookRun,
};
use base_search::ordered::{map_of_pairs, OrderedMap};
use base_search::paths::FilePath;
use base_search::records::ImportQuality;
use base_search::schema::{Schema, SchemaColumn};
use base_search::table::{ColumnStorage, SemanticField};

fn schema() -> Schema {
    let columns = [
        ("declaration_date", "Date", Some(SemanticField::Date)),
        ("declaration_number", "Declaration number", Some(SemanticField::DeclarationNumber)),
        ("edrpou", "EDRPOU", Some(SemanticField::CompanyCode)),
        ("recipient", "Recipient", Some(SemanticField::Recipient)),
        ("sender", "Sender", Some(SemanticField::Sender)),
        ("product_code", "Product code", Some(SemanticField::ProductCode)),
        ("description", "Description", Some(SemanticField::Description)),
        ("net_kg", "Net kg", Some(SemanticField::NetWeight)),
        ("currency_control_value", "Value", Some(SemanticField::Value)),
        ("contract", "Contract", None),
        ("unit", "Unit", None),
    ];
    Schema {
        columns: columns
            .iter()
            .map(|(name, header, semantic)| SchemaColumn {
                name: name.to_string(),
                header: header.to_string(),
                semantic: *semantic,
            })
            .collect(),
        date_col: 0,
        targets: columns
            .iter()
            .filter_map(|(name, _, semantic)| semantic.map(|s| (s, name.to_string())))
            .collect(),
    }
}

fn place(name: &str) -> usize {
    schema().position(name).unwrap()
}

fn cell(value: CellValue) -> Cell {
    Cell { value, bare_number: false, number: false }
}

/// A text cell; the readers of numbers take what is made of digits.
fn text(value: &str) -> Cell {
    let number = value.trim().replace(',', ".").parse::<f64>().is_ok_and(f64::is_finite);
    Cell { value: CellValue::Text(value.to_string()), bare_number: number, number }
}

fn row(values: &[&str]) -> Vec<Cell> {
    values.iter().map(|value| text(value)).collect()
}

fn texts(values: &[&str]) -> Vec<String> {
    values.iter().map(|value| value.to_string()).collect()
}

#[test]
fn unmapped_columns_preserve_blank_and_duplicate_headers() {
    let headers = vec![
        "SKU".to_string(),
        "".to_string(),
        "SKU".to_string(),
        "Value".to_string(),
    ];
    let mapping = vec![
        ColSrc::Cell(3),
        ColSrc::Missing,
        ColSrc::Missing,
        ColSrc::Missing,
    ];

    let extra = unmapped_columns(&headers, &mapping);

    assert_eq!(
        extra,
        vec![
            (0, "SKU".to_string()),
            (1, "Column 2".to_string()),
            (2, "SKU (2)".to_string())
        ]
    );
}

#[test]
fn title_rows_do_not_beat_a_wider_unknown_header() {
    let rows = vec![
        row(&["Inventory export"]),
        row(&["Nebula", "Flux", "Comment"]),
        row(&["N-01", "12.5", "Stable"]),
    ];
    let detected = detect_table(&schema(), &rows).unwrap();
    assert_eq!(detected.header_index, 1);
    assert!(detected.plan.semantics.is_empty());
}

#[test]
fn repeated_participant_headers_use_sample_shape() {
    let rows = vec![
        row(&["Одержувач", "Одержувач"]),
        row(&["37642136", "ТОВ Приклад"]),
        row(&["32818783", "ТОВ Інший"]),
    ];
    let detected = detect_table(&schema(), &rows).unwrap();
    assert_eq!(detected.plan.semantics.get(&0), Some(&SemanticField::CompanyCode));
    assert_eq!(detected.plan.semantics.get(&1), Some(&SemanticField::Recipient));
}

#[test]
fn an_ambiguous_participant_is_not_lost() {
    let codes = vec![
        row(&["Одержувач", "Одержувач"]),
        row(&["37642136", "11112222"]),
        row(&["32818783", "33334444"]),
    ];
    let detected = detect_table(&schema(), &codes).unwrap();
    assert_eq!(detected.plan.semantics.get(&0), Some(&SemanticField::Recipient));
    assert_eq!(detected.plan.semantics.get(&1), None);
    let names = vec![
        row(&["Одержувач", "Одержувач"]),
        row(&["ТОВ Приклад", "Example LLC"]),
        row(&["ТОВ Інший", "Other LLC"]),
    ];
    let detected = detect_table(&schema(), &names).unwrap();
    assert_eq!(detected.plan.semantics.get(&0), Some(&SemanticField::Recipient));
    assert!(!looks_like_code("AB12CD"));
    assert!(looks_like_code("AB12"));
    assert!(!looks_like_name("AB12"));
}

#[test]
fn one_column_is_a_table() {
    let rows = vec![row(&["Note"]), row(&["first"]), row(&["second"])];
    let detected = detect_table(&schema(), &rows).unwrap();
    assert_eq!(detected.headers, texts(&["Note"]));
    assert_eq!(detected.header_index, 0);
    // The value may stand anywhere among the first rows.
    let lone = vec![vec![cell(CellValue::Empty)], vec![cell(CellValue::Int(5))]];
    assert_eq!(find_header(&lone), Some(1));
    assert_eq!(find_header(&vec![vec![cell(CellValue::Empty)]]), None);
    assert!(detect_table(&schema(), &Vec::new()).is_none());
}

#[test]
fn headers_are_told_apart_when_they_are_shown() {
    assert_eq!(
        display_headers(&texts(&["Total", "", "TOTAL", "total ", "Column 2"])),
        texts(&["Total", "Column 2", "TOTAL (2)", "total  (3)", "Column 2 (2)"])
    );
    let rows = vec![row(&["a", "b"]), row(&["1", "2", "3", ""])];
    assert_eq!(table_width(&rows, 0), 3);
    assert_eq!(row_width(&rows[1]), 3);
}

#[test]
fn headers_are_matched_by_their_letters_and_digits() {
    assert_eq!(normalize_header("\u{feff}  Net-Weight, KG "), "netweightkg");
    assert_eq!(normalize_header("Країна ПОХОДЖЕННЯ"), "країнапоходження");
    let found = match_header("Declaration No.").unwrap();
    assert_eq!(found.semantic, SemanticField::DeclarationNumber);
    assert!(match_header("Nebula").is_none());
    assert_eq!(canonical_column(&schema(), "declaration number"), Some(1));
    assert_eq!(canonical_column(&schema(), "Nebula"), None);
    assert!(!looks_like_header_label(&text("No 2024")));
    assert!(looks_like_header_label(&text("Value 2024")));
    assert!(looks_like_code("12345678"));
    assert!(looks_like_name("ТОВ Приклад"));
    assert!(!looks_like_name("12345678"));
    assert!(looks_like_country("UA"));
}

#[test]
fn cells_become_clean_texts() {
    assert_eq!(normalize_value(&text("  a \t b\n")), "a b");
    assert_eq!(normalize_value(&cell(CellValue::Int(-5))), "-5");
    assert_eq!(normalize_value(&cell(CellValue::Bool(true))), "TRUE");
    assert_eq!(header_text(&cell(CellValue::Bool(true))), "true");
    assert_eq!(normalize_value(&cell(CellValue::Error("#REF!".to_string()))), "");
    assert_eq!(normalize_cell(&cell(CellValue::Int(45366)), true), "2024-03-15");
    assert_eq!(normalize_cell(&cell(CellValue::Int(45366)), false), "45366");
    let float = cell(CellValue::Float {
        shown: "45366.5".to_string(),
        text: "45366.5".to_string(),
        serial: Some(Serial { days: 45366, whole: false, secs: 43200 }),
    });
    assert_eq!(normalize_cell(&float, true), "2024-03-15 12:00:00");
    assert_eq!(normalize_cell(&float, false), "45366.5");
    let moment = Moment {
        time_only: false,
        year: 2024,
        month: 3,
        day: 5,
        hour: 0,
        minute: 0,
        second: 0,
    };
    let at = |moment: Moment| {
        cell(CellValue::DateTime {
            shown: "x".to_string(),
            text: "y".to_string(),
            moment: Some(moment),
        })
    };
    assert_eq!(normalize_value(&at(moment)), "2024-03-05");
    assert_eq!(normalize_value(&at(Moment { second: 7, ..moment })), "2024-03-05 00:00:07");
    assert_eq!(normalize_value(&at(Moment { time_only: true, hour: 9, ..moment })), "09:00:00");
    assert!(!cell_has_value(&text("   ")));
    assert!(cell_has_value(&cell(CellValue::Int(0))));
    assert_eq!(strip_marks("\u{feff}\u{feff}a\u{feff}"), "a\u{feff}");
    assert_eq!(header_text(&text("\u{feff} Net  kg ")), "Net kg");
}

#[test]
fn dates_are_brought_to_one_form() {
    for (value, date) in [
        ("15.03.2024", "2024-03-15"),
        ("2024-03-15", "2024-03-15"),
        ("31.02.2024", "2024-02-31"),
        ("32.02.2024", "32.02.2024"),
        ("1/2/2024", "2024-02-01"),
        ("2024.3.5", "2024-03-05"),
        ("15.03.24", "15.03.24"),
        ("", ""),
        ("soon", "soon"),
    ] {
        assert_eq!(normalize_date(value), date);
        assert_eq!(normalize_date(&normalize_date(value)), normalize_date(value));
    }
    assert_eq!(format_date(2024, 2, 29), "2024-02-29");
    assert_eq!(format_time(1, 2, 3), "01:02:03");
    let whole = |days: i64| excel_serial_to_iso(Serial { days, whole: true, secs: 0 });
    assert_eq!(whole(45366).as_deref(), Some("2024-03-15"));
    assert_eq!(whole(45351).as_deref(), Some("2024-02-29"));
    assert_eq!(whole(0), None);
}

#[test]
fn a_row_is_known_by_its_hash() {
    let short = row(&["A", " b  c "]);
    let hash = row_hash_cells(&short);
    let expected = xxhash_rust::xxh3::xxh3_128(b"A\x1fb c").to_le_bytes();
    assert_eq!(hash, expected);
    let mut padded = row(&["A", "b c"]);
    padded.push(cell(CellValue::Empty));
    padded.push(cell(CellValue::Empty));
    assert_eq!(row_hash_cells(&padded), hash);
    assert_ne!(row_hash_cells(&row(&["A", "b", "c"])), hash);
    assert_ne!(row_hash_cells(&row(&["A", "b c", ""])), hash);
    assert_eq!(
        row_hash_cells(&Vec::new()),
        xxhash_rust::xxh3::xxh3_128(b"").to_le_bytes()
    );
}

#[test]
fn content_is_hashed_in_chunks() {
    let mut hasher = ContentHasher::new();
    hasher.update(b"Base ");
    hasher.update(b"Search");
    assert_eq!(hasher.finish(), format!("{:032x}", xxhash_rust::xxh3::xxh3_128(b"Base Search")));
    assert_eq!(hex_text(&vec![0, 255, 16]), "00ff10");
    assert_eq!(le_bytes(0x0102, 3), vec![2, 1, 0]);
}

#[test]
fn an_import_is_known_by_its_content_and_its_decisions() {
    let plain = ImportOptions::default();
    assert_eq!(import_fingerprint("abc", &plain), "abc");
    let decided = ImportOptions::selected_sheets(texts(&["B", "A", "B"]))
        .with_sheet_semantics(
            "A".to_string(),
            vec![(1, Some(SemanticField::Value)), (0, None)],
        )
        .with_sheet_fixed_values(
            "A".to_string(),
            vec![(SemanticField::Currency, " USD ".to_string())],
        );
    let mut bytes = b"abc\0selected\0A\0B\0mapping\0A".to_vec();
    bytes.extend_from_slice(&0u64.to_le_bytes());
    bytes.extend_from_slice(b"None");
    bytes.extend_from_slice(&1u64.to_le_bytes());
    bytes.extend_from_slice(b"Value");
    bytes.extend_from_slice(b"\0fixed\0ACurrency\0USD");
    assert_eq!(
        import_fingerprint("abc", &decided),
        format!("abc:s:{:016x}", xxhash_rust::xxh3::xxh3_64(&bytes))
    );
    let other = ImportOptions::selected_sheets(texts(&["A"]));
    assert_ne!(import_fingerprint("abc", &other), import_fingerprint("abc", &decided));
}

fn file(name: &str) -> FilePath {
    FilePath { root: String::new(), parts: vec![name.to_string()] }
}

#[test]
fn a_table_of_one_column_is_valid() {
    let bytes = b"Name\nAlice\nBob\n".to_vec();
    assert_eq!(detect_delimiter(&file("names.csv"), &bytes), Ok(b','));
    assert_eq!(detect_delimiter(&file("names.TSV"), &bytes), Ok(b'\t'));
    assert_eq!(detect_delimiter(&file("names"), &bytes), Ok(b','));
    let table = vec![row(&["Name"]), row(&["Alice"]), row(&["Bob"])];
    let peek = peek_delimited_file(&schema(), Some("names.csv"), &table).unwrap();
    assert_eq!(peek.sheets.len(), 1);
    assert_eq!(peek.sheets[0].columns.len(), 1);
    assert_eq!(peek.sheets[0].columns[0].header, "Name");
    assert_eq!(peek.sheets[0].columns[0].sample, "Alice");
}

#[test]
fn the_delimiter_is_found_by_the_records() {
    let detect = |bytes: &[u8]| detect_delimiter(&file("a.csv"), &bytes.to_vec());
    assert_eq!(detect(b"a;b;c\n1;2,5;3\n"), Ok(b';'));
    assert_eq!(detect(b"a,b\n1,2\n3,4\n"), Ok(b','));
    assert_eq!(detect(b"a\tb\n1\t2\n"), Ok(b'\t'));
    assert_eq!(detect(b"a|b\n1|2\n"), Ok(b'|'));
    assert_eq!(detect(b"").unwrap_err(), "The delimited file is empty.");
    assert_eq!(
        detect_delimiter(&file("a.tsv"), &Vec::new()).unwrap_err(),
        "The delimited file is empty."
    );
    assert_eq!(
        delimited_record_widths(&b"a,\"b,\"\"c\",d\nx,\"1\n2\"\n".to_vec(), b',', 10),
        vec![3, 2]
    );
    assert_eq!(clean_preview_field("\u{feff} a  b", 0), "a b");
    assert_eq!(clean_preview_field("\u{feff}a", 1), "\u{feff}a");
}

fn decisions(pairs: Vec<(usize, Option<SemanticField>)>) -> Overrides {
    map_of_pairs(pairs)
}

fn pinned(pairs: Vec<(SemanticField, &str)>) -> FixedValues {
    map_of_pairs(pairs.into_iter().map(|(s, v)| (s, v.to_string())).collect())
}

#[test]
fn decisions_move_columns() {
    let headers = texts(&["Date", "Seller", "Other"]);
    let mut mapping = vec![ColSrc::Missing; schema().columns.len()];
    mapping[place("declaration_date")] = ColSrc::Cell(0);
    mapping[place("sender")] = ColSrc::Cell(1);
    let decided = apply_semantic_overrides(
        &schema(),
        &headers,
        mapping.clone(),
        &decisions(vec![(2, Some(SemanticField::Sender)), (0, None)]),
    )
    .unwrap();
    assert!(matches!(decided[place("sender")], ColSrc::Cell(2)));
    assert!(matches!(decided[place("declaration_date")], ColSrc::Missing));
    assert_eq!(recognized_columns(&decided), 1);

    let twice = decisions(vec![
        (1, Some(SemanticField::Sender)),
        (2, Some(SemanticField::Sender)),
    ]);
    assert_eq!(
        apply_semantic_overrides(&schema(), &headers, mapping.clone(), &twice).unwrap_err(),
        "Columns 2 and 3 are both mapped to Sender."
    );
    let beyond = decisions(vec![(3, None)]);
    assert_eq!(
        apply_semantic_overrides(&schema(), &headers, mapping.clone(), &beyond).unwrap_err(),
        "Column 4 is outside the detected table width of 3."
    );
    // A meaning without storage of its own only frees the column.
    let unstored = decisions(vec![(0, Some(SemanticField::Trademark))]);
    let freed = apply_semantic_overrides(&schema(), &headers, mapping.clone(), &unstored).unwrap();
    assert!(matches!(freed[place("declaration_date")], ColSrc::Missing));
    let mut pointing = schema();
    pointing.targets.push((SemanticField::Trademark, "trademark".to_string()));
    assert_eq!(
        apply_semantic_overrides(&pointing, &headers, mapping, &unstored).unwrap_err(),
        "No canonical storage column exists for Trademark."
    );
    let joined = ColSrc::Join(vec![0, 1, 2], " ");
    match remove_source_from_mapping(&joined, 1) {
        ColSrc::Join(parts, sep) => assert_eq!((parts, sep), (vec![0, 2], " ")),
        other => panic!("{other:?}"),
    }
    assert!(matches!(remove_source_from_mapping(&ColSrc::Cell(1), 1), ColSrc::Missing));
}

#[test]
fn pinned_values_take_their_columns() {
    let mapping = vec![ColSrc::Missing; schema().columns.len()];
    let values = pinned(vec![
        (SemanticField::Currency, "USD"),
        (SemanticField::WeightUnit, "kg"),
    ]);
    let pinned_mapping = apply_fixed_values(&schema(), mapping.clone(), &values).unwrap();
    match &pinned_mapping[place("contract")] {
        ColSrc::Fixed(value) => assert_eq!(value, "USD"),
        other => panic!("{other:?}"),
    }
    match &pinned_mapping[place("unit")] {
        ColSrc::Fixed(value) => assert_eq!(value, "kg"),
        other => panic!("{other:?}"),
    }
    let mut bare = schema();
    bare.columns.truncate(9);
    assert_eq!(
        apply_fixed_values(&bare, mapping, &pinned(vec![(SemanticField::Currency, "USD")]))
            .unwrap_err(),
        "No canonical storage exists for fixed Currency."
    );
    let checked = validate_fixed_values(&pinned(vec![(SemanticField::Currency, " USD ")])).unwrap();
    assert_eq!(checked.get(&SemanticField::Currency).unwrap(), "USD");
    let three = pinned(vec![
        (SemanticField::Currency, "USD"),
        (SemanticField::WeightUnit, "kg"),
        (SemanticField::Date, "x"),
    ]);
    assert_eq!(
        validate_fixed_values(&three).unwrap_err(),
        "At most two fixed semantic values are supported."
    );
    assert!(validate_fixed_values(&pinned(vec![(SemanticField::Date, "x")])).is_err());
    let refused = ImportOptions::default()
        .with_sheet_fixed_values("A".to_string(), vec![(SemanticField::Currency, " ".to_string())]);
    assert!(validate_import_options(&refused).is_err());
}

#[test]
fn a_shape_says_where_its_columns_are_kept() {
    let headers = texts(&["Seller", "Other"]);
    let mut mapping = vec![ColSrc::Missing; schema().columns.len()];
    mapping[place("sender")] = ColSrc::Cell(0);
    let shape = shape_for_headers(&schema(), &headers, Some(&mapping), None, None);
    match &shape.columns[0].storage {
        ColumnStorage::SchemaColumn(name) => assert_eq!(name, "sender"),
        other => panic!("{other:?}"),
    }
    assert_eq!(shape.columns[1].storage, ColumnStorage::SourceJson);
}

fn plan_of(rows: &Vec<Vec<Cell>>) -> base_search::import::rows::PlannedTable {
    let detected = detect_table(&schema(), rows).unwrap();
    plan_table(&schema(), detected, &OrderedMap::new(), &OrderedMap::new()).unwrap()
}

#[test]
fn rows_are_drafted_with_what_is_beside_them() {
    let rows = vec![
        row(&["Date", "Seller", "Colour", "Shape"]),
        row(&["15.03.2024", "APPLE LTD", "red \"1\"", ""]),
    ];
    let table = plan_of(&rows);
    assert_eq!(table.quality.layout, "generic table");
    assert_eq!(table.headers, texts(&["Date", "Seller", "Colour", "Shape"]));
    assert_eq!(table.quality.source_columns, 4);
    assert_eq!(table.quality.extra_columns, 2);
    let draft = data_row(&table.plan, 0, &rows[1]).unwrap();
    assert_eq!(draft.values[place("declaration_date")], "2024-03-15");
    assert_eq!(draft.values[place("sender")], "APPLE LTD");
    assert_eq!(draft.extra.as_deref(), Some("[[\"Colour\",\"red \\\"1\\\"\"]]"));
    assert_eq!(draft.year_texts, texts(&["2024-03-15"]));
    assert!(data_row(&table.plan, 0, &row(&["", " ", ""])).is_none());
}

#[test]
fn cells_are_gathered_into_rows() {
    let mut assembler = RowAssembler::new();
    assert!(assembler.push(4, 2, text("c")).is_none());
    assert!(assembler.push(4, 0, text("a")).is_none());
    let done = assembler.push(7, 0, text("x")).unwrap();
    let shown: Vec<String> = done.iter().map(normalize_value).collect();
    assert_eq!(shown, texts(&["a", "", "c"]));
    assert_eq!(assembler.take().unwrap().len(), 1);
    assert!(assembler.take().is_none());
}

#[test]
fn a_table_is_detected_once_enough_rows_are_there() {
    let mut sink = RowSink::new();
    for n in 1..DETECTION_BUFFER_ROWS {
        let (step, _) = sink.row(row(&["a"]));
        assert_eq!(step, SinkStep::More, "{n}");
    }
    let (step, _) = sink.row(row(&["a"]));
    assert_eq!(step, SinkStep::Detect);
    assert_eq!(sink.start().len(), DETECTION_BUFFER_ROWS);
    let (step, given) = sink.row(row(&["b"]));
    assert_eq!(step, SinkStep::Import);
    assert_eq!(given.unwrap().len(), 1);
    assert_eq!(sink.rows_seen as usize, DETECTION_BUFFER_ROWS + 1);
    assert_eq!(sink.finish(), SinkStep::Flush);
    assert_eq!(RowSink::new().finish(), SinkStep::Nothing);
    assert!(batch_is_full(BATCH_SIZE) && !batch_is_full(BATCH_SIZE - 1));
    assert!(sheet_is_empty(&vec![row(&["", " "]), Vec::new()]));
    assert!(!sheet_is_empty(&vec![row(&["", "x"])]));
}

#[test]
fn a_sheet_is_previewed_before_it_is_imported() {
    let rows = vec![
        row(&["Seller", "Colour"]),
        row(&["APPLE LTD", &"5".repeat(100), ""]),
        row(&["PEAR LTD", "red"]),
    ];
    let peek = preview_sheet(&schema(), "Sheet1".to_string(), 2, 3, &rows).unwrap();
    assert_eq!((peek.name.as_str(), peek.rows, peek.cols, peek.header_row), ("Sheet1", 2, 3, 1));
    assert_eq!(peek.columns.len(), 3);
    assert_eq!(peek.columns[0].semantic, Some(SemanticField::Sender));
    assert_eq!(peek.columns[1].sample.len(), 80);
    assert_eq!(peek.columns[2].header, "Column 3");
    assert_eq!(peek.columns[2].id, "column_3");
    assert_eq!(shorten("абв", 2), "аб");
}

#[test]
fn sheets_are_selected_by_name() {
    let names = texts(&["One", "Two", "Three"]);
    let all = select_sheets(&names, &None).unwrap();
    assert_eq!(all, names);
    let chosen = ImportOptions::selected_sheets(texts(&["Three", "One"]));
    assert_eq!(select_sheets(&names, &chosen.selected_sheets).unwrap(), texts(&["One", "Three"]));
    assert_eq!(
        select_sheets(&Vec::new(), &None).unwrap_err(),
        "The workbook contains no sheets."
    );
    let none = ImportOptions::selected_sheets(Vec::new());
    assert_eq!(
        select_sheets(&names, &none.selected_sheets).unwrap_err(),
        "No workbook sheet was selected for import."
    );
    let wrong = ImportOptions::selected_sheets(texts(&["Six", "One", "Five"]));
    assert_eq!(
        select_sheets(&names, &wrong.selected_sheets).unwrap_err(),
        "Selected workbook sheets were not found: Five, Six."
    );
    assert_eq!(source_name("a.xlsx", "One", true), "a.xlsx [One]");
    assert_eq!(source_name("a.xlsx", "One", false), "a.xlsx");
}

#[test]
fn the_decisions_for_a_delimited_file_may_have_any_name() {
    let options = ImportOptions::default()
        .with_sheet_semantics("Sheet1".to_string(), vec![(0, None)])
        .with_sheet_fixed_values(
            "a.csv".to_string(),
            vec![(SemanticField::Currency, "USD".to_string())],
        );
    let (overrides, fixed) = delimited_decisions(&options, &"a.csv".to_string()).unwrap();
    assert_eq!(overrides.unwrap().len(), 1);
    assert_eq!(fixed.unwrap().len(), 1);
    assert!(sheet_overrides(&options, &"a.csv".to_string()).is_none());
    assert!(sheet_overrides(&options, &"Sheet1".to_string()).is_some());
    assert!(sheet_fixed_values(&options, &"a.csv".to_string()).is_some());
    let none = ImportOptions::selected_sheets(Vec::new());
    assert_eq!(
        delimited_decisions(&none, &"a.csv".to_string()).unwrap_err(),
        "No table was selected for import."
    );
}

fn sheet(layout: &str, imported: u64, cancelled: bool) -> FileSummary {
    let mut summary = FileSummary::new("a.xlsx".to_string());
    summary.total_rows = imported + 1;
    summary.imported = imported;
    summary.duplicates = 1;
    summary.cancelled = cancelled;
    summary.quality.layout = layout.to_string();
    summary.quality.header_row = 1;
    summary
}

#[test]
fn a_workbook_is_imported_sheet_by_sheet() {
    let mut run = WorkbookRun::new(texts(&["One", "Empty", "Two"]));
    let mut summary = FileSummary::new("a.xlsx".to_string());
    let mut seen = Vec::new();
    while let Some(name) = run.next_sheet(&mut summary, false) {
        let done = match name.as_str() {
            "Empty" => sheet("", 0, false),
            _ => sheet("generic table", 5, false),
        };
        run.sheet_done(&mut summary, &done);
        seen.push(name);
    }
    assert_eq!(seen, texts(&["One", "Empty", "Two"]));
    run.finish(&mut summary).unwrap();
    assert_eq!((summary.total_rows, summary.imported, summary.duplicates), (12, 10, 2));
    assert_eq!(summary.quality.layout, "multi-sheet workbook");
    assert_eq!(summary.quality.warnings, texts(&["Imported sheets: One, Two."]));

    let mut run = WorkbookRun::new(texts(&["Empty"]));
    let mut summary = FileSummary::new("a.xlsx".to_string());
    run.next_sheet(&mut summary, false);
    run.sheet_done(&mut summary, &sheet("", 0, false));
    assert_eq!(
        run.finish(&mut summary).unwrap_err(),
        "No non-empty table was found in the workbook."
    );

    let mut run = WorkbookRun::new(texts(&["One", "Two"]));
    let mut summary = FileSummary::new("a.xlsx".to_string());
    run.next_sheet(&mut summary, false);
    run.sheet_done(&mut summary, &sheet("generic table", 5, true));
    assert_eq!(run.next_sheet(&mut summary, false), None);
    assert!(summary.cancelled);
    run.finish(&mut summary).unwrap();
}

#[test]
fn a_table_is_mostly_empty_from_nine_cells_in_ten() {
    let with = |non_empty_cells: u64, empty_cells: u64| ImportQuality {
        layout: "generic table".to_string(),
        non_empty_cells,
        empty_cells,
        ..Default::default()
    };
    assert!(is_mostly_empty(&with(10, 90)) && !is_mostly_empty(&with(11, 90)));
    assert!(is_mostly_empty(&with(0, 1)) && !is_mostly_empty(&with(1, 0)));
    assert!(!is_mostly_empty(&with(0, 0)));
    assert!(!is_mostly_empty(&with(u64::MAX, u64::MAX)));
    let mut sparse = with(10, 90);
    finalize_quality(&mut sparse, "90");
    assert_eq!(sparse.warnings, texts(&["90% of imported table cells are empty."]));
    let mut dense = with(11, 90);
    finalize_quality(&mut dense, "89");
    assert!(dense.warnings.is_empty());
}

#[test]
fn the_quality_of_a_table_is_reported() {
    let mut quality = ImportQuality::default();
    finalize_quality(&mut quality, "95");
    assert!(quality.warnings.is_empty());
    quality.layout = "generic table".to_string();
    quality.header_row = 3;
    quality.recognized_columns = 2;
    quality.source_columns = 3;
    count_quality_cells(&mut quality, &row(&["a", ""]));
    assert_eq!((quality.non_empty_cells, quality.empty_cells), (1, 2));
    assert!(!is_mostly_empty(&quality));
    quality.empty_cells = 19;
    finalize_quality(&mut quality, "95");
    assert_eq!(
        quality.warnings,
        texts(&[
            "Header row was detected at row 3; earlier rows were treated as title or metadata.",
            "Only 2 semantic fields were recognized; source columns are still preserved, but domain analytics may be limited.",
            "95% of imported table cells are empty.",
        ])
    );
    push_quality_warning(&mut quality, "95% of imported table cells are empty.");
    assert_eq!(quality.warnings.len(), 3);
    let kept = ImportQuality::default().with_warnings_text(quality.warnings_text());
    assert_eq!(kept.warnings, quality.warnings);
    let mut target = sheet("generic table", 5, false);
    merge_sheet_summary(&mut target, &sheet("generic table", 7, false));
    assert_eq!((target.total_rows, target.imported, target.duplicates), (14, 12, 2));
}

/// Runs an import; the action of the given name fails.
fn run_import(fails: &str, cancelled: bool) -> (FileSummary, Vec<&'static str>) {
    let options = ImportOptions::default();
    let (mut summary, mut action) = start_import("a.csv".to_string(), &options);
    let mut trace = Vec::new();
    loop {
        let outcome = |name: &str| {
            if fails == name {
                Err(format!("{name} failed"))
            } else {
                Ok(())
            }
        };
        let came_to = match action {
            ImportAction::Hash => {
                trace.push("hash");
                ImportOutcome::Hashed(outcome("hash").map(|_| "abc".to_string()))
            }
            ImportAction::LookUp(id) => {
                assert_eq!(id, "abc");
                trace.push("look up");
                ImportOutcome::LookedUp((fails == "look up").then(|| "b.csv".to_string()))
            }
            ImportAction::Begin => {
                trace.push("begin");
                ImportOutcome::Began(outcome("begin"))
            }
            ImportAction::Read => {
                trace.push("read");
                summary.total_rows = 10;
                summary.imported = 8;
                summary.duplicates = 2;
                summary.cancelled = cancelled;
                ImportOutcome::ReadRows(outcome("read"))
            }
            ImportAction::Commit => {
                trace.push("commit");
                ImportOutcome::Committed(outcome("commit"))
            }
            ImportAction::RollBack => {
                trace.push("roll back");
                ImportOutcome::RolledBack
            }
            ImportAction::Index => {
                trace.push("index");
                ImportOutcome::Indexed(outcome("index").map(|_| false))
            }
            ImportAction::FinishAndLog => {
                trace.push("log");
                ImportOutcome::Finished
            }
            ImportAction::Finish => {
                trace.push("finish");
                ImportOutcome::Finished
            }
            ImportAction::Done => return (summary, trace),
        };
        action = import_file_with_options(&mut summary, &options, came_to);
    }
}

#[test]
fn an_import_is_logged_only_once_it_is_committed() {
    let (summary, trace) = run_import("", false);
    assert_eq!(trace, ["hash", "look up", "begin", "read", "commit", "index", "log"]);
    assert_eq!((summary.imported, summary.error), (8, None));

    let (summary, trace) = run_import("read", false);
    assert_eq!(trace, ["hash", "look up", "begin", "read", "roll back", "finish"]);
    assert_eq!((summary.imported, summary.duplicates), (0, 0));
    assert_eq!(summary.error.as_deref(), Some("read failed"));

    let (summary, trace) = run_import("", true);
    assert_eq!(trace, ["hash", "look up", "begin", "read", "roll back", "finish"]);
    assert!(summary.cancelled && summary.imported == 0);

    let (_, trace) = run_import("commit", false);
    assert_eq!(trace, ["hash", "look up", "begin", "read", "commit", "roll back", "finish"]);
    let (summary, trace) = run_import("index", false);
    assert_eq!(trace.last(), Some(&"log"));
    assert_eq!(summary.imported, 8);
    let (summary, trace) = run_import("hash", false);
    assert_eq!(trace, ["hash"]);
    assert_eq!(summary.error.as_deref(), Some("hash failed"));
    let (_, trace) = run_import("begin", false);
    assert_eq!(trace, ["hash", "look up", "begin", "finish"]);
    let (summary, trace) = run_import("look up", false);
    assert_eq!(trace, ["hash", "look up"]);
    assert_eq!(summary.skipped_duplicate_of.as_deref(), Some("b.csv"));
}

#[test]
fn a_detected_table_is_planned_for_import() {
    let rows = vec![
        row(&["", ""]),
        row(&["Date", "Seller", "Colour"]),
        row(&["15.03.2024", "APPLE LTD", "red"]),
    ];
    let none = OrderedMap::new();
    let table = start_detected_import(&schema(), &rows, &none, &OrderedMap::new()).unwrap();
    assert_eq!(table.quality.header_row, 2);
    assert_eq!(table.plan.mapping.len(), schema().columns.len());
    let empty = vec![row(&["", " "])];
    assert_eq!(
        start_detected_import(&schema(), &empty, &none, &OrderedMap::new()).unwrap_err(),
        MISSING_HEADER
    );
    let outside = decisions(vec![(7, Some(SemanticField::Date))]);
    assert!(start_detected_import(&schema(), &rows, &outside, &OrderedMap::new()).is_err());
}

#[test]
fn rows_are_counted_as_they_are_taken() {
    let rows = vec![row(&["Date", "Seller", "Colour"]), row(&["15.03.2024", "APPLE LTD", ""])];
    let table = plan_of(&rows);
    let mut summary = FileSummary::new("a.csv".to_string());
    summary.quality = table.quality.clone();
    let mut batch = Vec::new();
    assert!(!take_row(&table.plan, 0, &rows[1], &mut summary, &mut batch));
    assert!(!take_row(&table.plan, 0, &row(&["", "", " "]), &mut summary, &mut batch));
    assert_eq!((batch.len(), summary.total_rows), (1, 1));
    assert_eq!((summary.quality.non_empty_cells, summary.quality.empty_cells), (2, 1));
    while batch.len() + 1 < BATCH_SIZE {
        batch.push(batch[0].clone());
    }
    assert!(take_row(&table.plan, 0, &rows[1], &mut summary, &mut batch));
    batch_written(&mut summary, &mut batch, 5, 3);
    assert!(batch.is_empty());
    assert_eq!((summary.imported, summary.duplicates), (5, 3));
    assert!(goes_on(&mut summary, false) && !summary.cancelled);
    assert!(!goes_on(&mut summary, true) && summary.cancelled);
}

#[test]
fn the_first_sheets_of_a_workbook_are_previewed() {
    let sheet = |name: &str, scanned: Vec<Vec<Cell>>| {
        Some(ReadSheet { name: name.to_string(), rows: scanned.len(), cols: 2, scanned })
    };
    let table = vec![row(&["Seller", "Colour"]), row(&["APPLE LTD", "red"])];
    let sheets = vec![
        sheet("Empty", vec![row(&[""])]),
        None,
        sheet("Goods", table.clone()),
        sheet("Late", table.clone()),
    ];
    let workbook = ReadFile::Workbook(sheets);
    let peek = peek_file(&schema(), &workbook, 3).unwrap();
    assert_eq!(peek.sheets.len(), 1);
    assert_eq!((peek.sheets[0].name.as_str(), peek.sheets[0].rows), ("Goods", 2));
    assert_eq!(peek_file(&schema(), &workbook, 9).unwrap().sheets[1].name, "Late");
    assert_eq!(
        peek_file(&schema(), &workbook, 2).unwrap_err(),
        "No readable sheets in this file."
    );
    let name = Some("a.csv".to_string());
    let delimited = ReadFile::Delimited { name, scanned: table.clone() };
    for (limit, file) in [(1, &delimited), (9, &delimited)] {
        let peek = peek_file(&schema(), file, limit).unwrap();
        assert_eq!((peek.sheets.len(), peek.sheets[0].name.as_str()), (1, "a.csv"));
    }
    for file in [&workbook, &delimited] {
        assert_eq!(
            peek_file(&schema(), file, 0).unwrap_err(),
            "No readable sheets in this file."
        );
    }
    let empty = ReadFile::Delimited { name: None, scanned: Vec::new() };
    assert_eq!(
        peek_file(&schema(), &empty, 1).unwrap_err(),
        "The delimited file has no header row."
    );

    let peek = peek_delimited_file(&schema(), Some("a.csv"), &table).unwrap();
    assert_eq!(peek.sheets[0].name, "a.csv");
    assert_eq!((peek.sheets[0].rows, peek.sheets[0].cols), (2, 2));
    let unnamed = peek_delimited_file(&schema(), None, &table).unwrap();
    assert_eq!(unnamed.sheets[0].name, "Delimited table");
    assert_eq!(
        peek_delimited_file(&schema(), None, &Vec::new()).unwrap_err(),
        "The delimited file has no header row."
    );
    assert_eq!(
        peek_delimited_file(&schema(), None, &vec![row(&[" "])]).unwrap_err(),
        "No non-empty table was found in the delimited file."
    );
}

#[test]
fn a_file_is_imported_as_one_table_or_sheet_by_sheet() {
    let path = |name: &str| FilePath { root: String::new(), parts: vec![name.to_string()] };
    let options = ImportOptions::default();
    let name = "a.csv".to_string();
    let run = import_file_inner(&path("a.CSV"), &name, &options, Err("unused".to_string()));
    assert!(matches!(run, Ok(FileRun::Delimited { overrides: None, fixed: None })));
    let none = ImportOptions::selected_sheets(Vec::new());
    assert_eq!(
        import_file_inner(&path("a.csv"), &name, &none, Ok(Vec::new())).unwrap_err(),
        "No table was selected for import."
    );
    assert_eq!(
        import_file_inner(&path("a.xlsx"), &name, &options, Err("locked".to_string())).unwrap_err(),
        "locked"
    );
    match import_file_inner(&path("a.xlsx"), &name, &options, Ok(texts(&["One", "Two"]))) {
        Ok(FileRun::Workbook { run, qualify }) => {
            assert!(qualify);
            assert_eq!(run.sheets, texts(&["One", "Two"]));
        }
        other => panic!("{other:?}"),
    }
    assert_eq!(find_sheet(&texts(&["One", "Two"]), "Two"), Ok(1));
    assert_eq!(
        find_sheet(&texts(&["One"]), "Two").unwrap_err(),
        "The file has no sheet named \"Two\"."
    );
}

#[test]
fn a_text_is_tried_for_a_number_without_blanks() {
    assert_eq!(bare_number_text(" 1 234,50\t"), "1234.50");
    assert_eq!(bare_number_text("1\u{a0}234\u{202f}567"), "1234567");
    assert_eq!(bare_number_text("1\t2"), "1\t2");
    assert_eq!(bare_number_text("1,2,3"), "1.2.3");
    assert_eq!(bare_number_text("  "), "");
}

#[test]
fn what_is_beside_a_row_is_kept_as_json() {
    let plan = RowPlan {
        mapping: Vec::new(),
        extra_cols: vec![(0, "a\"b\\".to_string()), (1, "Ґ/".to_string())],
        date_extra: Vec::new(),
    };
    let kept = collect_extra(&plan, &row(&["x", "y"]));
    assert_eq!(kept.as_deref(), Some("[[\"a\\\"b\\\\\",\"x\"],[\"Ґ/\",\"y\"]]"));
    let plan = RowPlan {
        extra_cols: vec![(0, "\u{8}\t\n\u{c}\r\u{1}\u{1f}\u{7f}".to_string())],
        ..plan
    };
    let kept = collect_extra(&plan, &row(&["x"]));
    assert_eq!(kept.as_deref(), Some("[[\"\\b\\t\\n\\f\\r\\u0001\\u001f\u{7f}\",\"x\"]]"));
}

#[test]
fn a_column_that_no_decision_touches_is_read_as_before() {
    let headers = texts(&["Date", "Seller", "Colour"]);
    let mut mapping = vec![ColSrc::Missing; schema().columns.len()];
    mapping[place("declaration_date")] = ColSrc::Join(vec![0, 1], " ");
    mapping[place("sender")] = ColSrc::Cell(1);
    let overrides = decisions(vec![(2, Some(SemanticField::Recipient))]);
    let decided = apply_semantic_overrides(&schema(), &headers, mapping, &overrides).unwrap();
    match &decided[place("declaration_date")] {
        ColSrc::Join(parts, sep) => assert_eq!((parts, *sep), (&vec![0, 1], " ")),
        other => panic!("{other:?}"),
    }
    assert!(matches!(decided[place("sender")], ColSrc::Cell(1)));
    assert!(matches!(decided[place("recipient")], ColSrc::Cell(2)));
}
