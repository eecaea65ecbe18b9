use base_search::analytics::{
    Analytics, AnalyticsCurrencyTotal, AnalyticsGroupRow, AnalyticsMeasures, AnalyticsOverview,
    AnalyticsPriceMetric, AnalyticsSection, AnalyticsSectionKind, AnalyticsValuePerWeight,
    PriceMetricKind, Real,
};
use base_search::figures::{
    compact_scale, compare_metric_row, compare_money_row, currency_breakdown, difference_text,
    fmt_compact, fmt_decimal, fmt_money_compact, fmt_money_exact, fmt_money_per_kg, is_comparable,
    money_difference, short_month, value_per_document, CompactScale,
};
use base_search::presentation::{
    compare_rows, report_figures, report_of, CompareText, CompareWords, ReportPlace, ReportText,
};
use base_search::reports::{
    esc_html, report_css, report_html, report_markdown, report_saved, report_tiles, shown_prices,
    shown_sections, Report, ReportPrice, ReportRow, ReportSection, ReportWords,
};

const MIXED: &str = "Several currencies";
const UNSTATED: &str = "currency not stated";

fn held(value: f64) -> Real {
    Real { bits: value.to_bits() }
}

fn number(value: Real) -> f64 {
    f64::from_bits(value.bits)
}

/// A number in short: its digits are rendered in the scale that the library picks.
fn compact(value: f64) -> String {
    let scale = compact_scale(held(value));
    let digits = match scale {
        CompactScale::Billions => format!("{:.1}", value / 1.0e9),
        CompactScale::Millions => format!("{:.1}", value / 1.0e6),
        CompactScale::Thousands => format!("{:.0}", value / 1.0e3),
        CompactScale::Whole => format!("{value:.0}"),
        CompactScale::Tenths => format!("{value:.1}"),
    };
    fmt_compact(scale, &digits)
}

fn decimal(value: f64, decimals: usize) -> String {
    fmt_decimal(held(value), &format!("{value:.decimals$}"))
}

fn bucket(currency: &str, known: bool, total: f64) -> AnalyticsCurrencyTotal {
    AnalyticsCurrencyTotal {
        currency: currency.to_string(),
        known,
        valued_rows: 1,
        total_value: held(total),
    }
}

fn measures(totals: Vec<AnalyticsCurrencyTotal>) -> AnalyticsMeasures {
    AnalyticsMeasures {
        currency_totals: totals,
        ..Default::default()
    }
}

fn total_of(measures: &AnalyticsMeasures) -> f64 {
    measures.single_currency_total().map_or(0.0, |(total, _)| number(total))
}

fn money_compact(measures: &AnalyticsMeasures) -> String {
    fmt_money_compact(measures, &compact(total_of(measures)), &compact(0.0), MIXED)
}

fn money_exact(measures: &AnalyticsMeasures) -> String {
    fmt_money_exact(measures, &decimal(total_of(measures), 2), &decimal(0.0, 2), MIXED)
}

fn per_document(measures: &AnalyticsMeasures, documents: u64) -> Option<f64> {
    value_per_document(measures, documents).map(|total| number(total) / documents as f64)
}

fn breakdown(measures: &AnalyticsMeasures) -> Option<String> {
    let figures = measures
        .currency_totals
        .iter()
        .map(|total| compact(number(total.total_value)))
        .collect();
    currency_breakdown(measures, &figures, UNSTATED)
}

#[test]
fn a_single_bucket_shows_its_number_with_its_currency() {
    let usd = measures(vec![bucket("USD", true, 1500.0)]);
    assert_eq!(money_compact(&usd), "1500 USD");
    assert_eq!(money_exact(&usd), "1\u{202F}500 USD");
    assert_eq!(per_document(&usd, 3), Some(500.0));
}

#[test]
fn an_unstated_currency_still_shows_the_number() {
    let unknown = measures(vec![bucket("__unknown__", false, 1500.0)]);
    assert_eq!(money_compact(&unknown), "1500");
    assert_eq!(per_document(&unknown, 3), Some(500.0));
}

#[test]
fn several_currencies_never_collapse_into_one_number() {
    let mixed = measures(vec![bucket("USD", true, 1000.0), bucket("EUR", true, 500.0)]);
    assert_eq!(money_compact(&mixed), "Several currencies");
    assert_eq!(money_exact(&mixed), "Several currencies");
    assert!(
        !money_compact(&mixed).contains("1500"),
        "the two buckets must never be added together"
    );
    assert_eq!(
        per_document(&mixed, 3),
        None,
        "a per-document average across currencies is not a number"
    );
}

#[test]
fn several_currencies_are_then_shown_one_by_one() {
    let mixed = measures(vec![bucket("USD", true, 1000.0), bucket("EUR", true, 500.0)]);
    assert_eq!(breakdown(&mixed).as_deref(), Some("1000 USD  ·  500 EUR"));
}

#[test]
fn a_bucket_without_a_stated_currency_is_named_as_such() {
    let mixed = measures(vec![
        bucket("USD", true, 1000.0),
        bucket("__unknown__", false, 500.0),
    ]);
    assert_eq!(
        breakdown(&mixed).as_deref(),
        Some("1000 USD  ·  500 currency not stated")
    );
}

#[test]
fn one_currency_has_nothing_to_break_down() {
    assert_eq!(breakdown(&measures(vec![bucket("USD", true, 1000.0)])), None);
    assert_eq!(breakdown(&measures(vec![])), None);
}

#[test]
fn no_money_at_all_is_a_zero_not_a_currency_conflict() {
    assert_eq!(money_compact(&measures(vec![])), "0.0");
}

#[test]
fn money_per_kilogram_follows_the_same_rule() {
    let ratio = |currency: &str, value: Option<f64>| AnalyticsValuePerWeight {
        currency: currency.to_string(),
        normalized_weight_unit: "kg".to_string(),
        value_per_weight: value.map(held),
        ..Default::default()
    };
    let one = AnalyticsMeasures {
        value_per_net_weight: vec![ratio("USD", Some(2.5))],
        ..Default::default()
    };
    assert_eq!(fmt_money_per_kg(&one, "2.5", "0", MIXED), "2.5 USD");
    assert_eq!(fmt_money_per_kg(&measures(vec![]), "9", "0", MIXED), "0");
    let two = AnalyticsMeasures {
        value_per_net_weight: vec![ratio("USD", Some(2.5)), ratio("EUR", Some(3.0))],
        ..Default::default()
    };
    assert_eq!(fmt_money_per_kg(&two, "9", "0", MIXED), MIXED);
}

#[test]
fn short_month_compacts_iso_month() {
    assert_eq!(short_month("2024-03"), "03'24");
    assert_eq!(short_month("bad"), "bad");
}

#[test]
fn a_short_month_is_cut_by_bytes() {
    assert_eq!(short_month("2024-03-15"), "03'24");
    assert_eq!(short_month("20Ж-03"), "03'Ж");
    assert_eq!(short_month("2024-0"), "2024-0");
    assert_eq!(short_month("202Ж-03"), "202Ж-03");
}

#[test]
fn compact_numbers_match_existing_ui_scale() {
    assert_eq!(compact(12_400_000.0), "12.4M");
    assert_eq!(compact(980_000.0), "980K");
    assert_eq!(compact(312.0), "312");
    assert_eq!(compact(9.25), "9.2");
}

#[test]
fn a_scale_begins_where_its_number_does() {
    for (value, scale) in [
        (1.0e9, CompactScale::Billions),
        (-2.5e12, CompactScale::Billions),
        (f64::INFINITY, CompactScale::Billions),
        (999_999_999.999, CompactScale::Millions),
        (1.0e6, CompactScale::Millions),
        (999_999.999, CompactScale::Thousands),
        (-1.0e4, CompactScale::Thousands),
        (9_999.999, CompactScale::Whole),
        (100.0, CompactScale::Whole),
        (99.999, CompactScale::Tenths),
        (-0.0, CompactScale::Tenths),
        (f64::NAN, CompactScale::Tenths),
    ] {
        assert_eq!(compact_scale(held(value)), scale, "{value}");
    }
}

#[test]
fn decimals_trim_zeroes_and_group_thousands() {
    assert_eq!(decimal(1234.50, 2), "1\u{202F}234.5");
    assert_eq!(decimal(-1234567.0, 2), "-1\u{202F}234\u{202F}567");
    assert_eq!(decimal(f64::NAN, 2), "0");
}

#[test]
fn grouping_leaves_the_digits_alone() {
    for (rendered, shown) in [
        ("0", "0"),
        ("999", "999"),
        ("1000", "1\u{202F}000"),
        ("100.00", "100"),
        ("-12345678.125", "-12\u{202F}345\u{202F}678.125"),
        ("0.10", "0.1"),
        ("", ""),
    ] {
        assert_eq!(fmt_decimal(held(1.0), rendered), shown);
    }
    let shown = fmt_decimal(held(-12345678.125), "-12345678.125");
    assert_eq!(shown.replace('\u{202F}', ""), "-12345678.125");
    assert_eq!(fmt_decimal(held(f64::NEG_INFINITY), "-inf"), "0");
}

fn difference(left: Option<(f64, &str)>, right: Option<(f64, &str)>) -> String {
    let (delta, percent) = match (left, right) {
        (Some((before, _)), Some((after, _))) => (
            decimal(after - before, 2),
            format!("{:+.1}", (after - before) / before * 100.0),
        ),
        _ => (String::new(), String::new()),
    };
    money_difference(
        left.map(|(value, code)| (held(value), code)),
        right.map(|(value, code)| (held(value), code)),
        &delta,
        &percent,
        MIXED,
    )
}

#[test]
fn two_totals_in_the_same_currency_subtract() {
    assert_eq!(
        difference(Some((1000.0, "USD")), Some((1250.0, "USD"))),
        "250 USD (+25.0%)"
    );
}

#[test]
fn a_dollar_total_is_never_subtracted_from_a_euro_one() {
    assert_eq!(
        difference(Some((1000.0, "USD")), Some((1250.0, "EUR"))),
        "Several currencies"
    );
}

#[test]
fn a_side_that_spans_currencies_has_no_difference_to_report() {
    assert_eq!(difference(None, Some((1250.0, "EUR"))), "Several currencies");
    assert_eq!(difference(Some((1000.0, "USD")), None), "Several currencies");
}

#[test]
fn two_unlabelled_totals_still_subtract() {
    assert_eq!(difference(Some((100.0, "")), Some((80.0, ""))), "-20 (-20.0%)");
}

#[test]
fn nothing_is_compared_to_nothing() {
    assert_eq!(difference(Some((0.0, "USD")), Some((80.0, "USD"))), "80 USD");
    assert!(!is_comparable(held(f64::EPSILON)));
    assert!(is_comparable(held(-1.0)));
    assert!(is_comparable(held(f64::EPSILON * 2.0)));
    assert!(!is_comparable(held(f64::NAN)));
    assert_eq!(difference_text("5", held(10.0), "+50.0"), "5 (+50.0%)");
    assert_eq!(difference_text("5", held(0.0), "+50.0"), "5");
    let row = compare_metric_row("Rows", "10", "15", held(10.0), "5", "+50.0");
    assert_eq!(
        (row.label.as_str(), row.left.as_str(), row.right.as_str(), row.difference.as_str()),
        ("Rows", "10", "15", "5 (+50.0%)")
    );
    let row = compare_money_row(
        "Value",
        ("10 USD", Some((held(10.0), "USD"))),
        (MIXED, None),
        "0",
        "0",
        MIXED,
    );
    assert_eq!(row.difference, MIXED);
    assert_eq!(row.left, "10 USD");
}

fn row(label: &str, total: f64, currency: &str) -> ReportRow {
    ReportRow {
        label: label.to_string(),
        money: money_exact(&measures(vec![bucket(currency, true, total)])),
        net: "0.000".to_string(),
        rows: 2,
        share: "0.0".to_string(),
    }
}

/// Renders what a report asks for.
fn say(item: ReportText) -> String {
    match item {
        ReportText::Count(count) => count.to_string(),
        ReportText::Compact(value) => compact(number(value)),
        ReportText::Decimal(value, decimals) => decimal(number(value), decimals as usize),
        ReportText::Fixed(value, decimals) => {
            let decimals = decimals as usize;
            format!("{:.decimals$}", number(value))
        }
        ReportText::SectionTitle(kind) => format!("{kind:?}"),
        ReportText::PriceTitle(kind) => format!("{kind:?}"),
    }
}

/// One company in dollars, one in euros, and a workspace total that is neither.
/// The sum across the two stands in the deprecated field, where a report must
/// not take it from.
fn mixed_analytics() -> Analytics {
    Analytics {
        overview: AnalyticsOverview {
            row_count: 4,
            total_value_usd: held(1500.0),
            measures: measures(vec![bucket("USD", true, 1000.0), bucket("EUR", true, 500.0)]),
            ..Default::default()
        },
        company_sections: vec![AnalyticsSection {
            kind: AnalyticsSectionKind::Senders,
            rows: vec![
                AnalyticsGroupRow {
                    label: "SHENZHEN TECH".to_string(),
                    rows: 2,
                    total_value_usd: held(1000.0),
                    measures: measures(vec![bucket("USD", true, 1000.0)]),
                    ..Default::default()
                },
                AnalyticsGroupRow {
                    label: "HAMBURG HANDEL".to_string(),
                    rows: 2,
                    total_value_usd: held(500.0),
                    measures: measures(vec![bucket("EUR", true, 500.0)]),
                    ..Default::default()
                },
            ],
        }],
        ..Default::default()
    }
}

fn mixed_report() -> Report {
    report_of(&mixed_analytics(), "all records", ReportPlace::File, &say, MIXED, UNSTATED)
}

fn words() -> ReportWords {
    ReportWords {
        rows: "Rows".to_string(),
        declarations: "Declarations".to_string(),
        total_value: "Total value".to_string(),
        net_weight: "Net weight".to_string(),
        value_per_kg: "Average value/kg".to_string(),
        companies: "Companies".to_string(),
        currency_breakdown: "By currency".to_string(),
        companies_section: "Companies".to_string(),
        products_section: "Goods".to_string(),
        countries_section: "Countries".to_string(),
        prices_section: "Prices".to_string(),
    }
}

#[test]
fn the_markdown_report_labels_every_company_with_its_own_currency() {
    let report = report_markdown(&mixed_report(), &words());
    assert!(report.contains("1\u{202F}000 USD"), "{report}");
    assert!(report.contains("500 EUR"), "{report}");
    assert!(
        report.contains("Total value: Several currencies"),
        "the workspace total spans two and must say so: {report}"
    );
    assert!(
        report.contains("By currency: 1000 USD  ·  500 EUR"),
        "and then say which two, since the reader cannot hover a file: {report}"
    );
    assert!(
        !report.contains("1500") && !report.contains("1\u{202F}500"),
        "the cross-currency sum reached the report: {report}"
    );
}

#[test]
fn the_html_report_does_the_same() {
    let report = report_html(&mixed_report(), &words());
    assert!(report.contains("1\u{202F}000 USD"), "{report}");
    assert!(report.contains("500 EUR"), "{report}");
    assert!(
        report.contains("1000 USD  ·  500 EUR"),
        "the breakdown belongs in the exported file too: {report}"
    );
    assert!(
        !report.contains(">1500<") && !report.contains("1500.00"),
        "the cross-currency sum reached the report: {report}"
    );
}

#[test]
fn the_markdown_report_is_written_line_by_line() {
    let report = report_markdown(&mixed_report(), &words());
    assert_eq!(
        report,
        "# Base Search Report\n\nQuery: all records\n\n## Summary\n- Rows: 4\n- Declarations: 0\n\
         - Total value: Several currencies\n- By currency: 1000 USD  ·  500 EUR\n\
         - Net weight: 0.000 kg\n- Average value/kg: 0\n\n## Companies\n### Senders\n\
         - SHENZHEN TECH: value 1\u{202F}000 USD, net 0.000 kg, rows 2, share 0.0%\n\
         - HAMBURG HANDEL: value 500 EUR, net 0.000 kg, rows 2, share 0.0%\n\n\
         ## Goods\n\n## Countries\n\n"
    );
}

#[test]
fn the_page_is_written_with_its_tables() {
    let mut report = mixed_report();
    report.query = "a < b & \"c\"".to_string();
    report.companies[0].rows[0].label = "<b>".to_string();
    report.prices = vec![
        ReportPrice {
            title: "Price".to_string(),
            average: "1.000".to_string(),
            weighted: "2.000".to_string(),
            median: "3.000".to_string(),
            p25: "4.000".to_string(),
            p75: "5.000".to_string(),
            count: 7,
        },
    ];
    let page = report_html(&report, &words());
    assert!(page.starts_with("<!doctype html><html><head><meta charset=\"utf-8\"><title>Base Search Report</title><style>"));
    assert!(page.contains(report_css()));
    assert!(page.contains("<h1>Base Search Report</h1><p class=\"query\">a &lt; b &amp; &quot;c&quot;</p><section class=\"kpis\"><article><span>Rows</span><strong>4</strong></article>"));
    assert!(page.contains("<article><span>Net weight</span><strong>0.000 kg</strong></article>"));
    assert!(page.contains("<section><h2>Companies</h2><h3>Senders</h3><table><thead><tr><th>Name</th><th>Value</th><th>Net kg</th><th>Rows</th><th>Share</th></tr></thead><tbody><tr><td>&lt;b&gt;</td><td>1\u{202F}000 USD</td><td>0.000</td><td>2</td><td>0.0%</td></tr>"));
    assert!(page.contains("<tr><td>Price</td><td>1.000</td><td>2.000</td><td>3.000</td><td>4.000 - 5.000</td><td>7</td></tr></tbody></table></section></body></html>"));
}

#[test]
fn escaped_text_holds_no_markup() {
    assert_eq!(
        esc_html("<a href=\"x\">&amp;</a>"),
        "&lt;a href=&quot;x&quot;&gt;&amp;amp;&lt;/a&gt;"
    );
    assert_eq!(esc_html("Дата 'x'"), "Дата 'x'");
}

#[test]
fn only_the_first_filled_sections_and_prices_are_shown() {
    let section = |rows: usize| ReportSection {
        kind: AnalyticsSectionKind::Recipients,
        title: "x".to_string(),
        rows: vec![row("r", 1.0, "USD"); rows],
    };
    let sections = vec![section(0), section(1), section(2), section(0), section(3), section(4)];
    assert_eq!(shown_sections(&sections, 3), vec![1, 2, 4]);
    assert_eq!(shown_sections(&sections, 0), Vec::<usize>::new());
    let price = |count: u64| ReportPrice {
        title: String::new(),
        average: String::new(),
        weighted: String::new(),
        median: String::new(),
        p25: String::new(),
        p75: String::new(),
        count,
    };
    let prices = vec![price(1), price(0), price(2), price(3)];
    assert_eq!(shown_prices(&prices, 2), vec![true, false, true, false]);
    let mut long = mixed_report();
    long.companies[0].rows = (0..12).map(|n| row(&format!("c{n}"), 1.0, "USD")).collect();
    let report = report_markdown(&long, &words());
    assert!(report.contains("- c9:") && !report.contains("- c10:"));
}

#[test]
fn the_tiles_hold_the_headline() {
    let tiles = report_tiles(&mixed_report().figures, &words());
    let shown: Vec<(&str, &str)> =
        tiles.iter().map(|tile| (tile.label.as_str(), tile.value.as_str())).collect();
    assert_eq!(
        shown,
        vec![
            ("Rows", "4"),
            ("Declarations", "0"),
            ("Total value", "Several currencies"),
            ("Net weight", "0.000 kg"),
            ("Average value/kg", "0"),
            ("Companies", "0"),
        ]
    );
}

#[test]
fn a_saved_report_is_told() {
    let saved = report_saved(Ok(()), "a/b.html", "Error");
    assert_eq!((saved.text.as_str(), saved.is_error), ("Report exported: a/b.html", false));
    let failed = report_saved(Err("disk is full".to_string()), "a/b.html", "Error");
    assert_eq!((failed.text.as_str(), failed.is_error), ("Error: disk is full", true));
}

#[test]
fn a_report_takes_every_figure_from_its_own_place() {
    let mut analytics = mixed_analytics();
    analytics.overview.declaration_count = 3;
    analytics.overview.distinct_edrpou = 2;
    analytics.overview.total_net_kg = held(1234.5);
    analytics.overview.measures.value_per_net_weight = vec![AnalyticsValuePerWeight {
        currency: "EUR".to_string(),
        value_per_weight: Some(held(2.5)),
        ..Default::default()
    }];
    analytics.company_sections[0].rows[0].total_net_kg = held(7.0);
    analytics.company_sections[0].rows[0].share_percent = held(66.67);
    analytics.product_sections = vec![AnalyticsSection::default()];
    analytics.country_sections = vec![
        AnalyticsSection { kind: AnalyticsSectionKind::TradeCountries, rows: Vec::new() },
        AnalyticsSection { kind: AnalyticsSectionKind::OriginCountries, rows: Vec::new() },
    ];
    analytics.price_sections = vec![AnalyticsPriceMetric {
        kind: PriceMetricKind::RfvUsdKg,
        count: 9,
        average: held(1.0),
        weighted_average: held(2.0),
        median: held(3.0),
        p25: held(4.0),
        p75: held(5.0),
        ..Default::default()
    }];
    let report = report_of(&analytics, "q", ReportPlace::File, &say, MIXED, UNSTATED);
    let figures = &report.figures;
    assert_eq!((figures.declarations.as_str(), figures.companies.as_str()), ("3", "2"));
    assert_eq!(figures.net_weight, "1234.500 kg");
    assert_eq!(figures.value_per_kg, "2.5 EUR");
    assert_eq!(report.companies[0].title, "Senders");
    let row = &report.companies[0].rows[0];
    assert_eq!((row.net.as_str(), row.share.as_str(), row.rows), ("7.000", "66.7", 2));
    assert_eq!(report.products[0].kind, AnalyticsSectionKind::Recipients);
    assert_eq!(report.countries[0].kind, AnalyticsSectionKind::TradeCountries);
    assert_eq!(report.countries[1].title, "OriginCountries");
    let price = &report.prices[0];
    assert_eq!((price.title.as_str(), price.count), ("RfvUsdKg", 9));
    assert_eq!(
        [&price.average, &price.weighted, &price.median, &price.p25, &price.p75],
        ["1.000", "2.000", "3.000", "4.000", "5.000"]
    );

    let screen = report_of(&analytics, "q", ReportPlace::Screen, &say, MIXED, UNSTATED);
    assert_eq!(screen.figures.net_weight, "1234 kg");
    assert_eq!(screen.companies[0].rows[0].money, "1000 USD");
    assert_eq!(screen.companies[0].rows[0].share, "66.7");
    assert_eq!(screen.prices[0].median, "3");
}

#[test]
fn a_headline_names_its_currency_or_says_why_it_cannot() {
    let headline = |totals: Vec<AnalyticsCurrencyTotal>| {
        let overview = AnalyticsOverview {
            total_value_usd: held(77.0),
            measures: measures(totals),
            ..Default::default()
        };
        let figures = report_figures(&overview, ReportPlace::File, &say, MIXED, UNSTATED);
        (figures.total_value, figures.breakdown)
    };
    assert_eq!(headline(Vec::new()), ("0".to_string(), None));
    assert_eq!(headline(vec![bucket("USD", true, 1500.0)]).0, "1\u{202F}500 USD");
    assert_eq!(headline(vec![bucket("__unknown__", false, 5.5)]).0, "5.5");
    assert_eq!(
        headline(vec![bucket("USD", true, 1.0), bucket("__unknown__", false, 2.0)]),
        (MIXED.to_string(), Some("1.0 USD  ·  2.0 currency not stated".to_string()))
    );
}

/// Renders what a comparison asks for.
fn tell(item: CompareText) -> String {
    match item {
        CompareText::Count(count) => count.to_string(),
        CompareText::CountChange(left, right) => format!("{}", right as i64 - left as i64),
        CompareText::CountPercent(left, right) => {
            format!("{:+.1}", (right as f64 - left as f64) / left as f64 * 100.0)
        }
        CompareText::Number(value) => decimal(number(value), 2),
        CompareText::NumberChange(left, right) => decimal(number(right) - number(left), 2),
        CompareText::NumberPercent(left, right) => {
            format!("{:+.1}", (number(right) - number(left)) / number(left) * 100.0)
        }
    }
}

#[test]
fn a_comparison_has_six_rows_in_their_order() {
    let words = CompareWords {
        rows: "Rows".to_string(),
        declarations: "Declarations".to_string(),
        total_value: "Total value".to_string(),
        net_weight: "Net weight".to_string(),
        value_per_kg: "Average value/kg".to_string(),
        companies: "Companies".to_string(),
        mixed: MIXED.to_string(),
    };
    let left = AnalyticsOverview {
        row_count: 10,
        distinct_edrpou: 4,
        total_net_kg: held(2.0),
        total_value_usd: held(1500.0),
        measures: measures(vec![bucket("USD", true, 1000.0)]),
        ..Default::default()
    };
    let mut right = AnalyticsOverview {
        row_count: 15,
        declaration_count: 7,
        distinct_edrpou: 3,
        total_net_kg: held(1.0),
        measures: measures(vec![bucket("USD", true, 1250.0)]),
        ..Default::default()
    };
    let shown = |right: &AnalyticsOverview| -> Vec<(String, String, String, String)> {
        compare_rows(&left, right, &words, &tell)
            .into_iter()
            .map(|row| (row.label, row.left, row.right, row.difference))
            .collect()
    };
    let expected = |label: &str, left: &str, right: &str, difference: &str| {
        (label.to_string(), left.to_string(), right.to_string(), difference.to_string())
    };
    assert_eq!(
        shown(&right),
        vec![
            expected("Rows", "10", "15", "5 (+50.0%)"),
            expected("Declarations", "0", "7", "7"),
            expected("Total value", "1\u{202F}000 USD", "1\u{202F}250 USD", "250 USD (+25.0%)"),
            expected("Net weight", "2", "1", "-1 (-50.0%)"),
            expected("Average value/kg", "0", "0", MIXED),
            expected("Companies", "4", "3", "-1 (-25.0%)"),
        ]
    );
    right.measures = measures(vec![bucket("EUR", true, 1250.0)]);
    assert_eq!(shown(&right)[2].3, MIXED);
    right.measures = mixed_analytics().overview.measures;
    assert_eq!(shown(&right)[2].2, MIXED);
    assert_eq!(shown(&right)[2].3, MIXED);
}
