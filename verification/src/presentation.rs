//! What a report and a comparison say of some analytics: which figures stand in
//! them, in what order, and which number each figure is rendered from. The
//! rendering itself is handed in.
use vstd::prelude::*;
use vstd::string::*;

use crate::analytics::{
    bucket_label, ratio_label, Analytics, AnalyticsCurrencyTotal, AnalyticsGroupRow,
    AnalyticsMeasures, AnalyticsOverview, AnalyticsPriceMetric, AnalyticsSection,
    AnalyticsSectionKind, PriceMetricKind, Real,
};
use crate::figures::{
    bucket_texts, comparable, compare_metric_row, compare_money_row, currency_breakdown,
    label_money, labelled, CompareRow, BREAKDOWN_SIGN,
};
use crate::reports::{Report, ReportFigures, ReportPrice, ReportRow, ReportSection};
use crate::text::{joined, views};

verus! {

/// Something that a report asks to have rendered.
#[derive(Clone, Copy, Debug, PartialEq, Eq)]
pub enum ReportText {
    /// A count, with its digits in groups.
    Count(u64),
    /// A number in short.
    Compact(Real),
    /// A number rounded to some decimals, its digits in groups and without
    /// trailing zeros.
    Decimal(Real, u8),
    /// A number with exactly some decimals.
    Fixed(Real, u8),
    /// The title of a section.
    SectionTitle(AnalyticsSectionKind),
    /// The title of a price metric.
    PriceTitle(PriceMetricKind),
}

/// Where a report is read: in a file, with all its digits, or on the screen, in
/// short.
#[derive(Clone, Copy, Debug, PartialEq, Eq, Structural)]
pub enum ReportPlace {
    File,
    Screen,
}

/// The number zero.
pub open spec fn zero() -> Real {
    Real { bits: 0 }
}

/// How money is rendered.
pub open spec fn money_item(place: ReportPlace, value: Real) -> ReportText {
    match place {
        ReportPlace::File => ReportText::Decimal(value, 2),
        ReportPlace::Screen => ReportText::Compact(value),
    }
}

/// How the weight of the whole is rendered.
pub open spec fn weight_item(place: ReportPlace, value: Real) -> ReportText {
    match place {
        ReportPlace::File => ReportText::Fixed(value, 3),
        ReportPlace::Screen => ReportText::Compact(value),
    }
}

/// How a share is rendered.
pub open spec fn share_item(place: ReportPlace, value: Real) -> ReportText {
    match place {
        ReportPlace::File => ReportText::Fixed(value, 1),
        ReportPlace::Screen => ReportText::Decimal(value, 1),
    }
}

/// How a price is rendered.
pub open spec fn price_item(place: ReportPlace, value: Real) -> ReportText {
    match place {
        ReportPlace::File => ReportText::Fixed(value, 3),
        ReportPlace::Screen => ReportText::Decimal(value, 2),
    }
}

impl ReportPlace {
    /// How money is rendered.
    fn money(self, value: Real) -> (r: ReportText)
        ensures
            r == money_item(self, value),
    {
        match self {
            ReportPlace::File => ReportText::Decimal(value, 2),
            ReportPlace::Screen => ReportText::Compact(value),
        }
    }

    /// How the weight of the whole is rendered.
    fn weight(self, value: Real) -> (r: ReportText)
        ensures
            r == weight_item(self, value),
    {
        match self {
            ReportPlace::File => ReportText::Fixed(value, 3),
            ReportPlace::Screen => ReportText::Compact(value),
        }
    }

    /// How a share is rendered.
    fn share(self, value: Real) -> (r: ReportText)
        ensures
            r == share_item(self, value),
    {
        match self {
            ReportPlace::File => ReportText::Fixed(value, 1),
            ReportPlace::Screen => ReportText::Decimal(value, 1),
        }
    }

    /// How a price is rendered.
    fn price(self, value: Real) -> (r: ReportText)
        ensures
            r == price_item(self, value),
    {
        match self {
            ReportPlace::File => ReportText::Fixed(value, 3),
            ReportPlace::Screen => ReportText::Decimal(value, 2),
        }
    }
}

/// A text is what something was rendered as.
pub open spec fn said<F: Fn(ReportText) -> String>(
    say: F,
    item: ReportText,
    text: Seq<char>,
) -> bool {
    exists|t: String| #[trigger] call_ensures(say, (item,), t) && t@ == text
}

/// Anything can be rendered.
pub open spec fn says_all<F: Fn(ReportText) -> String>(say: F) -> bool {
    forall|item: ReportText| call_requires(say, (item,))
}

/// The one total of some measures, with the label it has to carry.
pub open spec fn total_figure(m: AnalyticsMeasures) -> Option<(Real, Seq<char>)> {
    if m.currency_totals@.len() == 1 {
        Some((m.currency_totals@[0].total_value, bucket_label(m.currency_totals@[0])))
    } else {
        None
    }
}

/// The one value per kilogram of some measures, with the label it has to carry.
pub open spec fn ratio_figure(m: AnalyticsMeasures) -> Option<(Real, Seq<char>)> {
    if m.value_per_net_weight@.len() == 1 && m.value_per_net_weight@[0].value_per_weight is Some {
        Some(
            (
                m.value_per_net_weight@[0].value_per_weight->0,
                ratio_label(m.value_per_net_weight@[0]),
            ),
        )
    } else {
        None
    }
}

/// The total of some measures is shown: the one total there is, with its
/// currency; a zero where there is no money at all; and that there are several
/// currencies where there are.
pub open spec fn shows_total<F: Fn(ReportText) -> String>(
    shown: Seq<char>,
    m: AnalyticsMeasures,
    place: ReportPlace,
    say: F,
    mixed: Seq<char>,
) -> bool {
    match total_figure(m) {
        Some((value, code)) => exists|t: Seq<char>| #[trigger]
            said(say, money_item(place, value), t) && shown == labelled(t, code),
        None => if m.currency_totals@.len() == 0 {
            said(say, money_item(place, zero()), shown)
        } else {
            shown == mixed
        },
    }
}

/// The value per kilogram of some measures is shown, by the same rule.
pub open spec fn shows_ratio<F: Fn(ReportText) -> String>(
    shown: Seq<char>,
    m: AnalyticsMeasures,
    say: F,
    mixed: Seq<char>,
) -> bool {
    match ratio_figure(m) {
        Some((value, code)) => exists|t: Seq<char>| #[trigger]
            said(say, ReportText::Decimal(value, 2), t) && shown == labelled(t, code),
        None => if m.value_per_net_weight@.len() == 0 {
            said(say, ReportText::Decimal(zero(), 2), shown)
        } else {
            shown == mixed
        },
    }
}

/// Some texts are the totals in short, one for each currency.
pub open spec fn bucket_figures<F: Fn(ReportText) -> String>(
    figures: Seq<Seq<char>>,
    totals: Seq<AnalyticsCurrencyTotal>,
    say: F,
) -> bool {
    &&& figures.len() == totals.len()
    &&& forall|i: int|
        0 <= i < totals.len() ==> #[trigger] said(
            say,
            ReportText::Compact(totals[i].total_value),
            figures[i],
        )
}

/// Every currency is shown with its own total where there are several, and
/// nothing where there are not.
pub open spec fn shows_breakdown<F: Fn(ReportText) -> String>(
    shown: Option<String>,
    m: AnalyticsMeasures,
    say: F,
    unstated: Seq<char>,
) -> bool {
    match shown {
        Some(text) => m.currency_totals@.len() >= 2 && exists|figures: Seq<Seq<char>>| #[trigger]
            bucket_figures(figures, m.currency_totals@, say) && text@ == joined(
                bucket_texts(m.currency_totals@, figures, unstated),
                BREAKDOWN_SIGN@,
            ),
        None => m.currency_totals@.len() < 2,
    }
}

/// The headline of a report shows an overview.
pub open spec fn shows_overview<F: Fn(ReportText) -> String>(
    r: ReportFigures,
    overview: AnalyticsOverview,
    place: ReportPlace,
    say: F,
    mixed: Seq<char>,
    unstated: Seq<char>,
) -> bool {
    &&& said(say, ReportText::Count(overview.row_count), r.rows@)
    &&& said(say, ReportText::Count(overview.declaration_count), r.declarations@)
    &&& shows_total(r.total_value@, overview.measures, place, say, mixed)
    &&& shows_breakdown(r.breakdown, overview.measures, say, unstated)
    &&& exists|t: Seq<char>| #[trigger]
        said(say, weight_item(place, overview.total_net_kg), t) && r.net_weight@ == t + " kg"@
    &&& shows_ratio(r.value_per_kg@, overview.measures, say, mixed)
    &&& said(say, ReportText::Count(overview.distinct_edrpou), r.companies@)
}

/// The total of some measures as it is shown.
fn total_text<F: Fn(ReportText) -> String>(
    measures: &AnalyticsMeasures,
    place: ReportPlace,
    say: &F,
    mixed: &str,
) -> (r: String)
    requires
        says_all(*say),
    ensures
        shows_total(r@, *measures, place, *say, mixed@),
{
    match measures.single_currency_total() {
        Some((value, code)) => {
            let figure = say(place.money(value));
            assert(said(*say, money_item(place, value), figure@));
            label_money(Some(code), false, figure.as_str(), "", mixed)
        },
        None => if measures.currency_totals.len() == 0 {
            say(place.money(Real { bits: 0 }))
        } else {
            String::from_str(mixed)
        },
    }
}

/// The value per kilogram of some measures as it is shown.
fn ratio_text<F: Fn(ReportText) -> String>(
    measures: &AnalyticsMeasures,
    say: &F,
    mixed: &str,
) -> (r: String)
    requires
        says_all(*say),
    ensures
        shows_ratio(r@, *measures, *say, mixed@),
{
    match measures.single_currency_per_net_kg() {
        Some((value, code)) => {
            let figure = say(ReportText::Decimal(value, 2));
            assert(said(*say, ReportText::Decimal(value, 2), figure@));
            label_money(Some(code), false, figure.as_str(), "", mixed)
        },
        None => if measures.value_per_net_weight.len() == 0 {
            say(ReportText::Decimal(Real { bits: 0 }, 2))
        } else {
            String::from_str(mixed)
        },
    }
}

/// Every currency with its own total in short, where there are several.
fn breakdown_text<F: Fn(ReportText) -> String>(
    measures: &AnalyticsMeasures,
    say: &F,
    unstated: &str,
) -> (r: Option<String>)
    requires
        says_all(*say),
    ensures
        shows_breakdown(r, *measures, *say, unstated@),
{
    let totals = &measures.currency_totals;
    let mut figures: Vec<String> = Vec::new();
    let mut i: usize = 0;
    while i < totals.len()
        invariant
            i <= totals@.len(),
            says_all(*say),
            figures@.len() == i,
            forall|k: int|
                0 <= k < i ==> #[trigger] said(
                    *say,
                    ReportText::Compact(totals@[k].total_value),
                    figures@[k]@,
                ),
        decreases totals.len() - i,
    {
        let figure = say(ReportText::Compact(totals[i].total_value));
        assert(said(*say, ReportText::Compact(totals@[i as int].total_value), figure@));
        figures.push(figure);
        i += 1;
    }
    assert(bucket_figures(views(figures@), totals@, *say));
    currency_breakdown(measures, &figures, unstated)
}

/// The headline of a report on an overview. Money is shown by the currencies it
/// is in, and never by a sum across them.
pub fn report_figures<F: Fn(ReportText) -> String>(
    overview: &AnalyticsOverview,
    place: ReportPlace,
    say: &F,
    mixed: &str,
    unstated: &str,
) -> (r: ReportFigures)
    requires
        says_all(*say),
    ensures
        shows_overview(r, *overview, place, *say, mixed@, unstated@),
{
    let mut net_weight = say(place.weight(overview.total_net_kg));
    assert(said(*say, weight_item(place, overview.total_net_kg), net_weight@));
    net_weight.append(" kg");
    ReportFigures {
        rows: say(ReportText::Count(overview.row_count)),
        declarations: say(ReportText::Count(overview.declaration_count)),
        total_value: total_text(&overview.measures, place, say, mixed),
        breakdown: breakdown_text(&overview.measures, say, unstated),
        net_weight,
        value_per_kg: ratio_text(&overview.measures, say, mixed),
        companies: say(ReportText::Count(overview.distinct_edrpou)),
    }
}

/// A row of a report shows a row of a section, with the money of its own
/// measures.
pub open spec fn shows_row<F: Fn(ReportText) -> String>(
    r: ReportRow,
    row: AnalyticsGroupRow,
    place: ReportPlace,
    say: F,
    mixed: Seq<char>,
) -> bool {
    &&& r.label@ == row.label@
    &&& shows_total(r.money@, row.measures, place, say, mixed)
    &&& said(say, ReportText::Fixed(row.total_net_kg, 3), r.net@)
    &&& r.rows == row.rows
    &&& said(say, share_item(place, row.share_percent), r.share@)
}

/// A row of a report.
fn report_row<F: Fn(ReportText) -> String>(
    row: &AnalyticsGroupRow,
    place: ReportPlace,
    say: &F,
    mixed: &str,
) -> (r: ReportRow)
    requires
        says_all(*say),
    ensures
        shows_row(r, *row, place, *say, mixed@),
{
    ReportRow {
        label: String::from_str(row.label.as_str()),
        money: total_text(&row.measures, place, say, mixed),
        net: say(ReportText::Fixed(row.total_net_kg, 3)),
        rows: row.rows,
        share: say(place.share(row.share_percent)),
    }
}

/// A section of a report shows a section: its rows, all of them, in their order.
pub open spec fn shows_section<F: Fn(ReportText) -> String>(
    r: ReportSection,
    section: AnalyticsSection,
    place: ReportPlace,
    say: F,
    mixed: Seq<char>,
) -> bool {
    &&& r.kind == section.kind
    &&& said(say, ReportText::SectionTitle(section.kind), r.title@)
    &&& r.rows@.len() == section.rows@.len()
    &&& forall|i: int|
        0 <= i < section.rows@.len() ==> #[trigger] shows_row(
            r.rows@[i],
            section.rows@[i],
            place,
            say,
            mixed,
        )
}

/// A section of a report.
fn report_section<F: Fn(ReportText) -> String>(
    section: &AnalyticsSection,
    place: ReportPlace,
    say: &F,
    mixed: &str,
) -> (r: ReportSection)
    requires
        says_all(*say),
    ensures
        shows_section(r, *section, place, *say, mixed@),
{
    let title = say(ReportText::SectionTitle(section.kind));
    assert(said(*say, ReportText::SectionTitle(section.kind), title@));
    let mut rows: Vec<ReportRow> = Vec::new();
    let mut i: usize = 0;
    while i < section.rows.len()
        invariant
            i <= section.rows@.len(),
            says_all(*say),
            rows@.len() == i,
            forall|k: int|
                0 <= k < i ==> #[trigger] shows_row(
                    rows@[k],
                    section.rows@[k],
                    place,
                    *say,
                    mixed@,
                ),
        decreases section.rows.len() - i,
    {
        rows.push(report_row(&section.rows[i], place, say, mixed));
        i += 1;
    }
    ReportSection { kind: section.kind, title, rows }
}

/// The sections of a report show some sections, in their order.
pub open spec fn shows_sections<F: Fn(ReportText) -> String>(
    r: Seq<ReportSection>,
    sections: Seq<AnalyticsSection>,
    place: ReportPlace,
    say: F,
    mixed: Seq<char>,
) -> bool {
    &&& r.len() == sections.len()
    &&& forall|i: int|
        0 <= i < sections.len() ==> #[trigger] shows_section(r[i], sections[i], place, say, mixed)
}

/// The sections of a report.
fn report_sections<F: Fn(ReportText) -> String>(
    sections: &Vec<AnalyticsSection>,
    place: ReportPlace,
    say: &F,
    mixed: &str,
) -> (r: Vec<ReportSection>)
    requires
        says_all(*say),
    ensures
        shows_sections(r@, sections@, place, *say, mixed@),
{
    let mut out: Vec<ReportSection> = Vec::new();
    let mut i: usize = 0;
    while i < sections.len()
        invariant
            i <= sections@.len(),
            says_all(*say),
            out@.len() == i,
            forall|k: int|
                0 <= k < i ==> #[trigger] shows_section(
                    out@[k],
                    sections@[k],
                    place,
                    *say,
                    mixed@,
                ),
        decreases sections.len() - i,
    {
        out.push(report_section(&sections[i], place, say, mixed));
        i += 1;
    }
    out
}

/// A price of a report shows a price metric.
pub open spec fn shows_price<F: Fn(ReportText) -> String>(
    r: ReportPrice,
    metric: AnalyticsPriceMetric,
    place: ReportPlace,
    say: F,
) -> bool {
    &&& said(say, ReportText::PriceTitle(metric.kind), r.title@)
    &&& said(say, price_item(place, metric.average), r.average@)
    &&& said(say, price_item(place, metric.weighted_average), r.weighted@)
    &&& said(say, price_item(place, metric.median), r.median@)
    &&& said(say, price_item(place, metric.p25), r.p25@)
    &&& said(say, price_item(place, metric.p75), r.p75@)
    &&& r.count == metric.count
}

/// The prices of a report show some price metrics, in their order.
pub open spec fn shows_prices<F: Fn(ReportText) -> String>(
    r: Seq<ReportPrice>,
    metrics: Seq<AnalyticsPriceMetric>,
    place: ReportPlace,
    say: F,
) -> bool {
    &&& r.len() == metrics.len()
    &&& forall|i: int|
        0 <= i < metrics.len() ==> #[trigger] shows_price(r[i], metrics[i], place, say)
}

/// The prices of a report.
fn report_prices<F: Fn(ReportText) -> String>(
    metrics: &Vec<AnalyticsPriceMetric>,
    place: ReportPlace,
    say: &F,
) -> (r: Vec<ReportPrice>)
    requires
        says_all(*say),
    ensures
        shows_prices(r@, metrics@, place, *say),
{
    let mut out: Vec<ReportPrice> = Vec::new();
    let mut i: usize = 0;
    while i < metrics.len()
        invariant
            i <= metrics@.len(),
            says_all(*say),
            out@.len() == i,
            forall|k: int|
                0 <= k < i ==> #[trigger] shows_price(out@[k], metrics@[k], place, *say),
        decreases metrics.len() - i,
    {
        let metric = &metrics[i];
        let price = ReportPrice {
            title: say(ReportText::PriceTitle(metric.kind)),
            average: say(place.price(metric.average)),
            weighted: say(place.price(metric.weighted_average)),
            median: say(place.price(metric.median)),
            p25: say(place.price(metric.p25)),
            p75: say(place.price(metric.p75)),
            count: metric.count,
        };
        assert(shows_price(price, *metric, place, *say));
        out.push(price);
        i += 1;
    }
    out
}

/// A report shows some analytics.
pub open spec fn shows_analytics<F: Fn(ReportText) -> String>(
    r: Report,
    analytics: Analytics,
    place: ReportPlace,
    say: F,
    mixed: Seq<char>,
    unstated: Seq<char>,
) -> bool {
    &&& shows_overview(r.figures, analytics.overview, place, say, mixed, unstated)
    &&& shows_sections(r.companies@, analytics.company_sections@, place, say, mixed)
    &&& shows_sections(r.products@, analytics.product_sections@, place, say, mixed)
    &&& shows_sections(r.countries@, analytics.country_sections@, place, say, mixed)
    &&& shows_prices(r.prices@, analytics.price_sections@, place, say)
}

/// The report on some analytics. `query` says what was asked for, `mixed` that
/// there are several currencies, and `unstated` stands for a currency that the
/// source never stated.
pub fn report_of<F: Fn(ReportText) -> String>(
    analytics: &Analytics,
    query: &str,
    place: ReportPlace,
    say: &F,
    mixed: &str,
    unstated: &str,
) -> (r: Report)
    requires
        says_all(*say),
    ensures
        r.query@ == query@,
        shows_analytics(r, *analytics, place, *say, mixed@, unstated@),
{
    Report {
        query: String::from_str(query),
        figures: report_figures(&analytics.overview, place, say, mixed, unstated),
        companies: report_sections(&analytics.company_sections, place, say, mixed),
        products: report_sections(&analytics.product_sections, place, say, mixed),
        countries: report_sections(&analytics.country_sections, place, say, mixed),
        prices: report_prices(&analytics.price_sections, place, say),
    }
}

/// Two currencies are never added up: the headline of a report on them says that
/// there are several, and then names each with its own total.
pub proof fn several_currencies_are_named_one_by_one<F: Fn(ReportText) -> String>(
    r: ReportFigures,
    overview: AnalyticsOverview,
    place: ReportPlace,
    say: F,
    mixed: Seq<char>,
    unstated: Seq<char>,
)
    requires
        shows_overview(r, overview, place, say, mixed, unstated),
        overview.measures.currency_totals@.len() >= 2,
    ensures
        r.total_value@ == mixed,
        r.breakdown is Some,
        exists|figures: Seq<Seq<char>>| #[trigger]
            bucket_figures(figures, overview.measures.currency_totals@, say)
                && r.breakdown->0@ == joined(
                bucket_texts(overview.measures.currency_totals@, figures, unstated),
                BREAKDOWN_SIGN@,
            ),
{
}

/// The totals of former days, in dollars whatever the currencies were, are not
/// shown: overviews that differ in them alone have the same reports.
pub proof fn a_deprecated_total_is_not_shown<F: Fn(ReportText) -> String>(
    r: ReportFigures,
    overview: AnalyticsOverview,
    total_value_usd: Real,
    avg_value_per_net_kg: Real,
    place: ReportPlace,
    say: F,
    mixed: Seq<char>,
    unstated: Seq<char>,
)
    ensures
        shows_overview(r, overview, place, say, mixed, unstated) == shows_overview(
            r,
            (AnalyticsOverview { total_value_usd, avg_value_per_net_kg, ..overview }),
            place,
            say,
            mixed,
            unstated,
        ),
{
}

/// Something that a comparison asks to have rendered.
#[derive(Clone, Copy, Debug, PartialEq, Eq)]
pub enum CompareText {
    /// A count.
    Count(u64),
    /// What a count rises by, from the first to the second.
    CountChange(u64, u64),
    /// The same in percent of the first.
    CountPercent(u64, u64),
    /// A number with two decimals at most.
    Number(Real),
    /// What a number rises by, from the first to the second, with two decimals
    /// at most.
    NumberChange(Real, Real),
    /// The same in percent of the first.
    NumberPercent(Real, Real),
}

/// The words of a comparison.
#[derive(Clone, Debug)]
pub struct CompareWords {
    pub rows: String,
    pub declarations: String,
    pub total_value: String,
    pub net_weight: String,
    pub value_per_kg: String,
    pub companies: String,
    pub mixed: String,
}

/// A text is what something of a comparison was rendered as.
pub open spec fn told<F: Fn(CompareText) -> String>(
    say: F,
    item: CompareText,
    text: Seq<char>,
) -> bool {
    exists|t: String| #[trigger] call_ensures(say, (item,), t) && t@ == text
}

/// Anything of a comparison can be rendered.
pub open spec fn tells_all<F: Fn(CompareText) -> String>(say: F) -> bool {
    forall|item: CompareText| call_requires(say, (item,))
}

/// A change and, where there is something to compare to, what it is in percent.
pub open spec fn shows_change<F: Fn(CompareText) -> String>(
    shown: Seq<char>,
    change: Seq<char>,
    compared: bool,
    percent: CompareText,
    say: F,
) -> bool {
    if compared {
        exists|p: Seq<char>| #[trigger] told(say, percent, p) && shown == change + " ("@ + p + "%)"@
    } else {
        shown == change
    }
}

/// A row compares two counts.
pub open spec fn compares_counts<F: Fn(CompareText) -> String>(
    r: CompareRow,
    label: Seq<char>,
    left: u64,
    right: u64,
    say: F,
) -> bool {
    &&& r.label@ == label
    &&& told(say, CompareText::Count(left), r.left@)
    &&& told(say, CompareText::Count(right), r.right@)
    &&& exists|d: Seq<char>| #[trigger]
        told(say, CompareText::CountChange(left, right), d) && shows_change(
            r.difference@,
            d,
            left > 0,
            CompareText::CountPercent(left, right),
            say,
        )
}

/// A row compares two numbers.
pub open spec fn compares_numbers<F: Fn(CompareText) -> String>(
    r: CompareRow,
    label: Seq<char>,
    left: Real,
    right: Real,
    say: F,
) -> bool {
    &&& r.label@ == label
    &&& told(say, CompareText::Number(left), r.left@)
    &&& told(say, CompareText::Number(right), r.right@)
    &&& exists|d: Seq<char>| #[trigger]
        told(say, CompareText::NumberChange(left, right), d) && shows_change(
            r.difference@,
            d,
            comparable(left),
            CompareText::NumberPercent(left, right),
            say,
        )
}

/// A figure of money is shown with the label it has to carry.
pub open spec fn tells_figure<F: Fn(CompareText) -> String>(
    shown: Seq<char>,
    value: Real,
    code: Seq<char>,
    say: F,
) -> bool {
    exists|t: Seq<char>| #[trigger]
        told(say, CompareText::Number(value), t) && shown == labelled(t, code)
}

/// A side of a comparison shows money: the one figure there is, with its
/// currency; a zero where there is none at all; and that there are several
/// currencies where there are.
pub open spec fn tells_money<F: Fn(CompareText) -> String>(
    shown: Seq<char>,
    figure: Option<(Real, Seq<char>)>,
    nothing: bool,
    say: F,
    mixed: Seq<char>,
) -> bool {
    match figure {
        Some((value, code)) => tells_figure(shown, value, code, say),
        None => if nothing {
            told(say, CompareText::Number(zero()), shown)
        } else {
            shown == mixed
        },
    }
}

/// The difference of two sums of money is shown: only where both are of one
/// currency, the same.
pub open spec fn tells_difference<F: Fn(CompareText) -> String>(
    shown: Seq<char>,
    left: Option<(Real, Seq<char>)>,
    right: Option<(Real, Seq<char>)>,
    say: F,
    mixed: Seq<char>,
) -> bool {
    match (left, right) {
        (Some((before, a)), Some((after, b))) => if a == b {
            exists|d: Seq<char>| #[trigger]
                told(say, CompareText::NumberChange(before, after), d) && shows_change(
                    shown,
                    labelled(d, a),
                    comparable(before),
                    CompareText::NumberPercent(before, after),
                    say,
                )
        } else {
            shown == mixed
        },
        _ => shown == mixed,
    }
}

/// A row compares the totals of two measures.
pub open spec fn compares_totals<F: Fn(CompareText) -> String>(
    r: CompareRow,
    label: Seq<char>,
    left: AnalyticsMeasures,
    right: AnalyticsMeasures,
    say: F,
    mixed: Seq<char>,
) -> bool {
    &&& r.label@ == label
    &&& tells_money(r.left@, total_figure(left), left.currency_totals@.len() == 0, say, mixed)
    &&& tells_money(r.right@, total_figure(right), right.currency_totals@.len() == 0, say, mixed)
    &&& tells_difference(r.difference@, total_figure(left), total_figure(right), say, mixed)
}

/// A row compares the values per kilogram of two measures.
pub open spec fn compares_ratios<F: Fn(CompareText) -> String>(
    r: CompareRow,
    label: Seq<char>,
    left: AnalyticsMeasures,
    right: AnalyticsMeasures,
    say: F,
    mixed: Seq<char>,
) -> bool {
    &&& r.label@ == label
    &&& tells_money(r.left@, ratio_figure(left), left.value_per_net_weight@.len() == 0, say, mixed)
    &&& tells_money(
        r.right@,
        ratio_figure(right),
        right.value_per_net_weight@.len() == 0,
        say,
        mixed,
    )
    &&& tells_difference(r.difference@, ratio_figure(left), ratio_figure(right), say, mixed)
}

/// A row that compares two counts.
fn count_row<F: Fn(CompareText) -> String>(label: &str, left: u64, right: u64, say: &F) -> (r:
    CompareRow)
    requires
        tells_all(*say),
    ensures
        compares_counts(r, label@, left, right, *say),
{
    let mut difference = say(CompareText::CountChange(left, right));
    assert(told(*say, CompareText::CountChange(left, right), difference@));
    if left > 0 {
        let percent = say(CompareText::CountPercent(left, right));
        assert(told(*say, CompareText::CountPercent(left, right), percent@));
        difference.append(" (");
        difference.append(percent.as_str());
        difference.append("%)");
    }
    CompareRow {
        label: String::from_str(label),
        left: say(CompareText::Count(left)),
        right: say(CompareText::Count(right)),
        difference,
    }
}

/// A row that compares two numbers.
fn number_row<F: Fn(CompareText) -> String>(label: &str, left: Real, right: Real, say: &F) -> (r:
    CompareRow)
    requires
        tells_all(*say),
    ensures
        compares_numbers(r, label@, left, right, *say),
{
    let delta = say(CompareText::NumberChange(left, right));
    let percent = say(CompareText::NumberPercent(left, right));
    assert(told(*say, CompareText::NumberChange(left, right), delta@));
    assert(told(*say, CompareText::NumberPercent(left, right), percent@));
    let a = say(CompareText::Number(left));
    let b = say(CompareText::Number(right));
    assert(told(*say, CompareText::Number(left), a@));
    assert(told(*say, CompareText::Number(right), b@));
    compare_metric_row(label, a.as_str(), b.as_str(), left, delta.as_str(), percent.as_str())
}

/// What a figure of money and its label are.
pub open spec fn figure_view(figure: Option<(Real, &str)>) -> Option<(Real, Seq<char>)> {
    match figure {
        Some((value, code)) => Some((value, code@)),
        None => None,
    }
}

/// A side of a comparison of money.
fn money_side<F: Fn(CompareText) -> String>(
    figure: Option<(Real, &str)>,
    nothing: bool,
    say: &F,
    mixed: &str,
) -> (r: String)
    requires
        tells_all(*say),
    ensures
        tells_money(r@, figure_view(figure), nothing, *say, mixed@),
{
    match figure {
        Some((value, code)) => {
            let text = say(CompareText::Number(value));
            assert(told(*say, CompareText::Number(value), text@));
            let shown = label_money(Some(code), false, text.as_str(), "", mixed);
            assert(tells_figure(shown@, value, code@, *say));
            shown
        },
        None => if nothing {
            say(CompareText::Number(Real { bits: 0 }))
        } else {
            String::from_str(mixed)
        },
    }
}

/// A row that compares two sums of money.
fn money_row<F: Fn(CompareText) -> String>(
    label: &str,
    left: (Option<(Real, &str)>, bool),
    right: (Option<(Real, &str)>, bool),
    say: &F,
    mixed: &str,
) -> (r: CompareRow)
    requires
        tells_all(*say),
    ensures
        r.label@ == label@,
        tells_money(r.left@, figure_view(left.0), left.1, *say, mixed@),
        tells_money(r.right@, figure_view(right.0), right.1, *say, mixed@),
        tells_difference(
            r.difference@,
            figure_view(left.0),
            figure_view(right.0),
            *say,
            mixed@,
        ),
{
    let a = money_side(left.0, left.1, say, mixed);
    let b = money_side(right.0, right.1, say, mixed);
    match (left.0, right.0) {
        (Some((before, _)), Some((after, _))) => {
            let delta = say(CompareText::NumberChange(before, after));
            let percent = say(CompareText::NumberPercent(before, after));
            assert(told(*say, CompareText::NumberChange(before, after), delta@));
            assert(told(*say, CompareText::NumberPercent(before, after), percent@));
            compare_money_row(
                label,
                (a.as_str(), left.0),
                (b.as_str(), right.0),
                delta.as_str(),
                percent.as_str(),
                mixed,
            )
        },
        _ => compare_money_row(
            label,
            (a.as_str(), left.0),
            (b.as_str(), right.0),
            "",
            "",
            mixed,
        ),
    }
}

/// The rows of a comparison of two overviews, in their order: rows,
/// declarations, the total value, the net weight, the value per kilogram, and
/// the companies.
pub fn compare_rows<F: Fn(CompareText) -> String>(
    left: &AnalyticsOverview,
    right: &AnalyticsOverview,
    words: &CompareWords,
    say: &F,
) -> (r: Vec<CompareRow>)
    requires
        tells_all(*say),
    ensures
        r@.len() == 6,
        compares_counts(r@[0], words.rows@, left.row_count, right.row_count, *say),
        compares_counts(
            r@[1],
            words.declarations@,
            left.declaration_count,
            right.declaration_count,
            *say,
        ),
        compares_totals(
            r@[2],
            words.total_value@,
            left.measures,
            right.measures,
            *say,
            words.mixed@,
        ),
        compares_numbers(
            r@[3],
            words.net_weight@,
            left.total_net_kg,
            right.total_net_kg,
            *say,
        ),
        compares_ratios(
            r@[4],
            words.value_per_kg@,
            left.measures,
            right.measures,
            *say,
            words.mixed@,
        ),
        compares_counts(r@[5], words.companies@, left.distinct_edrpou, right.distinct_edrpou, *say),
{
    let a = &left.measures;
    let b = &right.measures;
    let mixed = words.mixed.as_str();
    let mut out: Vec<CompareRow> = Vec::new();
    out.push(count_row(words.rows.as_str(), left.row_count, right.row_count, say));
    out.push(
        count_row(
            words.declarations.as_str(),
            left.declaration_count,
            right.declaration_count,
            say,
        ),
    );
    let total_a = a.single_currency_total();
    let total_b = b.single_currency_total();
    assert(figure_view(total_a) == total_figure(*a));
    assert(figure_view(total_b) == total_figure(*b));
    out.push(
        money_row(
            words.total_value.as_str(),
            (total_a, a.currency_totals.len() == 0),
            (total_b, b.currency_totals.len() == 0),
            say,
            mixed,
        ),
    );
    out.push(number_row(words.net_weight.as_str(), left.total_net_kg, right.total_net_kg, say));
    let ratio_a = a.single_currency_per_net_kg();
    let ratio_b = b.single_currency_per_net_kg();
    assert(figure_view(ratio_a) == ratio_figure(*a));
    assert(figure_view(ratio_b) == ratio_figure(*b));
    out.push(
        money_row(
            words.value_per_kg.as_str(),
            (ratio_a, a.value_per_net_weight.len() == 0),
            (ratio_b, b.value_per_net_weight.len() == 0),
            say,
            mixed,
        ),
    );
    out.push(
        count_row(words.companies.as_str(), left.distinct_edrpou, right.distinct_edrpou, say),
    );
    out
}

/// A total in one currency is never subtracted from a total in another: their
/// row shows both and says of the difference that there are several currencies.
pub proof fn two_currencies_have_no_difference<F: Fn(CompareText) -> String>(
    r: CompareRow,
    label: Seq<char>,
    left: AnalyticsMeasures,
    right: AnalyticsMeasures,
    say: F,
    mixed: Seq<char>,
)
    requires
        compares_totals(r, label, left, right, say, mixed),
        match (total_figure(left), total_figure(right)) {
            (Some((_, a)), Some((_, b))) => a != b,
            _ => true,
        },
    ensures
        r.difference@ == mixed,
{
}

/// A report shows each figure in its own place: the rows, declarations and
/// companies as counts, and the net weight in kilograms, in full in a file and
/// shortened on the screen.
pub proof fn each_figure_is_shown_in_its_place<F: Fn(ReportText) -> String>(
    r: ReportFigures,
    overview: AnalyticsOverview,
    place: ReportPlace,
    say: F,
    mixed: Seq<char>,
    unstated: Seq<char>,
)
    requires
        shows_overview(r, overview, place, say, mixed, unstated),
    ensures
        exists|t: String| #[trigger]
            call_ensures(say, (ReportText::Count(overview.row_count),), t) && t@ == r.rows@,
        exists|t: String| #[trigger]
            call_ensures(say, (ReportText::Count(overview.declaration_count),), t) && t@
                == r.declarations@,
        exists|t: String| #[trigger]
            call_ensures(say, (ReportText::Count(overview.distinct_edrpou),), t) && t@
                == r.companies@,
        place == ReportPlace::File ==> exists|t: String| #[trigger]
            call_ensures(say, (ReportText::Fixed(overview.total_net_kg, 3),), t) && t@ + " kg"@
                == r.net_weight@,
        place == ReportPlace::Screen ==> exists|t: String| #[trigger]
            call_ensures(say, (ReportText::Compact(overview.total_net_kg),), t) && t@ + " kg"@
                == r.net_weight@,
{
}

/// A row of a report shows its own label, rows, net weight to the gram and share,
/// and a price its own mean, weighted mean, median and quartiles.
pub proof fn each_row_shows_its_own_figures<F: Fn(ReportText) -> String>(
    r: ReportRow,
    row: AnalyticsGroupRow,
    p: ReportPrice,
    metric: AnalyticsPriceMetric,
    say: F,
    mixed: Seq<char>,
)
    requires
        shows_row(r, row, ReportPlace::File, say, mixed),
        shows_price(p, metric, ReportPlace::File, say),
    ensures
        r.label@ == row.label@,
        r.rows == row.rows,
        exists|t: String| #[trigger]
            call_ensures(say, (ReportText::Fixed(row.total_net_kg, 3),), t) && t@ == r.net@,
        exists|t: String| #[trigger]
            call_ensures(say, (ReportText::Fixed(row.share_percent, 1),), t) && t@ == r.share@,
        p.count == metric.count,
        exists|t: String| #[trigger]
            call_ensures(say, (ReportText::PriceTitle(metric.kind),), t) && t@ == p.title@,
        exists|t: String| #[trigger]
            call_ensures(say, (ReportText::Fixed(metric.average, 3),), t) && t@ == p.average@,
        exists|t: String| #[trigger]
            call_ensures(say, (ReportText::Fixed(metric.weighted_average, 3),), t) && t@
                == p.weighted@,
        exists|t: String| #[trigger]
            call_ensures(say, (ReportText::Fixed(metric.median, 3),), t) && t@ == p.median@,
        exists|t: String| #[trigger]
            call_ensures(say, (ReportText::Fixed(metric.p25, 3),), t) && t@ == p.p25@,
        exists|t: String| #[trigger]
            call_ensures(say, (ReportText::Fixed(metric.p75, 3),), t) && t@ == p.p75@,
{
}

} // verus!
