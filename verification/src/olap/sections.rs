//! Sections, months and the overview of the projection.
use vstd::prelude::*;
use vstd::string::*;

use crate::analytics::{
    AnalyticsFilterAction, AnalyticsFilterField, AnalyticsGroupRow, AnalyticsMeasures,
    AnalyticsMonthRow, AnalyticsOverview, AnalyticsSectionKind, AnalyticsUsdCompatibility, Real,
};
use crate::number::{decimal, decimal_text};
use crate::olap::measures::{
    count_of, inherited_projection_usd, inherited_usd, is_positive, or_zero, positive,
    projection_usd_compat, read_count, read_real, usd_figures, usd_per_kg, usd_total, zero,
};
use crate::olap::statements::{clamp, clamped};

verus! {

/// The filter that a row of a section sets.
pub open spec fn field_of(kind: AnalyticsSectionKind) -> AnalyticsFilterField {
    match kind {
        AnalyticsSectionKind::Recipients => AnalyticsFilterField::Recipient,
        AnalyticsSectionKind::Senders => AnalyticsFilterField::Sender,
        AnalyticsSectionKind::Edrpou => AnalyticsFilterField::Edrpou,
        AnalyticsSectionKind::ProductCodes => AnalyticsFilterField::ProductCode,
        AnalyticsSectionKind::Trademarks => AnalyticsFilterField::Trademark,
        AnalyticsSectionKind::ProductGroups => AnalyticsFilterField::Description,
        AnalyticsSectionKind::OriginCountries => AnalyticsFilterField::OriginCountry,
        AnalyticsSectionKind::DispatchCountries => AnalyticsFilterField::DispatchCountry,
        AnalyticsSectionKind::TradeCountries => AnalyticsFilterField::TradeCountry,
    }
}

/// The filter that a row of a section sets.
pub fn section_field(kind: AnalyticsSectionKind) -> (r: AnalyticsFilterField)
    ensures
        r == field_of(kind),
{
    match kind {
        AnalyticsSectionKind::Recipients => AnalyticsFilterField::Recipient,
        AnalyticsSectionKind::Senders => AnalyticsFilterField::Sender,
        AnalyticsSectionKind::Edrpou => AnalyticsFilterField::Edrpou,
        AnalyticsSectionKind::ProductCodes => AnalyticsFilterField::ProductCode,
        AnalyticsSectionKind::Trademarks => AnalyticsFilterField::Trademark,
        AnalyticsSectionKind::ProductGroups => AnalyticsFilterField::Description,
        AnalyticsSectionKind::OriginCountries => AnalyticsFilterField::OriginCountry,
        AnalyticsSectionKind::DispatchCountries => AnalyticsFilterField::DispatchCountry,
        AnalyticsSectionKind::TradeCountries => AnalyticsFilterField::TradeCountry,
    }
}

/// The key under which a section's rollup is kept.
pub open spec fn rollup_key(kind: AnalyticsSectionKind) -> Seq<char> {
    match kind {
        AnalyticsSectionKind::Recipients => "recipients"@,
        AnalyticsSectionKind::Senders => "senders"@,
        AnalyticsSectionKind::Edrpou => "edrpou"@,
        AnalyticsSectionKind::ProductCodes => "product_codes"@,
        AnalyticsSectionKind::Trademarks => "trademarks"@,
        AnalyticsSectionKind::ProductGroups => "product_groups"@,
        AnalyticsSectionKind::OriginCountries => "origin_countries"@,
        AnalyticsSectionKind::DispatchCountries => "dispatch_countries"@,
        AnalyticsSectionKind::TradeCountries => "trade_countries"@,
    }
}

/// How many leading digits of product codes are told apart: from two to eight,
/// or all ten.
pub open spec fn code_level(hs_level: u8) -> u8 {
    if hs_level >= 10 {
        10
    } else {
        clamped(hs_level as nat, 2, 8) as u8
    }
}

/// How many leading digits of product codes are told apart.
pub fn code_digits(hs_level: u8) -> (r: u8)
    ensures
        r == code_level(hs_level),
        2 <= r <= 8 || r == 10,
{
    if hs_level >= 10 {
        10
    } else {
        clamp(hs_level as u64, 2, 8) as u8
    }
}

/// The key, the level and the filter of a section's rollup.
pub fn rollup_section_contract(kind: AnalyticsSectionKind, hs_level: u8) -> (r: (
    &'static str,
    i64,
    Option<AnalyticsFilterField>,
))
    ensures
        r.0@ == rollup_key(kind),
        r.1 == (if kind == AnalyticsSectionKind::ProductCodes {
            code_level(hs_level) as i64
        } else {
            0
        }),
        r.2 == Some(field_of(kind)),
{
    let key = match kind {
        AnalyticsSectionKind::Recipients => "recipients",
        AnalyticsSectionKind::Senders => "senders",
        AnalyticsSectionKind::Edrpou => "edrpou",
        AnalyticsSectionKind::ProductCodes => "product_codes",
        AnalyticsSectionKind::Trademarks => "trademarks",
        AnalyticsSectionKind::ProductGroups => "product_groups",
        AnalyticsSectionKind::OriginCountries => "origin_countries",
        AnalyticsSectionKind::DispatchCountries => "dispatch_countries",
        AnalyticsSectionKind::TradeCountries => "trade_countries",
    };
    let level: i64 = if kind == AnalyticsSectionKind::ProductCodes {
        code_digits(hs_level) as i64
    } else {
        0
    };
    (key, level, Some(section_field(kind)))
}

/// The expression by whose values the rows of a section are grouped.
pub open spec fn label_of(kind: AnalyticsSectionKind, hs_level: u8) -> Seq<char> {
    match kind {
        AnalyticsSectionKind::Recipients => "recipient_label"@,
        AnalyticsSectionKind::Senders => "sender_label"@,
        AnalyticsSectionKind::Edrpou => "edrpou_label"@,
        AnalyticsSectionKind::ProductCodes => code_label(code_level(hs_level)),
        AnalyticsSectionKind::Trademarks => "trademark_label"@,
        AnalyticsSectionKind::ProductGroups => "SUBSTR(description, 1, 80)"@,
        AnalyticsSectionKind::OriginCountries => "origin_key"@,
        AnalyticsSectionKind::DispatchCountries => "dispatch_key"@,
        AnalyticsSectionKind::TradeCountries => "trade_key"@,
    }
}

/// The leading digits of a product code.
pub open spec fn code_label(level: u8) -> Seq<char> {
    if level == 10 {
        "product_code"@
    } else {
        "SUBSTR(product_code, 1, "@ + decimal(level as nat) + ")"@
    }
}

/// The expression of the leading digits of a product code.
pub fn code_label_sql(level: u8) -> (r: String)
    ensures
        r@ == code_label(level),
{
    if level == 10 {
        String::from_str("product_code")
    } else {
        let mut out = String::from_str("SUBSTR(product_code, 1, ");
        out.append(decimal_text(level as u64).as_str());
        out.append(")");
        out
    }
}

/// How the rows of a section are grouped, and the filter that a row sets.
#[derive(Clone, Debug)]
pub struct ProjectionSectionGrouping {
    pub label_sql: String,
    pub filter_field: Option<AnalyticsFilterField>,
}

/// How the rows of a section are grouped.
pub fn projection_section_grouping(kind: AnalyticsSectionKind, hs_level: u8) -> (r:
    ProjectionSectionGrouping)
    ensures
        r.label_sql@ == label_of(kind, hs_level),
        r.filter_field == Some(field_of(kind)),
{
    let label_sql = match kind {
        AnalyticsSectionKind::Recipients => String::from_str("recipient_label"),
        AnalyticsSectionKind::Senders => String::from_str("sender_label"),
        AnalyticsSectionKind::Edrpou => String::from_str("edrpou_label"),
        AnalyticsSectionKind::ProductCodes => code_label_sql(code_digits(hs_level)),
        AnalyticsSectionKind::Trademarks => String::from_str("trademark_label"),
        AnalyticsSectionKind::ProductGroups => String::from_str("SUBSTR(description, 1, 80)"),
        AnalyticsSectionKind::OriginCountries => String::from_str("origin_key"),
        AnalyticsSectionKind::DispatchCountries => String::from_str("dispatch_key"),
        AnalyticsSectionKind::TradeCountries => String::from_str("trade_key"),
    };
    ProjectionSectionGrouping { label_sql, filter_field: Some(section_field(kind)) }
}

/// The counts of the headline, as the database hands them out.
#[derive(Clone, Copy, Debug)]
pub struct OverviewCounts {
    pub rows: i64,
    pub declarations: i64,
    pub senders: i64,
    pub recipients: i64,
    pub edrpou: i64,
    pub trademarks: i64,
    pub product_codes: i64,
    pub origin_countries: i64,
    pub dispatch_countries: i64,
    pub trade_countries: i64,
    pub quantity: Option<Real>,
}

/// The counts of a scope that has no row.
pub open spec fn no_counts() -> OverviewCounts {
    OverviewCounts {
        rows: 0,
        declarations: 0,
        senders: 0,
        recipients: 0,
        edrpou: 0,
        trademarks: 0,
        product_codes: 0,
        origin_countries: 0,
        dispatch_countries: 0,
        trade_countries: 0,
        quantity: None,
    }
}

/// What an overview says of its counts and measures.
pub open spec fn is_overview(
    r: AnalyticsOverview,
    counts: OverviewCounts,
    net_kg: Real,
    gross_kg: Real,
    measures: AnalyticsMeasures,
) -> bool {
    &&& r.row_count == count_of(counts.rows)
    &&& r.declaration_count == count_of(counts.declarations)
    &&& r.distinct_senders == count_of(counts.senders)
    &&& r.distinct_recipients == count_of(counts.recipients)
    &&& r.distinct_edrpou == count_of(counts.edrpou)
    &&& r.distinct_trademarks == count_of(counts.trademarks)
    &&& r.distinct_product_codes == count_of(counts.product_codes)
    &&& r.distinct_origin_countries == count_of(counts.origin_countries)
    &&& r.distinct_dispatch_countries == count_of(counts.dispatch_countries)
    &&& r.distinct_trade_countries == count_of(counts.trade_countries)
    &&& r.total_quantity == or_zero(counts.quantity)
    &&& r.total_value_usd == or_zero(usd_total(measures))
    &&& r.total_net_kg == net_kg
    &&& r.total_gross_kg == gross_kg
    &&& r.avg_value_per_net_kg == or_zero(usd_per_kg(measures))
    &&& r.compatible_usd == usd_figures(measures)
    &&& r.measures == measures
}

/// The overview of a query, from its counts, the two weight sums and its
/// measures.
pub fn projection_overview(
    counts: OverviewCounts,
    total_net_kg: Real,
    total_gross_kg: Real,
    measures: AnalyticsMeasures,
) -> (r: AnalyticsOverview)
    ensures
        is_overview(r, counts, total_net_kg, total_gross_kg, measures),
{
    let total_value_usd = read_real(measures.compatible_usd_total());
    let avg_value_per_net_kg = read_real(measures.compatible_usd_per_net_kg());
    let compatible_usd = projection_usd_compat(&measures);
    AnalyticsOverview {
        row_count: read_count(counts.rows),
        declaration_count: read_count(counts.declarations),
        distinct_senders: read_count(counts.senders),
        distinct_recipients: read_count(counts.recipients),
        distinct_edrpou: read_count(counts.edrpou),
        distinct_trademarks: read_count(counts.trademarks),
        distinct_product_codes: read_count(counts.product_codes),
        distinct_origin_countries: read_count(counts.origin_countries),
        distinct_dispatch_countries: read_count(counts.dispatch_countries),
        distinct_trade_countries: read_count(counts.trade_countries),
        total_value_usd,
        compatible_usd,
        total_gross_kg,
        total_net_kg,
        total_quantity: read_real(counts.quantity),
        avg_value_per_net_kg,
        measures,
    }
}

/// The overview of a query from its rollup. A scope and year that the rollup
/// has no row for count nothing.
pub fn rollup_overview(
    counts: Option<OverviewCounts>,
    total_net_kg: Real,
    total_gross_kg: Real,
    measures: AnalyticsMeasures,
) -> (r: AnalyticsOverview)
    ensures
        is_overview(
            r,
            match counts {
                Some(counts) => counts,
                None => no_counts(),
            },
            total_net_kg,
            total_gross_kg,
            measures,
        ),
{
    let counts = match counts {
        Some(counts) => counts,
        None => OverviewCounts {
            rows: 0,
            declarations: 0,
            senders: 0,
            recipients: 0,
            edrpou: 0,
            trademarks: 0,
            product_codes: 0,
            origin_countries: 0,
            dispatch_countries: 0,
            trade_countries: 0,
            quantity: None,
        },
    };
    projection_overview(counts, total_net_kg, total_gross_kg, measures)
}

/// What the shares of a section are shares of.
#[derive(Clone, Copy, Debug, PartialEq, Eq, Structural)]
pub enum ShareBasis {
    Value,
    NetWeight,
    Rows,
}

/// Shares are of the value where there is any, else of the net weight, else of
/// the rows.
pub open spec fn basis_of(total_value: Real, total_net_kg: Real) -> ShareBasis {
    if positive(total_value) {
        ShareBasis::Value
    } else if positive(total_net_kg) {
        ShareBasis::NetWeight
    } else {
        ShareBasis::Rows
    }
}

/// What the shares of a section are shares of, from the sum of its values over
/// all currencies and its net weight.
pub fn share_basis(total_value: Real, total_net_kg: Real) -> (r: ShareBasis)
    ensures
        r == basis_of(total_value, total_net_kg),
{
    if is_positive(total_value) {
        ShareBasis::Value
    } else if is_positive(total_net_kg) {
        ShareBasis::NetWeight
    } else {
        ShareBasis::Rows
    }
}

/// A row of a section as the database hands it out, with the quotient of its
/// paired value and weight, and its share, which the caller works out.
#[derive(Clone, Debug)]
pub struct GroupCells {
    pub label: String,
    pub rows: i64,
    pub declarations: i64,
    pub companies: i64,
    /// The sum that stands for dollars where the whole query is in dollars.
    pub total_value: Option<Real>,
    pub total_net_kg: Option<Real>,
    pub total_gross_kg: Option<Real>,
    pub total_quantity: Option<Real>,
    pub paired_weight: Option<Real>,
    pub quotient: Real,
    pub share_percent: Real,
}

/// The total of dollar figures, or zero.
pub open spec fn usd_value(usd: Option<AnalyticsUsdCompatibility>) -> Real {
    match usd {
        Some(usd) => usd.total_value_usd,
        None => zero(),
    }
}

/// The quotient of dollar figures, or zero.
pub open spec fn usd_ratio(usd: Option<AnalyticsUsdCompatibility>) -> Real {
    match usd {
        Some(usd) => or_zero(usd.avg_value_per_net_kg),
        None => zero(),
    }
}

/// A row of a section. Its dollar figures are there only where the whole query
/// is in dollars, and its filter sets the section's field to its label.
pub fn group_row(
    cells: GroupCells,
    filter_field: Option<AnalyticsFilterField>,
    query_is_usd: bool,
    measures: AnalyticsMeasures,
) -> (r: AnalyticsGroupRow)
    ensures
        r.label == cells.label,
        r.rows == count_of(cells.rows),
        r.declarations == count_of(cells.declarations),
        r.companies == count_of(cells.companies),
        r.compatible_usd == inherited_usd(
            query_is_usd,
            or_zero(cells.total_value),
            or_zero(cells.paired_weight),
            cells.quotient,
        ),
        r.total_value_usd == usd_value(r.compatible_usd),
        r.avg_value_per_net_kg == usd_ratio(r.compatible_usd),
        r.total_net_kg == or_zero(cells.total_net_kg),
        r.total_gross_kg == or_zero(cells.total_gross_kg),
        r.total_quantity == or_zero(cells.total_quantity),
        r.share_percent == cells.share_percent,
        r.measures == measures,
        r.filter_action == (match filter_field {
            Some(field) => Some(AnalyticsFilterAction { field, value: cells.label }),
            None => None,
        }),
{
    let filter_action = match filter_field {
        Some(field) => Some(AnalyticsFilterAction { field, value: cells.label.clone() }),
        None => None,
    };
    let usd = inherited_projection_usd(
        query_is_usd,
        read_real(cells.total_value),
        read_real(cells.paired_weight),
        cells.quotient,
    );
    let total_value_usd = match &usd {
        Some(usd) => usd.total_value_usd,
        None => Real { bits: 0 },
    };
    let avg_value_per_net_kg = match &usd {
        Some(usd) => read_real(usd.avg_value_per_net_kg),
        None => Real { bits: 0 },
    };
    AnalyticsGroupRow {
        label: cells.label,
        rows: read_count(cells.rows),
        declarations: read_count(cells.declarations),
        companies: read_count(cells.companies),
        total_value_usd,
        compatible_usd: usd,
        total_net_kg: read_real(cells.total_net_kg),
        total_gross_kg: read_real(cells.total_gross_kg),
        total_quantity: read_real(cells.total_quantity),
        share_percent: cells.share_percent,
        avg_value_per_net_kg,
        measures,
        filter_action,
    }
}

/// A month as the database hands it out, with the quotient of its paired value
/// and weight.
#[derive(Clone, Debug)]
pub struct MonthCells {
    pub month: String,
    pub rows: i64,
    pub declarations: i64,
    /// The sum that stands for dollars where the whole query is in dollars.
    pub total_value: Option<Real>,
    pub total_net_kg: Option<Real>,
    pub paired_weight: Option<Real>,
    pub quotient: Real,
}

/// What a month says of its cells.
pub open spec fn is_month(
    r: AnalyticsMonthRow,
    cells: MonthCells,
    query_is_usd: bool,
    measures: AnalyticsMeasures,
) -> bool {
    &&& r.month == cells.month
    &&& r.rows == count_of(cells.rows)
    &&& r.declarations == count_of(cells.declarations)
    &&& r.compatible_usd == inherited_usd(
        query_is_usd,
        or_zero(cells.total_value),
        or_zero(cells.paired_weight),
        cells.quotient,
    )
    &&& r.total_value_usd == usd_value(r.compatible_usd)
    &&& r.total_net_kg == or_zero(cells.total_net_kg)
    &&& r.measures == measures
}

/// A month of the series. Its dollar figures are there only where the whole
/// query is in dollars.
pub fn month_row(cells: MonthCells, query_is_usd: bool, measures: AnalyticsMeasures) -> (r:
    AnalyticsMonthRow)
    ensures
        is_month(r, cells, query_is_usd, measures),
{
    let usd = inherited_projection_usd(
        query_is_usd,
        read_real(cells.total_value),
        read_real(cells.paired_weight),
        cells.quotient,
    );
    let total_value_usd = match &usd {
        Some(usd) => usd.total_value_usd,
        None => Real { bits: 0 },
    };
    AnalyticsMonthRow {
        month: cells.month,
        rows: read_count(cells.rows),
        declarations: read_count(cells.declarations),
        total_value_usd,
        compatible_usd: usd,
        total_net_kg: read_real(cells.total_net_kg),
        measures,
    }
}

/// The month series: the database hands the months out newest first, the series
/// runs from the oldest.
pub fn month_series(newest_first: Vec<AnalyticsMonthRow>) -> (r: Vec<AnalyticsMonthRow>)
    ensures
        r@ == newest_first@.reverse(),
{
    let ghost all = newest_first@;
    let mut rest = newest_first;
    let mut out: Vec<AnalyticsMonthRow> = Vec::new();
    while rest.len() > 0
        invariant
            rest@.len() + out@.len() == all.len(),
            rest@ == all.take(rest@.len() as int),
            out@ == all.reverse().take(out@.len() as int),
        decreases rest@.len(),
    {
        let ghost n = rest@.len() as int;
        match rest.pop() {
            Some(row) => {
                out.push(row);
                assert(rest@ =~= all.take(n - 1));
                assert(out@ =~= all.reverse().take(all.len() - n + 1));
            },
            None => {},
        }
    }
    assert(all.reverse().take(all.len() as int) =~= all.reverse());
    out
}

/// Both ways to answer group a section alike: the detail groups rows by the
/// same levels of product codes that the rollups keep.
pub proof fn levels_are_kept(hs_level: u8)
    ensures
        2 <= code_level(hs_level) <= 8 || code_level(hs_level) == 10,
        code_level(code_level(hs_level)) == code_level(hs_level),
{
}

/// Each section groups the rows by its own column, keeps its rollup under its own
/// name and filters by its own field; no two sections filter by the same one.
pub proof fn each_section_is_about_its_own_field(hs_level: u8)
    ensures
        field_of(AnalyticsSectionKind::Recipients) == AnalyticsFilterField::Recipient,
        rollup_key(AnalyticsSectionKind::Recipients) == "recipients"@,
        label_of(AnalyticsSectionKind::Recipients, hs_level) == "recipient_label"@,
        field_of(AnalyticsSectionKind::Senders) == AnalyticsFilterField::Sender,
        rollup_key(AnalyticsSectionKind::Senders) == "senders"@,
        label_of(AnalyticsSectionKind::Senders, hs_level) == "sender_label"@,
        field_of(AnalyticsSectionKind::Edrpou) == AnalyticsFilterField::Edrpou,
        rollup_key(AnalyticsSectionKind::Edrpou) == "edrpou"@,
        label_of(AnalyticsSectionKind::Edrpou, hs_level) == "edrpou_label"@,
        field_of(AnalyticsSectionKind::Trademarks) == AnalyticsFilterField::Trademark,
        rollup_key(AnalyticsSectionKind::Trademarks) == "trademarks"@,
        label_of(AnalyticsSectionKind::Trademarks, hs_level) == "trademark_label"@,
        field_of(AnalyticsSectionKind::ProductGroups) == AnalyticsFilterField::Description,
        rollup_key(AnalyticsSectionKind::ProductGroups) == "product_groups"@,
        label_of(AnalyticsSectionKind::ProductGroups, hs_level) == "SUBSTR(description, 1, 80)"@,
        field_of(AnalyticsSectionKind::OriginCountries) == AnalyticsFilterField::OriginCountry,
        rollup_key(AnalyticsSectionKind::OriginCountries) == "origin_countries"@,
        label_of(AnalyticsSectionKind::OriginCountries, hs_level) == "origin_key"@,
        field_of(AnalyticsSectionKind::DispatchCountries) == AnalyticsFilterField::DispatchCountry,
        rollup_key(AnalyticsSectionKind::DispatchCountries) == "dispatch_countries"@,
        label_of(AnalyticsSectionKind::DispatchCountries, hs_level) == "dispatch_key"@,
        field_of(AnalyticsSectionKind::TradeCountries) == AnalyticsFilterField::TradeCountry,
        rollup_key(AnalyticsSectionKind::TradeCountries) == "trade_countries"@,
        label_of(AnalyticsSectionKind::TradeCountries, hs_level) == "trade_key"@,
        field_of(AnalyticsSectionKind::ProductCodes) == AnalyticsFilterField::ProductCode,
        rollup_key(AnalyticsSectionKind::ProductCodes) == "product_codes"@,
        forall|a: AnalyticsSectionKind, b: AnalyticsSectionKind| #[trigger]
            field_of(a) == #[trigger] field_of(b) ==> a == b,
{
}

/// Product codes are grouped by as many leading digits as are asked for, but by no
/// fewer than two, and by eight where nine are asked for; from ten on they are
/// told apart as a whole.
pub proof fn codes_are_grouped_by_their_leading_digits(hs_level: u8)
    ensures
        2 <= hs_level <= 8 ==> label_of(AnalyticsSectionKind::ProductCodes, hs_level)
            == "SUBSTR(product_code, 1, "@ + decimal(hs_level as nat) + ")"@,
        hs_level < 2 ==> label_of(AnalyticsSectionKind::ProductCodes, hs_level)
            == "SUBSTR(product_code, 1, "@ + decimal(2) + ")"@,
        hs_level == 9 ==> label_of(AnalyticsSectionKind::ProductCodes, hs_level)
            == "SUBSTR(product_code, 1, "@ + decimal(8) + ")"@,
        hs_level >= 10 ==> label_of(AnalyticsSectionKind::ProductCodes, hs_level)
            == "product_code"@,
{
}

/// An overview says of each count, weight and total what was counted under its
/// name; a count below nothing is none.
pub proof fn an_overview_keeps_each_figure(
    r: AnalyticsOverview,
    counts: OverviewCounts,
    net_kg: Real,
    gross_kg: Real,
    measures: AnalyticsMeasures,
)
    requires
        is_overview(r, counts, net_kg, gross_kg, measures),
    ensures
        counts.rows >= 0 ==> r.row_count == counts.rows,
        counts.rows < 0 ==> r.row_count == 0,
        counts.declarations >= 0 ==> r.declaration_count == counts.declarations,
        counts.senders >= 0 ==> r.distinct_senders == counts.senders,
        counts.recipients >= 0 ==> r.distinct_recipients == counts.recipients,
        counts.edrpou >= 0 ==> r.distinct_edrpou == counts.edrpou,
        counts.trademarks >= 0 ==> r.distinct_trademarks == counts.trademarks,
        counts.product_codes >= 0 ==> r.distinct_product_codes == counts.product_codes,
        counts.origin_countries >= 0 ==> r.distinct_origin_countries == counts.origin_countries,
        counts.dispatch_countries >= 0 ==> r.distinct_dispatch_countries
            == counts.dispatch_countries,
        counts.trade_countries >= 0 ==> r.distinct_trade_countries == counts.trade_countries,
        counts.quantity is Some ==> r.total_quantity == counts.quantity->0,
        counts.quantity is None ==> r.total_quantity.bits == 0,
        r.total_net_kg == net_kg,
        r.total_gross_kg == gross_kg,
        r.compatible_usd is None ==> r.total_value_usd.bits == 0,
        match r.compatible_usd {
            Some(usd) => usd.total_value_usd == r.total_value_usd,
            None => true,
        },
{
}

/// A month keeps its own counts and weight, and has dollar figures only where the
/// whole query is in dollars: then its value is its dollar total, and its value
/// per kilogram is there only where the paired weight is positive.
pub proof fn a_month_keeps_each_figure(
    r: AnalyticsMonthRow,
    cells: MonthCells,
    query_is_usd: bool,
    measures: AnalyticsMeasures,
)
    requires
        is_month(r, cells, query_is_usd, measures),
    ensures
        r.month == cells.month,
        cells.rows >= 0 ==> r.rows == cells.rows,
        cells.declarations >= 0 ==> r.declarations == cells.declarations,
        cells.total_net_kg is Some ==> r.total_net_kg == cells.total_net_kg->0,
        r.compatible_usd is Some <==> query_is_usd,
        !query_is_usd ==> r.total_value_usd.bits == 0,
        query_is_usd && cells.total_value is Some ==> r.total_value_usd == cells.total_value->0,
        match r.compatible_usd {
            Some(usd) => (usd.avg_value_per_net_kg is Some <==> match cells.paired_weight {
                Some(weight) => positive(weight),
                None => false,
            }) && (usd.avg_value_per_net_kg is Some ==> usd.avg_value_per_net_kg->0
                == cells.quotient),
            None => true,
        },
{
}

} // verus!
