//! Price metrics of the projection.
use vstd::prelude::*;
use vstd::string::*;

use crate::analytics::{AnalyticsPriceCohort, AnalyticsPriceMetric, PriceMetricKind, Real};
use crate::olap::filter::DuckFilter;
use crate::olap::measures::{count_of, or_zero, read_count, read_real, zero};
use crate::olap::statements::{kilograms, normalized_weight_sql, price_metric_sql, price_metric_text};
use crate::text::{same, views};

verus! {

/// The prices of one currency, as the database hands them out.
#[derive(Clone, Debug)]
pub struct CohortCells {
    pub currency: String,
    pub count: i64,
    pub average: Option<Real>,
    pub minimum: Option<Real>,
    pub maximum: Option<Real>,
    pub weighted_average: Option<Real>,
    pub p25: Option<Real>,
    pub median: Option<Real>,
    pub p75: Option<Real>,
    pub numerator_total: Option<Real>,
    pub denominator_total: Option<Real>,
}

/// A currency and a weight unit that stand in one row.
#[derive(Clone, Debug)]
pub struct CurrencyUnit {
    pub currency: String,
    pub unit: String,
}

/// The units that stand beside a currency in the first `n` rows, in their order.
pub open spec fn units_beside(rows: Seq<CurrencyUnit>, currency: Seq<char>, n: int) -> Seq<Seq<char>>
    decreases n,
{
    if n <= 0 {
        Seq::empty()
    } else if rows[n - 1].currency@ == currency {
        units_beside(rows, currency, n - 1).push(rows[n - 1].unit@)
    } else {
        units_beside(rows, currency, n - 1)
    }
}

/// The units that stand beside a currency.
fn collect_units(rows: &Vec<CurrencyUnit>, currency: &str) -> (r: Vec<String>)
    ensures
        views(r@) == units_beside(rows@, currency@, rows@.len() as int),
{
    let mut out: Vec<String> = Vec::new();
    let mut i: usize = 0;
    assert(views(out@) =~= Seq::<Seq<char>>::empty());
    while i < rows.len()
        invariant
            i <= rows@.len(),
            views(out@) == units_beside(rows@, currency@, i as int),
        decreases rows.len() - i,
    {
        if same(rows[i].currency.as_str(), currency) {
            let ghost before = views(out@);
            out.push(rows[i].unit.clone());
            assert(views(out@) =~= before.push(rows@[i as int].unit@));
        }
        i += 1;
    }
    out
}

/// Whether a currency has a cohort among the first `n`.
pub open spec fn currency_seen(cells: Seq<CohortCells>, currency: Seq<char>, n: int) -> bool {
    exists|j: int| 0 <= j < n && #[trigger] cells[j].currency@ == currency
}

/// Whether a currency has a cohort among the first `n`.
fn seen_before(cells: &Vec<CohortCells>, currency: &str, n: usize) -> (r: bool)
    requires
        n <= cells@.len(),
    ensures
        r == currency_seen(cells@, currency@, n as int),
{
    let mut i: usize = 0;
    while i < n
        invariant
            i <= n <= cells@.len(),
            !currency_seen(cells@, currency@, i as int),
        decreases n - i,
    {
        if same(cells[i].currency.as_str(), currency) {
            assert(cells@[i as int].currency@ == currency@);
            return true;
        }
        i += 1;
    }
    false
}

/// What a cohort says of its cells. The units of a currency go to its first
/// cohort.
pub open spec fn is_cohort(
    r: AnalyticsPriceCohort,
    cells: Seq<CohortCells>,
    units: Seq<CurrencyUnit>,
    i: int,
) -> bool {
    let c = cells[i];
    &&& r.currency == c.currency
    &&& r.normalized_weight_unit@ == "kg"@
    &&& views(r.source_weight_units@) == (if currency_seen(cells, c.currency@, i) {
        Seq::empty()
    } else {
        units_beside(units, c.currency@, units.len() as int)
    })
    &&& r.count == count_of(c.count)
    &&& r.average == or_zero(c.average)
    &&& r.minimum == or_zero(c.minimum)
    &&& r.maximum == or_zero(c.maximum)
    &&& r.weighted_average == c.weighted_average
    &&& r.p25 == or_zero(c.p25)
    &&& r.median == or_zero(c.median)
    &&& r.p75 == or_zero(c.p75)
    &&& r.numerator_total == or_zero(c.numerator_total)
    &&& r.denominator_total == or_zero(c.denominator_total)
}

/// The cohorts of the value per net kilogram.
pub fn price_cohorts(cells: &Vec<CohortCells>, units: &Vec<CurrencyUnit>) -> (r: Vec<
    AnalyticsPriceCohort,
>)
    ensures
        r@.len() == cells@.len(),
        forall|i: int| 0 <= i < r@.len() ==> is_cohort(#[trigger] r@[i], cells@, units@, i),
{
    let mut out: Vec<AnalyticsPriceCohort> = Vec::new();
    let mut i: usize = 0;
    while i < cells.len()
        invariant
            i <= cells@.len(),
            out@.len() == i,
            forall|k: int| 0 <= k < i ==> is_cohort(#[trigger] out@[k], cells@, units@, k),
        decreases cells.len() - i,
    {
        let c = &cells[i];
        let source_weight_units = if seen_before(cells, c.currency.as_str(), i) {
            let none: Vec<String> = Vec::new();
            assert(views(none@) =~= Seq::<Seq<char>>::empty());
            none
        } else {
            collect_units(units, c.currency.as_str())
        };
        out.push(
            AnalyticsPriceCohort {
                currency: c.currency.clone(),
                normalized_weight_unit: String::from_str("kg"),
                source_weight_units,
                count: read_count(c.count),
                average: read_real(c.average),
                minimum: read_real(c.minimum),
                maximum: read_real(c.maximum),
                weighted_average: c.weighted_average,
                p25: read_real(c.p25),
                median: read_real(c.median),
                p75: read_real(c.p75),
                numerator_total: read_real(c.numerator_total),
                denominator_total: read_real(c.denominator_total),
            },
        );
        i += 1;
    }
    out
}

/// A figure of the only cohort; where there are none or several, zero.
pub open spec fn only_cohort(
    cohorts: Seq<AnalyticsPriceCohort>,
    figure: spec_fn(AnalyticsPriceCohort) -> Real,
) -> Real {
    if cohorts.len() == 1 {
        figure(cohorts[0])
    } else {
        zero()
    }
}

/// Figures that are those of the only cohort, where there is one only.
pub open spec fn sums_up(r: AnalyticsPriceMetric) -> bool {
    let cohorts = r.cohorts@;
    &&& r.count == (if cohorts.len() == 1 {
        cohorts[0].count
    } else {
        0
    })
    &&& r.average == only_cohort(cohorts, |c: AnalyticsPriceCohort| c.average)
    &&& r.minimum == only_cohort(cohorts, |c: AnalyticsPriceCohort| c.minimum)
    &&& r.maximum == only_cohort(cohorts, |c: AnalyticsPriceCohort| c.maximum)
    &&& r.weighted_average == only_cohort(
        cohorts,
        |c: AnalyticsPriceCohort| or_zero(c.weighted_average),
    )
    &&& r.median == only_cohort(cohorts, |c: AnalyticsPriceCohort| c.median)
    &&& r.p25 == only_cohort(cohorts, |c: AnalyticsPriceCohort| c.p25)
    &&& r.p75 == only_cohort(cohorts, |c: AnalyticsPriceCohort| c.p75)
}

/// The value per net kilogram, from its cells: one cohort for each.
pub open spec fn is_value_per_weight(
    r: AnalyticsPriceMetric,
    cells: Seq<CohortCells>,
    units: Seq<CurrencyUnit>,
    excluded_rows: i64,
) -> bool {
    &&& r.kind == PriceMetricKind::ValuePerNetKg
    &&& r.cohorts@.len() == cells.len()
    &&& forall|i: int| 0 <= i < cells.len() ==> is_cohort(#[trigger] r.cohorts@[i], cells, units, i)
    &&& sums_up(r)
    &&& r.excluded_rows == count_of(excluded_rows)
}

/// The value per net kilogram. Prices in different currencies are not mixed:
/// the figures are those of the only cohort, where there is one only.
pub fn projection_value_per_net_weight_metric(
    cells: &Vec<CohortCells>,
    units: &Vec<CurrencyUnit>,
    excluded_rows: i64,
) -> (r: AnalyticsPriceMetric)
    ensures
        is_value_per_weight(r, cells@, units@, excluded_rows),
{
    let cohorts = price_cohorts(cells, units);
    let mut metric = AnalyticsPriceMetric {
        kind: PriceMetricKind::ValuePerNetKg,
        count: 0,
        average: Real { bits: 0 },
        minimum: Real { bits: 0 },
        maximum: Real { bits: 0 },
        weighted_average: Real { bits: 0 },
        median: Real { bits: 0 },
        p25: Real { bits: 0 },
        p75: Real { bits: 0 },
        cohorts: Vec::new(),
        excluded_rows: read_count(excluded_rows),
    };
    if cohorts.len() == 1 {
        let only = &cohorts[0];
        metric.count = only.count;
        metric.average = only.average;
        metric.minimum = only.minimum;
        metric.maximum = only.maximum;
        metric.weighted_average = read_real(only.weighted_average);
        metric.median = only.median;
        metric.p25 = only.p25;
        metric.p75 = only.p75;
    }
    metric.cohorts = cohorts;
    metric
}

/// A source price metric as the database hands it out, with its weighted
/// average, which the caller works out.
#[derive(Clone, Copy, Debug)]
pub struct PriceCells {
    pub count: i64,
    pub average: Option<Real>,
    pub minimum: Option<Real>,
    pub maximum: Option<Real>,
    pub weighted_average: Real,
    pub p25: Option<Real>,
    pub median: Option<Real>,
    pub p75: Option<Real>,
}

/// A source price metric, from its cells. It is in dollars by its meaning, so it
/// has no cohort by currency and leaves no row out.
pub open spec fn is_source_price(
    r: AnalyticsPriceMetric,
    kind: PriceMetricKind,
    cells: PriceCells,
) -> bool {
    &&& r.kind == kind
    &&& r.count == count_of(cells.count)
    &&& r.average == or_zero(cells.average)
    &&& r.minimum == or_zero(cells.minimum)
    &&& r.maximum == or_zero(cells.maximum)
    &&& r.weighted_average == cells.weighted_average
    &&& r.p25 == or_zero(cells.p25)
    &&& r.median == or_zero(cells.median)
    &&& r.p75 == or_zero(cells.p75)
    &&& r.cohorts@.len() == 0
    &&& r.excluded_rows == 0
}

/// A source price metric.
pub fn projection_price_metric(kind: PriceMetricKind, cells: PriceCells) -> (r:
    AnalyticsPriceMetric)
    ensures
        is_source_price(r, kind, cells),
{
    AnalyticsPriceMetric {
        kind,
        count: read_count(cells.count),
        average: read_real(cells.average),
        minimum: read_real(cells.minimum),
        maximum: read_real(cells.maximum),
        weighted_average: cells.weighted_average,
        median: read_real(cells.median),
        p25: read_real(cells.p25),
        p75: read_real(cells.p75),
        cohorts: Vec::new(),
        excluded_rows: 0,
    }
}

/// The source price metrics, in the order in which they are shown.
pub open spec fn source_prices() -> Seq<PriceMetricKind> {
    seq![
        PriceMetricKind::RfvUsdKg,
        PriceMetricKind::RmvNetUsdKg,
        PriceMetricKind::RmvUsdExtraUnit,
        PriceMetricKind::RmvGrossUsdKg,
        PriceMetricKind::MinBaseUsdKg,
    ]
}

/// The source price metrics, in the order in which they are shown.
fn source_price_kinds() -> (r: Vec<PriceMetricKind>)
    ensures
        r@ == source_prices(),
{
    let mut kinds: Vec<PriceMetricKind> = Vec::new();
    kinds.push(PriceMetricKind::RfvUsdKg);
    kinds.push(PriceMetricKind::RmvNetUsdKg);
    kinds.push(PriceMetricKind::RmvUsdExtraUnit);
    kinds.push(PriceMetricKind::RmvGrossUsdKg);
    kinds.push(PriceMetricKind::MinBaseUsdKg);
    assert(kinds@ =~= source_prices());
    kinds
}

/// The price metrics of a query, in the order in which they are shown: the value
/// per net kilogram, and then the source prices, from the cells of each.
pub fn price_metrics(
    cohorts: &Vec<CohortCells>,
    units: &Vec<CurrencyUnit>,
    excluded_rows: i64,
    prices: &Vec<PriceCells>,
) -> (r: Vec<AnalyticsPriceMetric>)
    requires
        prices@.len() == source_prices().len(),
    ensures
        r@.len() == 6,
        is_value_per_weight(r@[0], cohorts@, units@, excluded_rows),
        forall|i: int|
            1 <= i < 6 ==> is_source_price(
                #[trigger] r@[i],
                source_prices()[i - 1],
                prices@[i - 1],
            ),
{
    let kinds = source_price_kinds();
    let mut out: Vec<AnalyticsPriceMetric> = Vec::new();
    out.push(projection_value_per_net_weight_metric(cohorts, units, excluded_rows));
    let mut k: usize = 0;
    while k < kinds.len()
        invariant
            k <= kinds@.len(),
            kinds@ == source_prices(),
            prices@.len() == source_prices().len(),
            out@.len() == k + 1,
            is_value_per_weight(out@[0], cohorts@, units@, excluded_rows),
            forall|i: int|
                1 <= i <= k ==> is_source_price(
                    #[trigger] out@[i],
                    source_prices()[i - 1],
                    prices@[i - 1],
                ),
        decreases kinds.len() - k,
    {
        out.push(projection_price_metric(kinds[k], prices[k]));
        k += 1;
    }
    out
}

/// The column of a source price.
pub open spec fn price_column(kind: PriceMetricKind) -> Seq<char> {
    match kind {
        PriceMetricKind::ValuePerNetKg => ""@,
        PriceMetricKind::RfvUsdKg => "rfv_num"@,
        PriceMetricKind::RmvNetUsdKg => "rmv_net_num"@,
        PriceMetricKind::RmvUsdExtraUnit => "rmv_extra_num"@,
        PriceMetricKind::RmvGrossUsdKg => "rmv_gross_num"@,
        PriceMetricKind::MinBaseUsdKg => "min_base_num"@,
    }
}

/// What a source price is weighted by.
pub open spec fn price_weight(kind: PriceMetricKind) -> Seq<char> {
    match kind {
        PriceMetricKind::RmvUsdExtraUnit => "quantity_num"@,
        PriceMetricKind::RmvGrossUsdKg => kilograms("gross_kg_num"@),
        _ => kilograms("net_kg_num"@),
    }
}

/// The statement of one source price.
#[derive(Clone, Debug)]
pub struct PriceStatement {
    pub kind: PriceMetricKind,
    pub sql: String,
}

/// The statements of the source prices, in the order in which they are shown.
pub fn source_price_statements(filter: &DuckFilter) -> (r: Vec<PriceStatement>)
    ensures
        r@.len() == source_prices().len(),
        forall|i: int|
            0 <= i < r@.len() ==> (#[trigger] r@[i]).kind == source_prices()[i] && r@[i].sql@
                == price_metric_text(
                views(filter.conditions@),
                price_column(source_prices()[i]),
                price_weight(source_prices()[i]),
            ),
{
    let net_kg = normalized_weight_sql("net_kg_num");
    let gross_kg = normalized_weight_sql("gross_kg_num");
    let mut out: Vec<PriceStatement> = Vec::new();
    out.push(
        PriceStatement {
            kind: PriceMetricKind::RfvUsdKg,
            sql: price_metric_sql(filter, "rfv_num", net_kg.as_str()),
        },
    );
    out.push(
        PriceStatement {
            kind: PriceMetricKind::RmvNetUsdKg,
            sql: price_metric_sql(filter, "rmv_net_num", net_kg.as_str()),
        },
    );
    out.push(
        PriceStatement {
            kind: PriceMetricKind::RmvUsdExtraUnit,
            sql: price_metric_sql(filter, "rmv_extra_num", "quantity_num"),
        },
    );
    out.push(
        PriceStatement {
            kind: PriceMetricKind::RmvGrossUsdKg,
            sql: price_metric_sql(filter, "rmv_gross_num", gross_kg.as_str()),
        },
    );
    out.push(
        PriceStatement {
            kind: PriceMetricKind::MinBaseUsdKg,
            sql: price_metric_sql(filter, "min_base_num", net_kg.as_str()),
        },
    );
    out
}

/// Each source price is read from its own column, and weighed by the net
/// kilograms, but for the price per extra unit, which is weighed by the quantity,
/// and the price per gross kilogram, which is weighed by the gross kilograms.
pub proof fn each_price_has_its_column_and_weight()
    ensures
        price_column(PriceMetricKind::RfvUsdKg) == "rfv_num"@,
        price_column(PriceMetricKind::RmvNetUsdKg) == "rmv_net_num"@,
        price_column(PriceMetricKind::RmvUsdExtraUnit) == "rmv_extra_num"@,
        price_column(PriceMetricKind::RmvGrossUsdKg) == "rmv_gross_num"@,
        price_column(PriceMetricKind::MinBaseUsdKg) == "min_base_num"@,
        price_weight(PriceMetricKind::RfvUsdKg) == kilograms("net_kg_num"@),
        price_weight(PriceMetricKind::RmvNetUsdKg) == kilograms("net_kg_num"@),
        price_weight(PriceMetricKind::MinBaseUsdKg) == kilograms("net_kg_num"@),
        price_weight(PriceMetricKind::RmvUsdExtraUnit) == "quantity_num"@,
        price_weight(PriceMetricKind::RmvGrossUsdKg) == kilograms("gross_kg_num"@),
        source_prices().len() == 5,
        forall|kind: PriceMetricKind|
            kind != PriceMetricKind::ValuePerNetKg ==> #[trigger] source_prices().contains(kind),
        !source_prices().contains(PriceMetricKind::ValuePerNetKg),
{
    let all = source_prices();
    assert forall|kind: PriceMetricKind|
        kind != PriceMetricKind::ValuePerNetKg implies #[trigger] all.contains(kind) by {
        assert(all[0] == kind || all[1] == kind || all[2] == kind || all[3] == kind || all[4]
            == kind);
    }
}

/// Prices in several currencies have no figure in common, and those in one have
/// its figures.
pub proof fn several_cohorts_have_no_figure(r: AnalyticsPriceMetric)
    requires
        sums_up(r),
    ensures
        r.cohorts@.len() != 1 ==> r.count == 0 && r.average.bits == 0 && r.minimum.bits == 0
            && r.maximum.bits == 0 && r.weighted_average.bits == 0 && r.median.bits == 0
            && r.p25.bits == 0 && r.p75.bits == 0,
        r.cohorts@.len() == 1 ==> {
            let only = r.cohorts@[0];
            &&& r.count == only.count
            &&& r.average == only.average
            &&& r.minimum == only.minimum
            &&& r.maximum == only.maximum
            &&& r.median == only.median
            &&& r.p25 == only.p25
            &&& r.p75 == only.p75
            &&& only.weighted_average is Some ==> r.weighted_average == only.weighted_average->0
        },
{
}

/// A cohort keeps each figure under its name, in its own currency.
pub proof fn a_cohort_keeps_each_figure(
    r: AnalyticsPriceCohort,
    cells: Seq<CohortCells>,
    units: Seq<CurrencyUnit>,
    i: int,
)
    requires
        is_cohort(r, cells, units, i),
    ensures
        r.currency == cells[i].currency,
        r.normalized_weight_unit@ == "kg"@,
        cells[i].count >= 0 ==> r.count == cells[i].count,
        cells[i].average is Some ==> r.average == cells[i].average->0,
        cells[i].minimum is Some ==> r.minimum == cells[i].minimum->0,
        cells[i].maximum is Some ==> r.maximum == cells[i].maximum->0,
        r.weighted_average == cells[i].weighted_average,
        cells[i].p25 is Some ==> r.p25 == cells[i].p25->0,
        cells[i].median is Some ==> r.median == cells[i].median->0,
        cells[i].p75 is Some ==> r.p75 == cells[i].p75->0,
        cells[i].numerator_total is Some ==> r.numerator_total == cells[i].numerator_total->0,
        cells[i].denominator_total is Some ==> r.denominator_total
            == cells[i].denominator_total->0,
{
}

/// A source price keeps each figure under its name, and has no cohort.
pub proof fn a_source_price_keeps_each_figure(
    r: AnalyticsPriceMetric,
    kind: PriceMetricKind,
    cells: PriceCells,
)
    requires
        is_source_price(r, kind, cells),
    ensures
        r.kind == kind,
        r.cohorts@.len() == 0,
        cells.count >= 0 ==> r.count == cells.count,
        cells.average is Some ==> r.average == cells.average->0,
        cells.minimum is Some ==> r.minimum == cells.minimum->0,
        cells.maximum is Some ==> r.maximum == cells.maximum->0,
        r.weighted_average == cells.weighted_average,
        cells.p25 is Some ==> r.p25 == cells.p25->0,
        cells.median is Some ==> r.median == cells.median->0,
        cells.p75 is Some ==> r.p75 == cells.p75->0,
{
}

} // verus!
