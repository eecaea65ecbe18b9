//! Copies of analytics results.
use vstd::prelude::*;

use crate::analytics::{
    AnalyticsCurrencyTotal, AnalyticsFilterAction, AnalyticsGroupRow, AnalyticsMeasureExclusions,
    AnalyticsMeasures, AnalyticsUsdCompatibility, AnalyticsValuePerWeight, AnalyticsWeightTotal,
};
use crate::text::copy_texts;

verus! {

/// Two values per weight that say the same.
pub open spec fn same_ratio(a: AnalyticsValuePerWeight, b: AnalyticsValuePerWeight) -> bool {
    &&& a.currency == b.currency
    &&& a.normalized_weight_unit == b.normalized_weight_unit
    &&& a.source_weight_units@ == b.source_weight_units@
    &&& a.paired_rows == b.paired_rows
    &&& a.total_value == b.total_value
    &&& a.total_weight == b.total_weight
    &&& a.value_per_weight == b.value_per_weight
}

/// Copies a value per weight.
pub fn copy_ratio(ratio: &AnalyticsValuePerWeight) -> (r: AnalyticsValuePerWeight)
    ensures
        same_ratio(r, *ratio),
{
    AnalyticsValuePerWeight {
        currency: ratio.currency.clone(),
        normalized_weight_unit: ratio.normalized_weight_unit.clone(),
        source_weight_units: copy_texts(&ratio.source_weight_units),
        paired_rows: ratio.paired_rows,
        total_value: ratio.total_value,
        total_weight: ratio.total_weight,
        value_per_weight: ratio.value_per_weight,
    }
}

/// Copies a bucket of values.
pub fn copy_currency_total(total: &AnalyticsCurrencyTotal) -> (r: AnalyticsCurrencyTotal)
    ensures
        r == *total,
{
    AnalyticsCurrencyTotal {
        currency: total.currency.clone(),
        known: total.known,
        valued_rows: total.valued_rows,
        total_value: total.total_value,
    }
}

/// Copies a bucket of weights.
pub fn copy_weight_total(total: &AnalyticsWeightTotal) -> (r: AnalyticsWeightTotal)
    ensures
        r == *total,
{
    let normalized_unit = match &total.normalized_unit {
        Some(unit) => Some(unit.clone()),
        None => None,
    };
    AnalyticsWeightTotal {
        source_unit: total.source_unit.clone(),
        known: total.known,
        normalized_unit,
        factor_to_kg: total.factor_to_kg,
        weighted_rows: total.weighted_rows,
        total_source_weight: total.total_source_weight,
        total_kg: total.total_kg,
    }
}

/// Copies some buckets of values.
pub fn copy_currency_totals(list: &Vec<AnalyticsCurrencyTotal>) -> (r: Vec<AnalyticsCurrencyTotal>)
    ensures
        r@ == list@,
{
    let mut out: Vec<AnalyticsCurrencyTotal> = Vec::new();
    let mut i: usize = 0;
    while i < list.len()
        invariant
            i <= list@.len(),
            out@.len() == i,
            forall|k: int| 0 <= k < i ==> #[trigger] out@[k] == list@[k],
        decreases list.len() - i,
    {
        out.push(copy_currency_total(&list[i]));
        i += 1;
    }
    assert(out@ =~= list@);
    out
}

/// Copies some buckets of weights.
pub fn copy_weight_totals(list: &Vec<AnalyticsWeightTotal>) -> (r: Vec<AnalyticsWeightTotal>)
    ensures
        r@ == list@,
{
    let mut out: Vec<AnalyticsWeightTotal> = Vec::new();
    let mut i: usize = 0;
    while i < list.len()
        invariant
            i <= list@.len(),
            out@.len() == i,
            forall|k: int| 0 <= k < i ==> #[trigger] out@[k] == list@[k],
        decreases list.len() - i,
    {
        out.push(copy_weight_total(&list[i]));
        i += 1;
    }
    assert(out@ =~= list@);
    out
}

/// Some values per weight that say the same, one by one.
pub open spec fn same_ratios(a: Seq<AnalyticsValuePerWeight>, b: Seq<AnalyticsValuePerWeight>) ->
    bool {
    &&& a.len() == b.len()
    &&& forall|k: int| 0 <= k < a.len() ==> same_ratio(#[trigger] a[k], b[k])
}

/// Copies some values per weight.
pub fn copy_ratios(list: &Vec<AnalyticsValuePerWeight>) -> (r: Vec<AnalyticsValuePerWeight>)
    ensures
        same_ratios(r@, list@),
{
    let mut out: Vec<AnalyticsValuePerWeight> = Vec::new();
    let mut i: usize = 0;
    while i < list.len()
        invariant
            i <= list@.len(),
            out@.len() == i,
            forall|k: int| 0 <= k < i ==> same_ratio(#[trigger] out@[k], list@[k]),
        decreases list.len() - i,
    {
        out.push(copy_ratio(&list[i]));
        i += 1;
    }
    out
}

/// Two measures that say the same.
pub open spec fn same_measures(a: AnalyticsMeasures, b: AnalyticsMeasures) -> bool {
    &&& a.currency_totals@ == b.currency_totals@
    &&& a.net_weight_totals@ == b.net_weight_totals@
    &&& a.gross_weight_totals@ == b.gross_weight_totals@
    &&& same_ratios(a.value_per_net_weight@, b.value_per_net_weight@)
    &&& a.compatible_value_total == b.compatible_value_total
    &&& match (a.compatible_value_per_net_weight, b.compatible_value_per_net_weight) {
        (Some(x), Some(y)) => same_ratio(x, y),
        (None, None) => true,
        _ => false,
    }
    &&& a.exclusions == b.exclusions
}

/// Copies some measures.
pub fn copy_measures(measures: &AnalyticsMeasures) -> (r: AnalyticsMeasures)
    ensures
        same_measures(r, *measures),
{
    let total = match &measures.compatible_value_total {
        Some(total) => Some(copy_currency_total(total)),
        None => None,
    };
    let ratio = match &measures.compatible_value_per_net_weight {
        Some(ratio) => Some(copy_ratio(ratio)),
        None => None,
    };
    AnalyticsMeasures {
        currency_totals: copy_currency_totals(&measures.currency_totals),
        net_weight_totals: copy_weight_totals(&measures.net_weight_totals),
        gross_weight_totals: copy_weight_totals(&measures.gross_weight_totals),
        value_per_net_weight: copy_ratios(&measures.value_per_net_weight),
        compatible_value_total: total,
        compatible_value_per_net_weight: ratio,
        exclusions: AnalyticsMeasureExclusions {
            value_without_known_currency: measures.exclusions.value_without_known_currency,
            net_weight_without_known_unit: measures.exclusions.net_weight_without_known_unit,
            gross_weight_without_known_unit: measures.exclusions.gross_weight_without_known_unit,
            ratio_without_known_currency: measures.exclusions.ratio_without_known_currency,
            ratio_without_known_weight_unit: measures.exclusions.ratio_without_known_weight_unit,
            ratio_with_zero_or_missing_weight: measures.exclusions.ratio_with_zero_or_missing_weight,
        },
    }
}

/// Copies dollar figures.
pub fn copy_usd(usd: &Option<AnalyticsUsdCompatibility>) -> (r: Option<AnalyticsUsdCompatibility>)
    ensures
        r == *usd,
{
    match usd {
        Some(usd) => Some(
            AnalyticsUsdCompatibility {
                total_value_usd: usd.total_value_usd,
                avg_value_per_net_kg: usd.avg_value_per_net_kg,
            },
        ),
        None => None,
    }
}

/// Two rows of a section that say the same.
pub open spec fn same_row(a: AnalyticsGroupRow, b: AnalyticsGroupRow) -> bool {
    &&& a.label == b.label
    &&& a.rows == b.rows
    &&& a.declarations == b.declarations
    &&& a.companies == b.companies
    &&& a.total_value_usd == b.total_value_usd
    &&& a.compatible_usd == b.compatible_usd
    &&& a.total_net_kg == b.total_net_kg
    &&& a.total_gross_kg == b.total_gross_kg
    &&& a.total_quantity == b.total_quantity
    &&& a.share_percent == b.share_percent
    &&& a.avg_value_per_net_kg == b.avg_value_per_net_kg
    &&& same_measures(a.measures, b.measures)
    &&& a.filter_action == b.filter_action
}

/// Some rows that say the same, one by one.
pub open spec fn same_rows(a: Seq<AnalyticsGroupRow>, b: Seq<AnalyticsGroupRow>) -> bool {
    &&& a.len() == b.len()
    &&& forall|k: int| 0 <= k < a.len() ==> same_row(#[trigger] a[k], b[k])
}

/// Copies a row of a section.
pub fn copy_row(row: &AnalyticsGroupRow) -> (r: AnalyticsGroupRow)
    ensures
        same_row(r, *row),
{
    let filter_action = match &row.filter_action {
        Some(action) => Some(
            AnalyticsFilterAction { field: action.field, value: action.value.clone() },
        ),
        None => None,
    };
    AnalyticsGroupRow {
        label: row.label.clone(),
        rows: row.rows,
        declarations: row.declarations,
        companies: row.companies,
        total_value_usd: row.total_value_usd,
        compatible_usd: copy_usd(&row.compatible_usd),
        total_net_kg: row.total_net_kg,
        total_gross_kg: row.total_gross_kg,
        total_quantity: row.total_quantity,
        share_percent: row.share_percent,
        avg_value_per_net_kg: row.avg_value_per_net_kg,
        measures: copy_measures(&row.measures),
        filter_action,
    }
}

/// Copies some rows of a section.
pub fn copy_rows(list: &Vec<AnalyticsGroupRow>) -> (r: Vec<AnalyticsGroupRow>)
    ensures
        same_rows(r@, list@),
{
    let mut out: Vec<AnalyticsGroupRow> = Vec::new();
    let mut i: usize = 0;
    while i < list.len()
        invariant
            i <= list@.len(),
            out@.len() == i,
            forall|k: int| 0 <= k < i ==> same_row(#[trigger] out@[k], list@[k]),
        decreases list.len() - i,
    {
        out.push(copy_row(&list[i]));
        i += 1;
    }
    out
}

} // verus!
