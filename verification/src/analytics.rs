//! Analytics results: measures, sections, prices, risks and cross-tabs.
use vstd::prelude::*;

use crate::text::{begins, same, starts_with};

verus! {

/// A double-precision number, held by its bit pattern. The library carries and
/// compares such numbers; it does no arithmetic on them.
#[derive(Clone, Copy, Debug, Default, PartialEq, Eq, Structural)]
pub struct Real {
    pub bits: u64,
}

#[derive(Clone, Debug, Default, PartialEq)]
pub struct AnalyticsCurrencyTotal {
    /// Normalized ISO-like currency code, or `unknown` when the source value is
    /// missing or cannot be interpreted safely.
    pub currency: String,
    pub known: bool,
    pub valued_rows: u64,
    pub total_value: Real,
}

#[derive(Clone, Debug, Default, PartialEq)]
pub struct AnalyticsWeightTotal {
    /// Normalized source unit (`kg`, `g`, `tonne`, `lb`) or the preserved
    /// unknown source label.
    pub source_unit: String,
    pub known: bool,
    pub normalized_unit: Option<String>,
    pub factor_to_kg: Option<Real>,
    pub weighted_rows: u64,
    pub total_source_weight: Real,
    pub total_kg: Option<Real>,
}

#[derive(Clone, Debug, Default, PartialEq)]
pub struct AnalyticsValuePerWeight {
    pub currency: String,
    pub normalized_weight_unit: String,
    pub source_weight_units: Vec<String>,
    pub paired_rows: u64,
    pub total_value: Real,
    pub total_weight: Real,
    pub value_per_weight: Option<Real>,
}

#[derive(Clone, Debug, Default, PartialEq, Eq)]
pub struct AnalyticsMeasureExclusions {
    pub value_without_known_currency: u64,
    pub net_weight_without_known_unit: u64,
    pub gross_weight_without_known_unit: u64,
    pub ratio_without_known_currency: u64,
    pub ratio_without_known_weight_unit: u64,
    pub ratio_with_zero_or_missing_weight: u64,
}

/// Currency- and unit-safe measures shared by overview, group, and monthly
/// analytics. Money is never added across currency buckets. Recognized mass
/// units are normalized to kilograms; unknown units remain explicit buckets.
#[derive(Clone, Debug, Default, PartialEq)]
pub struct AnalyticsMeasures {
    pub currency_totals: Vec<AnalyticsCurrencyTotal>,
    pub net_weight_totals: Vec<AnalyticsWeightTotal>,
    pub gross_weight_totals: Vec<AnalyticsWeightTotal>,
    pub value_per_net_weight: Vec<AnalyticsValuePerWeight>,
    pub compatible_value_total: Option<AnalyticsCurrencyTotal>,
    pub compatible_value_per_net_weight: Option<AnalyticsValuePerWeight>,
    pub exclusions: AnalyticsMeasureExclusions,
}

/// The label that a currency bucket has to carry: its code where it is known.
pub open spec fn bucket_label(total: AnalyticsCurrencyTotal) -> Seq<char> {
    if total.known {
        total.currency@
    } else {
        ""@
    }
}

/// The label that a value per weight has to carry.
pub open spec fn ratio_label(metric: AnalyticsValuePerWeight) -> Seq<char> {
    if begins(metric.currency@, "__unknown__"@) {
        ""@
    } else {
        metric.currency@
    }
}

impl AnalyticsMeasures {
    /// The one money figure these rows can honestly show, with the label it
    /// has to carry: the currency code for a recognized bucket, or an empty
    /// label for a single bucket whose currency the source never stated.
    ///
    /// `None` means the rows span more than one currency, and no single number
    /// is true of them. Callers that print a scalar must render this as
    /// "not comparable" and fall back to `currency_totals`.
    pub fn single_currency_total(&self) -> (r: Option<(Real, &str)>)
        ensures
            match r {
                Some((value, label)) => self.currency_totals@.len() == 1 && value
                    == self.currency_totals@[0].total_value && label@ == bucket_label(
                    self.currency_totals@[0],
                ),
                None => self.currency_totals@.len() != 1,
            },
    {
        if self.currency_totals.len() != 1 {
            return None;
        }
        let only = &self.currency_totals[0];
        Some(
            (
                only.total_value,
                if only.known {
                    only.currency.as_str()
                } else {
                    ""
                },
            ),
        )
    }

    /// Value per kilogram on the same rule: one currency bucket, one figure.
    pub fn single_currency_per_net_kg(&self) -> (r: Option<(Real, &str)>)
        ensures
            match r {
                Some((ratio, label)) => self.value_per_net_weight@.len() == 1
                    && self.value_per_net_weight@[0].value_per_weight == Some(ratio) && label@
                    == ratio_label(self.value_per_net_weight@[0]),
                None => self.value_per_net_weight@.len() != 1
                    || self.value_per_net_weight@[0].value_per_weight is None,
            },
    {
        if self.value_per_net_weight.len() != 1 {
            return None;
        }
        let only = &self.value_per_net_weight[0];
        match only.value_per_weight {
            Some(ratio) => {
                let label = if starts_with(only.currency.as_str(), "__unknown__") {
                    ""
                } else {
                    only.currency.as_str()
                };
                Some((ratio, label))
            },
            None => None,
        }
    }

    /// The total in dollars, where dollars are the one known currency.
    pub fn compatible_usd_total(&self) -> (r: Option<Real>)
        ensures
            r == (match self.compatible_value_total {
                Some(total) => if total.known && total.currency@ == "USD"@ {
                    Some(total.total_value)
                } else {
                    None
                },
                None => None,
            }),
    {
        match &self.compatible_value_total {
            Some(total) => if total.known && same(total.currency.as_str(), "USD") {
                Some(total.total_value)
            } else {
                None
            },
            None => None,
        }
    }

    /// The dollars per net kilogram, where dollars are the one known currency.
    pub fn compatible_usd_per_net_kg(&self) -> (r: Option<Real>)
        ensures
            r == (match self.compatible_value_per_net_weight {
                Some(metric) => if metric.currency@ == "USD"@ {
                    metric.value_per_weight
                } else {
                    None
                },
                None => None,
            }),
    {
        match &self.compatible_value_per_net_weight {
            Some(metric) => if same(metric.currency.as_str(), "USD") {
                metric.value_per_weight
            } else {
                None
            },
            None => None,
        }
    }
}

/// Wire-compatible USD fields. This object is flattened only when the query
/// has one known USD currency cohort. The old scalar names are intentionally
/// absent for EUR, mixed-currency, and unknown-currency results.
#[derive(Clone, Debug, Default, PartialEq)]
pub struct AnalyticsUsdCompatibility {
    pub total_value_usd: Real,
    pub avg_value_per_net_kg: Option<Real>,
}

#[derive(Clone, Debug, Default)]
pub struct AnalyticsOverview {
    pub row_count: u64,
    pub declaration_count: u64,
    pub distinct_senders: u64,
    pub distinct_recipients: u64,
    pub distinct_edrpou: u64,
    pub distinct_trademarks: u64,
    pub distinct_product_codes: u64,
    pub distinct_origin_countries: u64,
    pub distinct_dispatch_countries: u64,
    pub distinct_trade_countries: u64,
    /// Deprecated in-memory compatibility value for the legacy desktop UI.
    /// It is not serialized; use `measures.currency_totals` instead.
    pub total_value_usd: Real,
    pub compatible_usd: Option<AnalyticsUsdCompatibility>,
    pub total_gross_kg: Real,
    pub total_net_kg: Real,
    pub total_quantity: Real,
    /// Deprecated in-memory compatibility value for the legacy desktop UI.
    /// It is not serialized; use `measures.value_per_net_weight` instead.
    pub avg_value_per_net_kg: Real,
    pub measures: AnalyticsMeasures,
}

#[derive(Clone, Copy, Debug, PartialEq, Eq, Structural)]
pub enum AnalyticsFilterField {
    Recipient,
    Sender,
    Edrpou,
    ProductCode,
    Trademark,
    OriginCountry,
    DispatchCountry,
    TradeCountry,
    Description,
}

#[derive(Clone, Debug, PartialEq, Eq)]
pub struct AnalyticsFilterAction {
    pub field: AnalyticsFilterField,
    pub value: String,
}

#[derive(Clone, Debug, Default)]
pub struct AnalyticsGroupRow {
    pub label: String,
    pub rows: u64,
    pub declarations: u64,
    pub companies: u64,
    pub total_value_usd: Real,
    pub compatible_usd: Option<AnalyticsUsdCompatibility>,
    pub total_net_kg: Real,
    pub total_gross_kg: Real,
    pub total_quantity: Real,
    pub share_percent: Real,
    pub avg_value_per_net_kg: Real,
    pub measures: AnalyticsMeasures,
    pub filter_action: Option<AnalyticsFilterAction>,
}

#[derive(Clone, Copy, Debug, Default, PartialEq, Eq, Structural)]
pub enum AnalyticsSectionKind {
    #[default]
    Recipients,
    Senders,
    Edrpou,
    ProductCodes,
    Trademarks,
    ProductGroups,
    OriginCountries,
    DispatchCountries,
    TradeCountries,
}

#[derive(Clone, Debug, Default)]
pub struct AnalyticsSection {
    pub kind: AnalyticsSectionKind,
    pub rows: Vec<AnalyticsGroupRow>,
}

#[derive(Clone, Copy, Debug, Default, PartialEq, Eq, Structural)]
pub enum PriceMetricKind {
    #[default]
    ValuePerNetKg,
    RfvUsdKg,
    RmvNetUsdKg,
    RmvUsdExtraUnit,
    RmvGrossUsdKg,
    MinBaseUsdKg,
}

#[derive(Clone, Debug, Default)]
pub struct AnalyticsPriceMetric {
    pub kind: PriceMetricKind,
    pub count: u64,
    pub average: Real,
    pub minimum: Real,
    pub maximum: Real,
    pub weighted_average: Real,
    /// Robust statistics: median and quartiles are less sensitive to outliers
    /// and source-data mistakes than min/max.
    pub median: Real,
    pub p25: Real,
    pub p75: Real,
    pub cohorts: Vec<AnalyticsPriceCohort>,
    pub excluded_rows: u64,
}

#[derive(Clone, Debug, Default, PartialEq)]
pub struct AnalyticsPriceCohort {
    pub currency: String,
    pub normalized_weight_unit: String,
    pub source_weight_units: Vec<String>,
    pub count: u64,
    pub average: Real,
    pub minimum: Real,
    pub maximum: Real,
    pub weighted_average: Option<Real>,
    pub median: Real,
    pub p25: Real,
    pub p75: Real,
    pub numerator_total: Real,
    pub denominator_total: Real,
}

/// Analytics category computed independently, so the GUI can load only
/// the visible one.
#[derive(Clone, Copy, Debug, Default, PartialEq, Eq, Structural)]
pub enum AnalyticsScope {
    #[default]
    Companies,
    Products,
    Countries,
    Prices,
}

impl AnalyticsScope {
    /// The scopes in the order of their tabs.
    pub const ALL: [AnalyticsScope; 4] = [
        AnalyticsScope::Companies,
        AnalyticsScope::Products,
        AnalyticsScope::Countries,
        AnalyticsScope::Prices,
    ];

    /// The place of the scope among all scopes.
    pub fn index(self) -> (r: usize)
        ensures
            r < 4,
            AnalyticsScope::ALL@[r as int] == self,
            r == (match self {
                AnalyticsScope::Companies => 0usize,
                AnalyticsScope::Products => 1usize,
                AnalyticsScope::Countries => 2usize,
                AnalyticsScope::Prices => 3usize,
            }),
    {
        match self {
            AnalyticsScope::Companies => 0,
            AnalyticsScope::Products => 1,
            AnalyticsScope::Countries => 2,
            AnalyticsScope::Prices => 3,
        }
    }
}

/// One month of import dynamics (chart data).
#[derive(Clone, Debug, Default)]
pub struct AnalyticsMonthRow {
    /// "2024-03"
    pub month: String,
    pub rows: u64,
    pub declarations: u64,
    pub total_value_usd: Real,
    pub compatible_usd: Option<AnalyticsUsdCompatibility>,
    pub total_net_kg: Real,
    pub measures: AnalyticsMeasures,
}

#[derive(Clone, Debug, Default)]
pub struct Analytics {
    pub overview: AnalyticsOverview,
    pub months: Vec<AnalyticsMonthRow>,
    pub company_sections: Vec<AnalyticsSection>,
    pub product_sections: Vec<AnalyticsSection>,
    pub country_sections: Vec<AnalyticsSection>,
    pub price_sections: Vec<AnalyticsPriceMetric>,
    pub top_recipients: Vec<AnalyticsGroupRow>,
    pub top_senders: Vec<AnalyticsGroupRow>,
    pub top_trademarks: Vec<AnalyticsGroupRow>,
    pub top_product_codes: Vec<AnalyticsGroupRow>,
    pub top_origin_countries: Vec<AnalyticsGroupRow>,
}

#[derive(Clone, Copy, Debug, Default, PartialEq, Eq, Structural)]
pub enum RiskConfidence {
    #[default]
    Low,
    Medium,
    High,
}

#[derive(Clone, Debug, Default, PartialEq, Eq)]
pub struct RiskLimitation {
    pub code: String,
    pub message: String,
}

#[derive(Clone, Debug, Default)]
pub struct RiskCohort {
    pub product_code: String,
    pub period: String,
    pub currency: String,
    pub weight_unit: String,
    pub brand: Option<String>,
    pub country: Option<String>,
    pub dimensions: Vec<String>,
    pub sample_count: u64,
    pub median: Real,
    pub p25: Real,
    pub p75: Real,
    pub iqr: Real,
    pub lower_fence: Real,
    pub median_ratio_cutoff: Real,
    pub robust_cutoff: Real,
}

#[derive(Clone, Debug, Default)]
pub struct PriceRiskContract {
    pub price_basis: String,
    pub period_granularity: String,
    pub required_dimensions: Vec<String>,
    pub optional_dimensions: Vec<String>,
    pub min_samples: u64,
    pub max_median_ratio: Real,
    pub iqr_multiplier: Real,
    pub includes_subject_record: bool,
}

#[derive(Clone, Debug, Default)]
pub struct RiskExclusions {
    pub query_rows: u64,
    pub missing_product_code: u64,
    pub missing_period: u64,
    pub missing_currency: u64,
    pub missing_weight_unit: u64,
    pub invalid_value: u64,
    pub invalid_weight: u64,
    pub insufficient_cohort: u64,
}

#[derive(Clone, Debug, Default)]
pub struct RiskCurrencyTotal {
    pub currency: String,
    pub flagged_rows: u64,
    pub flagged_value: Real,
    pub estimated_gap: Real,
}

/// One row flagged by the explainable price-risk heuristic.
#[derive(Clone, Debug, Default)]
pub struct UndervaluedRow {
    pub id: i64,
    pub declaration_date: String,
    pub declaration_number: String,
    pub recipient: String,
    pub sender: String,
    pub edrpou: String,
    pub product_code: String,
    pub description: String,
    pub source_value: Real,
    pub net_kg: Real,
    pub price_per_kg: Real,
    pub code_median: Real,
    pub code_p25: Real,
    pub code_p75: Real,
    pub code_sample_count: u64,
    pub estimated_gap: Real,
    /// price_per_kg / code_median (0.3 means 30% of the typical price).
    pub ratio: Real,
    pub cohort: RiskCohort,
    pub deviation_percent: Real,
    pub confidence: RiskConfidence,
    pub reason: String,
    pub limitations: Vec<RiskLimitation>,
}

#[derive(Clone, Debug, Default)]
pub struct Undervaluation {
    pub available: bool,
    pub rows: Vec<UndervaluedRow>,
    /// Number of distinct product codes that had enough samples to judge.
    pub checked_codes: u64,
    /// Priced rows in those judged product codes.
    pub checked_rows: u64,
    pub flagged_rows: u64,
    pub flagged_codes: u64,
    pub flagged_value: Real,
    pub estimated_gap: Real,
    pub eligible_rows: u64,
    pub evaluated_rows: u64,
    pub checked_cohorts: u64,
    pub contract: PriceRiskContract,
    pub exclusions: RiskExclusions,
    pub limitations: Vec<RiskLimitation>,
    pub currency_totals: Vec<RiskCurrencyTotal>,
}

/// Dimension for the pivot table (rows or columns).
#[derive(Clone, Copy, Debug, PartialEq, Eq, Structural)]
pub enum PivotDim {
    Recipient,
    Sender,
    Edrpou,
    ProductCode,
    Trademark,
    OriginCountry,
    DispatchCountry,
    TradeCountry,
    Month,
    Year,
}

/// The filter that a dimension can be narrowed by.
pub open spec fn dimension_filter(dim: PivotDim) -> Option<AnalyticsFilterField> {
    match dim {
        PivotDim::Recipient => Some(AnalyticsFilterField::Recipient),
        PivotDim::Sender => Some(AnalyticsFilterField::Sender),
        PivotDim::Edrpou => Some(AnalyticsFilterField::Edrpou),
        PivotDim::ProductCode => Some(AnalyticsFilterField::ProductCode),
        PivotDim::Trademark => Some(AnalyticsFilterField::Trademark),
        PivotDim::OriginCountry => Some(AnalyticsFilterField::OriginCountry),
        PivotDim::DispatchCountry => Some(AnalyticsFilterField::DispatchCountry),
        PivotDim::TradeCountry => Some(AnalyticsFilterField::TradeCountry),
        PivotDim::Month | PivotDim::Year => None,
    }
}

impl PivotDim {
    /// The filter field this dimension maps to, for drill-down clicks.
    pub fn filter_field(self) -> (r: Option<AnalyticsFilterField>)
        ensures
            r == dimension_filter(self),
    {
        match self {
            PivotDim::Recipient => Some(AnalyticsFilterField::Recipient),
            PivotDim::Sender => Some(AnalyticsFilterField::Sender),
            PivotDim::Edrpou => Some(AnalyticsFilterField::Edrpou),
            PivotDim::ProductCode => Some(AnalyticsFilterField::ProductCode),
            PivotDim::Trademark => Some(AnalyticsFilterField::Trademark),
            PivotDim::OriginCountry => Some(AnalyticsFilterField::OriginCountry),
            PivotDim::DispatchCountry => Some(AnalyticsFilterField::DispatchCountry),
            PivotDim::TradeCountry => Some(AnalyticsFilterField::TradeCountry),
            PivotDim::Month => None,
            PivotDim::Year => None,
        }
    }
}

/// The filter that a click on a value of a dimension applies.
pub fn pivot_filter_action(dim: PivotDim, value: String) -> (r: Option<AnalyticsFilterAction>)
    ensures
        match r {
            Some(action) => dimension_filter(dim) == Some(action.field) && action.value == value,
            None => dimension_filter(dim) is None,
        },
{
    match dim.filter_field() {
        Some(field) => Some(AnalyticsFilterAction { field, value }),
        None => None,
    }
}

#[derive(Clone, Copy, Debug, PartialEq, Eq, Structural)]
pub enum PivotMetric {
    Value,
    Rows,
    NetKg,
}

#[derive(Clone, Copy, Debug, PartialEq, Eq)]
pub struct PivotLimits {
    pub rows: usize,
    pub cols: usize,
}

/// Cross-tab: a matrix of one dimension by another for a chosen metric.
#[derive(Clone, Debug, Default)]
pub struct PivotMeasurePartition {
    pub key: String,
    pub known: bool,
    pub unit: String,
    pub cells: Vec<Vec<Real>>,
    pub row_totals: Vec<Real>,
    pub col_totals: Vec<Real>,
    pub grand_total: Real,
}

#[derive(Clone, Debug, Default)]
pub struct PivotCompatibilityMatrix {
    pub cells: Vec<Vec<Real>>,
    pub row_totals: Vec<Real>,
    pub col_totals: Vec<Real>,
    pub grand_total: Real,
    pub metric_unit: String,
}

#[derive(Clone, Debug, Default)]
pub struct PivotResult {
    pub row_labels: Vec<String>,
    pub col_labels: Vec<String>,
    /// cells[row][col].
    pub cells: Vec<Vec<Real>>,
    pub row_totals: Vec<Real>,
    pub col_totals: Vec<Real>,
    pub grand_total: Real,
    pub compatible_matrix: Option<PivotCompatibilityMatrix>,
    pub partitions: Vec<PivotMeasurePartition>,
    /// True when low-ranked rows/columns were folded into an "others" bucket.
    pub rows_truncated: bool,
    pub cols_truncated: bool,
    /// True when clicking a row or column label can safely apply a legacy
    /// filter. Generic source-column dimensions are calculated correctly but
    /// are not yet mapped to the old filter fields.
    pub row_filterable: bool,
    pub col_filterable: bool,
}

/// Single-company dossier built for one EDRPOU: everything an analyst needs
/// to answer "tell me everything about this importer" on one screen.
#[derive(Clone, Debug, Default)]
pub struct CompanyProfile {
    pub edrpou: String,
    /// All recipient-name variants seen for this EDRPOU.
    pub names: Vec<String>,
    pub overview: AnalyticsOverview,
    pub months: Vec<AnalyticsMonthRow>,
    pub top_products: Vec<AnalyticsGroupRow>,
    pub top_senders: Vec<AnalyticsGroupRow>,
    pub top_origin_countries: Vec<AnalyticsGroupRow>,
    pub product_sections: Vec<AnalyticsSection>,
    pub country_sections: Vec<AnalyticsSection>,
    pub price_sections: Vec<AnalyticsPriceMetric>,
}

/// A dimension of a pivot filters by its own field; months and years filter by
/// none.
pub proof fn each_dimension_filters_by_its_own_field()
    ensures
        dimension_filter(PivotDim::Recipient) == Some(AnalyticsFilterField::Recipient),
        dimension_filter(PivotDim::Sender) == Some(AnalyticsFilterField::Sender),
        dimension_filter(PivotDim::Edrpou) == Some(AnalyticsFilterField::Edrpou),
        dimension_filter(PivotDim::ProductCode) == Some(AnalyticsFilterField::ProductCode),
        dimension_filter(PivotDim::Trademark) == Some(AnalyticsFilterField::Trademark),
        dimension_filter(PivotDim::OriginCountry) == Some(AnalyticsFilterField::OriginCountry),
        dimension_filter(PivotDim::DispatchCountry) == Some(AnalyticsFilterField::DispatchCountry),
        dimension_filter(PivotDim::TradeCountry) == Some(AnalyticsFilterField::TradeCountry),
        dimension_filter(PivotDim::Month) is None,
        dimension_filter(PivotDim::Year) is None,
        forall|a: PivotDim, b: PivotDim|
            (#[trigger] dimension_filter(a)) is Some && dimension_filter(a)
                == #[trigger] dimension_filter(b) ==> a == b,
{
}

/// A bucket whose currency is not known has no label, and a known one has its
/// currency's; a ratio in an unknown currency has none either.
pub proof fn unknown_currencies_have_no_label(
    total: AnalyticsCurrencyTotal,
    metric: AnalyticsValuePerWeight,
    rest: Seq<char>,
)
    ensures
        total.known ==> bucket_label(total) == total.currency@,
        !total.known ==> bucket_label(total).len() == 0,
        metric.currency@ == "__unknown__"@ + rest ==> ratio_label(metric).len() == 0,
        metric.currency@.len() > 0 && metric.currency@[0] != '_' ==> ratio_label(metric)
            == metric.currency@,
{
    reveal_strlit("__unknown__");
    reveal_strlit("");
    if metric.currency@ == "__unknown__"@ + rest {
        assert(metric.currency@.subrange(0, 11) =~= "__unknown__"@);
    }
    if metric.currency@.len() > 0 && metric.currency@[0] != '_' && begins(
        metric.currency@,
        "__unknown__"@,
    ) {
        assert(metric.currency@.subrange(0, 11)[0] == metric.currency@[0]);
    }
}

} // verus!
