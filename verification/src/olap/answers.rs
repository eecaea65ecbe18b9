//! What has to be read to answer a query from the projection.
use vstd::prelude::*;
use vstd::string::*;

use crate::analytics::{AnalyticsFilterField, AnalyticsScope, AnalyticsSectionKind};
use crate::assembly::{has_prices, kinds_of, scope_kinds};
use crate::number::decimal;
use crate::olap::filter::{
    query_conditions, supports_projection_query, DuckFilter, FilterKeys, RollupSelector,
};
use crate::olap::prices::{
    price_column, price_weight, source_price_statements, source_prices, PriceStatement,
};
use crate::olap::projection::{
    rollup_months_sql, ROLLUP_MONTHS_SQL, ROLLUP_OVERVIEW_SQL, ROLLUP_SECTION_SQL,
};
use crate::olap::sections::{
    code_level, field_of, label_of, projection_section_grouping, rollup_key,
    rollup_section_contract,
};
use crate::olap::sql::filled;
use crate::olap::statements::{
    clamp, clamped, count_sql, count_text, currency_totals_are_by_currency, currency_totals_sql,
    currency_totals_text,
    exclusions_sql, exclusions_text, kilograms, months_sql, months_text, overview_sql, overview_text,
    price_cohorts_sql, price_cohorts_text, price_excluded_sql, price_excluded_text,
    price_metric_text, price_units_sql, price_units_text, section_sql, section_text,
    value_per_weight_sql, value_per_weight_text, values_are_paired_with_net_kilograms,
    weight_totals_are_by_source_unit, weight_totals_sql, weight_totals_text,
};
use crate::query::{no_rules, Query};
use crate::text::{holds, views};

verus! {

/// The statements of a query's measures.
#[derive(Clone, Debug)]
pub struct MeasurePlan {
    pub currency_totals: String,
    pub net_weight_totals: String,
    pub gross_weight_totals: String,
    pub value_per_net_weight: String,
    pub exclusions: String,
}

impl MeasurePlan {
    /// The statements that read a query's measures.
    pub open spec fn reads(self, f: Seq<Seq<char>>) -> bool {
        &&& self.currency_totals@ == currency_totals_text(f)
        &&& self.net_weight_totals@ == weight_totals_text(f, "net_kg_num"@)
        &&& self.gross_weight_totals@ == weight_totals_text(f, "gross_kg_num"@)
        &&& self.value_per_net_weight@ == value_per_weight_text(f)
        &&& self.exclusions@ == exclusions_text(f)
    }
}

/// The statements of a query's measures.
pub fn measure_plan(filter: &DuckFilter) -> (r: MeasurePlan)
    ensures
        r.reads(views(filter.conditions@)),
{
    MeasurePlan {
        currency_totals: currency_totals_sql(filter),
        net_weight_totals: weight_totals_sql(filter, "net_kg_num"),
        gross_weight_totals: weight_totals_sql(filter, "gross_kg_num"),
        value_per_net_weight: value_per_weight_sql(filter),
        exclusions: exclusions_sql(filter),
    }
}

/// The statement of a section, and the filter that its rows set.
#[derive(Clone, Debug)]
pub struct SectionPlan {
    pub kind: AnalyticsSectionKind,
    pub sql: String,
    pub filter_field: Option<AnalyticsFilterField>,
}

impl SectionPlan {
    /// The statement that reads a section.
    pub open spec fn reads(
        self,
        f: Seq<Seq<char>>,
        kind: AnalyticsSectionKind,
        hs_level: u8,
        limit: nat,
    ) -> bool {
        &&& self.kind == kind
        &&& self.sql@ == section_text(f, label_of(kind, hs_level), limit)
        &&& self.filter_field == Some(field_of(kind))
    }
}

/// The statement of a section.
pub fn projection_section(
    filter: &DuckFilter,
    kind: AnalyticsSectionKind,
    hs_level: u8,
    limit: u64,
) -> (r: SectionPlan)
    ensures
        r.reads(views(filter.conditions@), kind, hs_level, limit as nat),
{
    let grouping = projection_section_grouping(kind, hs_level);
    SectionPlan {
        kind,
        sql: section_sql(filter, grouping.label_sql.as_str(), limit),
        filter_field: grouping.filter_field,
    }
}

/// The statements of the price metrics.
#[derive(Clone, Debug)]
pub struct PricePlan {
    pub cohorts: String,
    pub units: String,
    pub excluded: String,
    pub source_prices: Vec<PriceStatement>,
}

impl PricePlan {
    /// The statements that read the price metrics.
    pub open spec fn reads(self, f: Seq<Seq<char>>) -> bool {
        &&& self.cohorts@ == price_cohorts_text(f)
        &&& self.units@ == price_units_text(f)
        &&& self.excluded@ == price_excluded_text(f)
        &&& self.source_prices@.len() == source_prices().len()
        &&& forall|i: int|
            0 <= i < self.source_prices@.len() ==> (#[trigger] self.source_prices@[i]).kind
                == source_prices()[i] && self.source_prices@[i].sql@ == price_metric_text(
                f,
                price_column(source_prices()[i]),
                price_weight(source_prices()[i]),
            )
    }
}

/// The statements of the price metrics.
pub fn projection_price_metrics(filter: &DuckFilter) -> (r: PricePlan)
    ensures
        r.reads(views(filter.conditions@)),
{
    PricePlan {
        cohorts: price_cohorts_sql(filter),
        units: price_units_sql(filter),
        excluded: price_excluded_sql(filter),
        source_prices: source_price_statements(filter),
    }
}

/// Everything that is read to answer a query from the detail.
#[derive(Clone, Debug)]
pub struct DetailPlan {
    pub measures: MeasurePlan,
    pub overview: String,
    pub months: String,
    pub sections: Vec<SectionPlan>,
    pub prices: Option<PricePlan>,
}

impl DetailPlan {
    /// What is read for a scope: the sections of the scope in their order, and
    /// the prices where the scope has them.
    pub open spec fn reads(
        self,
        f: Seq<Seq<char>>,
        scope: Option<AnalyticsScope>,
        hs_level: u8,
        limit: nat,
        months: nat,
    ) -> bool {
        &&& self.measures.reads(f)
        &&& self.overview@ == overview_text(f)
        &&& self.months@ == months_text(f, months)
        &&& self.sections@.len() == kinds_of(scope).len()
        &&& forall|i: int|
            0 <= i < self.sections@.len() ==> (#[trigger] self.sections@[i]).reads(
                f,
                kinds_of(scope)[i],
                hs_level,
                limit,
            )
        &&& match self.prices {
            Some(prices) => has_prices(scope) && prices.reads(f),
            None => !has_prices(scope),
        }
    }
}

/// What is said of a query that the projection cannot answer.
pub open spec fn unsupported() -> Seq<char> {
    "DuckDB projection does not support advanced query expressions yet."@
}

/// What is said of a query that the projection cannot answer.
fn refusal() -> (r: String)
    ensures
        r@ == unsupported(),
{
    String::from_str("DuckDB projection does not support advanced query expressions yet.")
}

/// What has to be read to answer a query from the detail. A query with rules of
/// its own is refused.
pub fn analytics_scoped_detail(
    query: &Query,
    keys: &FilterKeys,
    limit: u64,
    months: u64,
    scope: Option<AnalyticsScope>,
    hs_level: u8,
) -> (r: Result<DetailPlan, String>)
    ensures
        match r {
            Ok(plan) => no_rules(query.advanced) && plan.reads(
                query_conditions(*query, *keys),
                scope,
                hs_level,
                limit as nat,
                months as nat,
            ),
            Err(e) => !no_rules(query.advanced) && e@ == unsupported(),
        },
{
    if !supports_projection_query(query) {
        return Err(refusal());
    }
    let filter = DuckFilter::from_query(query, keys);
    let kinds = scope_kinds(scope);
    let mut sections: Vec<SectionPlan> = Vec::new();
    let mut i: usize = 0;
    while i < kinds.len()
        invariant
            i <= kinds@.len(),
            kinds@ == kinds_of(scope),
            sections@.len() == i,
            forall|k: int|
                0 <= k < i ==> (#[trigger] sections@[k]).reads(
                    views(filter.conditions@),
                    kinds_of(scope)[k],
                    hs_level,
                    limit as nat,
                ),
        decreases kinds.len() - i,
    {
        sections.push(projection_section(&filter, kinds[i], hs_level, limit));
        i += 1;
    }
    let prices = match scope {
        Some(AnalyticsScope::Prices) => Some(projection_price_metrics(&filter)),
        _ => None,
    };
    Ok(
        DetailPlan {
            measures: measure_plan(&filter),
            overview: overview_sql(&filter),
            months: months_sql(&filter, months),
            sections,
            prices,
        },
    )
}

/// The statement that counts the rows of a query. A query with rules of its own
/// is refused.
pub fn projection_row_count(query: &Query, keys: &FilterKeys) -> (r: Result<String, String>)
    ensures
        match r {
            Ok(sql) => no_rules(query.advanced) && sql@ == count_text(
                query_conditions(*query, *keys),
            ),
            Err(e) => !no_rules(query.advanced) && e@ == unsupported(),
        },
{
    if !supports_projection_query(query) {
        return Err(refusal());
    }
    let filter = DuckFilter::from_query(query, keys);
    Ok(count_sql(&filter))
}

/// What has to be read for one section: the overview of the query, and the
/// section.
#[derive(Clone, Debug)]
pub struct SingleSectionPlan {
    pub measures: MeasurePlan,
    pub overview: String,
    pub section: SectionPlan,
}

/// What has to be read for one section. A query with rules of its own is
/// refused.
pub fn analytics_section(
    query: &Query,
    keys: &FilterKeys,
    kind: AnalyticsSectionKind,
    hs_level: u8,
    limit: u64,
) -> (r: Result<SingleSectionPlan, String>)
    ensures
        match r {
            Ok(plan) => no_rules(query.advanced) && plan.measures.reads(
                query_conditions(*query, *keys),
            ) && plan.overview@ == overview_text(query_conditions(*query, *keys))
                && plan.section.reads(
                query_conditions(*query, *keys),
                kind,
                hs_level,
                limit as nat,
            ),
            Err(e) => !no_rules(query.advanced) && e@ == unsupported(),
        },
{
    if !supports_projection_query(query) {
        return Err(refusal());
    }
    let filter = DuckFilter::from_query(query, keys);
    Ok(
        SingleSectionPlan {
            measures: measure_plan(&filter),
            overview: overview_sql(&filter),
            section: projection_section(&filter, kind, hs_level, limit),
        },
    )
}

/// What selects a section's rollup.
#[derive(Clone, Debug)]
pub struct RollupSection {
    pub kind: AnalyticsSectionKind,
    pub key: &'static str,
    pub level: i64,
    pub limit: i64,
    pub filter_field: Option<AnalyticsFilterField>,
}

impl RollupSection {
    /// What selects the rollup of a kind.
    pub open spec fn selects(self, kind: AnalyticsSectionKind, hs_level: u8, limit: nat) -> bool {
        &&& self.kind == kind
        &&& self.key@ == rollup_key(kind)
        &&& self.level == (if kind == AnalyticsSectionKind::ProductCodes {
            code_level(hs_level) as i64
        } else {
            0
        })
        &&& self.limit == clamped(limit, 1, 20000)
        &&& self.filter_field == Some(field_of(kind))
    }
}

/// What selects a section's rollup.
pub fn rollup_section(kind: AnalyticsSectionKind, hs_level: u8, limit: u64) -> (r: RollupSection)
    ensures
        r.selects(kind, hs_level, limit as nat),
{
    let contract = rollup_section_contract(kind, hs_level);
    RollupSection {
        kind,
        key: contract.0,
        level: contract.1,
        limit: clamp(limit, 1, 20000) as i64,
        filter_field: contract.2,
    }
}

/// Everything that is read to answer a query from the rollups: its measures,
/// the headline, the months and the sections of the rollup that the selector
/// selects, and the prices, which are read from the detail.
#[derive(Clone, Debug)]
pub struct RollupPlan {
    /// What the first two places of every statement on a rollup are bound to.
    pub selector: RollupSelector,
    pub measures: MeasurePlan,
    pub overview: &'static str,
    pub months: String,
    /// The statement that every section is read with.
    pub section: &'static str,
    pub sections: Vec<RollupSection>,
    pub prices: Option<PricePlan>,
}

/// What has to be read to answer a query from the rollups.
pub fn analytics_from_rollups(
    query: &Query,
    keys: &FilterKeys,
    selector: RollupSelector,
    limit: u64,
    months: u64,
    scope: Option<AnalyticsScope>,
    hs_level: u8,
) -> (r: RollupPlan)
    ensures
        r.selector == selector,
        r.measures.reads(query_conditions(*query, *keys)),
        r.overview@ == ROLLUP_OVERVIEW_SQL@,
        r.months@ == filled(ROLLUP_MONTHS_SQL@, seq![decimal(months as nat)]),
        r.section@ == ROLLUP_SECTION_SQL@,
        r.sections@.len() == kinds_of(scope).len(),
        forall|i: int|
            0 <= i < r.sections@.len() ==> (#[trigger] r.sections@[i]).selects(
                kinds_of(scope)[i],
                hs_level,
                limit as nat,
            ),
        match r.prices {
            Some(prices) => has_prices(scope) && prices.reads(query_conditions(*query, *keys)),
            None => !has_prices(scope),
        },
{
    let filter = DuckFilter::from_query(query, keys);
    let kinds = scope_kinds(scope);
    let mut sections: Vec<RollupSection> = Vec::new();
    let mut i: usize = 0;
    while i < kinds.len()
        invariant
            i <= kinds@.len(),
            kinds@ == kinds_of(scope),
            sections@.len() == i,
            forall|k: int|
                0 <= k < i ==> (#[trigger] sections@[k]).selects(
                    kinds_of(scope)[k],
                    hs_level,
                    limit as nat,
                ),
        decreases kinds.len() - i,
    {
        sections.push(rollup_section(kinds[i], hs_level, limit));
        i += 1;
    }
    let prices = match scope {
        Some(AnalyticsScope::Prices) => Some(projection_price_metrics(&filter)),
        _ => None,
    };
    RollupPlan {
        selector,
        measures: measure_plan(&filter),
        overview: ROLLUP_OVERVIEW_SQL,
        months: rollup_months_sql(months),
        section: ROLLUP_SECTION_SQL,
        sections,
        prices,
    }
}

/// Measures are read where they are named: net weights from the net column and
/// gross weights from the gross column, over the rows that the query selects.
pub proof fn measures_are_read_from_their_columns(plan: MeasurePlan, f: Seq<Seq<char>>)
    requires
        plan.reads(f),
    ensures
        holds(
            plan.net_weight_totals@,
            "COALESCE(SUM("@ + "net_kg_num"@ + "), 0.0) AS source_total"@,
        ),
        holds(
            plan.gross_weight_totals@,
            "COALESCE(SUM("@ + "gross_kg_num"@ + "), 0.0) AS source_total"@,
        ),
        holds(plan.net_weight_totals@, "SUM("@ + kilograms("net_kg_num"@) + ") AS kg_total"@),
        holds(plan.gross_weight_totals@, "SUM("@ + kilograms("gross_kg_num"@) + ") AS kg_total"@),
        holds(plan.currency_totals@, "COALESCE(SUM(value_num), 0.0) AS total_value"@),
        holds(
            plan.value_per_net_weight@,
            "COALESCE(SUM("@ + kilograms("net_kg_num"@) + "), 0.0) AS total_weight"@,
        ),
{
    weight_totals_are_by_source_unit(f, "net_kg_num"@);
    weight_totals_are_by_source_unit(f, "gross_kg_num"@);
    currency_totals_are_by_currency(f);
    values_are_paired_with_net_kilograms(f);
}

} // verus!
