//! The benchmark of the projection: what it runs, and how often.
use vstd::prelude::*;
use vstd::string::*;

use crate::analytics::Real;
use crate::olap::filter::DuckFilter;
use crate::olap::statements::{
    bench_overview_sql, bench_overview_text, bench_pivot_sql, bench_pivot_text, bench_price_sql,
    bench_price_text, count_sql, count_text, first_page_sql, first_page_text, group_count_sql,
    group_count_text,
};
use crate::query::{no_query, Query};
use crate::text::views;

verus! {

/// How a benchmark is run.
#[derive(Clone, Copy, Debug, PartialEq, Eq, Structural)]
pub struct OlapBenchmarkOptions {
    pub warmups: usize,
    pub repeat: usize,
    pub page_limit: u64,
    pub section_limit: u64,
    pub pivot_rows: u64,
    pub pivot_cols: u64,
}

/// A measured task: the statements that it runs, each of which gives a count.
#[derive(Clone, Debug)]
pub struct Scenario {
    pub name: &'static str,
    pub category: &'static str,
    pub note: &'static str,
    pub statements: Vec<String>,
}

/// What a task says.
#[verifier::ext_equal]
pub ghost struct ScenarioModel {
    pub name: Seq<char>,
    pub category: Seq<char>,
    pub note: Seq<char>,
    pub statements: Seq<Seq<char>>,
}

impl View for Scenario {
    type V = ScenarioModel;

    open spec fn view(&self) -> ScenarioModel {
        ScenarioModel {
            name: self.name@,
            category: self.category@,
            note: self.note@,
            statements: views(self.statements@),
        }
    }
}

/// How many cells the pivot has at most.
pub open spec fn pivot_cells(options: OlapBenchmarkOptions) -> nat {
    if options.pivot_rows * options.pivot_cols <= u64::MAX {
        (options.pivot_rows * options.pivot_cols) as nat
    } else {
        u64::MAX as nat
    }
}

/// The measured tasks, in their order.
pub open spec fn scenarios(f: Seq<Seq<char>>, options: OlapBenchmarkOptions) -> Seq<ScenarioModel> {
    seq![
        ScenarioModel {
            name: "Search count"@,
            category: "search"@,
            note: "Counts rows matching the projection filter. Text search is LIKE-based, not FTS."@,
            statements: seq![
                count_text(f),
            ],
        },
        ScenarioModel {
            name: "First result page"@,
            category: "search"@,
            note: "Reads the first projected rows for a matching filter."@,
            statements: seq![
                first_page_text(f, options.page_limit as nat),
            ],
        },
        ScenarioModel {
            name: "Analytics overview"@,
            category: "olap"@,
            note: "Computes headline totals and distinct counts from the DuckDB projection."@,
            statements: seq![
                bench_overview_text(f),
            ],
        },
        ScenarioModel {
            name: "Companies aggregation"@,
            category: "olap"@,
            note: "Groups by recipient, sender, and company id using columnar scans."@,
            statements: seq![
                group_count_text(f, "recipient_label"@, options.section_limit as nat),
                group_count_text(f, "sender_label"@, options.section_limit as nat),
                group_count_text(f, "edrpou_label"@, options.section_limit as nat),
            ],
        },
        ScenarioModel {
            name: "Products aggregation"@,
            category: "olap"@,
            note: "Groups by product code and trademark using columnar scans."@,
            statements: seq![
                group_count_text(f, "product_code"@, options.section_limit as nat),
                group_count_text(f, "trademark_label"@, options.section_limit as nat),
            ],
        },
        ScenarioModel {
            name: "Countries aggregation"@,
            category: "olap"@,
            note: "Groups by origin, dispatch, and trade countries."@,
            statements: seq![
                group_count_text(f, "origin_key"@, options.section_limit as nat),
                group_count_text(f, "dispatch_key"@, options.section_limit as nat),
                group_count_text(f, "trade_key"@, options.section_limit as nat),
            ],
        },
        ScenarioModel {
            name: "Price metrics"@,
            category: "olap"@,
            note: "Calculates available price-per-weight metrics from projected numeric columns."@,
            statements: seq![
                bench_price_text(f),
            ],
        },
        ScenarioModel {
            name: "Pivot: recipient by month"@,
            category: "olap"@,
            note: "Builds a compact recipient/month value matrix from grouped rows."@,
            statements: seq![
                bench_pivot_text(f, pivot_cells(options)),
            ],
        },
    ]
}

/// A task of one statement.
fn single(name: &'static str, category: &'static str, note: &'static str, sql: String) -> (r:
    Scenario)
    ensures
        r@ == (ScenarioModel {
            name: name@,
            category: category@,
            note: note@,
            statements: seq![sql@],
        }),
{
    let mut statements: Vec<String> = Vec::new();
    statements.push(sql);
    assert(views(statements@) =~= seq![sql@]);
    Scenario { name, category, note, statements }
}

/// The measured tasks, in their order.
pub fn benchmark_scenarios(filter: &DuckFilter, options: &OlapBenchmarkOptions) -> (r: Vec<Scenario>)
    ensures
        r@.len() == scenarios(views(filter.conditions@), *options).len(),
        forall|i: int|
            0 <= i < r@.len() ==> (#[trigger] r@[i])@ == scenarios(
                views(filter.conditions@),
                *options,
            )[i],
{
    let cells: u64 = match options.pivot_rows.checked_mul(options.pivot_cols) {
        Some(n) => n,
        None => u64::MAX,
    };
    let mut out: Vec<Scenario> = Vec::new();
    out.push(
        single(
            "Search count",
            "search",
            "Counts rows matching the projection filter. Text search is LIKE-based, not FTS.",
            count_sql(filter),
        ),
    );
    out.push(
        single(
            "First result page",
            "search",
            "Reads the first projected rows for a matching filter.",
            first_page_sql(filter, options.page_limit),
        ),
    );
    out.push(
        single(
            "Analytics overview",
            "olap",
            "Computes headline totals and distinct counts from the DuckDB projection.",
            bench_overview_sql(filter),
        ),
    );
    let mut companies: Vec<String> = Vec::new();
    companies.push(group_count_sql(filter, "recipient_label", options.section_limit));
    companies.push(group_count_sql(filter, "sender_label", options.section_limit));
    companies.push(group_count_sql(filter, "edrpou_label", options.section_limit));
    assert(views(companies@) =~= seq![
        group_count_text(views(filter.conditions@), "recipient_label"@, options.section_limit as nat),
        group_count_text(views(filter.conditions@), "sender_label"@, options.section_limit as nat),
        group_count_text(views(filter.conditions@), "edrpou_label"@, options.section_limit as nat),
    ]);
    out.push(
        Scenario {
            name: "Companies aggregation",
            category: "olap",
            note: "Groups by recipient, sender, and company id using columnar scans.",
            statements: companies,
        },
    );
    let mut products: Vec<String> = Vec::new();
    products.push(group_count_sql(filter, "product_code", options.section_limit));
    products.push(group_count_sql(filter, "trademark_label", options.section_limit));
    assert(views(products@) =~= seq![
        group_count_text(views(filter.conditions@), "product_code"@, options.section_limit as nat),
        group_count_text(views(filter.conditions@), "trademark_label"@, options.section_limit as nat),
    ]);
    out.push(
        Scenario {
            name: "Products aggregation",
            category: "olap",
            note: "Groups by product code and trademark using columnar scans.",
            statements: products,
        },
    );
    let mut countries: Vec<String> = Vec::new();
    countries.push(group_count_sql(filter, "origin_key", options.section_limit));
    countries.push(group_count_sql(filter, "dispatch_key", options.section_limit));
    countries.push(group_count_sql(filter, "trade_key", options.section_limit));
    assert(views(countries@) =~= seq![
        group_count_text(views(filter.conditions@), "origin_key"@, options.section_limit as nat),
        group_count_text(views(filter.conditions@), "dispatch_key"@, options.section_limit as nat),
        group_count_text(views(filter.conditions@), "trade_key"@, options.section_limit as nat),
    ]);
    out.push(
        Scenario {
            name: "Countries aggregation",
            category: "olap",
            note: "Groups by origin, dispatch, and trade countries.",
            statements: countries,
        },
    );
    out.push(
        single(
            "Price metrics",
            "olap",
            "Calculates available price-per-weight metrics from projected numeric columns.",
            bench_price_sql(filter),
        ),
    );
    out.push(
        single(
            "Pivot: recipient by month",
            "olap",
            "Builds a compact recipient/month value matrix from grouped rows.",
            bench_pivot_sql(filter, cells),
        ),
    );
    out
}

/// How many runs of a task are measured: at least one.
pub open spec fn measured_runs(options: OlapBenchmarkOptions) -> usize {
    if options.repeat == 0 {
        1
    } else {
        options.repeat
    }
}

/// How many runs of a task are not measured, and how many are.
pub fn benchmark_runs(options: &OlapBenchmarkOptions) -> (r: (usize, usize))
    ensures
        r.0 == options.warmups,
        r.1 == measured_runs(*options),
{
    let measured: usize = if options.repeat == 0 {
        1
    } else {
        options.repeat
    };
    (options.warmups, measured)
}

/// The sum of some counts.
pub open spec fn total(counts: Seq<u64>) -> nat
    decreases counts.len(),
{
    if counts.len() == 0 {
        0
    } else {
        total(counts.drop_last()) + counts.last() as nat
    }
}

/// A sum has its parts.
proof fn total_grows(counts: Seq<u64>, n: int)
    requires
        0 <= n <= counts.len(),
    ensures
        total(counts.take(n)) <= total(counts),
    decreases counts.len() - n,
{
    if n < counts.len() {
        assert(counts.take(n + 1).drop_last() =~= counts.take(n));
        total_grows(counts, n + 1);
    } else {
        assert(counts.take(n) =~= counts);
    }
}

/// How many rows a task gave: the counts of its statements together.
pub fn scenario_rows(counts: &Vec<u64>) -> (r: u64)
    requires
        total(counts@) <= u64::MAX,
    ensures
        r == total(counts@),
{
    let mut sum: u64 = 0;
    let mut i: usize = 0;
    while i < counts.len()
        invariant
            i <= counts@.len(),
            total(counts@) <= u64::MAX,
            sum == total(counts@.take(i as int)),
        decreases counts.len() - i,
    {
        assert(counts@.take(i + 1).drop_last() =~= counts@.take(i as int));
        proof {
            total_grows(counts@, i + 1);
        }
        sum = sum + counts[i];
        i += 1;
    }
    assert(counts@.take(i as int) =~= counts@);
    sum
}

/// The measurements of a task. Times are in milliseconds.
#[derive(Clone, Debug)]
pub struct OlapScenarioReport {
    pub name: &'static str,
    pub category: &'static str,
    pub output_rows: u64,
    pub average_ms: Real,
    pub minimum_ms: Real,
    pub maximum_ms: Real,
    pub runs_ms: Vec<Real>,
    pub note: &'static str,
}

/// One measured run of a task.
#[derive(Clone, Copy, Debug, PartialEq, Eq, Structural)]
pub struct MeasuredRun {
    pub output_rows: u64,
    pub ms: Real,
}

/// The runs of a task, and what is worked out of their times.
#[derive(Clone, Debug)]
pub struct ScenarioMeasure {
    pub runs: Vec<MeasuredRun>,
    pub average_ms: Real,
    pub minimum_ms: Real,
    pub maximum_ms: Real,
}

/// The measurements of a task say what its runs were. The rows are those of the
/// last run.
pub open spec fn reports(
    scenario: ScenarioModel,
    measure: ScenarioMeasure,
    report: OlapScenarioReport,
) -> bool {
    &&& report.name@ == scenario.name
    &&& report.category@ == scenario.category
    &&& report.note@ == scenario.note
    &&& report.output_rows == (if measure.runs@.len() == 0 {
        0
    } else {
        measure.runs@.last().output_rows
    })
    &&& report.average_ms == measure.average_ms
    &&& report.minimum_ms == measure.minimum_ms
    &&& report.maximum_ms == measure.maximum_ms
    &&& report.runs_ms@ == measure.runs@.map_values(|run: MeasuredRun| run.ms)
}

/// The measurements of a task.
pub fn measure_duck_scenario(scenario: &Scenario, measure: &ScenarioMeasure) -> (r:
    OlapScenarioReport)
    ensures
        reports(scenario@, *measure, r),
{
    let runs = &measure.runs;
    let ghost times = runs@.map_values(|run: MeasuredRun| run.ms);
    let mut runs_ms: Vec<Real> = Vec::new();
    let mut output_rows: u64 = 0;
    let mut i: usize = 0;
    while i < runs.len()
        invariant
            i <= runs@.len(),
            times == runs@.map_values(|run: MeasuredRun| run.ms),
            runs_ms@ == times.take(i as int),
            output_rows == (if i == 0 {
                0
            } else {
                runs@[i - 1].output_rows
            }),
        decreases runs.len() - i,
    {
        output_rows = runs[i].output_rows;
        runs_ms.push(runs[i].ms);
        assert(runs_ms@ =~= times.take(i + 1));
        i += 1;
    }
    assert(times.take(i as int) =~= times);
    OlapScenarioReport {
        name: scenario.name,
        category: scenario.category,
        output_rows,
        average_ms: measure.average_ms,
        minimum_ms: measure.minimum_ms,
        maximum_ms: measure.maximum_ms,
        runs_ms,
        note: scenario.note,
    }
}

/// The measurements of all tasks.
#[derive(Clone, Debug)]
pub struct OlapBenchmarkReport {
    pub backend: &'static str,
    pub total_database_rows: u64,
    pub unindexed_rows: u64,
    pub query: Query,
    pub query_is_empty: bool,
    pub scenarios: Vec<OlapScenarioReport>,
}

/// The report of a benchmark of the projection: every task in its order, measured
/// as often as the options say. The projection has no row that is not indexed.
pub fn run_duckdb_benchmark(
    total_database_rows: u64,
    query: Query,
    filter: &DuckFilter,
    options: &OlapBenchmarkOptions,
    measured: Vec<ScenarioMeasure>,
) -> (r: OlapBenchmarkReport)
    requires
        measured@.len() == 8,
        forall|i: int|
            0 <= i < measured@.len() ==> (#[trigger] measured@[i]).runs@.len() == measured_runs(
                *options,
            ),
    ensures
        r.backend@ == "duckdb"@,
        r.total_database_rows == total_database_rows,
        r.unindexed_rows == 0,
        r.query == query,
        r.query_is_empty == no_query(query),
        r.scenarios@.len() == 8,
        forall|i: int|
            0 <= i < 8 ==> reports(
                scenarios(views(filter.conditions@), *options)[i],
                measured@[i],
                #[trigger] r.scenarios@[i],
            ),
        forall|i: int|
            0 <= i < 8 ==> (#[trigger] r.scenarios@[i]).runs_ms@.len() == measured_runs(*options),
{
    let tasks = benchmark_scenarios(filter, options);
    let ghost models = scenarios(views(filter.conditions@), *options);
    let mut list: Vec<OlapScenarioReport> = Vec::new();
    let mut i: usize = 0;
    while i < tasks.len()
        invariant
            i <= tasks@.len(),
            tasks@.len() == models.len(),
            measured@.len() == models.len(),
            list@.len() == i,
            forall|k: int| 0 <= k < tasks@.len() ==> (#[trigger] tasks@[k])@ == models[k],
            forall|k: int| 0 <= k < i ==> reports(models[k], measured@[k], #[trigger] list@[k]),
        decreases tasks.len() - i,
    {
        list.push(measure_duck_scenario(&tasks[i], &measured[i]));
        i += 1;
    }
    let query_is_empty = query.is_empty();
    let r = OlapBenchmarkReport {
        backend: "duckdb",
        total_database_rows,
        unindexed_rows: 0,
        query,
        query_is_empty,
        scenarios: list,
    };
    assert forall|k: int| 0 <= k < 8 implies (#[trigger] r.scenarios@[k]).runs_ms@.len()
        == measured_runs(*options) by {
        assert(reports(models[k], measured@[k], r.scenarios@[k]));
        assert(measured@[k].runs@.len() == measured_runs(*options));
    }
    r
}

/// A pivot reads as many cells as it has rows and columns, or as many as can be
/// counted, and every scenario runs at least once.
pub proof fn a_pivot_reads_its_cells(options: OlapBenchmarkOptions)
    ensures
        options.pivot_rows * options.pivot_cols <= u64::MAX ==> pivot_cells(options)
            == options.pivot_rows * options.pivot_cols,
        options.pivot_rows * options.pivot_cols > u64::MAX ==> pivot_cells(options) == u64::MAX,
        measured_runs(options) >= 1,
        options.repeat >= 1 ==> measured_runs(options) == options.repeat,
{
}

/// Groups are measured by the columns that the scenario is named for: companies by
/// recipient, sender and company code, products by code and trademark, countries
/// by origin, dispatch and trade.
pub proof fn scenarios_group_by_what_they_are_named_for(
    f: Seq<Seq<char>>,
    options: OlapBenchmarkOptions,
)
    ensures
        scenarios(f, options)[3].name == "Companies aggregation"@ && scenarios(
            f,
            options,
        )[3].statements == seq![
            group_count_text(f, "recipient_label"@, options.section_limit as nat),
            group_count_text(f, "sender_label"@, options.section_limit as nat),
            group_count_text(f, "edrpou_label"@, options.section_limit as nat),
        ],
        scenarios(f, options)[4].name == "Products aggregation"@ && scenarios(
            f,
            options,
        )[4].statements == seq![
            group_count_text(f, "product_code"@, options.section_limit as nat),
            group_count_text(f, "trademark_label"@, options.section_limit as nat),
        ],
        scenarios(f, options)[5].name == "Countries aggregation"@ && scenarios(
            f,
            options,
        )[5].statements == seq![
            group_count_text(f, "origin_key"@, options.section_limit as nat),
            group_count_text(f, "dispatch_key"@, options.section_limit as nat),
            group_count_text(f, "trade_key"@, options.section_limit as nat),
        ],
        scenarios(f, options).len() == 8,
{
}

} // verus!
