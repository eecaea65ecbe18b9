//! The engines that answer queries.
use vstd::prelude::*;
use vstd::string::*;

use crate::analytics::{
    Analytics, AnalyticsScope, PivotDim, PivotLimits, PivotMetric, PivotResult,
};
use crate::olap::contract::SourceContract;
use crate::olap::filter::supports_projection_query;
use crate::olap::meta::{
    projection_is_current, rules_are_current, rules_fit, source_fits, DuckProjectionMeta,
};
use crate::paths::FilePath;
use crate::query::{blank, is_blank, no_query, no_rules, FieldInfo, Query};
use crate::text::trimmed;

verus! {

/// The fields of an engine.
#[derive(Clone, Debug)]
pub struct EngineSchema {
    pub search_fields: Vec<FieldInfo>,
    pub result_fields: Vec<FieldInfo>,
}

/// A page of results.
#[derive(Clone, Debug)]
pub struct EngineSearchPage {
    pub fields: Vec<FieldInfo>,
    pub ids: Vec<i64>,
    pub rows: Vec<Vec<String>>,
    pub duplicate_of: Vec<Option<String>>,
    pub has_next: bool,
}

/// How many rows are asked for to fill a page: one more than it shows, which
/// tells whether another page follows.
pub fn rows_to_ask(limit: u64) -> (r: u64)
    ensures
        r == (if limit == u64::MAX {
            limit
        } else {
            (limit + 1) as u64
        }),
{
    if limit == u64::MAX {
        limit
    } else {
        limit + 1
    }
}

/// The first items of a list, at most `limit` of them.
pub open spec fn at_most<T>(list: Seq<T>, limit: u64) -> Seq<T> {
    if list.len() > limit {
        list.take(limit as int)
    } else {
        list
    }
}

/// Shortens a list.
fn truncated<T>(list: Vec<T>, limit: u64) -> (r: Vec<T>)
    ensures
        r@ == at_most(list@, limit),
{
    let ghost all = list@;
    let mut list = list;
    while list.len() as u64 > limit
        invariant
            list@.len() <= all.len(),
            list@ == all.take(list@.len() as int),
            all.len() > limit ==> list@.len() >= limit,
            all.len() <= limit ==> list@.len() == all.len(),
        decreases list@.len(),
    {
        let ghost n = list@.len() as int;
        list.pop();
        assert(list@ =~= all.take(n - 1));
    }
    assert(all.take(all.len() as int) =~= all);
    list
}

/// A page of results, from the rows that were read: where there are more than
/// the page shows, another page follows.
pub fn search_page(
    fields: Vec<FieldInfo>,
    ids: Vec<i64>,
    rows: Vec<Vec<String>>,
    duplicate_of: Vec<Option<String>>,
    limit: u64,
) -> (r: EngineSearchPage)
    ensures
        r.fields == fields,
        r.has_next == (rows@.len() > limit),
        r.rows@ == at_most(rows@, limit),
        r.ids@ == (if r.has_next {
            at_most(ids@, limit)
        } else {
            ids@
        }),
        r.duplicate_of@ == (if r.has_next {
            at_most(duplicate_of@, limit)
        } else {
            duplicate_of@
        }),
{
    let has_next = rows.len() as u64 > limit;
    if has_next {
        EngineSearchPage {
            fields,
            ids: truncated(ids, limit),
            rows: truncated(rows, limit),
            duplicate_of: truncated(duplicate_of, limit),
            has_next,
        }
    } else {
        EngineSearchPage { fields, ids, rows, duplicate_of, has_next }
    }
}

/// A page shows no more rows than it was asked for, and another follows exactly
/// where rows are left over.
pub proof fn page_is_within_its_limit<T>(rows: Seq<T>, limit: u64)
    ensures
        at_most(rows, limit).len() <= limit,
        rows.len() <= limit ==> at_most(rows, limit) == rows,
        forall|i: int|
            0 <= i < at_most(rows, limit).len() ==> #[trigger] at_most(rows, limit)[i] == rows[i],
{
}

/// The engine that answers from the database.
#[derive(Clone, Debug)]
pub struct SqliteEngine {
    db_path: FilePath,
}

impl SqliteEngine {
    /// The database that the engine answers from.
    pub closed spec fn path(&self) -> FilePath {
        self.db_path
    }

    /// An engine for a database.
    pub fn new(db_path: FilePath) -> (r: Self)
        ensures
            r.path() == db_path,
    {
        SqliteEngine { db_path }
    }

    /// The database that the engine answers from.
    pub fn db_path(&self) -> (r: &FilePath)
        ensures
            *r == self.path(),
    {
        &self.db_path
    }

    /// The name of the engine.
    pub fn engine_id(&self) -> (r: &'static str)
        ensures
            r@ == "sqlite"@,
    {
        "sqlite"
    }
}

/// An engine that searches.
pub trait SearchEngine {
    /// The name of the engine.
    fn engine_id(&self) -> &'static str;

    /// The fields that can be searched and shown.
    fn schema(&self) -> Result<EngineSchema, String>;

    /// How many records a query finds.
    fn count(&self, query: &Query) -> Result<u64, String>;

    /// One page of what a query finds.
    fn search_page(
        &self,
        query: &Query,
        limit: u64,
        offset: u64,
    ) -> Result<EngineSearchPage, String>;
}

/// An engine that answers analytics.
pub trait AnalyticsEngine {
    /// The name of the engine.
    fn engine_id(&self) -> &'static str;

    /// The summary of what a query finds.
    fn analytics(
        &self,
        query: &Query,
        limit: u64,
        scope: Option<AnalyticsScope>,
        hs_level: u8,
    ) -> Result<Analytics, String>;

    /// The cross-tab of what a query finds.
    fn pivot(
        &self,
        query: &Query,
        row_dim: PivotDim,
        col_dim: PivotDim,
        metric: PivotMetric,
        limits: PivotLimits,
        others_label: &str,
    ) -> Result<PivotResult, String>;
}

/// A store that imports can be written to.
pub trait ImportSink {
    /// The name of the engine behind the store.
    fn engine_id(&self) -> &'static str;
}

impl ImportSink for SqliteEngine {
    fn engine_id(&self) -> (r: &'static str)
        ensures
            r@ == "sqlite"@,
    {
        "sqlite"
    }
}

/// What is known of a projection from its record and from its source. The source
/// does not count where the layout or the rules are out of force.
pub open spec fn currency_of(
    meta: Result<DuckProjectionMeta, String>,
    source: Result<SourceContract, String>,
) -> Result<bool, Seq<char>> {
    match meta {
        Err(e) => Err(e@),
        Ok(meta) => if !rules_fit(meta@) {
            Ok(false)
        } else {
            match source {
                Err(e) => Err(e@),
                Ok(source) => Ok(source_fits(meta@, source.generation@, source.fingerprint@)),
            }
        },
    }
}

/// The engine that answers analytics from the projection.
#[derive(Clone, Debug)]
pub struct DuckDbAnalyticsEngine {
    sqlite_path: FilePath,
    projection_path: FilePath,
}

/// Why the projection cannot answer a query, if so.
pub open spec fn unusable(query: Query, exists_now: bool, current: Result<bool, String>) -> Option<
    Seq<char>,
> {
    if !blank(query.text@) {
        Some("DuckDB analytics does not execute FTS text queries."@)
    } else if !no_rules(query.advanced) {
        Some("DuckDB analytics does not support this advanced query."@)
    } else if !exists_now {
        Some("DuckDB analytics projection is missing or stale."@)
    } else {
        match current {
            Ok(true) => None,
            Ok(false) => Some("DuckDB analytics projection is missing or stale."@),
            Err(e) => Some(e@),
        }
    }
}

impl DuckDbAnalyticsEngine {
    /// The database that the projection is of.
    pub closed spec fn source(&self) -> FilePath {
        self.sqlite_path
    }

    /// The projection that the engine answers from.
    pub closed spec fn projection(&self) -> FilePath {
        self.projection_path
    }

    /// An engine for a projection of a database.
    pub fn new(sqlite_path: FilePath, projection_path: FilePath) -> (r: Self)
        ensures
            r.source() == sqlite_path,
            r.projection() == projection_path,
    {
        DuckDbAnalyticsEngine { sqlite_path, projection_path }
    }

    /// The projection that the engine answers from.
    pub fn projection_path(&self) -> (r: &FilePath)
        ensures
            *r == self.projection(),
    {
        &self.projection_path
    }

    /// The database that the projection is of. Cross-tabs are answered from it,
    /// since the projection has none.
    pub fn sqlite_path(&self) -> (r: &FilePath)
        ensures
            *r == self.source(),
    {
        &self.sqlite_path
    }

    /// The name of the engine.
    pub fn engine_id(&self) -> (r: &'static str)
        ensures
            r@ == "duckdb"@,
    {
        "duckdb"
    }

    /// Whether the projection answers for its source as it is, from its record and
    /// from what the source says of itself.
    pub fn is_current(
        &self,
        meta: Result<DuckProjectionMeta, String>,
        source: Result<SourceContract, String>,
    ) -> (r: Result<bool, String>)
        ensures
            match r {
                Ok(current) => currency_of(meta, source) == Ok::<bool, Seq<char>>(current),
                Err(e) => currency_of(meta, source) == Err::<bool, Seq<char>>(e@),
            },
    {
        let meta = match meta {
            Ok(meta) => meta,
            Err(e) => {
                return Err(e);
            },
        };
        if !rules_are_current(&meta) {
            return Ok(false);
        }
        match source {
            Ok(source) => Ok(projection_is_current(&meta, &source)),
            Err(e) => Err(e),
        }
    }

    /// Whether the projection can answer a query: it holds no text index and no
    /// rules, and has to be there and up to date.
    pub fn ensure_usable(&self, query: &Query, exists_now: bool, current: Result<bool, String>)
        -> (r: Result<(), String>)
        ensures
            match r {
                Ok(_) => unusable(*query, exists_now, current) is None,
                Err(e) => unusable(*query, exists_now, current) == Some(e@),
            },
    {
        if !is_blank(query.text.as_str()) {
            return Err(String::from_str("DuckDB analytics does not execute FTS text queries."));
        }
        if !supports_projection_query(query) {
            return Err(String::from_str("DuckDB analytics does not support this advanced query."));
        }
        if !exists_now {
            return Err(String::from_str("DuckDB analytics projection is missing or stale."));
        }
        match current {
            Ok(fresh) => if fresh {
                Ok(())
            } else {
                Err(String::from_str("DuckDB analytics projection is missing or stale."))
            },
            Err(e) => Err(e),
        }
    }
}

/// The projection never answers for a source that has changed.
pub proof fn stale_projection_is_refused(query: Query, exists_now: bool, current: Result<bool, String>)
    requires
        unusable(query, exists_now, current) is None,
    ensures
        exists_now,
        current == Ok::<bool, String>(true),
        blank(query.text@),
        no_rules(query.advanced),
{
}

/// The projection answers only what it can: a query by text or by rules is
/// refused, each with its own message, and so is one on a projection that is not
/// there or not current.
pub proof fn only_current_projections_answer_filters(
    query: Query,
    exists_now: bool,
    current: Result<bool, String>,
)
    ensures
        unusable(query, exists_now, current) is None <==> trimmed(query.text@).len() == 0 && (
        match query.advanced {
            Some(rules) => rules.conditions == 0,
            None => true,
        }) && exists_now && current == Ok::<bool, String>(true),
        trimmed(query.text@).len() > 0 ==> unusable(query, exists_now, current) == Some(
            "DuckDB analytics does not execute FTS text queries."@,
        ),
        no_query(query) && !exists_now ==> unusable(query, exists_now, current) == Some(
            "DuckDB analytics projection is missing or stale."@,
        ),
        no_query(query) && exists_now && current == Ok::<bool, String>(false) ==> unusable(
            query,
            exists_now,
            current,
        ) == Some("DuckDB analytics projection is missing or stale."@),
{
}

/// A projection is current only where both its rules and its source fit; an error
/// is never taken for an answer.
pub proof fn a_projection_is_current_by_rules_and_source(
    meta: DuckProjectionMeta,
    source: SourceContract,
)
    ensures
        currency_of(Ok(meta), Ok(source)) == Ok::<bool, Seq<char>>(
            rules_fit(meta@) && source_fits(meta@, source.generation@, source.fingerprint@),
        ),
        forall|e: String, s: Result<SourceContract, String>| #[trigger]
            currency_of(Err(e), s) == Err::<bool, Seq<char>>(e@),
{
}

} // verus!
