//! Decisions of the store: what is read, kept and cleared.
use vstd::prelude::*;
use vstd::string::*;

use crate::counting::{first_found, first_is, first_upto, none_found};
use crate::number::{decimal, decimal_text, signed_decimal, signed_text};
use crate::table::{fixed_value, validate_fixed_value, SemanticField, SourceColumn, TableShape};
use crate::text::{push_text, same, views};

verus! {

/// What is returned in place of the error of a statement that ran too long.
pub const STATEMENT_DEADLINE_EXCEEDED: &'static str = "statement_deadline_exceeded";

/// The outcome of a statement under a deadline: where it failed and the deadline
/// had passed, that is the reason.
pub fn with_statement_deadline<T>(outcome: Result<T, String>, deadline_passed: bool) -> (r: Result<
    T,
    String,
>)
    ensures
        match outcome {
            Ok(value) => r == Ok::<T, String>(value),
            Err(e) => if deadline_passed {
                r is Err && r->Err_0@ == STATEMENT_DEADLINE_EXCEEDED@
            } else {
                r == Err::<T, String>(e)
            },
        },
{
    match outcome {
        Ok(value) => Ok(value),
        Err(e) => if deadline_passed {
            Err(String::from_str(STATEMENT_DEADLINE_EXCEEDED))
        } else {
            Err(e)
        },
    }
}

/// A value of the database, for diagnostics. A number with a fraction is held as
/// it is rendered, and a blob by its size.
#[derive(Clone, Debug)]
pub enum DiagnosticValue {
    Null,
    Integer(i64),
    Real(String),
    Text(String),
    Blob(usize),
}

/// A value of the database as text.
pub open spec fn diagnostic_text(value: DiagnosticValue) -> Seq<char> {
    match value {
        DiagnosticValue::Null => "NULL"@,
        DiagnosticValue::Integer(n) => signed_decimal(n as int),
        DiagnosticValue::Real(s) => s@,
        DiagnosticValue::Text(s) => s@,
        DiagnosticValue::Blob(n) => "<blob "@ + decimal(n as nat) + ">"@,
    }
}

/// A value of the database as text.
pub fn sql_value_to_text(value: DiagnosticValue) -> (r: String)
    ensures
        r@ == diagnostic_text(value),
{
    match value {
        DiagnosticValue::Null => String::from_str("NULL"),
        DiagnosticValue::Integer(n) => signed_text(n),
        DiagnosticValue::Real(s) => s,
        DiagnosticValue::Text(s) => s,
        DiagnosticValue::Blob(n) => {
            let mut out = String::from_str("<blob ");
            out.append(decimal_text(n as u64).as_str());
            out.append(">");
            out
        },
    }
}

/// Where the fields of the store come from.
#[derive(Clone, Copy, Debug, PartialEq, Eq, Structural)]
pub enum CatalogSource {
    /// The shape of the one table, with its extra columns.
    Shape,
    /// The registered source schemas alone.
    Schemas,
    /// The registered source schemas, and the shape of rows that have none.
    SchemasAndShape,
}

/// Where the fields of the store come from: from the source schemas as soon as
/// one is registered, and also from the shape while rows without a schema are
/// there.
pub open spec fn catalog_source(source_fields: usize, has_legacy_rows: bool) -> CatalogSource {
    if source_fields == 0 {
        CatalogSource::Shape
    } else if has_legacy_rows {
        CatalogSource::SchemasAndShape
    } else {
        CatalogSource::Schemas
    }
}

/// Where the fields of the store come from.
pub fn field_catalog(source_fields: usize, has_legacy_rows: bool) -> (r: CatalogSource)
    ensures
        r == catalog_source(source_fields, has_legacy_rows),
{
    if source_fields == 0 {
        CatalogSource::Shape
    } else if has_legacy_rows {
        CatalogSource::SchemasAndShape
    } else {
        CatalogSource::Schemas
    }
}

/// Where the fields of a result come from, as the store tells. Of a store without
/// source schemas it does not matter whether rows have none.
pub fn result_fields(
    source_fields: Result<usize, String>,
    has_legacy_rows: Result<bool, String>,
) -> (r: Result<CatalogSource, String>)
    ensures
        r == (match (source_fields, has_legacy_rows) {
            (Err(e), _) => Err(e),
            (Ok(n), Ok(legacy)) => Ok(catalog_source(n, legacy)),
            (Ok(n), Err(e)) => if n == 0 {
                Ok(CatalogSource::Shape)
            } else {
                Err(e)
            },
        }),
{
    match source_fields {
        Err(e) => Err(e),
        Ok(n) => if n == 0 {
            Ok(CatalogSource::Shape)
        } else {
            match has_legacy_rows {
                Ok(legacy) => Ok(field_catalog(n, legacy)),
                Err(e) => Err(e),
            }
        },
    }
}

/// Where the fields come from while nothing is read anew: what the store cannot
/// tell, it has not.
pub fn field_catalog_cached(
    source_fields: Result<usize, String>,
    has_legacy_rows: Result<bool, String>,
) -> (r: CatalogSource)
    ensures
        r == (match (source_fields, has_legacy_rows) {
            (Err(_), _) => CatalogSource::Shape,
            (Ok(n), Ok(legacy)) => catalog_source(n, legacy),
            (Ok(n), Err(_)) => catalog_source(n, false),
        }),
{
    match source_fields {
        Err(_) => CatalogSource::Shape,
        Ok(n) => match has_legacy_rows {
            Ok(legacy) => field_catalog(n, legacy),
            Err(_) => field_catalog(n, false),
        },
    }
}

/// What the card of a record is made of.
#[derive(Clone, Copy, Debug, PartialEq, Eq, Structural)]
pub enum CardSource {
    /// The shape of the table: the record has no source schema.
    Shape,
    /// The columns of the source schema.
    Schema(i64),
}

/// What the card of a record is made of: of the schema that the record has, which
/// has to be there, else of the shape.
pub fn record_card(
    schema_id: Result<Option<i64>, String>,
    schema_is_there: Result<bool, String>,
    no_rows: String,
) -> (r: Result<CardSource, String>)
    ensures
        r == (match (schema_id, schema_is_there) {
            (Err(e), _) => Err(e),
            (Ok(None), _) => Ok(CardSource::Shape),
            (Ok(Some(_)), Err(e)) => Err(e),
            (Ok(Some(_)), Ok(false)) => Err(no_rows),
            (Ok(Some(id)), Ok(true)) => Ok(CardSource::Schema(id)),
        }),
{
    match schema_id {
        Err(e) => Err(e),
        Ok(None) => Ok(CardSource::Shape),
        Ok(Some(id)) => match schema_is_there {
            Err(e) => Err(e),
            Ok(there) => if there {
                Ok(CardSource::Schema(id))
            } else {
                Err(no_rows)
            },
        },
    }
}

/// Whether a column has an id.
pub open spec fn column_is(columns: Seq<SourceColumn>, id: Seq<char>, i: int) -> bool {
    columns[i].id@ == id
}

/// The place of the first column with an id.
pub open spec fn column_place(columns: Seq<SourceColumn>, id: Seq<char>) -> Option<int> {
    first_upto(columns.len() as int, |i: int| column_is(columns, id, i))
}

/// Some columns after one of them, by its id, was given another meaning, and
/// whether there is such a column; the others stay as they are.
pub open spec fn meaning_given(
    before: Seq<SourceColumn>,
    after: Seq<SourceColumn>,
    id: Seq<char>,
    semantic: Option<SemanticField>,
    found: bool,
) -> bool {
    match column_place(before, id) {
        None => !found && after == before,
        Some(k) => found && after == before.update(k, SourceColumn { semantic, ..before[k] }),
    }
}

/// Assigns or clears the meaning of a column of a shape by its id.
fn set_shape_semantic(
    shape: &mut TableShape,
    column_id: &str,
    semantic: Option<SemanticField>,
) -> (r: bool)
    ensures
        meaning_given(
            old(shape).columns@,
            final(shape).columns@,
            column_id@,
            semantic,
            r,
        ),
{
    let ghost before = shape.columns@;
    let ghost p = |i: int| column_is(before, column_id@, i);
    let mut i: usize = 0;
    while i < shape.columns.len()
        invariant
            i <= shape.columns@.len(),
            shape.columns@ == before,
            before == old(shape).columns@,
            p == (|i: int| column_is(before, column_id@, i)),
            forall|j: int| 0 <= j < i ==> !#[trigger] p(j),
        decreases shape.columns.len() - i,
    {
        if same(shape.columns[i].id.as_str(), column_id) {
            proof {
                assert(p(i as int));
                first_is(before.len() as int, p, i as int);
            }
            shape.columns[i].semantic = semantic;
            assert(shape.columns@ =~= before.update(
                i as int,
                SourceColumn { semantic, ..before[i as int] },
            ));
            return true;
        }
        assert(!p(i as int));
        i += 1;
    }
    proof {
        none_found(before.len() as int, p);
    }
    false
}

/// A column of the registered schemas, with the physical fields behind it.
#[derive(Clone, Debug)]
pub struct BackedColumn<I> {
    pub id: String,
    pub fields: Vec<I>,
}

/// Whether a registered column has an id.
pub open spec fn backed_is<I>(columns: Seq<BackedColumn<I>>, id: Seq<char>, i: int) -> bool {
    columns[i].id@ == id
}

/// The place of the first registered column with an id.
pub open spec fn backed_place<I>(columns: Seq<BackedColumn<I>>, id: Seq<char>) -> Option<int> {
    first_upto(columns.len() as int, |i: int| backed_is(columns, id, i))
}

/// The place of the first registered column with an id.
fn find_backed<I>(columns: &Vec<BackedColumn<I>>, id: &str) -> (r: Option<usize>)
    ensures
        match r {
            Some(k) => k < columns@.len() && backed_place(columns@, id@) == Some(k as int),
            None => backed_place(columns@, id@) is None,
        },
{
    let ghost p = |i: int| backed_is(columns@, id@, i);
    let mut i: usize = 0;
    while i < columns.len()
        invariant
            i <= columns@.len(),
            p == (|i: int| backed_is(columns@, id@, i)),
            forall|j: int| 0 <= j < i ==> !#[trigger] p(j),
        decreases columns.len() - i,
    {
        if same(columns[i].id.as_str(), id) {
            proof {
                assert(p(i as int));
                first_is(columns@.len() as int, p, i as int);
            }
            return Some(i);
        }
        assert(!p(i as int));
        i += 1;
    }
    proof {
        none_found(columns@.len() as int, p);
    }
    None
}

/// Assigns or clears the meaning of a column by its id. Gives whether there is
/// such a column and its meaning was written.
///
/// Where schemas are registered they own the shape, and the meaning is written
/// through to every field behind the column; a column that they do not have is
/// not looked for elsewhere, and a write that fails gives `false`. Where none
/// are, or they cannot be read, the shape that was stored before there were
/// schemas decides. Nothing but the fields behind the column is ever handed to
/// `write`, and that once at most.
pub fn set_column_semantic<I, W: FnOnce(&Vec<I>, Option<SemanticField>) -> Result<bool, String>>(
    registered: &Result<Option<Vec<BackedColumn<I>>>, String>,
    shape: &mut Option<TableShape>,
    column_id: &str,
    semantic: Option<SemanticField>,
    write: W,
) -> (r: bool)
    requires
        match registered {
            Ok(Some(columns)) => match backed_place(columns@, column_id@) {
                Some(k) => call_requires(write, (&columns@[k].fields, semantic)),
                None => true,
            },
            _ => true,
        },
    ensures
        match registered {
            Ok(Some(columns)) => *final(shape) == *old(shape) && match backed_place(
                columns@,
                column_id@,
            ) {
                None => !r,
                Some(k) => exists|written: Result<bool, String>| #[trigger]
                    call_ensures(write, (&columns@[k].fields, semantic), written) && r == (
                    written == Ok::<bool, String>(true)),
            },
            _ => match (*old(shape), *final(shape)) {
                (None, None) => !r,
                (Some(before), Some(after)) => meaning_given(
                    before.columns@,
                    after.columns@,
                    column_id@,
                    semantic,
                    r,
                ),
                _ => false,
            },
        },
{
    match registered {
        Ok(Some(columns)) => match find_backed(columns, column_id) {
            Some(k) => match write(&columns[k].fields, semantic) {
                Ok(written) => written,
                Err(_) => false,
            },
            None => false,
        },
        _ => match shape {
            Some(shape) => set_shape_semantic(shape, column_id, semantic),
            None => false,
        },
    }
}

/// What follows once the currency of a schema was looked for.
#[derive(Clone, Debug, PartialEq, Eq)]
pub enum CurrencyStep {
    /// What was found is stored, also that nothing was.
    Store { schema_id: i64, currency: Option<String> },
    /// The evidence could not be read; that is said, and what is stored stays.
    Say(String),
}

/// What follows once the currency of a schema was looked for. A schema whose
/// evidence cannot be read does not stop the others.
pub fn refresh_detected_currencies(
    schema_id: i64,
    detected: Result<Option<String>, String>,
) -> (r: CurrencyStep)
    ensures
        match detected {
            Ok(currency) => r == (CurrencyStep::Store { schema_id, currency }),
            Err(e) => r is Say && r->Say_0@
                == "[base-search] could not read the currency evidence: "@ + e@,
        },
{
    match detected {
        Ok(currency) => CurrencyStep::Store { schema_id, currency },
        Err(e) => {
            let mut text = String::from_str(
                "[base-search] could not read the currency evidence: ",
            );
            text.append(e.as_str());
            CurrencyStep::Say(text)
        },
    }
}

/// A value that was pinned for the workspace, checked; no value clears it.
pub open spec fn checked_value(semantic: SemanticField, value: Option<&str>) -> Result<
    Option<Seq<char>>,
    Seq<char>,
> {
    match value {
        None => Ok(None),
        Some(value) => match fixed_value(semantic, value@) {
            Ok(v) => Ok(Some(v)),
            Err(e) => Err(e),
        },
    }
}

/// Checks a value that was pinned.
fn check_value(semantic: SemanticField, value: Option<&str>) -> (r: Result<Option<String>, String>)
    ensures
        match r {
            Ok(None) => checked_value(semantic, value) == Ok::<Option<Seq<char>>, Seq<char>>(None),
            Ok(Some(v)) => checked_value(semantic, value) == Ok::<Option<Seq<char>>, Seq<char>>(
                Some(v@),
            ),
            Err(e) => checked_value(semantic, value) == Err::<Option<Seq<char>>, Seq<char>>(e@),
        },
{
    match value {
        None => Ok(None),
        Some(value) => match validate_fixed_value(semantic, value) {
            Ok(v) => Ok(Some(v)),
            Err(e) => Err(e),
        },
    }
}

/// What a text that may be missing says.
pub open spec fn said(s: Option<String>) -> Option<Seq<char>> {
    match s {
        Some(s) => Some(s@),
        None => None,
    }
}

/// The currency and the weight unit to pin for the workspace. Neither is pinned
/// where one of them is refused.
pub fn set_workspace_fixed_values(currency: Option<&str>, weight_unit: Option<&str>) -> (r: Result<
    (Option<String>, Option<String>),
    String,
>)
    ensures
        match r {
            Ok(pair) => checked_value(SemanticField::Currency, currency) == Ok::<
                Option<Seq<char>>,
                Seq<char>,
            >(said(pair.0)) && checked_value(SemanticField::WeightUnit, weight_unit) == Ok::<
                Option<Seq<char>>,
                Seq<char>,
            >(said(pair.1)),
            Err(e) => match checked_value(SemanticField::Currency, currency) {
                Err(problem) => e@ == problem,
                Ok(_) => checked_value(SemanticField::WeightUnit, weight_unit) == Err::<
                    Option<Seq<char>>,
                    Seq<char>,
                >(e@),
            },
        },
{
    let currency = match check_value(SemanticField::Currency, currency) {
        Ok(value) => value,
        Err(e) => {
            return Err(e);
        },
    };
    let weight_unit = match check_value(SemanticField::WeightUnit, weight_unit) {
        Ok(value) => value,
        Err(e) => {
            return Err(e);
        },
    };
    Ok((currency, weight_unit))
}

/// A header with the key by which headers are told apart.
#[derive(Clone, Debug)]
pub struct KeyedHeader {
    pub key: String,
    pub header: String,
}

/// Whether a header is kept: its key is not empty, and none before it has it.
pub open spec fn header_kept(headers: Seq<KeyedHeader>, i: int) -> bool {
    headers[i].key@.len() > 0 && forall|j: int|
        0 <= j < i ==> #[trigger] headers[j].key@ != headers[i].key@
}

/// The kept headers among the first `n`.
pub open spec fn kept_headers(headers: Seq<KeyedHeader>, n: int) -> Seq<Seq<char>>
    decreases n,
{
    if n <= 0 {
        Seq::empty()
    } else if header_kept(headers, n - 1) {
        kept_headers(headers, n - 1).push(headers[n - 1].header@)
    } else {
        kept_headers(headers, n - 1)
    }
}

/// Whether a header is kept.
fn keeps_header(headers: &Vec<KeyedHeader>, i: usize) -> (r: bool)
    requires
        i < headers@.len(),
    ensures
        r == header_kept(headers@, i as int),
{
    if headers[i].key.as_str().unicode_len() == 0 {
        return false;
    }
    let mut j: usize = 0;
    while j < i
        invariant
            j <= i < headers@.len(),
            forall|k: int| 0 <= k < j ==> #[trigger] headers@[k].key@ != headers@[i as int].key@,
        decreases i - j,
    {
        if same(headers[j].key.as_str(), headers[i].key.as_str()) {
            assert(headers@[j as int].key@ == headers@[i as int].key@);
            return false;
        }
        j += 1;
    }
    true
}

/// The extra headers of the store: each once, in the order in which they came,
/// as they were first written.
pub fn scan_extra_headers(headers: &Vec<KeyedHeader>) -> (r: Vec<String>)
    ensures
        views(r@) == kept_headers(headers@, headers@.len() as int),
{
    let mut out: Vec<String> = Vec::new();
    let mut i: usize = 0;
    assert(views(out@) =~= Seq::<Seq<char>>::empty());
    while i < headers.len()
        invariant
            i <= headers@.len(),
            views(out@) == kept_headers(headers@, i as int),
        decreases headers.len() - i,
    {
        if keeps_header(headers, i) {
            push_text(&mut out, headers[i].header.as_str());
        }
        i += 1;
    }
    out
}

/// The extra headers of the store: those that were kept, else those that a scan of
/// the records finds.
pub fn extra_headers(
    kept: Option<Vec<String>>,
    scanned: Result<Vec<KeyedHeader>, String>,
) -> (r: Result<Vec<String>, String>)
    ensures
        match r {
            Ok(headers) => match kept {
                Some(v) => headers == v,
                None => scanned is Ok && views(headers@) == kept_headers(
                    scanned->Ok_0@,
                    scanned->Ok_0@.len() as int,
                ),
            },
            Err(e) => kept is None && scanned == Err::<Vec<KeyedHeader>, String>(e),
        },
{
    match kept {
        Some(v) => Ok(v),
        None => match scanned {
            Ok(headers) => Ok(scan_extra_headers(&headers)),
            Err(e) => Err(e),
        },
    }
}

/// The extra headers of the store once those of a new table are known: the ones
/// that were there, then the new ones, each once.
pub fn remember_extra_headers(
    existing: &Vec<KeyedHeader>,
    headers: &Vec<KeyedHeader>,
) -> (r: Vec<String>)
    ensures
        views(r@) == kept_headers(
            existing@ + headers@,
            (existing@.len() + headers@.len()) as int,
        ),
{
    let ghost whole = existing@ + headers@;
    let mut all: Vec<KeyedHeader> = Vec::new();
    let mut i: usize = 0;
    while i < existing.len()
        invariant
            i <= existing@.len(),
            same_headers(all@, existing@.take(i as int)),
        decreases existing.len() - i,
    {
        all.push(
            KeyedHeader { key: existing[i].key.clone(), header: existing[i].header.clone() },
        );
        i += 1;
    }
    let mut k: usize = 0;
    while k < headers.len()
        invariant
            k <= headers@.len(),
            same_headers(all@, existing@ + headers@.take(k as int)),
        decreases headers.len() - k,
    {
        all.push(KeyedHeader { key: headers[k].key.clone(), header: headers[k].header.clone() });
        k += 1;
    }
    assert(headers@.take(k as int) =~= headers@);
    proof {
        same_headers_are_kept(all@, whole, whole.len() as int);
    }
    scan_extra_headers(&all)
}

/// Two lists of the same headers.
spec fn same_headers(a: Seq<KeyedHeader>, b: Seq<KeyedHeader>) -> bool {
    a.len() == b.len() && forall|i: int|
        0 <= i < a.len() ==> (#[trigger] a[i]).key@ == b[i].key@ && a[i].header@ == b[i].header@
}

proof fn same_headers_are_kept(a: Seq<KeyedHeader>, b: Seq<KeyedHeader>, n: int)
    requires
        same_headers(a, b),
        n <= a.len(),
    ensures
        kept_headers(a, n) == kept_headers(b, n),
    decreases n,
{
    if n > 0 {
        same_headers_are_kept(a, b, n - 1);
        assert(a[n - 1].key@ == b[n - 1].key@ && a[n - 1].header@ == b[n - 1].header@);
        assert(header_kept(a, n - 1) == header_kept(b, n - 1)) by {
            assert forall|j: int| 0 <= j < n - 1 implies a[j].key@ == b[j].key@ by {}
        }
    }
}

/// A header that is known stays known, in its place, whatever is remembered behind
/// it; what is remembered a second time changes nothing.
pub proof fn known_headers_stay(existing: Seq<KeyedHeader>, headers: Seq<KeyedHeader>)
    ensures
        kept_headers(existing, existing.len() as int).is_prefix_of(
            kept_headers(existing + headers, (existing.len() + headers.len()) as int),
        ),
        kept_headers(existing + headers + headers, (existing.len() + 2 * headers.len()) as int)
            == kept_headers(existing + headers, (existing.len() + headers.len()) as int),
{
    let one = existing + headers;
    let two = one + headers;
    same_start_is_kept(existing, one, existing.len() as int);
    kept_headers_grow(one, existing.len() as int, one.len() as int);
    same_start_is_kept(one, two, one.len() as int);
    seen_headers_add_nothing(one, headers, existing.len() as int, headers.len() as int);
}

proof fn same_start_is_kept(a: Seq<KeyedHeader>, b: Seq<KeyedHeader>, n: int)
    requires
        n <= a.len(),
        a.is_prefix_of(b),
    ensures
        kept_headers(a, n) == kept_headers(b, n),
    decreases n,
{
    if n > 0 {
        same_start_is_kept(a, b, n - 1);
        assert forall|j: int| 0 <= j < n implies a[j] == b[j] by {
            assert(a == b.subrange(0, a.len() as int));
        }
        assert(header_kept(a, n - 1) == header_kept(b, n - 1)) by {
            assert forall|j: int| 0 <= j < n - 1 implies a[j].key@ == b[j].key@ by {}
        }
    }
}

proof fn kept_headers_grow(all: Seq<KeyedHeader>, m: int, n: int)
    requires
        0 <= m <= n,
    ensures
        kept_headers(all, m).is_prefix_of(kept_headers(all, n)),
    decreases n,
{
    if m < n {
        kept_headers_grow(all, m, n - 1);
    }
}

/// Headers whose keys all stand before them are not kept.
proof fn seen_headers_add_nothing(
    one: Seq<KeyedHeader>,
    headers: Seq<KeyedHeader>,
    from: int,
    n: int,
)
    requires
        0 <= from,
        one.len() == from + headers.len(),
        forall|i: int| 0 <= i < headers.len() ==> one[from + i] == #[trigger] headers[i],
        0 <= n <= headers.len(),
    ensures
        kept_headers(one + headers, one.len() + n) == kept_headers(
            one + headers,
            one.len() as int,
        ),
    decreases n,
{
    if n > 0 {
        seen_headers_add_nothing(one, headers, from, n - 1);
        let two = one + headers;
        let last = one.len() + n - 1;
        assert(two[last] == headers[n - 1]);
        assert(two[from + n - 1] == headers[n - 1]);
        assert(!header_kept(two, last));
    }
}

/// A field of a source schema, by its id.
#[derive(Clone, Debug)]
pub struct SchemaOfField {
    pub field_id: String,
    pub schema_id: i64,
}

/// Whether a field with an id belongs to a schema.
pub open spec fn field_of_schema(lookup: Seq<SchemaOfField>, id: Seq<char>, schema: i64) -> bool {
    exists|k: int| 0 <= k < lookup.len() && #[trigger] lookup[k].field_id@ == id && lookup[k].schema_id == schema
}

/// Numbers in strictly ascending order.
pub open spec fn ascend(numbers: Seq<i64>) -> bool {
    forall|i: int, j: int| 0 <= i < j < numbers.len() ==> numbers[i] < numbers[j]
}

/// Puts a number into its place among ascending numbers, unless it stands there
/// already.
fn insert_number(numbers: &mut Vec<i64>, n: i64)
    requires
        ascend(old(numbers)@),
    ensures
        ascend(final(numbers)@),
        forall|x: i64| #[trigger]
            final(numbers)@.contains(x) <==> (old(numbers)@.contains(x) || x == n),
{
    let ghost before = numbers@;
    let mut i: usize = 0;
    while i < numbers.len() && numbers[i] < n
        invariant
            i <= numbers@.len(),
            numbers@ == before,
            ascend(before),
            forall|k: int| 0 <= k < i ==> before[k] < n,
        decreases numbers.len() - i,
    {
        i += 1;
    }
    if i < numbers.len() && numbers[i] == n {
        assert(before[i as int] == n);
        return ;
    }
    numbers.insert(i, n);
    let ghost after = numbers@;
    assert(after =~= before.insert(i as int, n));
    assert(after[i as int] == n);
    assert forall|x: i64| #[trigger] after.contains(x) <==> (before.contains(x) || x == n) by {
        if before.contains(x) {
            let k = choose|k: int| 0 <= k < before.len() && before[k] == x;
            if k < i {
                assert(after[k] == x);
            } else {
                assert(after[k + 1] == x);
            }
        }
        if after.contains(x) && x != n {
            let k = choose|k: int| 0 <= k < after.len() && after[k] == x;
            if k < i {
                assert(before[k] == x);
            } else {
                assert(before[k - 1] == x);
            }
        }
    }
}

/// Whether a number is the schema of one of some fields.
pub open spec fn schema_of_some(ids: Seq<String>, lookup: Seq<SchemaOfField>, schema: i64, n: int) ->
    bool {
    exists|i: int| 0 <= i < n && #[trigger] field_of_schema(lookup, ids[i]@, schema)
}

/// The schemas of the fields that a query addresses, each once, in ascending
/// order. A field that no schema has is left out.
pub fn query_schema_ids(field_ids: &Vec<String>, lookup: &Vec<SchemaOfField>) -> (r: Vec<i64>)
    ensures
        ascend(r@),
        forall|x: i64| #[trigger]
            r@.contains(x) <==> schema_of_some(
                field_ids@,
                lookup@,
                x,
                field_ids@.len() as int,
            ),
{
    let mut out: Vec<i64> = Vec::new();
    let mut i: usize = 0;
    while i < field_ids.len()
        invariant
            i <= field_ids@.len(),
            ascend(out@),
            forall|x: i64| #[trigger]
                out@.contains(x) <==> schema_of_some(field_ids@, lookup@, x, i as int),
        decreases field_ids.len() - i,
    {
        let ghost before = out@;
        let ghost id = field_ids@[i as int]@;
        let mut k: usize = 0;
        while k < lookup.len()
            invariant
                i < field_ids@.len(),
                k <= lookup@.len(),
                id == field_ids@[i as int]@,
                ascend(out@),
                forall|x: i64| #[trigger]
                    out@.contains(x) <==> (before.contains(x) || field_of_schema(
                        lookup@.take(k as int),
                        id,
                        x,
                    )),
            decreases lookup.len() - k,
        {
            let ghost so_far = out@;
            if same(lookup[k].field_id.as_str(), field_ids[i].as_str()) {
                insert_number(&mut out, lookup[k].schema_id);
            }
            assert forall|x: i64| #[trigger] out@.contains(x) <==> (before.contains(x)
                || field_of_schema(lookup@.take(k + 1), id, x)) by {
                let upto = lookup@.take(k as int);
                let more = lookup@.take(k + 1);
                if field_of_schema(upto, id, x) {
                    let j = choose|j: int|
                        0 <= j < upto.len() && #[trigger] upto[j].field_id@ == id && upto[j].schema_id == x;
                    assert(more[j] == upto[j]);
                }
                if field_of_schema(more, id, x) {
                    let j = choose|j: int|
                        0 <= j < more.len() && #[trigger] more[j].field_id@ == id && more[j].schema_id == x;
                    if j < k {
                        assert(upto[j] == more[j]);
                    } else {
                        assert(more[j] == lookup@[k as int]);
                    }
                }
                if lookup@[k as int].field_id@ == id {
                    assert(more[k as int] == lookup@[k as int]);
                }
                assert(so_far.contains(x) <==> (before.contains(x) || field_of_schema(
                    upto,
                    id,
                    x,
                )));
            }
            k += 1;
        }
        assert(lookup@.take(k as int) =~= lookup@);
        assert forall|x: i64| #[trigger] out@.contains(x) <==> schema_of_some(
            field_ids@,
            lookup@,
            x,
            i + 1,
        ) by {
            if before.contains(x) {
                assert(schema_of_some(field_ids@, lookup@, x, i as int));
            }
            if field_of_schema(lookup@, id, x) {
                assert(field_of_schema(lookup@, field_ids@[i as int]@, x));
            }
            if schema_of_some(field_ids@, lookup@, x, i + 1) {
                let j = choose|j: int|
                    0 <= j < i + 1 && #[trigger] field_of_schema(lookup@, field_ids@[j]@, x);
                if j < i {
                    assert(schema_of_some(field_ids@, lookup@, x, i as int));
                    assert(before.contains(x));
                }
            }
        }
        i += 1;
    }
    out
}

/// A step of clearing the store.
#[derive(Clone, Debug)]
pub enum ClearStep {
    Begin,
    /// The records and everything that describes their sources are removed.
    Remove,
    Commit,
    /// What was removed is restored; whether that works does not matter.
    RollBack { reason: String },
    /// The space on the disk is given back.
    Vacuum,
    Done,
    Failed(String),
}

/// The step after a step, whether it worked or not.
pub fn clear_all(step: ClearStep, outcome: Result<(), String>) -> (r: ClearStep)
    ensures
        match step {
            ClearStep::Begin => match outcome {
                Ok(_) => r is Remove,
                Err(e) => r == ClearStep::Failed(e),
            },
            ClearStep::Remove => match outcome {
                Ok(_) => r is Commit,
                Err(e) => r == (ClearStep::RollBack { reason: e }),
            },
            ClearStep::Commit => match outcome {
                Ok(_) => r is Vacuum,
                Err(e) => r == ClearStep::Failed(e),
            },
            ClearStep::RollBack { reason } => r == ClearStep::Failed(reason),
            ClearStep::Vacuum => match outcome {
                Ok(_) => r is Done,
                Err(e) => r == ClearStep::Failed(e),
            },
            _ => r == step,
        },
{
    match step {
        ClearStep::Begin => match outcome {
            Ok(_) => ClearStep::Remove,
            Err(e) => ClearStep::Failed(e),
        },
        ClearStep::Remove => match outcome {
            Ok(_) => ClearStep::Commit,
            Err(e) => ClearStep::RollBack { reason: e },
        },
        ClearStep::Commit => match outcome {
            Ok(_) => ClearStep::Vacuum,
            Err(e) => ClearStep::Failed(e),
        },
        ClearStep::RollBack { reason } => ClearStep::Failed(reason),
        ClearStep::Vacuum => match outcome {
            Ok(_) => ClearStep::Done,
            Err(e) => ClearStep::Failed(e),
        },
        other => other,
    }
}

/// Fields come from the schemas of the sources where there are any, and from the
/// shape of the table too where rows came before schemas.
pub proof fn fields_come_from_schemas_where_there_are_any(fields: usize, has_legacy_rows: bool)
    ensures
        catalog_source(0, has_legacy_rows) == CatalogSource::Shape,
        fields > 0 && has_legacy_rows ==> catalog_source(fields, has_legacy_rows)
            == CatalogSource::SchemasAndShape,
        fields > 0 && !has_legacy_rows ==> catalog_source(fields, has_legacy_rows)
            == CatalogSource::Schemas,
{
}

/// A meaning is given to the column with the id alone: no other column and nothing
/// else of it changes, and without such a column nothing does.
pub proof fn a_meaning_is_given_to_one_column(
    before: Seq<SourceColumn>,
    after: Seq<SourceColumn>,
    id: Seq<char>,
    semantic: Option<SemanticField>,
    found: bool,
    i: int,
)
    requires
        meaning_given(before, after, id, semantic, found),
        0 <= i < before.len(),
    ensures
        after.len() == before.len(),
        before[i].id@ != id ==> after[i] == before[i],
        after[i].id == before[i].id && after[i].header == before[i].header && after[i].role
            == before[i].role && after[i].storage == before[i].storage,
        before[i].id@ == id ==> found,
        found ==> exists|k: int|
            0 <= k < after.len() && (#[trigger] after[k]).id@ == id && after[k].semantic
                == semantic,
{
    let p = |k: int| column_is(before, id, k);
    first_found(before.len() as int, p);
    assert(before[i].id@ == id ==> p(i));
    match column_place(before, id) {
        Some(k) => {
            assert(after[k].id@ == id);
        },
        None => {},
    }
}

} // verus!
