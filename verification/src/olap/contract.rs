//! The identity of the projection's source and of the rollup rules.
use vstd::prelude::*;
use vstd::string::*;
use vstd::utf8::{decode_utf8, encode_utf8, encode_utf8_decode_utf8};

use crate::analytics::Real;
use crate::digest::{
    hex_bytes, hex_text, le_bytes, le_word, sha256, sha256_of, word_tells_the_number,
};
use crate::number::{signed_decimal, signed_text};
use crate::text::same;

verus! {

/// The layout of the projection. A projection of another layout is rebuilt.
pub const PROJECTION_SCHEMA_VERSION: &'static str = "8";

/// The layout of the rollups.
pub const ROLLUP_SCHEMA_VERSION: &'static str = "3";

/// The rules by which the rollups are filled.
pub const ROLLUP_RULES_VERSION: &'static str = "2";

/// What the rollups promise.
pub const ROLLUP_CONTRACT: &'static str = "overview:v2;monthly:v3;sections:v3;currency:v2;price_per_kg:v2;scope:canonical|occurrences;years:all|calendar;money:currency-partitioned|usd-compat-only;weight:source-partitioned|normalized-kg;schema-context:per-row;hs:2-8|10;r7-quantiles";

/// The way in which the source tells that it has changed.
pub const SOURCE_TRACKING_VERSION: &'static str = "1";

/// The table that tells whether the source has changed.
pub const SOURCE_STATE_TABLE: &'static str = "base_search_olap_state";

/// The triggers that note a change, in the order of their names.
pub const SOURCE_TRIGGERS: [&'static str; 3] = [
    "base_search_olap_records_delete",
    "base_search_olap_records_insert",
    "base_search_olap_records_update",
];

/// A labelled value, each of the two behind its length.
pub open spec fn part(label: Seq<char>, value: Seq<char>) -> Seq<u8> {
    le_word(encode_utf8(label).len()) + encode_utf8(label) + le_word(encode_utf8(value).len())
        + encode_utf8(value)
}

/// Appends some bytes.
fn extend(out: &mut Vec<u8>, more: &[u8])
    ensures
        final(out)@ == old(out)@ + more@,
{
    let mut i: usize = 0;
    assert(out@ =~= old(out)@ + more@.take(0));
    while i < more.len()
        invariant
            i <= more@.len(),
            out@ == old(out)@ + more@.take(i as int),
        decreases more.len() - i,
    {
        out.push(more[i]);
        assert(out@ =~= old(out)@ + more@.take(i + 1));
        i += 1;
    }
    assert(more@.take(i as int) =~= more@);
}

/// Appends the eight bytes of a number.
fn push_word(out: &mut Vec<u8>, n: u64)
    ensures
        final(out)@ == old(out)@ + le_word(n as nat),
{
    let word = le_bytes(n as u128, 8);
    assert(word@ =~= le_word(n as nat));
    extend(out, word.as_slice());
}

/// Appends bytes behind their length.
fn push_sized(out: &mut Vec<u8>, bytes: &[u8])
    ensures
        final(out)@ == old(out)@ + (le_word(bytes@.len()) + bytes@),
{
    push_word(out, bytes.len() as u64);
    extend(out, bytes);
    assert(out@ =~= old(out)@ + (le_word(bytes@.len()) + bytes@));
}

/// Appends a labelled value.
pub fn hash_part(out: &mut Vec<u8>, label: &str, value: &str)
    ensures
        final(out)@ == old(out)@ + part(label@, value@),
{
    push_sized(out, label.as_bytes());
    push_sized(out, value.as_bytes());
    assert(out@ =~= old(out)@ + part(label@, value@));
}

/// A value of the database.
#[derive(Clone, Debug)]
pub enum SqlValue {
    Null,
    Integer(i64),
    Real(Real),
    Text(Vec<u8>),
    Blob(Vec<u8>),
}

/// A signed number as the unsigned one with the same bits.
pub open spec fn same_bits(n: i64) -> nat {
    if n >= 0 {
        n as nat
    } else {
        (n + 0x1_0000_0000_0000_0000) as nat
    }
}

/// The bytes of a value: a mark of its kind, then what it holds.
pub open spec fn value_bytes(v: SqlValue) -> Seq<u8> {
    match v {
        SqlValue::Null => seq![0u8],
        SqlValue::Integer(n) => seq![1u8] + le_word(same_bits(n)),
        SqlValue::Real(x) => seq![2u8] + le_word(x.bits as nat),
        SqlValue::Text(t) => seq![3u8] + (le_word(t@.len()) + t@),
        SqlValue::Blob(b) => seq![4u8] + (le_word(b@.len()) + b@),
    }
}

/// The bytes of the first `n` values of a row, each behind its place.
pub open spec fn columns_bytes(row: Seq<SqlValue>, n: int) -> Seq<u8>
    decreases n,
{
    if n <= 0 {
        Seq::empty()
    } else {
        columns_bytes(row, n - 1) + le_word((n - 1) as nat) + value_bytes(row[n - 1])
    }
}

/// The bytes of the first `n` rows, each behind a mark.
pub open spec fn rows_bytes(rows: Seq<Vec<SqlValue>>, n: int) -> Seq<u8>
    decreases n,
{
    if n <= 0 {
        Seq::empty()
    } else {
        rows_bytes(rows, n - 1) + seq![0xffu8] + columns_bytes(
            rows[n - 1]@,
            rows[n - 1]@.len() as int,
        )
    }
}

/// The bytes of a table.
pub open spec fn table_bytes(label: Seq<char>, rows: Seq<Vec<SqlValue>>) -> Seq<u8> {
    part("table_state"@, label) + rows_bytes(rows, rows.len() as int)
}

/// Appends the bytes of a value.
fn push_value(out: &mut Vec<u8>, v: &SqlValue)
    ensures
        final(out)@ == old(out)@ + value_bytes(*v),
{
    match v {
        SqlValue::Null => {
            out.push(0);
        },
        SqlValue::Integer(n) => {
            out.push(1);
            let bits: u64 = if *n >= 0 {
                *n as u64
            } else {
                (*n as i128 + 0x1_0000_0000_0000_0000) as u64
            };
            push_word(out, bits);
        },
        SqlValue::Real(x) => {
            out.push(2);
            push_word(out, x.bits);
        },
        SqlValue::Text(t) => {
            out.push(3);
            push_sized(out, t.as_slice());
        },
        SqlValue::Blob(b) => {
            out.push(4);
            push_sized(out, b.as_slice());
        },
    }
    assert(out@ =~= old(out)@ + value_bytes(*v));
}

/// Appends the bytes of a row.
fn push_row(out: &mut Vec<u8>, row: &Vec<SqlValue>)
    ensures
        final(out)@ == old(out)@ + seq![0xffu8] + columns_bytes(row@, row@.len() as int),
{
    out.push(0xff);
    let ghost start = out@;
    let mut i: usize = 0;
    assert(out@ =~= start + columns_bytes(row@, 0));
    while i < row.len()
        invariant
            i <= row@.len(),
            out@ == start + columns_bytes(row@, i as int),
        decreases row.len() - i,
    {
        push_word(out, i as u64);
        push_value(out, &row[i]);
        assert(out@ =~= start + columns_bytes(row@, i + 1));
        i += 1;
    }
    assert(out@ =~= old(out)@ + seq![0xffu8] + columns_bytes(row@, row@.len() as int));
}

/// Appends the bytes of a table.
pub fn hash_query_rows(out: &mut Vec<u8>, label: &str, rows: &Vec<Vec<SqlValue>>)
    ensures
        final(out)@ == old(out)@ + table_bytes(label@, rows@),
{
    hash_part(out, "table_state", label);
    let ghost start = out@;
    let mut i: usize = 0;
    assert(out@ =~= start + rows_bytes(rows@, 0));
    while i < rows.len()
        invariant
            i <= rows@.len(),
            out@ == start + rows_bytes(rows@, i as int),
        decreases rows.len() - i,
    {
        push_row(out, &rows[i]);
        assert(out@ =~= start + rows_bytes(rows@, i + 1));
        i += 1;
    }
    assert(out@ =~= old(out)@ + table_bytes(label@, rows@));
}

/// The bytes of the rollup rules.
pub open spec fn rollup_bytes() -> Seq<u8> {
    part("schema"@, ROLLUP_SCHEMA_VERSION@) + part("rules"@, ROLLUP_RULES_VERSION@) + part(
        "contract"@,
        ROLLUP_CONTRACT@,
    )
}

/// The identity of the rollup rules.
pub fn rollup_contract_fingerprint() -> (r: String)
    ensures
        r@ == hex_bytes(sha256_of(rollup_bytes())),
{
    let mut bytes: Vec<u8> = Vec::new();
    hash_part(&mut bytes, "schema", ROLLUP_SCHEMA_VERSION);
    hash_part(&mut bytes, "rules", ROLLUP_RULES_VERSION);
    hash_part(&mut bytes, "contract", ROLLUP_CONTRACT);
    assert(bytes@ =~= rollup_bytes());
    hex_text(&sha256(bytes.as_slice()))
}

/// A trigger of the source, with its definition.
#[derive(Clone, Debug)]
pub struct SourceTrigger {
    pub name: String,
    pub sql: String,
}

/// What the source says of itself.
#[derive(Clone, Debug)]
pub struct SourceState {
    pub generation: String,
    pub dirty: i64,
    pub tracking_version: String,
    pub records_schema: String,
    pub state_schema: String,
    pub source_schemas_schema: String,
    pub source_columns_schema: String,
    pub import_sources_schema: String,
    pub triggers: Vec<SourceTrigger>,
    pub semantic_mapping: String,
    /// The full path of the source's file.
    pub source_identity: String,
    pub source_schemas: Vec<Vec<SqlValue>>,
    pub source_columns: Vec<Vec<SqlValue>>,
    pub import_sources: Vec<Vec<SqlValue>>,
}

/// The identity of the source: its generation and a hash of what shapes its
/// records.
#[derive(Clone, Debug)]
pub struct SourceContract {
    pub generation: String,
    pub fingerprint: String,
}

/// The triggers that have to note changes, and no others.
pub open spec fn triggers_fit(triggers: Seq<SourceTrigger>) -> bool {
    &&& triggers.len() == SOURCE_TRIGGERS@.len()
    &&& forall|i: int|
        0 <= i < triggers.len() ==> #[trigger] triggers[i].name@ == SOURCE_TRIGGERS@[i]@
}

/// The bytes of the first `n` triggers.
pub open spec fn trigger_bytes(triggers: Seq<SourceTrigger>, n: int) -> Seq<u8>
    decreases n,
{
    if n <= 0 {
        Seq::empty()
    } else {
        trigger_bytes(triggers, n - 1) + part(triggers[n - 1].name@, triggers[n - 1].sql@)
    }
}

/// The bytes of what the source says of itself.
pub open spec fn source_bytes(s: SourceState) -> Seq<u8> {
    part("projection_schema"@, PROJECTION_SCHEMA_VERSION@) + part(
        "tracking_schema"@,
        SOURCE_TRACKING_VERSION@,
    ) + part("source"@, s.source_identity@) + part("generation"@, s.generation@) + part(
        "dirty"@,
        signed_decimal(s.dirty as int),
    ) + part("records_schema"@, s.records_schema@) + part("state_schema"@, s.state_schema@) + part(
        "source_schemas_schema"@,
        s.source_schemas_schema@,
    ) + part("source_columns_schema"@, s.source_columns_schema@) + part(
        "import_sources_schema"@,
        s.import_sources_schema@,
    ) + part("semantic_mapping"@, s.semantic_mapping@) + table_bytes(
        "source_schemas"@,
        s.source_schemas@,
    ) + table_bytes("source_columns"@, s.source_columns@) + table_bytes(
        "import_sources"@,
        s.import_sources@,
    ) + trigger_bytes(s.triggers@, s.triggers@.len() as int)
}

/// Refuses a source whose tracking is of another version.
pub fn check_tracking(tracking_version: &str) -> (r: Result<(), String>)
    ensures
        r is Ok <==> tracking_version@ == SOURCE_TRACKING_VERSION@,
        r is Err ==> r->Err_0@ == "SQLite projection generation is incompatible."@,
{
    if same(tracking_version, SOURCE_TRACKING_VERSION) {
        Ok(())
    } else {
        Err(String::from_str("SQLite projection generation is incompatible."))
    }
}

/// Refuses a source whose triggers are not those that note changes.
pub fn check_triggers(triggers: &Vec<SourceTrigger>) -> (r: Result<(), String>)
    ensures
        r is Ok <==> triggers_fit(triggers@),
        r is Err ==> r->Err_0@
            == "SQLite projection tracking triggers are missing or incompatible."@,
{
    let mut fits = triggers.len() == SOURCE_TRIGGERS.len();
    let mut i: usize = 0;
    while fits && i < triggers.len()
        invariant
            i <= triggers@.len(),
            fits ==> triggers@.len() == SOURCE_TRIGGERS@.len(),
            fits ==> forall|k: int|
                0 <= k < i ==> #[trigger] triggers@[k].name@ == SOURCE_TRIGGERS@[k]@,
            !fits ==> !triggers_fit(triggers@),
        decreases triggers.len() - i, fits as int,
    {
        if same(triggers[i].name.as_str(), SOURCE_TRIGGERS[i]) {
            i += 1;
        } else {
            assert(triggers@[i as int].name@ != SOURCE_TRIGGERS@[i as int]@);
            fits = false;
        }
    }
    if fits {
        Ok(())
    } else {
        Err(String::from_str("SQLite projection tracking triggers are missing or incompatible."))
    }
}

/// The hash of what the source says of itself.
pub fn source_fingerprint(state: &SourceState) -> (r: String)
    ensures
        r@ == hex_bytes(sha256_of(source_bytes(*state))),
{
    let mut bytes: Vec<u8> = Vec::new();
    hash_part(&mut bytes, "projection_schema", PROJECTION_SCHEMA_VERSION);
    hash_part(&mut bytes, "tracking_schema", SOURCE_TRACKING_VERSION);
    hash_part(&mut bytes, "source", state.source_identity.as_str());
    hash_part(&mut bytes, "generation", state.generation.as_str());
    hash_part(&mut bytes, "dirty", signed_text(state.dirty).as_str());
    hash_part(&mut bytes, "records_schema", state.records_schema.as_str());
    hash_part(&mut bytes, "state_schema", state.state_schema.as_str());
    hash_part(&mut bytes, "source_schemas_schema", state.source_schemas_schema.as_str());
    hash_part(&mut bytes, "source_columns_schema", state.source_columns_schema.as_str());
    hash_part(&mut bytes, "import_sources_schema", state.import_sources_schema.as_str());
    hash_part(&mut bytes, "semantic_mapping", state.semantic_mapping.as_str());
    hash_query_rows(&mut bytes, "source_schemas", &state.source_schemas);
    hash_query_rows(&mut bytes, "source_columns", &state.source_columns);
    hash_query_rows(&mut bytes, "import_sources", &state.import_sources);
    let ghost start = bytes@;
    let mut i: usize = 0;
    assert(bytes@ =~= start + trigger_bytes(state.triggers@, 0));
    while i < state.triggers.len()
        invariant
            i <= state.triggers@.len(),
            bytes@ == start + trigger_bytes(state.triggers@, i as int),
        decreases state.triggers.len() - i,
    {
        hash_part(&mut bytes, state.triggers[i].name.as_str(), state.triggers[i].sql.as_str());
        assert(bytes@ =~= start + trigger_bytes(state.triggers@, i + 1));
        i += 1;
    }
    assert(bytes@ =~= source_bytes(*state));
    hex_text(&sha256(bytes.as_slice()))
}

/// The identity of the source, unless its tracking does not fit.
pub fn source_contract(state: SourceState) -> (r: Result<SourceContract, String>)
    ensures
        match r {
            Ok(c) => state.tracking_version@ == SOURCE_TRACKING_VERSION@ && triggers_fit(
                state.triggers@,
            ) && c.generation == state.generation && c.fingerprint@ == hex_bytes(
                sha256_of(source_bytes(state)),
            ),
            Err(e) => if state.tracking_version@ != SOURCE_TRACKING_VERSION@ {
                e@ == "SQLite projection generation is incompatible."@
            } else {
                !triggers_fit(state.triggers@) && e@
                    == "SQLite projection tracking triggers are missing or incompatible."@
            },
        },
{
    match check_tracking(state.tracking_version.as_str()) {
        Ok(_) => {},
        Err(e) => {
            return Err(e);
        },
    }
    match check_triggers(&state.triggers) {
        Ok(_) => {},
        Err(e) => {
            return Err(e);
        },
    }
    let fingerprint = source_fingerprint(&state);
    Ok(SourceContract { generation: state.generation, fingerprint })
}

/// Bytes behind their length are told from what follows.
proof fn sized_apart(a: Seq<u8>, x: Seq<u8>, b: Seq<u8>, y: Seq<u8>)
    requires
        a.len() <= u64::MAX,
        b.len() <= u64::MAX,
        le_word(a.len()) + a + x == le_word(b.len()) + b + y,
    ensures
        a == b,
        x == y,
{
    let left = le_word(a.len()) + a + x;
    let right = le_word(b.len()) + b + y;
    assert(left.take(8) =~= le_word(a.len()));
    assert(right.take(8) =~= le_word(b.len()));
    word_tells_the_number(a.len(), b.len());
    assert(left.subrange(8, 8 + a.len() as int) =~= a);
    assert(right.subrange(8, 8 + b.len() as int) =~= b);
    assert(left.skip(8 + a.len() as int) =~= x);
    assert(right.skip(8 + b.len() as int) =~= y);
}

/// Labelled values are told apart, whatever follows them: no label runs into its
/// value, and no value into what comes behind it.
pub proof fn parts_are_told_apart(
    label: Seq<char>,
    value: Seq<char>,
    rest: Seq<u8>,
    other_label: Seq<char>,
    other_value: Seq<char>,
    other_rest: Seq<u8>,
)
    requires
        encode_utf8(label).len() <= u64::MAX,
        encode_utf8(value).len() <= u64::MAX,
        encode_utf8(other_label).len() <= u64::MAX,
        encode_utf8(other_value).len() <= u64::MAX,
        part(label, value) + rest == part(other_label, other_value) + other_rest,
    ensures
        label == other_label,
        value == other_value,
        rest == other_rest,
{
    let a = encode_utf8(label);
    let b = encode_utf8(other_label);
    let v = encode_utf8(value);
    let w = encode_utf8(other_value);
    let x = le_word(v.len()) + v + rest;
    let y = le_word(w.len()) + w + other_rest;
    assert(part(label, value) + rest =~= le_word(a.len()) + a + x);
    assert(part(other_label, other_value) + other_rest =~= le_word(b.len()) + b + y);
    sized_apart(a, x, b, y);
    sized_apart(v, rest, w, other_rest);
    encode_utf8_decode_utf8(label);
    encode_utf8_decode_utf8(other_label);
    encode_utf8_decode_utf8(value);
    encode_utf8_decode_utf8(other_value);
}

/// A value whose size fits a machine word.
pub open spec fn value_fits(v: SqlValue) -> bool {
    match v {
        SqlValue::Text(t) => t@.len() <= u64::MAX,
        SqlValue::Blob(b) => b@.len() <= u64::MAX,
        _ => true,
    }
}

/// Two values that hold the same.
pub open spec fn same_value(a: SqlValue, b: SqlValue) -> bool {
    match (a, b) {
        (SqlValue::Text(x), SqlValue::Text(y)) => x@ == y@,
        (SqlValue::Blob(x), SqlValue::Blob(y)) => x@ == y@,
        _ => a == b,
    }
}

/// Values are told apart, whatever follows them.
pub proof fn values_are_told_apart(a: SqlValue, x: Seq<u8>, b: SqlValue, y: Seq<u8>)
    requires
        value_fits(a),
        value_fits(b),
        value_bytes(a) + x == value_bytes(b) + y,
    ensures
        same_value(a, b),
        x == y,
{
    let left = value_bytes(a) + x;
    let right = value_bytes(b) + y;
    assert(left[0] == value_bytes(a)[0]);
    assert(right[0] == value_bytes(b)[0]);
    match (a, b) {
        (SqlValue::Text(t), SqlValue::Text(u)) => {
            assert(left.drop_first() =~= le_word(t@.len()) + t@ + x);
            assert(right.drop_first() =~= le_word(u@.len()) + u@ + y);
            sized_apart(t@, x, u@, y);
        },
        (SqlValue::Blob(t), SqlValue::Blob(u)) => {
            assert(left.drop_first() =~= le_word(t@.len()) + t@ + x);
            assert(right.drop_first() =~= le_word(u@.len()) + u@ + y);
            sized_apart(t@, x, u@, y);
        },
        (SqlValue::Integer(m), SqlValue::Integer(n)) => {
            assert(left.subrange(1, 9) =~= le_word(same_bits(m)));
            assert(right.subrange(1, 9) =~= le_word(same_bits(n)));
            word_tells_the_number(same_bits(m), same_bits(n));
            assert(left.skip(9) =~= x);
            assert(right.skip(9) =~= y);
        },
        (SqlValue::Real(m), SqlValue::Real(n)) => {
            assert(left.subrange(1, 9) =~= le_word(m.bits as nat));
            assert(right.subrange(1, 9) =~= le_word(n.bits as nat));
            word_tells_the_number(m.bits as nat, n.bits as nat);
            assert(left.skip(9) =~= x);
            assert(right.skip(9) =~= y);
        },
        (SqlValue::Null, SqlValue::Null) => {
            assert(left.drop_first() =~= x);
            assert(right.drop_first() =~= y);
        },
        _ => {},
    }
}

/// The values of two rows that hold the same, one by one.
pub open spec fn same_values(a: Seq<SqlValue>, b: Seq<SqlValue>) -> bool {
    &&& a.len() == b.len()
    &&& forall|i: int| 0 <= i < a.len() ==> same_value(#[trigger] a[i], b[i])
}

/// The first values of two rows are told apart, whatever follows them.
proof fn columns_apart(a: Seq<SqlValue>, x: Seq<u8>, b: Seq<SqlValue>, y: Seq<u8>, n: int)
    requires
        0 <= n <= a.len(),
        n <= b.len(),
        forall|i: int| 0 <= i < n ==> value_fits(#[trigger] a[i]),
        forall|i: int| 0 <= i < n ==> value_fits(#[trigger] b[i]),
        columns_bytes(a, n) + x == columns_bytes(b, n) + y,
    ensures
        forall|i: int| 0 <= i < n ==> same_value(#[trigger] a[i], b[i]),
        x == y,
    decreases n,
{
    if n == 0 {
        assert(columns_bytes(a, 0) + x =~= x);
        assert(columns_bytes(b, 0) + y =~= y);
    } else {
        let word = le_word((n - 1) as nat);
        let more = value_bytes(a[n - 1]) + x;
        let other = value_bytes(b[n - 1]) + y;
        assert(columns_bytes(a, n) + x =~= columns_bytes(a, n - 1) + (word + more));
        assert(columns_bytes(b, n) + y =~= columns_bytes(b, n - 1) + (word + other));
        columns_apart(a, word + more, b, word + other, n - 1);
        assert((word + more).skip(8) =~= more);
        assert((word + other).skip(8) =~= other);
        values_are_told_apart(a[n - 1], x, b[n - 1], y);
    }
}

/// The rows of a table with `width` columns, each value of a size that fits.
pub open spec fn rows_fit(rows: Seq<Vec<SqlValue>>, width: nat) -> bool {
    forall|i: int|
        0 <= i < rows.len() ==> (#[trigger] rows[i])@.len() == width && forall|k: int|
            0 <= k < width ==> value_fits(#[trigger] rows[i]@[k])
}

/// The bytes of rows begin with those of the first row.
proof fn rows_from_the_first(rows: Seq<Vec<SqlValue>>, n: int)
    requires
        0 < n <= rows.len(),
    ensures
        rows_bytes(rows, n) == seq![0xffu8] + columns_bytes(rows[0]@, rows[0]@.len() as int)
            + rows_bytes(rows.drop_first(), n - 1),
    decreases n,
{
    let first = seq![0xffu8] + columns_bytes(rows[0]@, rows[0]@.len() as int);
    if n == 1 {
        assert(rows_bytes(rows, 1) =~= rows_bytes(rows, 0) + first);
        assert(rows_bytes(rows, 1) =~= first + rows_bytes(rows.drop_first(), 0));
    } else {
        rows_from_the_first(rows, n - 1);
        assert(rows.drop_first()[n - 2] == rows[n - 1]);
        assert(rows_bytes(rows, n) =~= first + rows_bytes(rows.drop_first(), n - 1));
    }
}

/// Whether some bytes begin with the mark of a row.
pub open spec fn begins_a_row(bytes: Seq<u8>) -> bool {
    bytes.len() > 0 && bytes[0] == 0xff
}

/// Tables are told apart, whatever follows them that is no row: those with the
/// same columns and the same bytes have the same rows.
pub proof fn tables_are_told_apart(
    a: Seq<Vec<SqlValue>>,
    x: Seq<u8>,
    b: Seq<Vec<SqlValue>>,
    y: Seq<u8>,
    width: nat,
)
    requires
        rows_fit(a, width),
        rows_fit(b, width),
        !begins_a_row(x),
        !begins_a_row(y),
        rows_bytes(a, a.len() as int) + x == rows_bytes(b, b.len() as int) + y,
    ensures
        a.len() == b.len(),
        forall|i: int| 0 <= i < a.len() ==> same_values((#[trigger] a[i])@, b[i]@),
        x == y,
    decreases a.len(),
{
    let left = rows_bytes(a, a.len() as int) + x;
    let right = rows_bytes(b, b.len() as int) + y;
    if a.len() > 0 {
        rows_from_the_first(a, a.len() as int);
        assert(left[0] == 0xff);
    }
    if b.len() > 0 {
        rows_from_the_first(b, b.len() as int);
        assert(right[0] == 0xff);
    }
    if a.len() == 0 {
        assert(left =~= x);
        if b.len() == 0 {
            assert(right =~= y);
        }
    } else if b.len() == 0 {
        assert(right =~= y);
    } else {
        let p = a.drop_first();
        let q = b.drop_first();
        let more = rows_bytes(p, p.len() as int) + x;
        let other = rows_bytes(q, q.len() as int) + y;
        assert(left.drop_first() =~= columns_bytes(a[0]@, width as int) + more);
        assert(right.drop_first() =~= columns_bytes(b[0]@, width as int) + other);
        columns_apart(a[0]@, more, b[0]@, other, width as int);
        assert(rows_fit(p, width)) by {
            assert forall|i: int| 0 <= i < p.len() implies (#[trigger] p[i])@.len() == width
                && forall|k: int| 0 <= k < width ==> value_fits(#[trigger] p[i]@[k]) by {
                assert(p[i] == a[i + 1]);
            }
        }
        assert(rows_fit(q, width)) by {
            assert forall|i: int| 0 <= i < q.len() implies (#[trigger] q[i])@.len() == width
                && forall|k: int| 0 <= k < width ==> value_fits(#[trigger] q[i]@[k]) by {
                assert(q[i] == b[i + 1]);
            }
        }
        tables_are_told_apart(p, x, q, y, width);
        assert forall|i: int| 0 <= i < a.len() implies same_values((#[trigger] a[i])@, b[i]@) by {
            if i > 0 {
                assert(a[i] == p[i - 1]);
                assert(b[i] == q[i - 1]);
            }
        }
    }
}

/// The source notes its changes by three triggers, one for each kind of change,
/// and a source with others or fewer does not fit.
pub proof fn a_source_has_its_three_triggers(triggers: Seq<SourceTrigger>)
    ensures
        triggers_fit(triggers) <==> triggers.len() == 3 && triggers[0].name@
            == "base_search_olap_records_delete"@ && triggers[1].name@
            == "base_search_olap_records_insert"@ && triggers[2].name@
            == "base_search_olap_records_update"@,
{
    if triggers_fit(triggers) {
        assert(triggers[0].name@ == SOURCE_TRIGGERS@[0]@);
        assert(triggers[1].name@ == SOURCE_TRIGGERS@[1]@);
        assert(triggers[2].name@ == SOURCE_TRIGGERS@[2]@);
    }
}

} // verus!
