//! What a projection records of itself.
use vstd::prelude::*;
use vstd::string::*;

use crate::counting::{first_is, first_upto, none_found};
use crate::digest::{hex_bytes, sha256_of};
use crate::number::{decimal, decimal_text, parse_unsigned, read_unsigned, unsigned_round_trip};
use crate::olap::contract::{
    rollup_bytes, rollup_contract_fingerprint, SourceContract, PROJECTION_SCHEMA_VERSION,
    ROLLUP_RULES_VERSION, ROLLUP_SCHEMA_VERSION,
};
use crate::text::same;

verus! {

/// Why a text is no unsigned number, in words.
pub uninterp spec fn unsigned_problem(s: Seq<char>) -> Seq<char>;

/// `str::parse::<u64>` of a text that is no unsigned number of 64 bits: its error,
/// as the text that it displays. That text depends on the text read alone; which
/// words it has is not documented, and not claimed.
#[verifier::external_body]
fn parse_problem(s: &str) -> (r: String)
    requires
        read_unsigned(s@, u64::MAX as nat) is None,
    ensures
        r@ == unsigned_problem(s@),
{
    match s.parse::<u64>() {
        Ok(_) => String::new(),
        Err(err) => err.to_string(),
    }
}

/// What a projection records of itself.
#[derive(Clone, Debug)]
pub struct DuckProjectionMeta {
    pub source_sqlite: String,
    pub rows: u64,
    pub max_record_id: u64,
    pub schema_version: String,
    pub source_generation: String,
    pub source_fingerprint: String,
    pub rollup_schema_version: String,
    pub rollup_rules_version: String,
    pub rollup_fingerprint: String,
    pub built_at: String,
}

/// One recorded entry.
#[derive(Clone, Debug)]
pub struct MetaEntry {
    pub key: String,
    pub value: String,
}

/// What an entry says.
pub open spec fn entry_views(entries: Seq<MetaEntry>) -> Seq<(Seq<char>, Seq<char>)> {
    entries.map_values(|e: MetaEntry| (e.key@, e.value@))
}

/// The entries that a projection records, in their order.
pub open spec fn written(
    source: Seq<char>,
    rows: nat,
    max_record_id: nat,
    generation: Seq<char>,
    fingerprint: Seq<char>,
    built_at: Seq<char>,
) -> Seq<(Seq<char>, Seq<char>)> {
    seq![
        ("source_sqlite"@, source),
        ("rows"@, decimal(rows)),
        ("max_record_id"@, decimal(max_record_id)),
        ("schema_version"@, PROJECTION_SCHEMA_VERSION@),
        ("source_generation"@, generation),
        ("source_fingerprint"@, fingerprint),
        ("rollup_schema_version"@, ROLLUP_SCHEMA_VERSION@),
        ("rollup_rules_version"@, ROLLUP_RULES_VERSION@),
        ("rollup_fingerprint"@, hex_bytes(sha256_of(rollup_bytes()))),
        ("built_at"@, built_at),
    ]
}

/// An entry.
fn entry(key: &str, value: String) -> (r: MetaEntry)
    ensures
        r.key@ == key@,
        r.value == value,
{
    MetaEntry { key: String::from_str(key), value }
}

/// The entries that a projection records.
pub fn write_projection_meta(
    source: &str,
    rows: u64,
    max_record_id: u64,
    contract: &SourceContract,
    built_at: &str,
) -> (r: Vec<MetaEntry>)
    ensures
        entry_views(r@) == written(
            source@,
            rows as nat,
            max_record_id as nat,
            contract.generation@,
            contract.fingerprint@,
            built_at@,
        ),
{
    let mut out: Vec<MetaEntry> = Vec::new();
    out.push(entry("source_sqlite", String::from_str(source)));
    out.push(entry("rows", decimal_text(rows)));
    out.push(entry("max_record_id", decimal_text(max_record_id)));
    out.push(entry("schema_version", String::from_str(PROJECTION_SCHEMA_VERSION)));
    out.push(entry("source_generation", contract.generation.clone()));
    out.push(entry("source_fingerprint", contract.fingerprint.clone()));
    out.push(entry("rollup_schema_version", String::from_str(ROLLUP_SCHEMA_VERSION)));
    out.push(entry("rollup_rules_version", String::from_str(ROLLUP_RULES_VERSION)));
    out.push(entry("rollup_fingerprint", rollup_contract_fingerprint()));
    out.push(entry("built_at", String::from_str(built_at)));
    assert(entry_views(out@) =~= written(
        source@,
        rows as nat,
        max_record_id as nat,
        contract.generation@,
        contract.fingerprint@,
        built_at@,
    ));
    out
}

/// Whether an entry is of a key.
pub open spec fn entry_is(
    entries: Seq<(Seq<char>, Seq<char>)>,
    key: Seq<char>,
    i: int,
) -> bool {
    entries[i].0 == key
}

/// What the first entry of a key says.
pub open spec fn recorded(entries: Seq<(Seq<char>, Seq<char>)>, key: Seq<char>) -> Option<Seq<char>> {
    match first_upto(entries.len() as int, |i: int| entry_is(entries, key, i)) {
        Some(k) => Some(entries[k].1),
        None => None,
    }
}

/// What the first entry of a key says, or that it cannot be read, with the
/// words of the database for a missing row.
pub open spec fn needed(
    entries: Seq<(Seq<char>, Seq<char>)>,
    key: Seq<char>,
    missing: Seq<char>,
) -> Result<Seq<char>, Seq<char>> {
    match recorded(entries, key) {
        Some(value) => Ok(value),
        None => Err("Could not read projection metadata "@ + key + ": "@ + missing),
    }
}

/// Reads the value of a key.
pub fn read_projection_meta_value(entries: &Vec<MetaEntry>, key: &str, missing: &str) -> (r: Result<
    String,
    String,
>)
    ensures
        match r {
            Ok(value) => needed(entry_views(entries@), key@, missing@) == Ok::<
                Seq<char>,
                Seq<char>,
            >(value@),
            Err(e) => needed(entry_views(entries@), key@, missing@) == Err::<Seq<char>, Seq<char>>(
                e@,
            ),
        },
{
    let ghost all = entry_views(entries@);
    let ghost p = |i: int| entry_is(all, key@, i);
    let mut i: usize = 0;
    while i < entries.len()
        invariant
            i <= entries@.len(),
            all == entry_views(entries@),
            p == (|i: int| entry_is(all, key@, i)),
            forall|j: int| 0 <= j < i ==> !#[trigger] p(j),
        decreases entries.len() - i,
    {
        assert(all[i as int] == (entries@[i as int].key@, entries@[i as int].value@));
        if same(entries[i].key.as_str(), key) {
            proof {
                assert(p(i as int));
                first_is(all.len() as int, p, i as int);
            }
            return Ok(entries[i].value.clone());
        }
        assert(!p(i as int));
        i += 1;
    }
    proof {
        none_found(all.len() as int, p);
    }
    let mut message = String::from_str("Could not read projection metadata ");
    message.append(key);
    message.append(": ");
    message.append(missing);
    Err(message)
}

/// What a record says.
#[verifier::ext_equal]
pub struct MetaModel {
    pub source_sqlite: Seq<char>,
    pub rows: nat,
    pub max_record_id: nat,
    pub schema_version: Seq<char>,
    pub source_generation: Seq<char>,
    pub source_fingerprint: Seq<char>,
    pub rollup_schema_version: Seq<char>,
    pub rollup_rules_version: Seq<char>,
    pub rollup_fingerprint: Seq<char>,
    pub built_at: Seq<char>,
}

impl View for DuckProjectionMeta {
    type V = MetaModel;

    open spec fn view(&self) -> MetaModel {
        MetaModel {
            source_sqlite: self.source_sqlite@,
            rows: self.rows as nat,
            max_record_id: self.max_record_id as nat,
            schema_version: self.schema_version@,
            source_generation: self.source_generation@,
            source_fingerprint: self.source_fingerprint@,
            rollup_schema_version: self.rollup_schema_version@,
            rollup_rules_version: self.rollup_rules_version@,
            rollup_fingerprint: self.rollup_fingerprint@,
            built_at: self.built_at@,
        }
    }
}

/// The number that a text stands for, or what is wrong with it.
pub open spec fn number_in(s: Seq<char>, what: Seq<char>) -> Result<nat, Seq<char>> {
    match read_unsigned(s, u64::MAX as nat) {
        Some(n) => Ok(n),
        None => Err(what + unsigned_problem(s)),
    }
}

/// Reads a number.
fn read_number(s: &str, what: &str) -> (r: Result<u64, String>)
    ensures
        match r {
            Ok(n) => number_in(s@, what@) == Ok::<nat, Seq<char>>(n as nat),
            Err(e) => number_in(s@, what@) == Err::<nat, Seq<char>>(e@),
        },
{
    match parse_unsigned(s, u64::MAX) {
        Some(n) => Ok(n),
        None => {
            let mut message = String::from_str(what);
            message.append(parse_problem(s).as_str());
            Err(message)
        },
    }
}

/// The greatest record, under its key or, in older records, under its first one.
pub open spec fn needed_max_id(entries: Seq<(Seq<char>, Seq<char>)>, missing: Seq<char>) -> Result<
    Seq<char>,
    Seq<char>,
> {
    match needed(entries, "max_record_id"@, missing) {
        Ok(value) => Ok(value),
        Err(_) => needed(entries, "max_id"@, missing),
    }
}

/// What the entries record, or the first thing that is missing or wrong.
pub open spec fn meta_of(entries: Seq<(Seq<char>, Seq<char>)>, missing: Seq<char>) -> Result<
    MetaModel,
    Seq<char>,
> {
    let source_sqlite = needed(entries, "source_sqlite"@, missing);
    let rows_text = needed(entries, "rows"@, missing);
    let rows = number_in(rows_text->Ok_0, "Invalid projection row count: "@);
    let max_text = needed_max_id(entries, missing);
    let max_record_id = number_in(max_text->Ok_0, "Invalid projection max record id: "@);
    let schema_version = needed(entries, "schema_version"@, missing);
    let source_generation = needed(entries, "source_generation"@, missing);
    let source_fingerprint = needed(entries, "source_fingerprint"@, missing);
    let rollup_schema_version = needed(entries, "rollup_schema_version"@, missing);
    let rollup_rules_version = needed(entries, "rollup_rules_version"@, missing);
    let rollup_fingerprint = needed(entries, "rollup_fingerprint"@, missing);
    let built_at = needed(entries, "built_at"@, missing);
    if source_sqlite is Err {
        Err(source_sqlite->Err_0)
    } else if rows_text is Err {
        Err(rows_text->Err_0)
    } else if rows is Err {
        Err(rows->Err_0)
    } else if max_text is Err {
        Err(max_text->Err_0)
    } else if max_record_id is Err {
        Err(max_record_id->Err_0)
    } else if schema_version is Err {
        Err(schema_version->Err_0)
    } else if source_generation is Err {
        Err(source_generation->Err_0)
    } else if source_fingerprint is Err {
        Err(source_fingerprint->Err_0)
    } else if rollup_schema_version is Err {
        Err(rollup_schema_version->Err_0)
    } else if rollup_rules_version is Err {
        Err(rollup_rules_version->Err_0)
    } else if rollup_fingerprint is Err {
        Err(rollup_fingerprint->Err_0)
    } else if built_at is Err {
        Err(built_at->Err_0)
    } else {
        Ok(
            MetaModel {
                source_sqlite: source_sqlite->Ok_0,
                rows: rows->Ok_0,
                max_record_id: max_record_id->Ok_0,
                schema_version: schema_version->Ok_0,
                source_generation: source_generation->Ok_0,
                source_fingerprint: source_fingerprint->Ok_0,
                rollup_schema_version: rollup_schema_version->Ok_0,
                rollup_rules_version: rollup_rules_version->Ok_0,
                rollup_fingerprint: rollup_fingerprint->Ok_0,
                built_at: built_at->Ok_0,
            },
        )
    }
}

/// Reads what the entries record.
pub fn read_projection_meta(entries: &Vec<MetaEntry>, missing: &str) -> (r: Result<
    DuckProjectionMeta,
    String,
>)
    ensures
        match r {
            Ok(meta) => meta_of(entry_views(entries@), missing@) == Ok::<MetaModel, Seq<char>>(
                meta@,
            ),
            Err(e) => meta_of(entry_views(entries@), missing@) == Err::<MetaModel, Seq<char>>(e@),
        },
{
    let source_sqlite = match read_projection_meta_value(entries, "source_sqlite", missing) {
        Ok(value) => value,
        Err(e) => {
            return Err(e);
        },
    };
    let rows_text = match read_projection_meta_value(entries, "rows", missing) {
        Ok(value) => value,
        Err(e) => {
            return Err(e);
        },
    };
    let rows: u64 = match read_number(rows_text.as_str(), "Invalid projection row count: ") {
        Ok(value) => value,
        Err(e) => {
            return Err(e);
        },
    };
    let max_text = match read_projection_meta_value(entries, "max_record_id", missing) {
        Ok(value) => value,
        Err(_) => match read_projection_meta_value(entries, "max_id", missing) {
            Ok(value) => value,
            Err(e) => {
                return Err(e);
            },
        },
    };
    let max_record_id: u64 = match read_number(max_text.as_str(), "Invalid projection max record id: ") {
        Ok(value) => value,
        Err(e) => {
            return Err(e);
        },
    };
    let schema_version = match read_projection_meta_value(entries, "schema_version", missing) {
        Ok(value) => value,
        Err(e) => {
            return Err(e);
        },
    };
    let source_generation = match read_projection_meta_value(entries, "source_generation", missing) {
        Ok(value) => value,
        Err(e) => {
            return Err(e);
        },
    };
    let source_fingerprint = match read_projection_meta_value(entries, "source_fingerprint", missing) {
        Ok(value) => value,
        Err(e) => {
            return Err(e);
        },
    };
    let rollup_schema_version = match read_projection_meta_value(entries, "rollup_schema_version", missing) {
        Ok(value) => value,
        Err(e) => {
            return Err(e);
        },
    };
    let rollup_rules_version = match read_projection_meta_value(entries, "rollup_rules_version", missing) {
        Ok(value) => value,
        Err(e) => {
            return Err(e);
        },
    };
    let rollup_fingerprint = match read_projection_meta_value(entries, "rollup_fingerprint", missing) {
        Ok(value) => value,
        Err(e) => {
            return Err(e);
        },
    };
    let built_at = match read_projection_meta_value(entries, "built_at", missing) {
        Ok(value) => value,
        Err(e) => {
            return Err(e);
        },
    };
    Ok(
        DuckProjectionMeta {
            source_sqlite,
            rows,
            max_record_id,
            schema_version,
            source_generation,
            source_fingerprint,
            rollup_schema_version,
            rollup_rules_version,
            rollup_fingerprint,
            built_at,
        },
    )
}

/// A record of the layout and the rules that are in force.
pub open spec fn rules_fit(meta: MetaModel) -> bool {
    &&& meta.schema_version == PROJECTION_SCHEMA_VERSION@
    &&& meta.rollup_schema_version == ROLLUP_SCHEMA_VERSION@
    &&& meta.rollup_rules_version == ROLLUP_RULES_VERSION@
    &&& meta.rollup_fingerprint == hex_bytes(sha256_of(rollup_bytes()))
}

/// Whether a record is of the layout and the rules that are in force.
pub fn rules_are_current(meta: &DuckProjectionMeta) -> (r: bool)
    ensures
        r == rules_fit(meta@),
{
    let fingerprint = rollup_contract_fingerprint();
    same(meta.schema_version.as_str(), PROJECTION_SCHEMA_VERSION) && same(
        meta.rollup_schema_version.as_str(),
        ROLLUP_SCHEMA_VERSION,
    ) && same(meta.rollup_rules_version.as_str(), ROLLUP_RULES_VERSION) && same(
        meta.rollup_fingerprint.as_str(),
        fingerprint.as_str(),
    )
}

/// A record of the source as it is.
pub open spec fn source_fits(meta: MetaModel, generation: Seq<char>, fingerprint: Seq<char>) -> bool {
    meta.source_generation == generation && meta.source_fingerprint == fingerprint
}

/// Whether a projection answers for the source as it is: its layout and rules
/// are in force, and neither the generation nor the shape of the source has
/// changed.
pub fn projection_is_current(meta: &DuckProjectionMeta, source: &SourceContract) -> (r: bool)
    ensures
        r == (rules_fit(meta@) && source_fits(
            meta@,
            source.generation@,
            source.fingerprint@,
        )),
{
    rules_are_current(meta) && same(meta.source_generation.as_str(), source.generation.as_str())
        && same(meta.source_fingerprint.as_str(), source.fingerprint.as_str())
}

/// Where an entry stands first.
proof fn stands_first(entries: Seq<(Seq<char>, Seq<char>)>, key: Seq<char>, i: int)
    requires
        0 <= i < entries.len(),
        entries[i].0 == key,
        forall|j: int| 0 <= j < i ==> (#[trigger] entries[j]).0 != key,
    ensures
        recorded(entries, key) == Some(entries[i].1),
{
    let p = |k: int| entry_is(entries, key, k);
    assert(p(i));
    assert forall|j: int| 0 <= j < i implies !#[trigger] p(j) by {
        assert(entries[j].0 != key);
    }
    first_is(entries.len() as int, p, i);
}

/// The entry that a key belongs to, told by the key's length and, where two keys
/// are equally long, by its first character.
spec fn entry_of_key(key: Seq<char>) -> int {
    if key.len() == 4 {
        1
    } else if key.len() == 8 {
        9
    } else if key.len() == 13 {
        if key[0] == 's' {
            0
        } else {
            2
        }
    } else if key.len() == 14 {
        3
    } else if key.len() == 17 {
        4
    } else if key.len() == 18 {
        if key[0] == 's' {
            5
        } else {
            8
        }
    } else if key.len() == 20 {
        7
    } else {
        6
    }
}

/// The keys of the entries are all different.
proof fn keys_differ()
    ensures
        forall|i: int, j: int| 0 <= i < j < 10 ==> #[trigger] key_at(i) != #[trigger] key_at(j),
{
    reveal_strlit("source_sqlite");
    reveal_strlit("rows");
    reveal_strlit("max_record_id");
    reveal_strlit("schema_version");
    reveal_strlit("source_generation");
    reveal_strlit("source_fingerprint");
    reveal_strlit("rollup_schema_version");
    reveal_strlit("rollup_rules_version");
    reveal_strlit("rollup_fingerprint");
    reveal_strlit("built_at");
    assert forall|i: int| 0 <= i < 10 implies entry_of_key(#[trigger] key_at(i)) == i by {
    }
}

/// The key of the entry `i`.
pub open spec fn key_at(i: int) -> Seq<char> {
    written(""@, 0, 0, ""@, ""@, ""@)[i].0
}

/// What a projection records can be read back, and is what was recorded.
pub proof fn record_reads_back(
    source: Seq<char>,
    rows: nat,
    max_record_id: nat,
    generation: Seq<char>,
    fingerprint: Seq<char>,
    built_at: Seq<char>,
    missing: Seq<char>,
)
    requires
        rows <= u64::MAX,
        max_record_id <= u64::MAX,
    ensures
        meta_of(
            written(source, rows, max_record_id, generation, fingerprint, built_at),
            missing,
        ) == Ok::<MetaModel, Seq<char>>(
            MetaModel {
                source_sqlite: source,
                rows,
                max_record_id,
                schema_version: PROJECTION_SCHEMA_VERSION@,
                source_generation: generation,
                source_fingerprint: fingerprint,
                rollup_schema_version: ROLLUP_SCHEMA_VERSION@,
                rollup_rules_version: ROLLUP_RULES_VERSION@,
                rollup_fingerprint: hex_bytes(sha256_of(rollup_bytes())),
                built_at,
            },
        ),
{
    let entries = written(source, rows, max_record_id, generation, fingerprint, built_at);
    keys_differ();
    assert forall|i: int| 0 <= i < 10 implies recorded(entries, #[trigger] key_at(i)) == Some(
        entries[i].1,
    ) by {
        assert(entries[i].0 == key_at(i));
        assert forall|j: int| 0 <= j < i implies (#[trigger] entries[j]).0 != key_at(i) by {
            assert(entries[j].0 == key_at(j));
        }
        stands_first(entries, key_at(i), i);
    }
    assert(key_at(0) == "source_sqlite"@);
    assert(key_at(1) == "rows"@);
    assert(key_at(2) == "max_record_id"@);
    assert(key_at(3) == "schema_version"@);
    assert(key_at(4) == "source_generation"@);
    assert(key_at(5) == "source_fingerprint"@);
    assert(key_at(6) == "rollup_schema_version"@);
    assert(key_at(7) == "rollup_rules_version"@);
    assert(key_at(8) == "rollup_fingerprint"@);
    assert(key_at(9) == "built_at"@);
    unsigned_round_trip(rows, u64::MAX as nat);
    unsigned_round_trip(max_record_id, u64::MAX as nat);
}

/// A projection that was just built answers for its source, and no longer does
/// once the generation or the shape of the source has changed.
pub proof fn fresh_projection_is_current(
    source: Seq<char>,
    rows: nat,
    max_record_id: nat,
    generation: Seq<char>,
    fingerprint: Seq<char>,
    built_at: Seq<char>,
    missing: Seq<char>,
    meta: MetaModel,
)
    requires
        rows <= u64::MAX,
        max_record_id <= u64::MAX,
        meta_of(
            written(source, rows, max_record_id, generation, fingerprint, built_at),
            missing,
        ) == Ok::<MetaModel, Seq<char>>(meta),
    ensures
        rules_fit(meta),
        source_fits(meta, generation, fingerprint),
        forall|g: Seq<char>, f: Seq<char>|
            #![trigger source_fits(meta, g, f)]
            g != generation || f != fingerprint ==> !source_fits(meta, g, f),
{
    record_reads_back(source, rows, max_record_id, generation, fingerprint, built_at, missing);
}

/// The tables of the rollups.
pub const ROLLUP_TABLES: [&'static str; 5] = [
    "rollup_overview",
    "rollup_monthly",
    "rollup_sections",
    "rollup_currency_totals",
    "rollup_price_per_kg_baselines",
];

/// Whether a rollup table is not there exactly once.
pub open spec fn table_missing(counts: Seq<i64>, i: int) -> bool {
    counts[i] != 1
}

/// Refuses a projection without all its rollups, given how many tables there
/// are of each name.
pub fn require_rollup_schema(counts: &[i64; 5]) -> (r: Result<(), String>)
    ensures
        match first_upto(5, |i: int| table_missing(counts@, i)) {
            None => r is Ok,
            Some(k) => r is Err && r->Err_0@ == "DuckDB rollup table "@ + ROLLUP_TABLES@[k]@
                + " is missing."@,
        },
{
    let ghost p = |i: int| table_missing(counts@, i);
    let mut i: usize = 0;
    while i < 5
        invariant
            i <= 5,
            p == (|i: int| table_missing(counts@, i)),
            forall|j: int| 0 <= j < i ==> !#[trigger] p(j),
        decreases 5 - i,
    {
        if counts[i] != 1 {
            proof {
                assert(p(i as int));
                first_is(5, p, i as int);
            }
            let mut message = String::from_str("DuckDB rollup table ");
            message.append(ROLLUP_TABLES[i]);
            message.append(" is missing.");
            return Err(message);
        }
        assert(!p(i as int));
        i += 1;
    }
    proof {
        none_found(5, p);
    }
    Ok(())
}

/// Refuses rollups that count other rows than the detail.
pub fn validate_rollups(
    detail_rows: u64,
    occurrence_rows: u64,
    canonical_detail_rows: u64,
    canonical_rollup_rows: u64,
) -> (r: Result<(), String>)
    ensures
        r is Ok <==> detail_rows == occurrence_rows && canonical_detail_rows
            == canonical_rollup_rows,
        r is Err ==> r->Err_0@ == "DuckDB rollup validation failed: detail="@ + decimal(
            detail_rows as nat,
        ) + "/"@ + decimal(canonical_detail_rows as nat) + ", rollup="@ + decimal(
            occurrence_rows as nat,
        ) + "/"@ + decimal(canonical_rollup_rows as nat) + "."@,
{
    if detail_rows == occurrence_rows && canonical_detail_rows == canonical_rollup_rows {
        return Ok(());
    }
    let mut message = String::from_str("DuckDB rollup validation failed: detail=");
    message.append(decimal_text(detail_rows).as_str());
    message.append("/");
    message.append(decimal_text(canonical_detail_rows).as_str());
    message.append(", rollup=");
    message.append(decimal_text(occurrence_rows).as_str());
    message.append("/");
    message.append(decimal_text(canonical_rollup_rows).as_str());
    message.append(".");
    Err(message)
}

/// Refuses a source whose change notes are missing: the statement that prepares
/// its generation has to change one row.
pub fn prepare_source_generation(changed: u64) -> (r: Result<(), String>)
    ensures
        r is Ok <==> changed == 1,
        r is Err ==> r->Err_0@
            == "SQLite projection tracking state is missing or incompatible."@,
{
    if changed == 1 {
        Ok(())
    } else {
        Err(String::from_str("SQLite projection tracking state is missing or incompatible."))
    }
}

/// A projection of other rules is not current: each version it records must be the
/// present one, and a source of another generation or fingerprint does not fit it.
pub proof fn a_projection_of_other_rules_is_not_current(
    meta: MetaModel,
    generation: Seq<char>,
    fingerprint: Seq<char>,
)
    ensures
        rules_fit(meta) ==> meta.schema_version == "8"@ && meta.rollup_schema_version == "3"@
            && meta.rollup_rules_version == "2"@ && meta.rollup_fingerprint == hex_bytes(
            sha256_of(rollup_bytes()),
        ),
        meta.source_generation != generation ==> !source_fits(meta, generation, fingerprint),
        meta.source_fingerprint != fingerprint ==> !source_fits(meta, generation, fingerprint),
        source_fits(meta, meta.source_generation, meta.source_fingerprint),
{
}

} // verus!
