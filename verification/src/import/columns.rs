//! The columns of a table once a person's decisions are applied.
use vstd::prelude::*;
use vstd::string::*;

use crate::counting::{all_listed, all_upto, count_upto};
use crate::import::mapping::{sources, ColSrc, Source};
use crate::import::meanings::Meanings;
use crate::import::options::{same_sources, Overrides};
use crate::number::{decimal, decimal_text};
use crate::ordered::{entry_value, has_key, keyed, OrderedMap};
use crate::schema::Schema;
use crate::table::{
    column_id, role_of_id, semantic_label, semantic_name, semantic_of_id, shaped_column,
    shaped_header, shaped_id, ColumnStorage, SemanticField, SourceColumn, TableShape,
};
use crate::text::{copy_texts, views};

verus! {

/// A source reads column `i`.
pub open spec fn reads(source: Source, i: usize) -> bool {
    match source {
        Source::Cell(j) => j == i,
        Source::Join(parts, _) => parts.contains(i),
        _ => false,
    }
}

/// Some columns without column `i`.
pub open spec fn other_columns(parts: Seq<usize>, i: usize) -> Seq<usize>
    decreases parts.len(),
{
    if parts.len() == 0 {
        Seq::empty()
    } else if parts.last() == i {
        other_columns(parts.drop_last(), i)
    } else {
        other_columns(parts.drop_last(), i).push(parts.last())
    }
}

/// The other columns are the columns but for the one left out.
proof fn other_columns_hold(parts: Seq<usize>, i: usize, j: usize)
    ensures
        other_columns(parts, i).contains(j) == (parts.contains(j) && j != i),
    decreases parts.len(),
{
    if parts.len() > 0 {
        let start = parts.drop_last();
        other_columns_hold(start, i, j);
        let before = other_columns(start, i);
        let after = other_columns(parts, i);
        if start.contains(j) {
            let k = choose|k: int| 0 <= k < start.len() && start[k] == j;
            assert(parts[k] == j);
        }
        if before.contains(j) && parts.last() != i {
            let k = choose|k: int| 0 <= k < before.len() && before[k] == j;
            assert(after[k] == j);
        }
        if parts.last() == j {
            assert(parts[parts.len() - 1] == j);
            if j != i {
                assert(after[after.len() - 1] == j);
            }
        }
        if after.contains(j) && parts.last() != i {
            let k = choose|k: int| 0 <= k < after.len() && after[k] == j;
            if k < before.len() {
                assert(before[k] == j);
            }
        }
        if parts.contains(j) {
            let k = choose|k: int| 0 <= k < parts.len() && parts[k] == j;
            if k < start.len() {
                assert(start[k] == j);
            }
        }
    }
}

/// A source without column `i`: of a join the other parts stay.
pub open spec fn without_column(source: Source, i: usize) -> Source {
    match source {
        Source::Cell(j) => if j == i {
            Source::Missing
        } else {
            source
        },
        Source::Join(parts, sep) => {
            let rest = other_columns(parts, i);
            if rest.len() == 0 {
                Source::Missing
            } else if rest.len() == 1 {
                Source::Cell(rest[0])
            } else {
                Source::Join(rest, sep)
            }
        },
        _ => source,
    }
}

/// Once a column is taken out of a source, the source does not read it, and
/// reads no column that it did not read before.
pub proof fn column_is_taken_out(source: Source, i: usize, j: usize)
    ensures
        !reads(without_column(source, i), i),
        reads(without_column(source, i), j) ==> reads(source, j),
{
    match source {
        Source::Join(parts, _) => {
            let rest = other_columns(parts, i);
            other_columns_hold(parts, i, i);
            other_columns_hold(parts, i, j);
            assert(rest.len() == 1 ==> rest.contains(rest[0]));
        },
        _ => {},
    }
}

/// Takes a column out of a source.
pub fn remove_source_from_mapping(source: &ColSrc, source_index: usize) -> (r: ColSrc)
    ensures
        r@ == without_column(source@, source_index),
{
    match source {
        ColSrc::Missing => ColSrc::Missing,
        ColSrc::Fixed(value) => ColSrc::Fixed(value.clone()),
        ColSrc::Cell(index) => if *index == source_index {
            ColSrc::Missing
        } else {
            ColSrc::Cell(*index)
        },
        ColSrc::Join(parts, separator) => {
            let mut remaining: Vec<usize> = Vec::new();
            let mut k: usize = 0;
            while k < parts.len()
                invariant
                    k <= parts@.len(),
                    remaining@ == other_columns(parts@.take(k as int), source_index),
                decreases parts.len() - k,
            {
                assert(parts@.take(k + 1).drop_last() =~= parts@.take(k as int));
                assert(parts@.take(k + 1).last() == parts@[k as int]);
                if parts[k] != source_index {
                    remaining.push(parts[k]);
                }
                k += 1;
            }
            assert(parts@.take(k as int) =~= parts@);
            if remaining.len() == 0 {
                ColSrc::Missing
            } else if remaining.len() == 1 {
                ColSrc::Cell(remaining[0])
            } else {
                ColSrc::Join(remaining, *separator)
            }
        },
    }
}

/// Every source without column `i`.
pub open spec fn all_without(start: Seq<Source>, i: usize) -> Seq<Source> {
    start.map_values(|s: Source| without_column(s, i))
}

/// Takes a column out of every source.
fn remove_from_all(mapping: &Vec<ColSrc>, source_index: usize) -> (r: Vec<ColSrc>)
    ensures
        sources(r@) == all_without(sources(mapping@), source_index),
{
    let mut out: Vec<ColSrc> = Vec::new();
    let mut t: usize = 0;
    while t < mapping.len()
        invariant
            t <= mapping@.len(),
            sources(out@) == all_without(sources(mapping@), source_index).take(t as int),
        decreases mapping.len() - t,
    {
        let next = remove_source_from_mapping(&mapping[t], source_index);
        let ghost before = out@;
        out.push(next);
        assert(sources(out@) =~= sources(before).push(next@));
        assert(sources(out@) =~= all_without(sources(mapping@), source_index).take(t + 1));
        t += 1;
    }
    assert(all_without(sources(mapping@), source_index).take(t as int) =~= all_without(
        sources(mapping@),
        source_index,
    ));
    out
}

/// Sources on the way through a person's decisions, and the column that each
/// canonical column was given to.
pub struct Decided {
    pub sources: Seq<Source>,
    pub given: Map<int, usize>,
}

/// One decision applied: column `i` is taken out everywhere, and becomes the
/// source of the column that its meaning is stored in.
pub open spec fn decide(
    schema: Schema,
    width: int,
    state: Decided,
    i: usize,
    meaning: Option<SemanticField>,
) -> Result<Decided, Seq<char>> {
    let cleared = all_without(state.sources, i);
    if i >= width {
        Err(
            "Column "@ + decimal((i + 1) as nat) + " is outside the detected table width of "@
                + decimal(width as nat) + "."@,
        )
    } else {
        match meaning {
            None => Ok(Decided { sources: cleared, given: state.given }),
            Some(semantic) => match schema.storage_name(semantic) {
                None => Ok(Decided { sources: cleared, given: state.given }),
                Some(name) => match schema.place(name) {
                    None => Err(
                        "No canonical storage column exists for "@ + semantic_label(semantic)
                            + "."@,
                    ),
                    Some(t) => if state.given.contains_key(t) {
                        Err(
                            "Columns "@ + decimal((state.given[t] + 1) as nat) + " and "@ + decimal(
                                (i + 1) as nat,
                            ) + " are both mapped to "@ + semantic_label(semantic) + "."@,
                        )
                    } else {
                        Ok(
                            Decided {
                                sources: cleared.update(t, Source::Cell(i)),
                                given: state.given.insert(t, i),
                            },
                        )
                    },
                },
            },
        }
    }
}

/// All decisions applied in the order of their columns.
pub open spec fn decided(
    schema: Schema,
    width: int,
    start: Seq<Source>,
    decisions: Seq<(usize, Option<SemanticField>)>,
) -> Result<Decided, Seq<char>>
    decreases decisions.len(),
{
    if decisions.len() == 0 {
        Ok(Decided { sources: start, given: Map::empty() })
    } else {
        match decided(schema, width, start, decisions.drop_last()) {
            Err(e) => Err(e),
            Ok(state) => decide(
                schema,
                width,
                state,
                decisions.last().0,
                decisions.last().1,
            ),
        }
    }
}

/// The sources that a person's decisions give.
pub open spec fn decided_sources(
    schema: Schema,
    width: int,
    start: Seq<Source>,
    decisions: Seq<(usize, Option<SemanticField>)>,
) -> Result<Seq<Source>, Seq<char>> {
    match decided(schema, width, start, decisions) {
        Ok(state) => Ok(state.sources),
        Err(e) => Err(e),
    }
}

/// A refusal among the first decisions is the refusal of all.
proof fn refusal_stays(
    schema: Schema,
    width: int,
    start: Seq<Source>,
    decisions: Seq<(usize, Option<SemanticField>)>,
    n: int,
)
    requires
        0 <= n <= decisions.len(),
        decided(schema, width, start, decisions.take(n)) is Err,
    ensures
        decided(schema, width, start, decisions) == decided(
            schema,
            width,
            start,
            decisions.take(n),
        ),
    decreases decisions.len() - n,
{
    if n < decisions.len() {
        assert(decisions.take(n + 1).drop_last() =~= decisions.take(n));
        refusal_stays(schema, width, start, decisions, n + 1);
    } else {
        assert(decisions.take(n) =~= decisions);
    }
}

/// Applies a person's decisions about the meanings of columns.
pub fn apply_semantic_overrides(
    schema: &Schema,
    headers: &Vec<String>,
    mapping: Vec<ColSrc>,
    overrides: &Overrides,
) -> (r: Result<Vec<ColSrc>, String>)
    requires
        overrides.wf(),
        mapping@.len() == schema.columns@.len(),
        forall|j: int|
            0 <= j < overrides.entries@.len() ==> (#[trigger] overrides.entries@[j]).0
                < usize::MAX,
    ensures
        same_sources(
            r,
            decided_sources(
                *schema,
                headers@.len() as int,
                sources(mapping@),
                overrides.entries@,
            ),
        ),
        r matches Ok(v) ==> v@.len() == mapping@.len(),
{
    let ghost start = sources(mapping@);
    let ghost width = headers@.len() as int;
    let ghost decisions = overrides.entries@;
    let mut current = mapping;
    let mut given: OrderedMap<usize, usize> = OrderedMap::new();
    let ghost mut state = Decided { sources: start, given: Map::empty() };
    let mut k: usize = 0;
    assert(decisions.take(0) =~= Seq::<(usize, Option<SemanticField>)>::empty());
    while k < overrides.entries.len()
        invariant
            overrides.wf(),
            decisions == overrides.entries@,
            width == headers@.len(),
            k <= decisions.len(),
            current@.len() == schema.columns@.len(),
            mapping@.len() == schema.columns@.len(),
            start == sources(mapping@),
            forall|j: int|
                0 <= j < decisions.len() ==> (#[trigger] decisions[j]).0 < usize::MAX,
            decided(*schema, width, start, decisions.take(k as int)) == Ok::<Decided, Seq<char>>(
                state,
            ),
            sources(current@) == state.sources,
            given.wf(),
            forall|t: usize| given@.contains_key(t) == #[trigger] state.given.contains_key(t as int),
            forall|t: usize| #[trigger]
                given@.contains_key(t) ==> given@[t] == state.given[t as int] && given@[t]
                    < usize::MAX,
        decreases overrides.entries.len() - k,
    {
        let ghost upto = decisions.take(k + 1);
        assert(upto.drop_last() =~= decisions.take(k as int));
        assert(upto.last() == decisions[k as int]);
        let (source_index, meaning) = (overrides.entries[k].0, overrides.entries[k].1);
        if source_index >= headers.len() {
            let mut message = String::from_str("Column ");
            message.append(decimal_text((source_index + 1) as u64).as_str());
            message.append(" is outside the detected table width of ");
            message.append(decimal_text(headers.len() as u64).as_str());
            message.append(".");
            proof {
                refusal_stays(*schema, width, start, decisions, k + 1);
            }
            return Err(message);
        }
        current = remove_from_all(&current, source_index);
        assert(sources(current@).len() == current@.len());
        match meaning {
            None => {
                proof {
                    state = Decided { sources: sources(current@), given: state.given };
                }
            },
            Some(semantic) => match schema.column_for_semantic(semantic) {
                None => {
                    proof {
                        state = Decided { sources: sources(current@), given: state.given };
                    }
                },
                Some(name) => match schema.position(name) {
                    None => {
                        let mut message = String::from_str(
                            "No canonical storage column exists for ",
                        );
                        message.append(semantic_name(semantic));
                        message.append(".");
                        proof {
                            refusal_stays(*schema, width, start, decisions, k + 1);
                        }
                        return Err(message);
                    },
                    Some(target) => {
                        match given.get(&target) {
                            Some(previous) => {
                                let mut message = String::from_str("Columns ");
                                message.append(decimal_text((*previous + 1) as u64).as_str());
                                message.append(" and ");
                                message.append(decimal_text((source_index + 1) as u64).as_str());
                                message.append(" are both mapped to ");
                                message.append(semantic_name(semantic));
                                message.append(".");
                                proof {
                                    assert(state.given.contains_key(target as int));
                                    refusal_stays(*schema, width, start, decisions, k + 1);
                                }
                                return Err(message);
                            },
                            None => {},
                        }
                        assert(!state.given.contains_key(target as int));
                        let ghost cleared = sources(current@);
                        current[target] = ColSrc::Cell(source_index);
                        given.insert(target, source_index);
                        proof {
                            assert(sources(current@) =~= cleared.update(
                                target as int,
                                Source::Cell(source_index),
                            ));
                            state = Decided {
                                sources: sources(current@),
                                given: state.given.insert(target as int, source_index),
                            };
                        }
                    },
                },
            },
        }
        k += 1;
    }
    assert(decisions.take(k as int) =~= decisions);
    Ok(current)
}

/// The columns of some decisions ascend.
pub open spec fn decisions_ascend(decisions: Seq<(usize, Option<SemanticField>)>) -> bool {
    forall|a: int, b: int|
        0 <= a < b < decisions.len() ==> (#[trigger] decisions[a]).0 < (#[trigger] decisions[b]).0
}

/// A decision stands once all are applied: the canonical column of its meaning
/// reads the decided column, and no other canonical column reads it.
pub proof fn decision_stands(
    schema: Schema,
    width: int,
    start: Seq<Source>,
    decisions: Seq<(usize, Option<SemanticField>)>,
    k: int,
    t: int,
)
    requires
        decisions_ascend(decisions),
        start.len() == schema.columns@.len(),
        decided(schema, width, start, decisions) is Ok,
        0 <= k < decisions.len(),
        0 <= t < start.len(),
    ensures
        decided(schema, width, start, decisions)->Ok_0.sources.len() == start.len(),
        reads(decided(schema, width, start, decisions)->Ok_0.sources[t], decisions[k].0) == (
        decisions[k].1 matches Some(semantic) && schema.target(semantic) == Some(t)),
        (decisions[k].1 matches Some(semantic) && schema.target(semantic) == Some(t)) ==> decided(
            schema,
            width,
            start,
            decisions,
        )->Ok_0.sources[t] == Source::Cell(decisions[k].0),
        (decisions[k].1 matches Some(semantic) && schema.target(semantic) == Some(t)) ==> decided(
            schema,
            width,
            start,
            decisions,
        )->Ok_0.given.contains_key(t),
    decreases decisions.len(),
{
    let before = decisions.drop_last();
    let last = decisions.last();
    let prev = decided(schema, width, start, before)->Ok_0;
    let state = decided(schema, width, start, decisions)->Ok_0;
    decided_keeps_length(schema, width, start, before);
    column_is_taken_out(prev.sources[t], last.0, last.0);
    match last.1 {
        Some(semantic) => match schema.storage_name(semantic) {
            Some(name) => {
                crate::schema::place_in_range(schema.columns@, name);
            },
            None => {},
        },
        None => {},
    }
    if k < before.len() {
        decision_stands(schema, width, start, before, k, t);
        column_is_taken_out(prev.sources[t], last.0, decisions[k].0);
        assert(before[k] == decisions[k]);
        assert(decisions[k].0 < decisions[decisions.len() - 1].0);
    }
}

/// Where a column is not among some, the others are all of them.
proof fn no_column_left_out(parts: Seq<usize>, i: usize)
    requires
        !parts.contains(i),
    ensures
        other_columns(parts, i) == parts,
    decreases parts.len(),
{
    if parts.len() > 0 {
        let start = parts.drop_last();
        assert(parts[parts.len() - 1] != i);
        assert forall|k: int| 0 <= k < start.len() implies start[k] != i by {
            assert(parts[k] == start[k]);
        }
        no_column_left_out(start, i);
        assert(start.push(parts.last()) =~= parts);
    }
}

/// Whether a decision touches canonical column `t`: it is about a column that its
/// source reads, or it gives a column the meaning that `t` stores.
pub open spec fn touches(
    schema: Schema,
    source: Source,
    decision: (usize, Option<SemanticField>),
    t: int,
) -> bool {
    reads(source, decision.0) || (decision.1 matches Some(semantic) && schema.target(semantic)
        == Some(t))
}

/// A canonical column that no decision touches is read from where it was read
/// before. (A join has two columns or more.)
pub proof fn untouched_source_stays(
    schema: Schema,
    width: int,
    start: Seq<Source>,
    decisions: Seq<(usize, Option<SemanticField>)>,
    t: int,
)
    requires
        start.len() == schema.columns@.len(),
        decided(schema, width, start, decisions) is Ok,
        0 <= t < start.len(),
        start[t] matches Source::Join(parts, _) ==> parts.len() >= 2,
        forall|k: int|
            0 <= k < decisions.len() ==> !touches(schema, start[t], #[trigger] decisions[k], t),
    ensures
        decided(schema, width, start, decisions)->Ok_0.sources.len() == start.len(),
        decided(schema, width, start, decisions)->Ok_0.sources[t] == start[t],
    decreases decisions.len(),
{
    if decisions.len() > 0 {
        let before = decisions.drop_last();
        let last = decisions.last();
        assert forall|k: int| 0 <= k < before.len() implies !touches(
            schema,
            start[t],
            #[trigger] before[k],
            t,
        ) by {
            assert(decisions[k] == before[k]);
        }
        untouched_source_stays(schema, width, start, before, t);
        decided_keeps_length(schema, width, start, decisions);
        assert(!touches(schema, start[t], decisions[decisions.len() - 1], t));
        match start[t] {
            Source::Join(parts, _) => {
                no_column_left_out(parts, last.0);
            },
            _ => {},
        }
        assert(without_column(start[t], last.0) == start[t]);
        match last.1 {
            Some(semantic) => match schema.storage_name(semantic) {
                Some(name) => {
                    crate::schema::place_in_range(schema.columns@, name);
                },
                None => {},
            },
            None => {},
        }
    }
}

/// Applying decisions keeps the number of sources.
proof fn decided_keeps_length(
    schema: Schema,
    width: int,
    start: Seq<Source>,
    decisions: Seq<(usize, Option<SemanticField>)>,
)
    requires
        start.len() == schema.columns@.len(),
    ensures
        decided(schema, width, start, decisions) matches Ok(state) ==> state.sources.len()
            == start.len(),
    decreases decisions.len(),
{
    if decisions.len() > 0 {
        decided_keeps_length(schema, width, start, decisions.drop_last());
        match decisions.last().1 {
            Some(semantic) => match schema.storage_name(semantic) {
                Some(name) => {
                    crate::schema::place_in_range(schema.columns@, name);
                },
                None => {},
            },
            None => {},
        }
    }
}

/// The meanings once a person's decisions replace the inferred ones.
pub open spec fn decided_meanings(
    inferred: Map<usize, SemanticField>,
    decisions: Map<usize, Option<SemanticField>>,
) -> Map<usize, SemanticField> {
    Map::new(
        |c: usize|
            if decisions.contains_key(c) {
                decisions[c] is Some
            } else {
                inferred.contains_key(c)
            },
        |c: usize|
            if decisions.contains_key(c) {
                decisions[c]->0
            } else {
                inferred[c]
            },
    )
}

/// Copies some meanings.
fn copy_meanings(meanings: &Meanings) -> (r: Meanings)
    requires
        meanings.wf(),
    ensures
        r.wf(),
        r@ == meanings@,
{
    let ghost entries = meanings.entries@;
    let mut out: Vec<(usize, SemanticField)> = Vec::new();
    let mut i: usize = 0;
    while i < meanings.entries.len()
        invariant
            i <= meanings.entries@.len(),
            out@ == meanings.entries@.take(i as int),
        decreases meanings.entries.len() - i,
    {
        out.push((meanings.entries[i].0, meanings.entries[i].1));
        assert(out@ =~= meanings.entries@.take(i + 1));
        i += 1;
    }
    assert(meanings.entries@.take(i as int) =~= meanings.entries@);
    OrderedMap { entries: out }
}

/// Replaces inferred meanings by decided ones.
pub fn semantics_with_overrides(inferred: &Meanings, overrides: &Overrides) -> (r: Meanings)
    requires
        inferred.wf(),
        overrides.wf(),
    ensures
        r.wf(),
        r@ == decided_meanings(inferred@, overrides@),
{
    let ghost entries = overrides.entries@;
    let mut out = copy_meanings(inferred);
    let mut i: usize = 0;
    while i < overrides.entries.len()
        invariant
            overrides.wf(),
            entries == overrides.entries@,
            i <= entries.len(),
            out.wf(),
            forall|c: usize|
                #![trigger out@.contains_key(c)]
                (exists|j: int| 0 <= j < i && keyed(entries, j, c)) ==> out@.contains_key(c) == (
                overrides@[c] is Some) && (out@.contains_key(c) ==> out@[c] == overrides@[c]->0),
            forall|c: usize|
                #![trigger out@.contains_key(c)]
                !(exists|j: int| 0 <= j < i && keyed(entries, j, c)) ==> out@.contains_key(c)
                    == inferred@.contains_key(c) && (out@.contains_key(c) ==> out@[c]
                    == inferred@[c]),
        decreases overrides.entries.len() - i,
    {
        let (column, meaning) = (overrides.entries[i].0, overrides.entries[i].1);
        let ghost before = out@;
        proof {
            entry_value(entries, i as int);
        }
        match meaning {
            Some(semantic) => {
                out.insert(column, semantic);
            },
            None => {
                out.remove(&column);
            },
        }
        proof {
            assert(keyed(entries, i as int, column));
            assert forall|c: usize|
                #![trigger out@.contains_key(c)]
                (exists|j: int| 0 <= j < i + 1 && keyed(entries, j, c)) implies out@.contains_key(c)
                == (overrides@[c] is Some) && (out@.contains_key(c) ==> out@[c]
                == overrides@[c]->0) by {
                let j = choose|j: int| 0 <= j < i + 1 && keyed(entries, j, c);
                if c != column {
                    assert(j < i);
                    assert(before.contains_key(c) == out@.contains_key(c));
                }
            }
            assert forall|c: usize|
                #![trigger out@.contains_key(c)]
                !(exists|j: int| 0 <= j < i + 1 && keyed(entries, j, c)) implies out@.contains_key(c)
                == inferred@.contains_key(c) && (out@.contains_key(c) ==> out@[c] == inferred@[c]) by {
                assert(c != column);
                assert(before.contains_key(c) == out@.contains_key(c));
                assert(!(exists|j: int| 0 <= j < i && keyed(entries, j, c)));
            }
        }
        i += 1;
    }
    proof {
        assert forall|c: usize| overrides@.contains_key(c) == (exists|j: int|
            0 <= j < i && keyed(entries, j, c)) by {
            assert(overrides@.contains_key(c) == has_key(entries, c));
        }
        assert forall|c: usize| #[trigger]
            out@.contains_key(c) == decided_meanings(inferred@, overrides@).contains_key(c) by {}
        assert(out@ =~= decided_meanings(inferred@, overrides@));
    }
    out
}

/// Some canonical column holds column `i` by itself.
pub open spec fn consumed(mapping: Seq<Source>, i: int) -> bool {
    exists|t: int| 0 <= t < mapping.len() && #[trigger] mapping[t] == Source::Cell(i as usize)
}

/// The columns that no canonical column holds by itself.
pub open spec fn unmapped(mapping: Seq<Source>, n: int) -> Seq<usize> {
    all_upto(n, |i: int| !consumed(mapping, i))
}

/// Source columns the mapping does not consume, paired with their header names,
/// in file order. These are preserved per row in the `extra` payload so the app
/// keeps every column, not only fields with inferred semantics.
pub fn unmapped_columns(headers: &Vec<String>, mapping: &Vec<ColSrc>) -> (r: Vec<(usize, String)>)
    ensures
        r@.len() == unmapped(sources(mapping@), headers@.len() as int).len(),
        forall|k: int|
            0 <= k < r@.len() ==> (#[trigger] r@[k]).0 == unmapped(
                sources(mapping@),
                headers@.len() as int,
            )[k] && r@[k].1@ == shaped_header(views(headers@), r@[k].0 as int),
{
    let ghost n = headers@.len() as int;
    let ghost p = |i: int| !consumed(sources(mapping@), i);
    let shape = TableShape::from_headers(copy_texts(headers));
    let mut out: Vec<(usize, String)> = Vec::new();
    let mut i: usize = 0;
    while i < headers.len()
        invariant
            i <= headers@.len(),
            shape.columns@.len() == headers@.len(),
            forall|j: int|
                0 <= j < headers@.len() ==> shaped_column(
                    views(headers@),
                    j,
                    #[trigger] shape.columns@[j],
                ),
            p == (|i: int| !consumed(sources(mapping@), i)),
            out@.len() == all_upto(i as int, p).len(),
            forall|k: int|
                0 <= k < out@.len() ==> (#[trigger] out@[k]).0 == all_upto(i as int, p)[k]
                    && out@[k].1@ == shaped_header(views(headers@), out@[k].0 as int),
        decreases headers.len() - i,
    {
        let mut taken = false;
        let mut t: usize = 0;
        while t < mapping.len()
            invariant
                t <= mapping@.len(),
                taken == exists|s: int|
                    0 <= s < t && #[trigger] sources(mapping@)[s] == Source::Cell(i),
            decreases mapping.len() - t,
        {
            assert(sources(mapping@)[t as int] == mapping@[t as int]@);
            match &mapping[t] {
                ColSrc::Cell(j) => {
                    if *j == i {
                        taken = true;
                    }
                },
                _ => {},
            }
            t += 1;
        }
        assert(taken == consumed(sources(mapping@), i as int));
        if !taken {
            assert(shaped_column(views(headers@), i as int, shape.columns@[i as int]));
            out.push((i, shape.columns[i].header.clone()));
        }
        i += 1;
    }
    out
}

/// No column is lost: each is held by a canonical column or kept beside them.
pub proof fn no_column_is_lost(mapping: Seq<Source>, n: int, i: int)
    requires
        0 <= i < n <= usize::MAX,
    ensures
        consumed(mapping, i) != unmapped(mapping, n).contains(i as usize),
{
    let p = |i: int| !consumed(mapping, i);
    all_listed(n, p);
    if unmapped(mapping, n).contains(i as usize) {
        let k = choose|k: int|
            0 <= k < unmapped(mapping, n).len() && unmapped(mapping, n)[k] == i as usize;
        assert(p(all_upto(n, p)[k] as int));
    } else if !consumed(mapping, i) {
        assert(p(i));
    }
}

/// A source that reads some column.
pub open spec fn recognized(source: Source) -> bool {
    source is Cell || source is Join
}

/// How many canonical columns are filled from the table.
pub fn recognized_columns(mapping: &Vec<ColSrc>) -> (r: usize)
    ensures
        r == count_upto(mapping@.len() as int, |t: int| recognized(sources(mapping@)[t])),
        r <= mapping@.len(),
{
    let ghost p = |t: int| recognized(sources(mapping@)[t]);
    let mut count: usize = 0;
    let mut t: usize = 0;
    while t < mapping.len()
        invariant
            t <= mapping@.len(),
            p == (|t: int| recognized(sources(mapping@)[t])),
            count <= t,
            count == count_upto(t as int, p),
        decreases mapping.len() - t,
    {
        assert(sources(mapping@)[t as int] == mapping@[t as int]@);
        match &mapping[t] {
            ColSrc::Cell(_) => {
                count += 1;
            },
            ColSrc::Join(_, _) => {
                count += 1;
            },
            _ => {},
        }
        t += 1;
    }
    count
}

/// What the sources of the canonical columns say of one column: its meaning,
/// and the name of the canonical column that holds it.
pub struct Placement {
    pub semantic: Option<SemanticField>,
    pub held_by: Option<Seq<char>>,
}

/// Column `i` after the first `n` canonical columns. A part of a joined column
/// stays a source column of its own, without the meaning of the whole.
pub open spec fn placement(
    schema: Schema,
    mapping: Seq<Source>,
    i: usize,
    start: Option<SemanticField>,
    n: int,
) -> Placement
    decreases n,
{
    if n <= 0 {
        Placement { semantic: start, held_by: None }
    } else {
        let before = placement(schema, mapping, i, start, n - 1);
        let name = schema.columns@[n - 1].name@;
        match mapping[n - 1] {
            Source::Join(parts, _) => if parts.contains(i) {
                Placement { semantic: None, held_by: None }
            } else {
                before
            },
            Source::Cell(j) => if j == i {
                Placement {
                    semantic: if schema.semantic_of(name) is Some {
                        schema.semantic_of(name)
                    } else {
                        before.semantic
                    },
                    held_by: Some(name),
                }
            } else {
                before
            },
            _ => before,
        }
    }
}

/// `storage` is the canonical column of a name, or the source row itself.
pub open spec fn stored_in(storage: ColumnStorage, held_by: Option<Seq<char>>) -> bool {
    match storage {
        ColumnStorage::SourceJson => held_by is None,
        ColumnStorage::SchemaColumn(name) => held_by == Some(name@),
    }
}

/// The meaning that a column starts from: the inferred one where meanings were
/// inferred, otherwise the one of its header.
pub open spec fn starting_meaning(
    own: Option<SemanticField>,
    inferred: Option<Map<usize, SemanticField>>,
    i: usize,
) -> Option<SemanticField> {
    match inferred {
        Some(m) => if m.contains_key(i) {
            Some(m[i])
        } else {
            None
        },
        None => own,
    }
}

/// `column` is what the headers, the sources, the inferred meanings and the
/// decisions say of column `i`.
pub open spec fn placed_column(
    schema: Schema,
    headers: Seq<Seq<char>>,
    mapping: Seq<Source>,
    inferred: Option<Map<usize, SemanticField>>,
    decisions: Map<usize, Option<SemanticField>>,
    i: usize,
    column: SourceColumn,
) -> bool {
    let role = role_of_id(column_id(shaped_header(headers, i as int), 0));
    let own = semantic_of_id(shaped_id(headers, i as int), role);
    let place = placement(
        schema,
        mapping,
        i,
        starting_meaning(own, inferred, i),
        mapping.len() as int,
    );
    &&& column.id@ == shaped_id(headers, i as int)
    &&& column.header@ == shaped_header(headers, i as int)
    &&& column.source_index == i
    &&& column.role == role
    &&& column.semantic == (if decisions.contains_key(i) {
        decisions[i]
    } else {
        place.semantic
    })
    &&& stored_in(column.storage, place.held_by)
}

/// Optional meanings and what they say.
pub open spec fn meanings_view(m: Option<&Meanings>) -> Option<Map<usize, SemanticField>> {
    match m {
        Some(m) => Some(m@),
        None => None,
    }
}

/// Optional decisions and what they say: none where there are none.
pub open spec fn decisions_view(o: Option<&Overrides>) -> Map<usize, Option<SemanticField>> {
    match o {
        Some(o) => o@,
        None => Map::empty(),
    }
}

/// Optional sources and what they say: none where there are none.
pub open spec fn sources_view(m: Option<&Vec<ColSrc>>) -> Seq<Source> {
    match m {
        Some(m) => sources(m@),
        None => Seq::empty(),
    }
}

/// Whether a column is among some columns.
fn has_part(parts: &Vec<usize>, i: usize) -> (r: bool)
    ensures
        r == parts@.contains(i),
{
    let mut k: usize = 0;
    while k < parts.len()
        invariant
            k <= parts@.len(),
            forall|j: int| 0 <= j < k ==> parts@[j] != i,
        decreases parts.len() - k,
    {
        if parts[k] == i {
            return true;
        }
        k += 1;
    }
    false
}

/// The shape of a table: its headers, with what the sources of the canonical
/// columns, the inferred meanings and a person's decisions add.
pub fn shape_for_headers(
    schema: &Schema,
    headers: &Vec<String>,
    mapping: Option<&Vec<ColSrc>>,
    inferred_semantics: Option<&Meanings>,
    semantic_overrides: Option<&Overrides>,
) -> (shape: TableShape)
    requires
        mapping matches Some(m) ==> m@.len() <= schema.columns@.len(),
        inferred_semantics matches Some(m) ==> m.wf(),
        semantic_overrides matches Some(o) ==> o.wf(),
    ensures
        shape.columns@.len() == headers@.len(),
        forall|i: int|
            0 <= i < headers@.len() ==> placed_column(
                *schema,
                views(headers@),
                sources_view(mapping),
                meanings_view(inferred_semantics),
                decisions_view(semantic_overrides),
                i as usize,
                #[trigger] shape.columns@[i],
            ),
{
    let base = TableShape::from_headers(copy_texts(headers));
    let ghost shaped = base.columns@;
    let ghost all = sources_view(mapping);
    let ghost inferred = meanings_view(inferred_semantics);
    let ghost decisions = decisions_view(semantic_overrides);
    let mut columns = base.columns;
    let mut i: usize = 0;
    while i < columns.len()
        invariant
            mapping matches Some(m) ==> m@.len() <= schema.columns@.len(),
            inferred_semantics matches Some(m) ==> m.wf(),
            semantic_overrides matches Some(o) ==> o.wf(),
            all == sources_view(mapping),
            inferred == meanings_view(inferred_semantics),
            decisions == decisions_view(semantic_overrides),
            shaped.len() == headers@.len(),
            columns@.len() == headers@.len(),
            i <= columns@.len(),
            forall|j: int| 0 <= j < headers@.len() ==> shaped_column(views(headers@), j, #[trigger] shaped[j]),
            forall|j: int| i <= j < headers@.len() ==> columns@[j] == shaped[j],
            forall|j: int|
                0 <= j < i ==> placed_column(
                    *schema,
                    views(headers@),
                    all,
                    inferred,
                    decisions,
                    j as usize,
                    #[trigger] columns@[j],
                ),
        decreases columns.len() - i,
    {
        assert(shaped_column(views(headers@), i as int, shaped[i as int]));
        let mut semantic = match inferred_semantics {
            Some(m) => match m.get(&i) {
                Some(found) => Some(*found),
                None => None,
            },
            None => columns[i].semantic,
        };
        let mut storage = ColumnStorage::SourceJson;
        let ghost start = starting_meaning(shaped[i as int].semantic, inferred, i);
        assert(semantic == start);
        match mapping {
            Some(m) => {
                let mut t: usize = 0;
                while t < m.len()
                    invariant
                        m@.len() <= schema.columns@.len(),
                        all == sources(m@),
                        t <= m@.len(),
                        semantic == placement(*schema, all, i, start, t as int).semantic,
                        stored_in(storage, placement(*schema, all, i, start, t as int).held_by),
                    decreases m.len() - t,
                {
                    assert(all[t as int] == m@[t as int]@);
                    match &m[t] {
                        ColSrc::Join(parts, _) => {
                            if has_part(parts, i) {
                                semantic = None;
                                storage = ColumnStorage::SourceJson;
                            }
                        },
                        ColSrc::Cell(j) => {
                            if *j == i {
                                let name = schema.columns[t].name.as_str();
                                match schema.semantic_for_column(name) {
                                    Some(found) => {
                                        semantic = Some(found);
                                    },
                                    None => {},
                                }
                                storage = ColumnStorage::SchemaColumn(
                                    schema.columns[t].name.clone(),
                                );
                            }
                        },
                        _ => {},
                    }
                    t += 1;
                }
            },
            None => {},
        }
        match semantic_overrides {
            Some(o) => match o.get(&i) {
                Some(decision) => {
                    semantic = *decision;
                },
                None => {},
            },
            None => {},
        }
        columns[i].semantic = semantic;
        columns[i].storage = storage;
        assert(placed_column(*schema, views(headers@), all, inferred, decisions, i, columns@[i as int]));
        i += 1;
    }
    TableShape { columns }
}

} // verus!
