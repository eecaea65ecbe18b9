//! What the columns of a detected table mean.
use vstd::prelude::*;

use crate::counting::{all_listed, all_upto};
use crate::import::aliases::{
    a_recognised_header_is_listed_under_its_meaning, alias_of_key, header_key, header_match,
    match_header, AliasMatch,
};
use crate::import::cells::Cell;
use crate::import::sampling::{
    agreed, column_agrees, column_population, populated, votes_for, Vote,
};
use crate::ordered::{entry_value, has_key, keyed, mapping_of, OrderedMap};
use crate::table::SemanticField;
use crate::text::views;

verus! {

/// The meanings of some columns, by column.
pub type Meanings = OrderedMap<usize, SemanticField>;

/// What the samples must speak for before a header is believed.
pub open spec fn needed_vote(semantic: SemanticField) -> Vote {
    match semantic {
        SemanticField::Value | SemanticField::Quantity => Vote::Number,
        SemanticField::Country => Vote::Country,
        _ => Vote::Anything,
    }
}

/// A recognised header is believed of a column.
pub open spec fn believed(found: AliasMatch, samples: Seq<Vec<Cell>>, column: int) -> bool {
    !found.needs_sample_confirmation || agreed(samples, column, needed_vote(found.semantic), 7)
}

/// Tests whether the samples confirm a recognised header.
pub fn samples_confirm(
    found: AliasMatch,
    scanned: &Vec<Vec<Cell>>,
    from: usize,
    column: usize,
) -> (r: bool)
    requires
        from <= scanned@.len(),
    ensures
        r == agreed(scanned@.skip(from as int), column as int, needed_vote(found.semantic), 7),
{
    let vote = match found.semantic {
        SemanticField::Value => Vote::Number,
        SemanticField::Quantity => Vote::Number,
        SemanticField::Country => Vote::Country,
        _ => Vote::Anything,
    };
    column_agrees(scanned, from, column, vote, 7)
}

/// The meaning that the header of a column gives by itself.
pub open spec fn own_meaning(
    headers: Seq<Seq<char>>,
    samples: Seq<Vec<Cell>>,
    column: int,
) -> Option<SemanticField> {
    match header_match(headers[column]) {
        Some(found) => if believed(found, samples, column) {
            Some(found.semantic)
        } else {
            None
        },
        None => None,
    }
}

/// The meanings that the first `n` headers give by themselves.
pub open spec fn own_meanings(headers: Seq<Seq<char>>, samples: Seq<Vec<Cell>>, n: int) -> Map<
    usize,
    SemanticField,
> {
    Map::new(
        |c: usize| c < n && own_meaning(headers, samples, c as int) is Some,
        |c: usize| own_meaning(headers, samples, c as int)->0,
    )
}

/// Every column of a map lies below a bound.
pub open spec fn columns_below(m: Map<usize, SemanticField>, n: int) -> bool {
    forall|c: usize| #[trigger] m.contains_key(c) ==> c < n
}

/// Column `c` has the meaning `semantic`.
pub open spec fn means(m: Map<usize, SemanticField>, semantic: SemanticField, c: int) -> bool {
    0 <= c <= usize::MAX && m.contains_key(c as usize) && m[c as usize] == semantic
}

/// Which columns of one meaning are picked.
#[derive(Clone, Copy, Debug, PartialEq, Eq, Structural)]
pub enum Pick {
    All,
    Names,
    Codes,
    NoCodes,
}

/// Column `c` has the meaning and is picked.
pub open spec fn picked(
    m: Map<usize, SemanticField>,
    semantic: SemanticField,
    samples: Seq<Vec<Cell>>,
    pick: Pick,
    c: int,
) -> bool {
    means(m, semantic, c) && match pick {
        Pick::All => true,
        Pick::Names => agreed(samples, c, Vote::Name, 7),
        Pick::Codes => agreed(samples, c, Vote::Code, 8),
        Pick::NoCodes => !agreed(samples, c, Vote::Code, 8),
    }
}

/// The picked columns of one meaning below `n`, ascending.
pub open spec fn picks(
    m: Map<usize, SemanticField>,
    semantic: SemanticField,
    samples: Seq<Vec<Cell>>,
    pick: Pick,
    n: int,
) -> Seq<usize> {
    all_upto(n, |c: int| picked(m, semantic, samples, pick, c))
}

/// Lists the picked columns of one meaning.
fn pick_columns(
    inferred: &Meanings,
    semantic: SemanticField,
    scanned: &Vec<Vec<Cell>>,
    from: usize,
    pick: Pick,
    n: usize,
) -> (r: Vec<usize>)
    requires
        inferred.wf(),
        from <= scanned@.len(),
    ensures
        r@ == picks(inferred@, semantic, scanned@.skip(from as int), pick, n as int),
        pick == Pick::Codes ==> forall|k: int|
            0 <= k < r@.len() ==> !agreed(
                scanned@.skip(from as int),
                #[trigger] r@[k] as int,
                Vote::Name,
                7,
            ),
{
    let ghost samples = scanned@.skip(from as int);
    let ghost p = |c: int| picked(inferred@, semantic, samples, pick, c);
    let mut out: Vec<usize> = Vec::new();
    let mut c: usize = 0;
    while c < n
        invariant
            c <= n,
            inferred.wf(),
            from <= scanned@.len(),
            samples == scanned@.skip(from as int),
            p == (|c: int| picked(inferred@, semantic, samples, pick, c)),
            out@ == all_upto(c as int, p),
            pick == Pick::Codes ==> forall|k: int|
                0 <= k < out@.len() ==> !agreed(samples, #[trigger] out@[k] as int, Vote::Name, 7),
        decreases n - c,
    {
        let member = match inferred.get(&c) {
            Some(found) => *found == semantic,
            None => false,
        };
        if member {
            let chosen = match pick {
                Pick::All => true,
                Pick::Names => column_agrees(scanned, from, c, Vote::Name, 7),
                Pick::Codes => column_agrees(scanned, from, c, Vote::Code, 8),
                Pick::NoCodes => !column_agrees(scanned, from, c, Vote::Code, 8),
            };
            assert(chosen == p(c as int));
            if chosen {
                out.push(c);
            }
        } else {
            assert(!p(c as int));
        }
        c += 1;
    }
    out
}

/// The column that keeps a participant's meaning: the first that looks like
/// names, or else the first that does not look like codes, or else the first.
pub open spec fn kept_column(
    m: Map<usize, SemanticField>,
    participant: SemanticField,
    samples: Seq<Vec<Cell>>,
    n: int,
) -> usize {
    if picks(m, participant, samples, Pick::Names, n).len() > 0 {
        picks(m, participant, samples, Pick::Names, n)[0]
    } else if picks(m, participant, samples, Pick::NoCodes, n).len() > 0 {
        picks(m, participant, samples, Pick::NoCodes, n)[0]
    } else {
        picks(m, participant, samples, Pick::All, n)[0]
    }
}

/// A participant's meaning brought down to one column.
pub open spec fn settled(
    m: Map<usize, SemanticField>,
    participant: SemanticField,
    samples: Seq<Vec<Cell>>,
    n: int,
) -> Map<usize, SemanticField> {
    if picks(m, participant, samples, Pick::All, n).len() <= 1 {
        m
    } else {
        let kept = kept_column(m, participant, samples, n);
        Map::new(
            |c: usize| (m.contains_key(c) && m[c] != participant) || c == kept,
            |c: usize|
                if c == kept {
                    participant
                } else {
                    m[c]
                },
        )
    }
}

/// The column that a participant's repeated header gives as a company code:
/// the only code beside the only name.
pub open spec fn paired_code(
    m: Map<usize, SemanticField>,
    participant: SemanticField,
    samples: Seq<Vec<Cell>>,
    n: int,
) -> Option<usize> {
    if picks(m, participant, samples, Pick::All, n).len() > 1 && picks(
        m,
        participant,
        samples,
        Pick::Codes,
        n,
    ).len() == 1 && picks(m, participant, samples, Pick::Names, n).len() == 1 {
        Some(picks(m, participant, samples, Pick::Codes, n)[0])
    } else {
        None
    }
}

/// Brings one participant's meaning down to one column, and tells the code
/// beside its name.
fn settle_participant(
    inferred: &mut Meanings,
    participant: SemanticField,
    scanned: &Vec<Vec<Cell>>,
    from: usize,
    n: usize,
) -> (r: Option<usize>)
    requires
        old(inferred).wf(),
        columns_below(old(inferred)@, n as int),
        from <= scanned@.len(),
    ensures
        final(inferred).wf(),
        columns_below(final(inferred)@, n as int),
        final(inferred)@ == settled(
            old(inferred)@,
            participant,
            scanned@.skip(from as int),
            n as int,
        ),
        r == paired_code(old(inferred)@, participant, scanned@.skip(from as int), n as int),
        r matches Some(c) ==> c < n && !final(inferred)@.contains_key(c),
        forall|c: usize| #[trigger]
            final(inferred)@.contains_key(c) ==> old(inferred)@.contains_key(c),
        forall|s: SemanticField| #[trigger]
            has_meaning(old(inferred)@, s) ==> has_meaning(final(inferred)@, s),
{
    let ghost m = inferred@;
    let ghost samples = scanned@.skip(from as int);
    let columns = pick_columns(inferred, participant, scanned, from, Pick::All, n);
    if columns.len() <= 1 {
        return None;
    }
    let codes = pick_columns(inferred, participant, scanned, from, Pick::Codes, n);
    let names = pick_columns(inferred, participant, scanned, from, Pick::Names, n);
    let others = pick_columns(inferred, participant, scanned, from, Pick::NoCodes, n);
    proof {
        all_listed(n as int, |c: int| picked(m, participant, samples, Pick::All, c));
        all_listed(n as int, |c: int| picked(m, participant, samples, Pick::Codes, c));
        all_listed(n as int, |c: int| picked(m, participant, samples, Pick::Names, c));
        all_listed(n as int, |c: int| picked(m, participant, samples, Pick::NoCodes, c));
    }
    let kept: usize = if names.len() > 0 {
        names[0]
    } else if others.len() > 0 {
        others[0]
    } else {
        columns[0]
    };
    let mut i: usize = 0;
    while i < columns.len()
        invariant
            i <= columns.len(),
            inferred.wf(),
            forall|c: usize| #[trigger]
                inferred@.contains_key(c) ==> m.contains_key(c) && inferred@[c] == m[c],
            forall|c: usize|
                m.contains_key(c) && !columns@.take(i as int).contains(c)
                    ==> #[trigger] inferred@.contains_key(c),
            forall|j: int| 0 <= j < i ==> !inferred@.contains_key(#[trigger] columns@[j]),
        decreases columns.len() - i,
    {
        let ghost before = inferred@;
        inferred.remove(&columns[i]);
        proof {
            assert forall|c: usize|
                m.contains_key(c) && !columns@.take(i + 1).contains(
                    c,
                ) implies #[trigger] inferred@.contains_key(c) by {
                if columns@.take(i as int).contains(c) {
                    let k = choose|k: int|
                        0 <= k < columns@.take(i as int).len() && columns@.take(i as int)[k] == c;
                    assert(columns@.take(i + 1)[k] == c);
                }
                assert(columns@.take(i + 1)[i as int] == columns@[i as int]);
                assert(before.contains_key(c));
            }
        }
        i += 1;
    }
    let ghost cleared = inferred@;
    inferred.insert(kept, participant);
    proof {
        let all = |c: int| picked(m, participant, samples, Pick::All, c);
        assert(columns@.take(i as int) =~= columns@);
        assert forall|c: usize|
            cleared.contains_key(c) == (m.contains_key(c) && m[c] != participant) by {
            if m.contains_key(c) && m[c] == participant {
                assert(all(c as int));
                assert(columns@.contains(c));
                let k = choose|k: int| 0 <= k < columns@.len() && columns@[k] == c;
                assert(!cleared.contains_key(columns@[k]));
            }
            if m.contains_key(c) && m[c] != participant && columns@.contains(c) {
                let k = choose|k: int| 0 <= k < columns@.len() && columns@[k] == c;
                assert(all(columns@[k] as int));
            }
        }
        assert(inferred@ =~= settled(m, participant, samples, n as int));
        let names_too = |c: int| picked(m, participant, samples, Pick::Names, c);
        assert(m.contains_key(kept) && m[kept] == participant);
        assert forall|s: SemanticField| #[trigger] has_meaning(m, s) implies has_meaning(
            inferred@,
            s,
        ) by {
            if s == participant {
                assert(inferred@.contains_key(kept));
            } else {
                let c = choose|c: usize| #[trigger] m.contains_key(c) && m[c] == s;
                assert(inferred@.contains_key(c));
            }
        }
        if codes@.len() == 1 && names@.len() == 1 {
            assert(names_too(names@[0] as int));
            assert(codes@[0] != kept);
            assert(picked(m, participant, samples, Pick::Codes, codes@[0] as int));
        }
    }
    if codes.len() == 1 && names.len() == 1 {
        Some(codes[0])
    } else {
        None
    }
}

/// Some column has a meaning.
pub open spec fn has_meaning(m: Map<usize, SemanticField>, semantic: SemanticField) -> bool {
    exists|c: usize| #[trigger] m.contains_key(c) && m[c] == semantic
}

/// Tests whether some column has a meaning.
fn any_means(inferred: &Meanings, semantic: SemanticField) -> (r: bool)
    requires
        inferred.wf(),
    ensures
        r == has_meaning(inferred@, semantic),
{
    let mut i: usize = 0;
    while i < inferred.entries.len()
        invariant
            i <= inferred.entries@.len(),
            inferred.wf(),
            forall|j: int| 0 <= j < i ==> (#[trigger] inferred.entries@[j]).1 != semantic,
        decreases inferred.entries.len() - i,
    {
        if inferred.entries[i].1 == semantic {
            proof {
                entry_value(inferred.entries@, i as int);
                assert(inferred@.contains_key(inferred.entries@[i as int].0));
            }
            return true;
        }
        i += 1;
    }
    proof {
        if has_meaning(inferred@, semantic) {
            let c = choose|c: usize| #[trigger]
                inferred@.contains_key(c) && inferred@[c] == semantic;
            assert(has_key(inferred.entries@, c));
            let j = choose|j: int| keyed(inferred.entries@, j, c);
            assert(keyed(inferred.entries@, j, c));
            entry_value(inferred.entries@, j);
            assert(inferred.entries@[j].1 == semantic);
        }
    }
    false
}

/// Repeated recipients and senders brought down to one column each. A code
/// beside a name becomes the company code where no column is one already and
/// only one participant gives a code.
pub open spec fn participants_resolved(
    m: Map<usize, SemanticField>,
    samples: Seq<Vec<Cell>>,
    n: int,
) -> Map<usize, SemanticField> {
    let first = settled(m, SemanticField::Recipient, samples, n);
    let second = settled(first, SemanticField::Sender, samples, n);
    if has_meaning(m, SemanticField::CompanyCode) {
        second
    } else {
        match (
            paired_code(m, SemanticField::Recipient, samples, n),
            paired_code(first, SemanticField::Sender, samples, n),
        ) {
            (Some(c), None) => second.insert(c, SemanticField::CompanyCode),
            (None, Some(c)) => second.insert(c, SemanticField::CompanyCode),
            _ => second,
        }
    }
}

/// Brings repeated recipients and senders down to one column each.
///
/// Ambiguity never costs the column outright: dropping the participant would
/// silently empty its section. Columns are in file order, so falling back to
/// the leftmost match keeps the primary name column, which registries place
/// before its synonyms. The implicit company code stays strict: a code is only
/// adopted from an unambiguous name and code pair.
pub fn resolve_participant_duplicates(
    inferred: &mut Meanings,
    scanned: &Vec<Vec<Cell>>,
    from: usize,
    n: usize,
)
    requires
        old(inferred).wf(),
        columns_below(old(inferred)@, n as int),
        from <= scanned@.len(),
    ensures
        final(inferred).wf(),
        columns_below(final(inferred)@, n as int),
        final(inferred)@ == participants_resolved(
            old(inferred)@,
            scanned@.skip(from as int),
            n as int,
        ),
        forall|s: SemanticField| #[trigger]
            has_meaning(old(inferred)@, s) ==> has_meaning(final(inferred)@, s),
{
    let ghost m = inferred@;
    let explicit = any_means(inferred, SemanticField::CompanyCode);
    let first = settle_participant(inferred, SemanticField::Recipient, scanned, from, n);
    let second = settle_participant(inferred, SemanticField::Sender, scanned, from, n);
    let ghost settled_both = inferred@;
    if !explicit {
        match (first, second) {
            (Some(c), None) => {
                inferred.insert(c, SemanticField::CompanyCode);
            },
            (None, Some(c)) => {
                inferred.insert(c, SemanticField::CompanyCode);
            },
            _ => {},
        }
    }
    proof {
        assert forall|s: SemanticField| #[trigger] has_meaning(m, s) implies has_meaning(
            inferred@,
            s,
        ) by {
            assert(has_meaning(settled_both, s));
            let c = choose|c: usize| #[trigger] settled_both.contains_key(c) && settled_both[c] == s;
            assert(inferred@.contains_key(c) && inferred@[c] == s);
        }
    }
}

/// A meaning that several columns may share.
pub open spec fn shareable(semantic: SemanticField) -> bool {
    semantic == SemanticField::DeclarationNumber || semantic == SemanticField::Recipient || semantic
        == SemanticField::Sender || semantic == SemanticField::CompanyCode
}

/// Column `c` keeps its meaning: it may share it, or it has more sample texts
/// than every other column with that meaning.
pub open spec fn keeps(m: Map<usize, SemanticField>, samples: Seq<Vec<Cell>>, c: usize) -> bool {
    shareable(m[c]) || forall|d: usize|
        d != c && #[trigger] m.contains_key(d) && m[d] == m[c] ==> populated(samples, d as int)
            < populated(samples, c as int)
}

/// The columns that keep their meanings.
pub open spec fn others_resolved(m: Map<usize, SemanticField>, samples: Seq<Vec<Cell>>) -> Map<
    usize,
    SemanticField,
> {
    Map::new(|c: usize| m.contains_key(c) && keeps(m, samples, c), |c: usize| m[c])
}

/// Of the other repeated meanings only the best filled column keeps its own, and
/// none where two are filled best.
pub fn resolve_other_duplicates(
    inferred: &Meanings,
    scanned: &Vec<Vec<Cell>>,
    from: usize,
) -> (r: Meanings)
    requires
        inferred.wf(),
        from <= scanned@.len(),
    ensures
        r.wf(),
        r@ == others_resolved(inferred@, scanned@.skip(from as int)),
{
    let ghost m = inferred@;
    let ghost entries = inferred.entries@;
    let ghost samples = scanned@.skip(from as int);
    let mut counts: Vec<usize> = Vec::new();
    let mut i: usize = 0;
    while i < inferred.entries.len()
        invariant
            i <= inferred.entries@.len(),
            entries == inferred.entries@,
            from <= scanned@.len(),
            samples == scanned@.skip(from as int),
            counts@.len() == i,
            forall|j: int|
                0 <= j < i ==> #[trigger] counts@[j] == populated(samples, entries[j].0 as int),
        decreases inferred.entries.len() - i,
    {
        counts.push(column_population(scanned, from, inferred.entries[i].0));
        i += 1;
    }
    let mut out: Meanings = OrderedMap::new();
    let mut k: usize = 0;
    while k < inferred.entries.len()
        invariant
            k <= inferred.entries@.len(),
            inferred.wf(),
            entries == inferred.entries@,
            m == mapping_of(entries),
            samples == scanned@.skip(from as int),
            counts@.len() == entries.len(),
            forall|j: int|
                0 <= j < entries.len() ==> #[trigger] counts@[j] == populated(
                    samples,
                    entries[j].0 as int,
                ),
            out.wf(),
            forall|c: usize| #[trigger]
                out@.contains_key(c) ==> m.contains_key(c) && keeps(m, samples, c) && out@[c]
                    == m[c],
            forall|j: int|
                0 <= j < k && keeps(m, samples, entries[j].0) ==> out@.contains_key(
                    (#[trigger] entries[j]).0,
                ),
        decreases inferred.entries.len() - k,
    {
        let (column, semantic) = (inferred.entries[k].0, inferred.entries[k].1);
        proof {
            entry_value(entries, k as int);
        }
        let mut keep = true;
        if !(semantic == SemanticField::DeclarationNumber || semantic == SemanticField::Recipient
            || semantic == SemanticField::Sender || semantic == SemanticField::CompanyCode) {
            let mut j: usize = 0;
            while j < inferred.entries.len()
                invariant
                    j <= inferred.entries@.len(),
                    k < entries.len(),
                    entries == inferred.entries@,
                    semantic == entries[k as int].1,
                    counts@.len() == entries.len(),
                    forall|l: int|
                        0 <= l < entries.len() ==> #[trigger] counts@[l] == populated(
                            samples,
                            entries[l].0 as int,
                        ),
                    keep == forall|l: int|
                        0 <= l < j && l != k && (#[trigger] entries[l]).1 == semantic ==> populated(
                            samples,
                            entries[l].0 as int,
                        ) < populated(samples, entries[k as int].0 as int),
                decreases inferred.entries.len() - j,
            {
                assert(counts@[j as int] == populated(samples, entries[j as int].0 as int));
                assert(counts@[k as int] == populated(samples, entries[k as int].0 as int));
                if j != k && inferred.entries[j].1 == semantic && counts[j] >= counts[k] {
                    keep = false;
                }
                j += 1;
            }
        }
        proof {
            assert(m[column] == semantic);
            if keep && !shareable(semantic) {
                assert forall|d: usize|
                    d != column && #[trigger] m.contains_key(d) && m[d] == m[column] implies populated(
                    samples,
                    d as int,
                ) < populated(samples, column as int) by {
                    assert(has_key(entries, d));
                    let l = choose|l: int| keyed(entries, l, d);
                    assert(keyed(entries, l, d));
                    entry_value(entries, l);
                    assert(entries[l].1 == semantic);
                }
                assert(keeps(m, samples, column));
            }
            if !keep {
                let l = choose|l: int|
                    0 <= l < entries.len() && l != k && (#[trigger] entries[l]).1 == semantic
                        && populated(samples, entries[l].0 as int) >= populated(
                        samples,
                        entries[k as int].0 as int,
                    );
                entry_value(entries, l);
                if entries[l].0 == column {
                    if l < k {
                        assert(entries[l].0 < entries[k as int].0);
                    } else {
                        assert(entries[k as int].0 < entries[l].0);
                    }
                }
                assert(m.contains_key(entries[l].0));
                assert(!keeps(m, samples, column));
            }
            assert(keep == keeps(m, samples, column));
        }
        let ghost before = out@;
        if keep {
            out.insert(column, semantic);
        }
        k += 1;
    }
    proof {
        assert forall|c: usize| m.contains_key(c) && keeps(m, samples, c) implies out@.contains_key(
            c,
        ) by {
            assert(has_key(entries, c));
            let l = choose|l: int| keyed(entries, l, c);
            assert(keyed(entries, l, c));
            assert(out@.contains_key(entries[l].0));
        }
        assert(out@ =~= others_resolved(m, samples));
    }
    out
}

/// The meanings of the columns of a table.
pub open spec fn table_meanings(headers: Seq<Seq<char>>, samples: Seq<Vec<Cell>>) -> Map<
    usize,
    SemanticField,
> {
    let n = headers.len() as int;
    others_resolved(
        participants_resolved(own_meanings(headers, samples, n), samples, n),
        samples,
    )
}

/// Infers the meanings of the columns of a table from its headers and the rows
/// from `from` on. A participant that the headers name is not lost on the way.
pub fn infer_semantics(headers: &Vec<String>, scanned: &Vec<Vec<Cell>>, from: usize) -> (r: Meanings)
    requires
        from <= scanned@.len(),
    ensures
        r.wf(),
        r@ == table_meanings(views(headers@), scanned@.skip(from as int)),
        forall|s: SemanticField|
            shareable(s) && #[trigger] has_meaning(
                own_meanings(
                    views(headers@),
                    scanned@.skip(from as int),
                    headers@.len() as int,
                ),
                s,
            ) ==> has_meaning(r@, s),
{
    let ghost texts = views(headers@);
    let ghost samples = scanned@.skip(from as int);
    let mut inferred: Meanings = OrderedMap::new();
    let mut i: usize = 0;
    assert(inferred@ =~= own_meanings(texts, samples, 0));
    while i < headers.len()
        invariant
            i <= headers.len(),
            texts == views(headers@),
            from <= scanned@.len(),
            samples == scanned@.skip(from as int),
            inferred.wf(),
            inferred@ == own_meanings(texts, samples, i as int),
        decreases headers.len() - i,
    {
        assert(texts[i as int] == headers@[i as int]@);
        let ghost before = inferred@;
        match match_header(headers[i].as_str()) {
            Some(found) => {
                if !found.needs_sample_confirmation || samples_confirm(found, scanned, from, i) {
                    inferred.insert(i, found.semantic);
                }
            },
            None => {},
        }
        assert(inferred@ =~= own_meanings(texts, samples, i + 1));
        i += 1;
    }
    resolve_participant_duplicates(&mut inferred, scanned, from, headers.len());
    let ghost m = inferred@;
    let r = resolve_other_duplicates(&inferred, scanned, from);
    assert forall|s: SemanticField| shareable(s) && #[trigger] has_meaning(m, s) implies has_meaning(
        r@,
        s,
    ) by {
        let c = choose|c: usize| #[trigger] m.contains_key(c) && m[c] == s;
        assert(keeps(m, samples, c));
        assert(r@.contains_key(c));
    }
    r
}

/// A participant settled once has one column at most.
proof fn settled_is_unique(
    m: Map<usize, SemanticField>,
    participant: SemanticField,
    samples: Seq<Vec<Cell>>,
    n: int,
    c: usize,
    d: usize,
)
    requires
        columns_below(m, n),
        0 <= n <= usize::MAX,
        means(settled(m, participant, samples, n), participant, c as int),
        means(settled(m, participant, samples, n), participant, d as int),
    ensures
        c == d,
{
    let all = |c: int| picked(m, participant, samples, Pick::All, c);
    let list = picks(m, participant, samples, Pick::All, n);
    all_listed(n, all);
    if list.len() <= 1 {
        assert(all(c as int) && all(d as int));
        assert(list.contains(c) && list.contains(d));
    }
}

/// Of the columns of a table no two have the same meaning, but for declaration
/// numbers, which are kept in parts, and company codes, which a table may give
/// for several companies.
pub proof fn meanings_are_unique(
    headers: Seq<Seq<char>>,
    samples: Seq<Vec<Cell>>,
    c: usize,
    d: usize,
)
    requires
        headers.len() <= usize::MAX,
        table_meanings(headers, samples).contains_key(c),
        table_meanings(headers, samples).contains_key(d),
        table_meanings(headers, samples)[c] == table_meanings(headers, samples)[d],
        table_meanings(headers, samples)[c] != SemanticField::DeclarationNumber,
        table_meanings(headers, samples)[c] != SemanticField::CompanyCode,
    ensures
        c == d,
{
    let n = headers.len() as int;
    let own = own_meanings(headers, samples, n);
    let first = settled(own, SemanticField::Recipient, samples, n);
    let second = settled(first, SemanticField::Sender, samples, n);
    let m = participants_resolved(own, samples, n);
    let semantic = m[c];
    assert(keeps(m, samples, c) && keeps(m, samples, d));
    assert(columns_below(own, n));
    all_listed(n, |c: int| picked(own, SemanticField::Recipient, samples, Pick::All, c));
    all_listed(n, |c: int| picked(own, SemanticField::Recipient, samples, Pick::Names, c));
    all_listed(n, |c: int| picked(own, SemanticField::Recipient, samples, Pick::NoCodes, c));
    assert(columns_below(first, n));
    if c != d {
        if semantic == SemanticField::Recipient {
            assert(means(first, SemanticField::Recipient, c as int));
            assert(means(first, SemanticField::Recipient, d as int));
            settled_is_unique(own, SemanticField::Recipient, samples, n, c, d);
        } else if semantic == SemanticField::Sender {
            assert(means(second, SemanticField::Sender, c as int));
            assert(means(second, SemanticField::Sender, d as int));
            settled_is_unique(first, SemanticField::Sender, samples, n, c, d);
        } else {
            assert(populated(samples, d as int) < populated(samples, c as int));
            assert(populated(samples, c as int) < populated(samples, d as int));
        }
    }
}

/// A header that names a quantity or a bare country is believed only where seven
/// tenths of the column's texts are numbers or countries; a column without a text
/// is not believed.
pub proof fn a_doubtful_header_needs_samples(
    headers: Seq<Seq<char>>,
    samples: Seq<Vec<Cell>>,
    column: int,
)
    ensures
        own_meaning(headers, samples, column) == Some(SemanticField::Quantity) ==> populated(
            samples,
            column,
        ) > 0 && votes_for(samples, column, Vote::Number) * 10 >= populated(samples, column) * 7,
        own_meaning(headers, samples, column) == Some(SemanticField::Country) ==> populated(
            samples,
            column,
        ) > 0 && votes_for(samples, column, Vote::Country) * 10 >= populated(samples, column) * 7,
        own_meaning(headers, samples, column) == Some(SemanticField::Value) && alias_of_key(
            header_key(headers[column]),
        ) is Some ==> populated(samples, column) > 0 && votes_for(samples, column, Vote::Number)
            * 10 >= populated(samples, column) * 7,
        own_meaning(headers, samples, column) is Some ==> header_match(headers[column]) is Some
            && header_match(headers[column])->0.semantic == own_meaning(
            headers,
            samples,
            column,
        )->0,
{
    a_recognised_header_is_listed_under_its_meaning(header_key(headers[column]));
}

/// The column that keeps a participant's meaning had it, looks like names where
/// some does, and does not look like codes where some does not.
pub proof fn a_participant_keeps_its_names(
    m: Map<usize, SemanticField>,
    participant: SemanticField,
    samples: Seq<Vec<Cell>>,
    n: int,
    c: usize,
)
    requires
        0 <= n <= usize::MAX,
        columns_below(m, n),
        m.contains_key(c),
        m[c] == participant,
    ensures
        means(m, participant, kept_column(m, participant, samples, n) as int),
        agreed(samples, c as int, Vote::Name, 7) ==> agreed(
            samples,
            kept_column(m, participant, samples, n) as int,
            Vote::Name,
            7,
        ),
        (forall|d: int| #[trigger]
            means(m, participant, d) ==> !agreed(samples, d, Vote::Name, 7)) && !agreed(
            samples,
            c as int,
            Vote::Code,
            8,
        ) ==> !agreed(
            samples,
            kept_column(m, participant, samples, n) as int,
            Vote::Code,
            8,
        ),
{
    let all = |c: int| picked(m, participant, samples, Pick::All, c);
    let names = |c: int| picked(m, participant, samples, Pick::Names, c);
    let others = |c: int| picked(m, participant, samples, Pick::NoCodes, c);
    all_listed(n, all);
    all_listed(n, names);
    all_listed(n, others);
    assert(all(c as int));
    assert(agreed(samples, c as int, Vote::Name, 7) ==> names(c as int));
    assert(!agreed(samples, c as int, Vote::Code, 8) ==> others(c as int));
    let kept = kept_column(m, participant, samples, n);
    assert(all(kept as int));
}

/// A company code that the headers name is not replaced: a code beside a name is
/// taken for one only where no column is one.
pub proof fn a_named_company_code_stands(
    m: Map<usize, SemanticField>,
    samples: Seq<Vec<Cell>>,
    n: int,
    c: usize,
)
    requires
        has_meaning(m, SemanticField::CompanyCode),
        0 <= n <= usize::MAX,
        columns_below(m, n),
    ensures
        participants_resolved(m, samples, n).contains_key(c) && participants_resolved(
            m,
            samples,
            n,
        )[c] == SemanticField::CompanyCode <==> m.contains_key(c) && m[c]
            == SemanticField::CompanyCode,
{
    let first = settled(m, SemanticField::Recipient, samples, n);
    settled_keeps_others(m, SemanticField::Recipient, samples, n, c);
    assert(columns_below(first, n)) by {
        assert forall|d: usize| #[trigger] first.contains_key(d) implies d < n by {
            settled_keeps_others(m, SemanticField::Recipient, samples, n, d);
        }
    }
    settled_keeps_others(first, SemanticField::Sender, samples, n, c);
}

/// Settling a participant leaves the other meanings where they are, and gives no
/// column a meaning that had none.
proof fn settled_keeps_others(
    m: Map<usize, SemanticField>,
    participant: SemanticField,
    samples: Seq<Vec<Cell>>,
    n: int,
    c: usize,
)
    requires
        0 <= n <= usize::MAX,
        columns_below(m, n),
    ensures
        settled(m, participant, samples, n).contains_key(c) ==> m.contains_key(c) && settled(
            m,
            participant,
            samples,
            n,
        )[c] == m[c],
        m.contains_key(c) && m[c] != participant ==> settled(
            m,
            participant,
            samples,
            n,
        ).contains_key(c),
{
    let all = |c: int| picked(m, participant, samples, Pick::All, c);
    all_listed(n, all);
    let list = picks(m, participant, samples, Pick::All, n);
    if list.len() > 1 {
        assert(all(list[0] as int));
        a_participant_keeps_its_names(m, participant, samples, n, list[0]);
    }
}

} // verus!
