//! Which source columns the canonical columns are filled from.
use vstd::prelude::*;
use vstd::string::*;

use crate::counting::{all_upto, first_found, first_is, first_upto, none_found};
use crate::import::aliases::{canonical_column, canonical_place};
use crate::import::cells::Cell;
use crate::import::meanings::Meanings;
use crate::import::sampling::{column_population, populated};
use crate::schema::Schema;
use crate::table::SemanticField;
use crate::text::{same, views};

verus! {

/// Source for a schema column value in a file row.
#[derive(Clone, Debug)]
pub enum ColSrc {
    /// The file does not contain this column.
    Missing,
    Cell(usize),
    Fixed(String),
    /// Several file columns joined with a separator, such as `UA100290/2024/102794`.
    Join(Vec<usize>, &'static str),
}

/// What a source says.
pub enum Source {
    Missing,
    Cell(usize),
    Fixed(Seq<char>),
    Join(Seq<usize>, Seq<char>),
}

impl View for ColSrc {
    type V = Source;

    open spec fn view(&self) -> Source {
        match *self {
            ColSrc::Missing => Source::Missing,
            ColSrc::Cell(i) => Source::Cell(i),
            ColSrc::Fixed(s) => Source::Fixed(s@),
            ColSrc::Join(parts, sep) => Source::Join(parts@, sep@),
        }
    }
}

/// What some sources say.
pub open spec fn sources(v: Seq<ColSrc>) -> Seq<Source> {
    v.map_values(|s: ColSrc| s@)
}

/// Source `k` has more sample texts than every other one.
pub open spec fn best_filled(list: Seq<usize>, samples: Seq<Vec<Cell>>, k: int) -> bool {
    forall|j: int|
        0 <= j < list.len() && j != k ==> populated(samples, #[trigger] list[j] as int) < populated(
            samples,
            list[k] as int,
        )
}

/// The source of a canonical column that several headers name: the parts of a
/// declaration's number or type are joined, otherwise the best filled one is
/// taken, and none where two are filled best.
pub open spec fn chosen_source(
    schema: Schema,
    target: int,
    list: Seq<usize>,
    samples: Seq<Vec<Cell>>,
) -> Source {
    let name = schema.columns@[target].name@;
    if list.len() == 1 {
        Source::Cell(list[0])
    } else if name == "declaration_number"@ || name == "declaration_type"@ {
        Source::Join(list, "/"@)
    } else {
        match first_upto(list.len() as int, |k: int| best_filled(list, samples, k)) {
            Some(k) => Source::Cell(list[k]),
            None => Source::Missing,
        }
    }
}

/// Chooses the source of a canonical column that several headers name.
pub fn choose_canonical_source(
    schema: &Schema,
    target: usize,
    list: Vec<usize>,
    scanned: &Vec<Vec<Cell>>,
    from: usize,
) -> (r: ColSrc)
    requires
        target < schema.columns@.len(),
        from <= scanned@.len(),
    ensures
        r@ == chosen_source(*schema, target as int, list@, scanned@.skip(from as int)),
{
    let ghost samples = scanned@.skip(from as int);
    if list.len() == 1 {
        return ColSrc::Cell(list[0]);
    }
    let name = schema.columns[target].name.as_str();
    if same(name, "declaration_number") || same(name, "declaration_type") {
        return ColSrc::Join(list, "/");
    }
    let mut counts: Vec<usize> = Vec::new();
    let mut i: usize = 0;
    while i < list.len()
        invariant
            i <= list@.len(),
            from <= scanned@.len(),
            samples == scanned@.skip(from as int),
            counts@.len() == i,
            forall|j: int|
                0 <= j < i ==> #[trigger] counts@[j] == populated(samples, list@[j] as int),
        decreases list.len() - i,
    {
        counts.push(column_population(scanned, from, list[i]));
        i += 1;
    }
    let ghost best = |k: int| best_filled(list@, samples, k);
    let mut k: usize = 0;
    while k < list.len()
        invariant
            k <= list@.len(),
            list@.len() != 1,
            target < schema.columns@.len(),
            schema.columns@[target as int].name@ != "declaration_number"@,
            schema.columns@[target as int].name@ != "declaration_type"@,
            samples == scanned@.skip(from as int),
            counts@.len() == list@.len(),
            best == (|k: int| best_filled(list@, samples, k)),
            forall|j: int|
                0 <= j < list@.len() ==> #[trigger] counts@[j] == populated(
                    samples,
                    list@[j] as int,
                ),
            forall|l: int| 0 <= l < k ==> !#[trigger] best(l),
        decreases list.len() - k,
    {
        let mut wins = true;
        let mut j: usize = 0;
        while j < list.len()
            invariant
                j <= list@.len(),
                k < list@.len(),
                counts@.len() == list@.len(),
                forall|l: int|
                    0 <= l < list@.len() ==> #[trigger] counts@[l] == populated(
                        samples,
                        list@[l] as int,
                    ),
                wins == forall|l: int|
                    0 <= l < j && l != k ==> populated(samples, #[trigger] list@[l] as int)
                        < populated(samples, list@[k as int] as int),
            decreases list.len() - j,
        {
            assert(counts@[j as int] == populated(samples, list@[j as int] as int));
            assert(counts@[k as int] == populated(samples, list@[k as int] as int));
            if j != k && counts[j] >= counts[k] {
                wins = false;
            }
            j += 1;
        }
        assert(wins == best(k as int));
        if wins {
            proof {
                first_is(list@.len() as int, best, k as int);
            }
            return ColSrc::Cell(list[k]);
        }
        k += 1;
    }
    proof {
        none_found(list@.len() as int, best);
    }
    ColSrc::Missing
}

/// Header `i` names the canonical column `target`.
pub open spec fn names_target(schema: Schema, headers: Seq<Seq<char>>, target: int, i: int) -> bool {
    canonical_place(schema, headers[i]) == Some(target)
}

/// Column `i` has a meaning that is stored in the canonical column `target`.
pub open spec fn fills_target(
    schema: Schema,
    meanings: Map<usize, SemanticField>,
    target: int,
    i: int,
) -> bool {
    0 <= i <= usize::MAX && meanings.contains_key(i as usize) && schema.target(
        meanings[i as usize],
    ) == Some(target)
}

/// The source of one canonical column: what its headers choose, or else the
/// columns whose meaning is stored in it, joined where there are several.
pub open spec fn canonical_source(
    schema: Schema,
    headers: Seq<Seq<char>>,
    meanings: Map<usize, SemanticField>,
    samples: Seq<Vec<Cell>>,
    target: int,
) -> Source {
    let n = headers.len() as int;
    let direct = all_upto(n, |i: int| names_target(schema, headers, target, i));
    let by_meaning = all_upto(n, |i: int| fills_target(schema, meanings, target, i));
    let first = if direct.len() == 0 {
        Source::Missing
    } else {
        chosen_source(schema, target, direct, samples)
    };
    if !(first is Missing) || by_meaning.len() == 0 {
        first
    } else if by_meaning.len() == 1 {
        Source::Cell(by_meaning[0])
    } else {
        Source::Join(by_meaning, "/"@)
    }
}

/// The sources of all canonical columns.
pub open spec fn canonical_sources(
    schema: Schema,
    headers: Seq<Seq<char>>,
    meanings: Map<usize, SemanticField>,
    samples: Seq<Vec<Cell>>,
) -> Seq<Source> {
    Seq::new(
        schema.columns@.len(),
        |t: int| canonical_source(schema, headers, meanings, samples, t),
    )
}

/// Chooses the sources of all canonical columns.
pub fn canonical_mapping(
    schema: &Schema,
    headers: &Vec<String>,
    semantics: &Meanings,
    scanned: &Vec<Vec<Cell>>,
    from: usize,
) -> (r: Vec<ColSrc>)
    requires
        semantics.wf(),
        from <= scanned@.len(),
    ensures
        sources(r@) == canonical_sources(
            *schema,
            views(headers@),
            semantics@,
            scanned@.skip(from as int),
        ),
{
    let ghost texts = views(headers@);
    let ghost samples = scanned@.skip(from as int);
    let mut places: Vec<Option<usize>> = Vec::new();
    let mut targets: Vec<Option<usize>> = Vec::new();
    let mut i: usize = 0;
    while i < headers.len()
        invariant
            i <= headers@.len(),
            texts == views(headers@),
            semantics.wf(),
            places@.len() == i,
            targets@.len() == i,
            forall|j: int|
                0 <= j < i ==> match #[trigger] places@[j] {
                    Some(p) => canonical_place(*schema, texts[j]) == Some(p as int),
                    None => canonical_place(*schema, texts[j]) is None,
                },
            forall|j: int|
                0 <= j < i ==> match #[trigger] targets@[j] {
                    Some(t) => fills_target(*schema, semantics@, t as int, j),
                    None => forall|t: int| !fills_target(*schema, semantics@, t, j),
                },
        decreases headers.len() - i,
    {
        assert(texts[i as int] == headers@[i as int]@);
        places.push(canonical_column(schema, headers[i].as_str()));
        let target = match semantics.get(&i) {
            Some(semantic) => match schema.column_for_semantic(*semantic) {
                Some(name) => schema.position(name),
                None => None,
            },
            None => None,
        };
        targets.push(target);
        i += 1;
    }
    let mut mapping: Vec<ColSrc> = Vec::new();
    let mut t: usize = 0;
    while t < schema.columns.len()
        invariant
            t <= schema.columns@.len(),
            from <= scanned@.len(),
            texts == views(headers@),
            samples == scanned@.skip(from as int),
            places@.len() == headers@.len(),
            targets@.len() == headers@.len(),
            forall|j: int|
                0 <= j < headers@.len() ==> match #[trigger] places@[j] {
                    Some(p) => canonical_place(*schema, texts[j]) == Some(p as int),
                    None => canonical_place(*schema, texts[j]) is None,
                },
            forall|j: int|
                0 <= j < headers@.len() ==> match #[trigger] targets@[j] {
                    Some(t) => fills_target(*schema, semantics@, t as int, j),
                    None => forall|t: int| !fills_target(*schema, semantics@, t, j),
                },
            mapping@.len() == t,
            sources(mapping@) == canonical_sources(*schema, texts, semantics@, samples).take(
                t as int,
            ),
        decreases schema.columns.len() - t,
    {
        let ghost p_direct = |i: int| names_target(*schema, texts, t as int, i);
        let ghost p_meaning = |i: int| fills_target(*schema, semantics@, t as int, i);
        let mut direct: Vec<usize> = Vec::new();
        let mut by_meaning: Vec<usize> = Vec::new();
        let mut i: usize = 0;
        while i < headers.len()
            invariant
                i <= headers@.len(),
                places@.len() == headers@.len(),
                targets@.len() == headers@.len(),
                p_direct == (|i: int| names_target(*schema, texts, t as int, i)),
                p_meaning == (|i: int| fills_target(*schema, semantics@, t as int, i)),
                forall|j: int|
                    0 <= j < headers@.len() ==> match #[trigger] places@[j] {
                        Some(p) => canonical_place(*schema, texts[j]) == Some(p as int),
                        None => canonical_place(*schema, texts[j]) is None,
                    },
                forall|j: int|
                    0 <= j < headers@.len() ==> match #[trigger] targets@[j] {
                        Some(t) => fills_target(*schema, semantics@, t as int, j),
                        None => forall|t: int| !fills_target(*schema, semantics@, t, j),
                    },
                direct@ == all_upto(i as int, p_direct),
                by_meaning@ == all_upto(i as int, p_meaning),
            decreases headers.len() - i,
        {
            let ghost place = places@[i as int];
            let ghost target = targets@[i as int];
            let named = match places[i] {
                Some(p) => p == t,
                None => false,
            };
            assert(named == p_direct(i as int));
            if named {
                direct.push(i);
            }
            let filled = match targets[i] {
                Some(p) => p == t,
                None => false,
            };
            assert(filled == p_meaning(i as int));
            if filled {
                by_meaning.push(i);
            }
            i += 1;
        }
        let mut source = ColSrc::Missing;
        if direct.len() > 0 {
            source = choose_canonical_source(schema, t, direct, scanned, from);
        }
        if matches!(source, ColSrc::Missing) && by_meaning.len() > 0 {
            if by_meaning.len() == 1 {
                source = ColSrc::Cell(by_meaning[0]);
            } else {
                source = ColSrc::Join(by_meaning, "/");
            }
        }
        assert(source@ == canonical_source(*schema, texts, semantics@, samples, t as int));
        mapping.push(source);
        assert(sources(mapping@) =~= canonical_sources(*schema, texts, semantics@, samples).take(
            t + 1,
        ));
        t += 1;
    }
    assert(canonical_sources(*schema, texts, semantics@, samples).take(t as int)
        =~= canonical_sources(*schema, texts, semantics@, samples));
    mapping
}

/// Of several sources the parts of a declaration's number or type are joined with
/// a slash; otherwise a source is taken only where it has more sample texts than
/// every other one, and always then.
pub proof fn the_best_filled_source_is_taken(
    schema: Schema,
    target: int,
    list: Seq<usize>,
    samples: Seq<Vec<Cell>>,
)
    ensures
        list.len() == 1 ==> chosen_source(schema, target, list, samples) == Source::Cell(list[0]),
        list.len() > 1 && (schema.columns@[target].name@ == "declaration_number"@
            || schema.columns@[target].name@ == "declaration_type"@) ==> chosen_source(
            schema,
            target,
            list,
            samples,
        ) == Source::Join(list, "/"@),
        list.len() > 1 && schema.columns@[target].name@ != "declaration_number"@
            && schema.columns@[target].name@ != "declaration_type"@ ==> match chosen_source(
            schema,
            target,
            list,
            samples,
        ) {
            Source::Cell(c) => exists|k: int|
                0 <= k < list.len() && #[trigger] list[k] == c && forall|j: int|
                    0 <= j < list.len() && j != k ==> populated(samples, #[trigger] list[j] as int)
                        < populated(samples, c as int),
            Source::Missing => forall|k: int|
                0 <= k < list.len() ==> exists|j: int|
                    0 <= j < list.len() && j != k && populated(samples, #[trigger] list[j] as int)
                        >= populated(samples, #[trigger] list[k] as int),
            _ => false,
        },
{
    let p = |k: int| best_filled(list, samples, k);
    first_found(list.len() as int, p);
    match first_upto(list.len() as int, p) {
        Some(k) => {
            assert(list[k] == list[k]);
        },
        None => {
            assert forall|k: int| 0 <= k < list.len() implies exists|j: int|
                0 <= j < list.len() && j != k && populated(samples, #[trigger] list[j] as int)
                    >= populated(samples, #[trigger] list[k] as int) by {
                assert(!p(k));
            }
        },
    }
}

} // verus!
