//! Source rows on their way to records.
use vstd::prelude::*;
use vstd::string::*;

use crate::calendar::{normalize_date, normalized_date};
use crate::counting::{all_upto, count_upto};
use crate::import::cells::{
    cell_has_value, clean_text, has_value, normalize_cell, normalize_value, Cell, CellValue,
};
use crate::import::columns::{
    apply_semantic_overrides, decided_meanings, decided_sources, placed_column, recognized,
    recognized_columns, semantics_with_overrides, shape_for_headers, unmapped, unmapped_columns,
};
use crate::import::detection::{detect_table, detected_at, is_header, without_header, DetectedTable};
use crate::import::mapping::{sources, ColSrc, Source};
use crate::import::options::{apply_fixed_values, with_fixed, FixedValues, Overrides};
use crate::import::sampling::DETECTION_BUFFER_ROWS;
use crate::import::summary::{count_quality_cells, filled_cells, FileSummary};
use crate::records::ImportQuality;
use crate::schema::Schema;
use crate::table::{shaped_header, SemanticField, TableShape};
use crate::text::{join, joined, push_text, views};

verus! {

/// Rows written to the store at a time.
pub const BATCH_SIZE: usize = 8192;

/// A digit of a number below sixteen.
pub open spec fn json_digit(n: int) -> char {
    if n < 10 {
        (48 + n) as char
    } else {
        (87 + n) as char
    }
}

/// What stands for a character in a JSON string.
pub open spec fn json_char(c: char) -> Seq<char> {
    if c == '"' || c == '\\' {
        seq!['\\', c]
    } else if c == '\u{8}' {
        seq!['\\', 'b']
    } else if c == '\t' {
        seq!['\\', 't']
    } else if c == '\n' {
        seq!['\\', 'n']
    } else if c == '\u{c}' {
        seq!['\\', 'f']
    } else if c == '\r' {
        seq!['\\', 'r']
    } else if 31 >= c as int {
        seq!['\\', 'u', '0', '0', json_digit(c as int / 16), json_digit(c as int % 16)]
    } else {
        seq![c]
    }
}

/// What stands for a text between the quotes of a JSON string.
pub open spec fn json_chars(s: Seq<char>) -> Seq<char>
    decreases s.len(),
{
    if s.len() == 0 {
        Seq::empty()
    } else {
        json_chars(s.drop_last()) + json_char(s.last())
    }
}

/// A text as a JSON string.
pub open spec fn json_string(s: Seq<char>) -> Seq<char> {
    seq!['"'] + json_chars(s) + seq!['"']
}

/// A pair of texts as a JSON array.
pub open spec fn json_pair(pair: (Seq<char>, Seq<char>)) -> Seq<char> {
    seq!['['] + json_string(pair.0) + seq![','] + json_string(pair.1) + seq![']']
}

/// Pairs of texts as a JSON array of arrays of two strings.
pub open spec fn json_of_pairs(pairs: Seq<(Seq<char>, Seq<char>)>) -> Seq<char> {
    seq!['['] + joined(pairs.map_values(|p: (Seq<char>, Seq<char>)| json_pair(p)), seq![','])
        + seq![']']
}

/// What some pairs of texts say.
pub open spec fn pair_views(pairs: Seq<(String, String)>) -> Seq<(Seq<char>, Seq<char>)> {
    pairs.map_values(|p: (String, String)| (p.0@, p.1@))
}

/// `serde_json::to_string` of a list of pairs of texts: a JSON array of arrays of
/// two strings, without blanks between them. In a string a quote and a backslash
/// stand behind a backslash, a control character has its short form or its number,
/// and every other character stands for itself. The call fails only for a value
/// that refuses to be serialized and for a map with other keys than strings; a
/// list of pairs of texts is neither.
#[verifier::external_body]
fn pairs_to_json(pairs: &Vec<(String, String)>) -> (r: Option<String>)
    ensures
        r is Some,
        r->0@ == json_of_pairs(pair_views(pairs@)),
{
    serde_json::to_string(pairs).ok()
}

/// A cell of an empty place.
pub open spec fn blank_cell() -> Cell {
    Cell { value: CellValue::Empty, bare_number: false, number: false }
}

/// A row with a value put into column `col`: gaps are filled with empty cells.
pub open spec fn with_cell(row: Seq<Cell>, col: int, cell: Cell) -> Seq<Cell> {
    if row.len() <= col {
        row + Seq::new((col - row.len()) as nat, |i: int| blank_cell()) + seq![cell]
    } else {
        row.update(col, cell)
    }
}

/// Assembles a cell stream into rows. Gaps between cells are filled with empty
/// cells; fully empty sheet rows are not emitted by the reader.
#[derive(Clone, Debug)]
pub struct RowAssembler {
    pub current_row: Option<u32>,
    pub cells: Vec<Cell>,
}

impl RowAssembler {
    /// An assembler without a row.
    pub fn new() -> (r: Self)
        ensures
            r.current_row is None,
            r.cells@.len() == 0,
    {
        RowAssembler { current_row: None, cells: Vec::new() }
    }

    /// Takes the next cell. A cell of another row finishes the row so far, which
    /// is handed out.
    pub fn push(&mut self, row: u32, col: u32, value: Cell) -> (r: Option<Vec<Cell>>)
        ensures
            final(self).current_row == Some(row),
            match r {
                Some(done) => old(self).current_row is Some && old(self).current_row != Some(row)
                    && done@ == old(self).cells@ && final(self).cells@ == with_cell(
                    Seq::empty(),
                    col as int,
                    value,
                ),
                None => (old(self).current_row is None || old(self).current_row == Some(row))
                    && final(self).cells@ == with_cell(old(self).cells@, col as int, value),
            },
    {
        let mut finished: Option<Vec<Cell>> = None;
        match self.current_row {
            Some(current) => {
                if current != row {
                    let mut done: Vec<Cell> = Vec::new();
                    std::mem::swap(&mut done, &mut self.cells);
                    finished = Some(done);
                }
            },
            None => {},
        }
        self.current_row = Some(row);
        let ghost start = self.cells@;
        let col: usize = col as usize;
        let mut cells: Vec<Cell> = Vec::new();
        std::mem::swap(&mut cells, &mut self.cells);
        assert(cells@ =~= start + Seq::new(0, |i: int| blank_cell()));
        while cells.len() < col
            invariant
                start.len() <= cells@.len(),
                cells@.len() <= col || cells@.len() == start.len(),
                cells@ == start + Seq::new(
                    (cells@.len() - start.len()) as nat,
                    |i: int| blank_cell(),
                ),
            decreases col - cells.len(),
        {
            let ghost before = cells@;
            cells.push(Cell { value: CellValue::Empty, bare_number: false, number: false });
            assert(cells@ =~= start + Seq::new(
                (cells@.len() - start.len()) as nat,
                |i: int| blank_cell(),
            ));
        }
        if cells.len() == col {
            cells.push(value);
            assert(cells@ =~= with_cell(start, col as int, value));
        } else {
            assert(cells@ =~= start);
            cells[col] = value;
        }
        self.cells = cells;
        finished
    }

    /// Hands the last row out.
    pub fn take(&mut self) -> (r: Option<Vec<Cell>>)
        ensures
            match r {
                Some(done) => old(self).current_row is Some && done@ == old(self).cells@
                    && final(self).current_row is None && final(self).cells@.len() == 0,
                None => old(self).current_row is None && *final(self) == *old(self),
            },
    {
        if self.current_row.is_none() {
            return None;
        }
        self.current_row = None;
        let mut done: Vec<Cell> = Vec::new();
        std::mem::swap(&mut done, &mut self.cells);
        Some(done)
    }
}

/// How the rows of a table become records: the sources of the canonical columns,
/// the columns kept beside them, and which of those hold dates.
#[derive(Clone, Debug)]
pub struct RowPlan {
    pub mapping: Vec<ColSrc>,
    /// Source columns not consumed by the mapping: (column index, header name).
    pub extra_cols: Vec<(usize, String)>,
    pub date_extra: Vec<usize>,
}

/// A table ready to be imported. Its headers and its shape are what its source
/// is registered with.
#[derive(Clone, Debug)]
pub struct PlannedTable {
    pub headers: Vec<String>,
    pub plan: RowPlan,
    pub shape: TableShape,
    pub quality: ImportQuality,
}

/// The sources that the decisions and then the pinned values give.
pub open spec fn planned_sources(
    schema: Schema,
    width: int,
    start: Seq<Source>,
    overrides: Overrides,
    fixed: FixedValues,
) -> Result<Seq<Source>, Seq<char>> {
    match decided_sources(schema, width, start, overrides.entries@) {
        Err(e) => Err(e),
        Ok(next) => with_fixed(schema, next, fixed),
    }
}

/// Column `c` is kept beside the canonical columns and holds dates.
pub open spec fn date_beside(
    mapping: Seq<Source>,
    meanings: Map<usize, SemanticField>,
    n: int,
    c: int,
) -> bool {
    0 <= c < n && !crate::import::columns::consumed(mapping, c) && meanings.contains_key(
        c as usize,
    ) && meanings[c as usize] == SemanticField::Date
}

/// `table` is what a detected table and a person's decisions give.
pub open spec fn planned(
    schema: Schema,
    detected: DetectedTable,
    overrides: Overrides,
    fixed: FixedValues,
    table: PlannedTable,
) -> bool {
    let n = detected.headers@.len() as int;
    let headers = views(detected.headers@);
    let mapping = sources(table.plan.mapping@);
    let meanings = decided_meanings(detected.plan.semantics@, overrides@);
    let extra = unmapped(mapping, n);
    &&& planned_sources(schema, n, sources(detected.plan.columns@), overrides, fixed) == Ok::<
        Seq<Source>,
        Seq<char>,
    >(mapping)
    &&& table.headers@ == detected.headers@
    &&& table.shape.columns@.len() == n
    &&& forall|i: int|
        0 <= i < n ==> placed_column(
            schema,
            headers,
            mapping,
            Some(meanings),
            overrides@,
            i as usize,
            #[trigger] table.shape.columns@[i],
        )
    &&& table.plan.extra_cols@.len() == extra.len()
    &&& forall|k: int|
        0 <= k < extra.len() ==> (#[trigger] table.plan.extra_cols@[k]).0 == extra[k]
            && table.plan.extra_cols@[k].1@ == shaped_header(headers, extra[k] as int)
    &&& table.plan.date_extra@ == all_upto(n, |c: int| date_beside(mapping, meanings, n, c))
    &&& table.quality.layout@ == (if overrides.entries@.len() == 0 && fixed.entries@.len() == 0 {
        "generic table"@
    } else {
        "custom mapping"@
    })
    &&& table.quality.header_row == detected.header_index + 1
    &&& table.quality.source_columns == n
    &&& table.quality.recognized_columns == count_upto(
        mapping.len() as int,
        |t: int| recognized(mapping[t]),
    )
    &&& table.quality.extra_columns == extra.len()
    &&& table.quality.non_empty_cells == 0
    &&& table.quality.empty_cells == 0
    &&& table.quality.warnings@.len() == 0
}

/// Whether a column is kept beside the canonical columns.
fn is_extra(
    extra: &Vec<(usize, String)>,
    c: usize,
    Ghost(mapping): Ghost<Seq<Source>>,
    Ghost(n): Ghost<int>,
) -> (r: bool)
    requires
        0 <= n <= usize::MAX,
        c < n,
        extra@.len() == unmapped(mapping, n).len(),
        forall|k: int|
            0 <= k < extra@.len() ==> (#[trigger] extra@[k]).0 == unmapped(mapping, n)[k],
    ensures
        r == !crate::import::columns::consumed(mapping, c as int),
{
    proof {
        crate::import::columns::no_column_is_lost(mapping, n, c as int);
    }
    let ghost list = unmapped(mapping, n);
    let mut k: usize = 0;
    while k < extra.len()
        invariant
            k <= extra@.len(),
            extra@.len() == list.len(),
            forall|j: int| 0 <= j < extra@.len() ==> (#[trigger] extra@[j]).0 == list[j],
            forall|j: int| 0 <= j < k ==> list[j] != c,
            list == unmapped(mapping, n),
            crate::import::columns::consumed(mapping, c as int) != list.contains(c),
        decreases extra.len() - k,
    {
        assert(extra@[k as int].0 == list[k as int]);
        if extra[k].0 == c {
            assert(list.contains(c));
            return true;
        }
        k += 1;
    }
    false
}

/// Plans the import of a detected table.
pub fn plan_table(
    schema: &Schema,
    detected: DetectedTable,
    overrides: &Overrides,
    fixed: &FixedValues,
) -> (r: Result<PlannedTable, String>)
    requires
        detected.plan.semantics.wf(),
        detected.plan.columns@.len() == schema.columns@.len(),
        detected.header_index < usize::MAX,
        overrides.wf(),
        fixed.wf(),
        forall|j: int|
            0 <= j < overrides.entries@.len() ==> (#[trigger] overrides.entries@[j]).0
                < usize::MAX,
    ensures
        match r {
            Ok(table) => planned(*schema, detected, *overrides, *fixed, table)
                && table.plan.mapping@.len() == schema.columns@.len(),
            Err(e) => planned_sources(
                *schema,
                detected.headers@.len() as int,
                sources(detected.plan.columns@),
                *overrides,
                *fixed,
            ) == Err::<Seq<Source>, Seq<char>>(e@),
        },
{
    let headers = detected.headers;
    let ghost n = headers@.len() as int;
    let decided = match apply_semantic_overrides(
        schema,
        &headers,
        detected.plan.columns,
        overrides,
    ) {
        Ok(mapping) => mapping,
        Err(e) => {
            return Err(e);
        },
    };
    let mapping = match apply_fixed_values(schema, decided, fixed) {
        Ok(mapping) => mapping,
        Err(e) => {
            return Err(e);
        },
    };
    let semantics = semantics_with_overrides(&detected.plan.semantics, overrides);
    let shape = shape_for_headers(
        schema,
        &headers,
        Some(&mapping),
        Some(&semantics),
        Some(overrides),
    );
    let extra_cols = unmapped_columns(&headers, &mapping);
    let ghost all = sources(mapping@);
    let ghost meanings = semantics@;
    let ghost p = |c: int| date_beside(all, meanings, n, c);
    let mut date_extra: Vec<usize> = Vec::new();
    let mut c: usize = 0;
    while c < headers.len()
        invariant
            c <= headers@.len(),
            n == headers@.len(),
            semantics.wf(),
            meanings == semantics@,
            all == sources(mapping@),
            p == (|c: int| date_beside(all, meanings, n, c)),
            extra_cols@.len() == unmapped(all, n).len(),
            forall|k: int|
                0 <= k < extra_cols@.len() ==> (#[trigger] extra_cols@[k]).0 == unmapped(all, n)[k],
            date_extra@ == all_upto(c as int, p),
        decreases headers.len() - c,
    {
        let dated = match semantics.get(&c) {
            Some(semantic) => *semantic == SemanticField::Date,
            None => false,
        };
        if dated && is_extra(&extra_cols, c, Ghost(all), Ghost(n)) {
            assert(p(c as int));
            date_extra.push(c);
        } else {
            assert(!p(c as int));
        }
        c += 1;
    }
    let quality = ImportQuality {
        layout: String::from_str(
            if overrides.len() == 0 && fixed.len() == 0 {
                "generic table"
            } else {
                "custom mapping"
            },
        ),
        header_row: (detected.header_index + 1) as u64,
        source_columns: headers.len() as u64,
        recognized_columns: recognized_columns(&mapping) as u64,
        extra_columns: extra_cols.len() as u64,
        non_empty_cells: 0,
        empty_cells: 0,
        warnings: Vec::new(),
    };
    Ok(PlannedTable { headers, plan: RowPlan { mapping, extra_cols, date_extra }, shape, quality })
}

/// The clean texts of some columns of a row that are not empty.
pub open spec fn part_texts(row: Seq<Cell>, parts: Seq<usize>) -> Seq<Seq<char>>
    decreases parts.len(),
{
    if parts.len() == 0 {
        Seq::empty()
    } else {
        let before = part_texts(row, parts.drop_last());
        let i = parts.last() as int;
        if i < row.len() && clean_text(row[i].value, false).len() > 0 {
            before.push(clean_text(row[i].value, false))
        } else {
            before
        }
    }
}

/// The value that a source gives for a row.
pub open spec fn source_text(source: Source, row: Seq<Cell>, is_date: bool) -> Seq<char> {
    match source {
        Source::Missing => Seq::empty(),
        Source::Fixed(value) => value,
        Source::Cell(i) => if i < row.len() {
            clean_text(row[i as int].value, is_date)
        } else {
            Seq::empty()
        },
        Source::Join(parts, sep) => joined(part_texts(row, parts), sep),
    }
}

/// The value that a source gives for a row.
pub fn source_value(source: &ColSrc, row: &Vec<Cell>, is_date: bool) -> (r: String)
    ensures
        r@ == source_text(source@, row@, is_date),
{
    match source {
        ColSrc::Missing => String::new(),
        ColSrc::Fixed(value) => value.clone(),
        ColSrc::Cell(i) => if *i < row.len() {
            normalize_cell(&row[*i], is_date)
        } else {
            String::new()
        },
        ColSrc::Join(parts, sep) => {
            let mut texts: Vec<String> = Vec::new();
            let mut k: usize = 0;
            assert(views(texts@) =~= part_texts(row@, parts@.take(0)));
            while k < parts.len()
                invariant
                    k <= parts@.len(),
                    views(texts@) == part_texts(row@, parts@.take(k as int)),
                decreases parts.len() - k,
            {
                assert(parts@.take(k + 1).drop_last() =~= parts@.take(k as int));
                assert(parts@.take(k + 1).last() == parts@[k as int]);
                if parts[k] < row.len() {
                    let text = normalize_value(&row[parts[k]]);
                    if text.as_str().unicode_len() > 0 {
                        push_text(&mut texts, text.as_str());
                    }
                }
                k += 1;
            }
            assert(parts@.take(k as int) =~= parts@);
            join(&texts, *sep)
        },
    }
}

/// The canonical values of a row, before its date is brought into ISO form.
pub open spec fn row_texts(mapping: Seq<Source>, row: Seq<Cell>, date_col: int) -> Seq<Seq<char>> {
    Seq::new(mapping.len(), |t: int| source_text(mapping[t], row, t == date_col))
}

/// The columns kept beside the canonical ones that say something, with their
/// headers.
pub open spec fn extra_pairs(
    extra: Seq<(usize, String)>,
    date_extra: Seq<usize>,
    row: Seq<Cell>,
) -> Seq<(Seq<char>, Seq<char>)>
    decreases extra.len(),
{
    if extra.len() == 0 {
        Seq::empty()
    } else {
        let before = extra_pairs(extra.drop_last(), date_extra, row);
        let (i, header) = extra.last();
        let text = source_text(Source::Cell(i), row, date_extra.contains(i));
        if text.len() > 0 {
            before.push((header@, text))
        } else {
            before
        }
    }
}

/// The payload of the columns kept beside the canonical ones.
pub open spec fn extra_payload(plan: RowPlan, row: Seq<Cell>) -> Option<Seq<char>> {
    let pairs = extra_pairs(plan.extra_cols@, plan.date_extra@, row);
    if pairs.len() == 0 {
        None
    } else {
        Some(json_of_pairs(pairs))
    }
}

/// Whether a column is among some columns.
fn has_column(list: &Vec<usize>, c: usize) -> (r: bool)
    ensures
        r == list@.contains(c),
{
    let mut k: usize = 0;
    while k < list.len()
        invariant
            k <= list@.len(),
            forall|j: int| 0 <= j < k ==> list@[j] != c,
        decreases list.len() - k,
    {
        if list[k] == c {
            return true;
        }
        k += 1;
    }
    false
}

/// The columns kept beside the canonical ones that say something.
pub fn collect_pairs(plan: &RowPlan, row: &Vec<Cell>) -> (r: Vec<(String, String)>)
    ensures
        pair_views(r@) == extra_pairs(plan.extra_cols@, plan.date_extra@, row@),
{
    let mut pairs: Vec<(String, String)> = Vec::new();
    let mut k: usize = 0;
    assert(pair_views(pairs@) =~= extra_pairs(plan.extra_cols@.take(0), plan.date_extra@, row@));
    while k < plan.extra_cols.len()
        invariant
            k <= plan.extra_cols@.len(),
            pair_views(pairs@) == extra_pairs(
                plan.extra_cols@.take(k as int),
                plan.date_extra@,
                row@,
            ),
        decreases plan.extra_cols.len() - k,
    {
        let ghost upto = plan.extra_cols@.take(k + 1);
        assert(upto.drop_last() =~= plan.extra_cols@.take(k as int));
        assert(upto.last() == plan.extra_cols@[k as int]);
        let i: usize = plan.extra_cols[k].0;
        let is_date = has_column(&plan.date_extra, i);
        let text = if i < row.len() {
            normalize_cell(&row[i], is_date)
        } else {
            String::new()
        };
        if text.as_str().unicode_len() > 0 {
            let ghost before = pairs@;
            let header = plan.extra_cols[k].1.clone();
            pairs.push((header, text));
            assert(pair_views(pairs@) =~= pair_views(before).push((header@, text@)));
        }
        k += 1;
    }
    assert(plan.extra_cols@.take(k as int) =~= plan.extra_cols@);
    pairs
}

/// The payload of the columns kept beside the canonical ones.
pub fn collect_extra(plan: &RowPlan, row: &Vec<Cell>) -> (r: Option<String>)
    ensures
        match r {
            Some(s) => extra_payload(*plan, row@) == Some(s@),
            None => extra_payload(*plan, row@) is None,
        },
{
    if plan.extra_cols.len() == 0 {
        return None;
    }
    let pairs = collect_pairs(plan, row);
    assert(pair_views(pairs@).len() == pairs@.len());
    if pairs.len() == 0 {
        None
    } else {
        pairs_to_json(&pairs)
    }
}

/// A row prepared for the store: its canonical values, its payload, and the texts
/// that its year is looked for in, in this order.
#[derive(Clone, Debug)]
pub struct RowDraft {
    pub values: Vec<String>,
    pub extra: Option<String>,
    pub year_texts: Vec<String>,
}

/// Every text is empty.
pub open spec fn all_empty(texts: Seq<Seq<char>>) -> bool {
    forall|t: int| 0 <= t < texts.len() ==> (#[trigger] texts[t]).len() == 0
}

/// The texts that the year of a row is looked for in: its date, and then the date
/// kept beside it, in ISO form and as it stands.
pub open spec fn year_sources(plan: RowPlan, row: Seq<Cell>, date: Seq<char>) -> Seq<Seq<char>> {
    if plan.date_extra@.len() == 0 {
        seq![normalized_date(date)]
    } else {
        let raw = source_text(Source::Cell(plan.date_extra@[0]), row, true);
        seq![normalized_date(date), normalized_date(raw), raw]
    }
}

/// What a row comes to, given its payload: nothing where it says nothing,
/// otherwise its values with the date in ISO form.
pub open spec fn draft_of(
    plan: RowPlan,
    date_col: int,
    row: Seq<Cell>,
    extra: Option<String>,
    draft: Option<RowDraft>,
) -> bool {
    let texts = row_texts(sources(plan.mapping@), row, date_col);
    match draft {
        None => all_empty(texts) && extra is None,
        Some(d) => !(all_empty(texts) && extra is None) && views(d.values@) == texts.update(
            date_col,
            normalized_date(texts[date_col]),
        ) && d.extra == extra && views(d.year_texts@) == year_sources(plan, row, texts[date_col]),
    }
}

/// Prepares a row whose payload is known.
pub fn draft_row(plan: &RowPlan, date_col: usize, row: &Vec<Cell>, extra: Option<String>) -> (r:
    Option<RowDraft>)
    requires
        date_col < plan.mapping@.len(),
    ensures
        draft_of(*plan, date_col as int, row@, extra, r),
{
    let ghost all = sources(plan.mapping@);
    let ghost texts = row_texts(all, row@, date_col as int);
    let mut values: Vec<String> = Vec::new();
    let mut empty = true;
    let mut t: usize = 0;
    while t < plan.mapping.len()
        invariant
            date_col < plan.mapping@.len(),
            t <= plan.mapping@.len(),
            all == sources(plan.mapping@),
            texts == row_texts(all, row@, date_col as int),
            views(values@) == texts.take(t as int),
            empty == all_empty(texts.take(t as int)),
        decreases plan.mapping.len() - t,
    {
        assert(all[t as int] == plan.mapping@[t as int]@);
        let value = source_value(&plan.mapping[t], row, t == date_col);
        let ghost before = texts.take(t as int);
        let ghost after = texts.take(t + 1);
        assert(after =~= before.push(value@));
        if value.as_str().unicode_len() > 0 {
            assert(after[t as int].len() > 0);
            empty = false;
        } else {
            proof {
                if all_empty(before) {
                    assert forall|k: int| 0 <= k < after.len() implies (
                    #[trigger] after[k]).len() == 0 by {
                        if k < t {
                            assert(after[k] == before[k]);
                        }
                    }
                } else {
                    let k = choose|k: int|
                        0 <= k < before.len() && (#[trigger] before[k]).len() != 0;
                    assert(after[k].len() != 0);
                }
            }
        }
        push_text(&mut values, value.as_str());
        t += 1;
    }
    assert(texts.take(t as int) =~= texts);
    if empty && extra.is_none() {
        return None;
    }
    assert(views(values@)[date_col as int] == values@[date_col as int]@);
    let date = normalize_date(values[date_col].as_str());
    let mut year_texts: Vec<String> = Vec::new();
    push_text(&mut year_texts, date.as_str());
    if plan.date_extra.len() > 0 {
        let i: usize = plan.date_extra[0];
        let raw = if i < row.len() {
            normalize_cell(&row[i], true)
        } else {
            String::new()
        };
        push_text(&mut year_texts, normalize_date(raw.as_str()).as_str());
        push_text(&mut year_texts, raw.as_str());
    }
    assert(views(year_texts@) =~= year_sources(*plan, row@, texts[date_col as int]));
    values[date_col] = date;
    assert(views(values@) =~= texts.update(
        date_col as int,
        normalized_date(texts[date_col as int]),
    ));
    Some(RowDraft { values, extra, year_texts })
}

/// Prepares a row of a planned table.
pub fn data_row(plan: &RowPlan, date_col: usize, row: &Vec<Cell>) -> (r: Option<RowDraft>)
    requires
        date_col < plan.mapping@.len(),
    ensures
        exists|extra: Option<String>| #[trigger]
            draft_of(*plan, date_col as int, row@, extra, r) && (match extra {
                Some(s) => extra_payload(*plan, row@) == Some(s@),
                None => extra_payload(*plan, row@) is None,
            }),
{
    let extra = collect_extra(plan, row);
    let ghost e = extra;
    let r = draft_row(plan, date_col, row, extra);
    assert(draft_of(*plan, date_col as int, row@, e, r));
    r
}

/// A row that says nothing at all.
pub open spec fn silent(row: Seq<Cell>) -> bool {
    forall|i: int| 0 <= i < row.len() ==> !has_value((#[trigger] row[i]).value)
}

/// Whether no cell of some rows says anything.
pub fn sheet_is_empty(scanned: &Vec<Vec<Cell>>) -> (r: bool)
    ensures
        r == forall|k: int| 0 <= k < scanned@.len() ==> silent((#[trigger] scanned@[k])@),
{
    let mut k: usize = 0;
    while k < scanned.len()
        invariant
            k <= scanned@.len(),
            forall|j: int| 0 <= j < k ==> silent((#[trigger] scanned@[j])@),
        decreases scanned.len() - k,
    {
        let row = &scanned[k];
        let mut i: usize = 0;
        while i < row.len()
            invariant
                k < scanned@.len(),
                *row == scanned@[k as int],
                i <= row@.len(),
                forall|j: int| 0 <= j < i ==> !has_value((#[trigger] row@[j]).value),
            decreases row.len() - i,
        {
            if cell_has_value(&row[i]) {
                assert(!silent(scanned@[k as int]@));
                return false;
            }
            i += 1;
        }
        k += 1;
    }
    true
}

/// What to do with the rows of a table.
#[derive(Clone, Copy, Debug, PartialEq, Eq, Structural)]
pub enum SinkStep {
    /// Wait for more rows.
    More,
    /// Detect the table in the gathered rows, and import what is behind its header.
    Detect,
    /// Import the row.
    Import,
    /// Write the gathered records.
    Flush,
    /// There is nothing to import.
    Nothing,
}

/// The rows gathered before a table is detected.
#[derive(Clone, Debug)]
pub struct RowSink {
    pub scanned: Vec<Vec<Cell>>,
    pub started: bool,
    pub rows_seen: u64,
}

impl RowSink {
    /// A sink without rows.
    pub fn new() -> (r: Self)
        ensures
            r.scanned@.len() == 0,
            !r.started,
            r.rows_seen == 0,
    {
        RowSink { scanned: Vec::new(), started: false, rows_seen: 0 }
    }

    /// Takes the next row: it is gathered until the table is detected. A row of a
    /// detected table is handed back to be imported.
    pub fn row(&mut self, row: Vec<Cell>) -> (r: (SinkStep, Option<Vec<Cell>>))
        requires
            old(self).rows_seen < u64::MAX,
        ensures
            final(self).rows_seen == old(self).rows_seen + 1,
            final(self).started == old(self).started,
            if old(self).started {
                r.0 is Import && r.1 == Some(row) && final(self).scanned@ == old(self).scanned@
            } else {
                r.1 is None && final(self).scanned@ == old(self).scanned@.push(row) && r.0 == (
                if old(self).scanned@.len() + 1 >= DETECTION_BUFFER_ROWS {
                    SinkStep::Detect
                } else {
                    SinkStep::More
                })
            },
    {
        self.rows_seen = self.rows_seen + 1;
        if self.started {
            return (SinkStep::Import, Some(row));
        }
        self.scanned.push(row);
        if self.scanned.len() >= DETECTION_BUFFER_ROWS {
            (SinkStep::Detect, None)
        } else {
            (SinkStep::More, None)
        }
    }

    /// The table was detected: its gathered rows are handed out.
    pub fn start(&mut self) -> (r: Vec<Vec<Cell>>)
        ensures
            r@ == old(self).scanned@,
            final(self).started,
            final(self).scanned@.len() == 0,
            final(self).rows_seen == old(self).rows_seen,
    {
        self.started = true;
        let mut rows: Vec<Vec<Cell>> = Vec::new();
        std::mem::swap(&mut rows, &mut self.scanned);
        rows
    }

    /// No more rows come: a short table is detected now, and an empty sheet is
    /// nothing to import.
    pub fn finish(&self) -> (r: SinkStep)
        ensures
            r == (if self.started {
                SinkStep::Flush
            } else if forall|k: int|
                0 <= k < self.scanned@.len() ==> silent((#[trigger] self.scanned@[k])@) {
                SinkStep::Nothing
            } else {
                SinkStep::Detect
            }),
    {
        if self.started {
            SinkStep::Flush
        } else if sheet_is_empty(&self.scanned) {
            SinkStep::Nothing
        } else {
            SinkStep::Detect
        }
    }
}

/// Whether the gathered records are written now.
pub fn batch_is_full(gathered: usize) -> (r: bool)
    ensures
        r == (gathered >= BATCH_SIZE),
{
    gathered >= BATCH_SIZE
}

/// The error of a sheet without a header row.
pub const MISSING_HEADER: &'static str =
    "No non-empty header row was found in the first rows of the sheet.";

/// `detected` is the table in the first rows of a sheet.
pub open spec fn is_table(schema: Schema, rows: Seq<Vec<Cell>>, detected: DetectedTable) -> bool {
    is_header(rows, detected.header_index as int) && detected_at(
        schema,
        rows,
        detected.header_index as int,
        detected,
    )
}

/// Detects the table in the gathered rows and plans its import. The rows to import
/// are those behind the header row that the report gives.
pub fn start_detected_import(
    schema: &Schema,
    scanned: &Vec<Vec<Cell>>,
    overrides: &Overrides,
    fixed: &FixedValues,
) -> (r: Result<PlannedTable, String>)
    requires
        overrides.wf(),
        fixed.wf(),
        forall|j: int|
            0 <= j < overrides.entries@.len() ==> (#[trigger] overrides.entries@[j]).0
                < usize::MAX,
    ensures
        match r {
            Ok(table) => table.plan.mapping@.len() == schema.columns@.len()
                && exists|detected: DetectedTable| #[trigger]
                is_table(*schema, scanned@, detected) && planned(
                    *schema,
                    detected,
                    *overrides,
                    *fixed,
                    table,
                ),
            Err(e) => if without_header(scanned@) {
                e@ == MISSING_HEADER@
            } else {
                exists|detected: DetectedTable| #[trigger]
                    is_table(*schema, scanned@, detected) && planned_sources(
                        *schema,
                        detected.headers@.len() as int,
                        sources(detected.plan.columns@),
                        *overrides,
                        *fixed,
                    ) == Err::<Seq<Source>, Seq<char>>(e@)
            },
        },
{
    let detected = match detect_table(schema, scanned) {
        Some(detected) => detected,
        None => {
            return Err(String::from_str(MISSING_HEADER));
        },
    };
    let ghost table = detected;
    assert(is_table(*schema, scanned@, table));
    assert(sources(table.plan.columns@).len() == schema.columns@.len());
    assert(!without_header(scanned@)) by {
        assert(crate::import::detection::score(scanned@, table.header_index as int) is Some);
    }
    plan_table(schema, detected, overrides, fixed)
}

/// An optional payload and what a row of a plan carries agree.
pub open spec fn carries(plan: RowPlan, row: Seq<Cell>, extra: Option<String>) -> bool {
    match extra {
        Some(s) => extra_payload(plan, row) == Some(s@),
        None => extra_payload(plan, row) is None,
    }
}

/// The report once one more record was made of a row.
pub open spec fn counted_row(before: FileSummary, row: Seq<Cell>, after: FileSummary) -> bool {
    let filled = filled_cells(row, before.quality.source_columns as int);
    &&& after.total_rows == before.total_rows + 1
    &&& after.quality.non_empty_cells == before.quality.non_empty_cells + filled
    &&& after.quality.empty_cells == before.quality.empty_cells + before.quality.source_columns
        - filled
    &&& after == (FileSummary {
        total_rows: after.total_rows,
        quality: ImportQuality {
            non_empty_cells: after.quality.non_empty_cells,
            empty_cells: after.quality.empty_cells,
            ..before.quality
        },
        ..before
    })
}

/// Takes one row of a planned table into the batch and into the report. A row that
/// says nothing is passed over. Gives whether the batch is written now.
pub fn take_row(
    plan: &RowPlan,
    date_col: usize,
    row: &Vec<Cell>,
    summary: &mut FileSummary,
    batch: &mut Vec<RowDraft>,
) -> (r: bool)
    requires
        date_col < plan.mapping@.len(),
        old(summary).total_rows < u64::MAX,
        old(summary).quality.source_columns <= usize::MAX,
        old(summary).quality.non_empty_cells + old(summary).quality.source_columns <= u64::MAX,
        old(summary).quality.empty_cells + old(summary).quality.source_columns <= u64::MAX,
    ensures
        exists|extra: Option<String>, draft: Option<RowDraft>| #[trigger]
            draft_of(*plan, date_col as int, row@, extra, draft) && carries(*plan, row@, extra)
                && match draft {
                None => !r && final(batch)@ == old(batch)@ && *final(summary) == *old(summary),
                Some(d) => final(batch)@ == old(batch)@.push(d) && r == (final(batch)@.len()
                    >= BATCH_SIZE) && counted_row(*old(summary), row@, *final(summary)),
            },
{
    let extra = collect_extra(plan, row);
    let ghost payload = extra;
    let draft = draft_row(plan, date_col, row, extra);
    let ghost made = draft;
    assert(draft_of(*plan, date_col as int, row@, payload, made));
    assert(carries(*plan, row@, payload));
    match draft {
        None => false,
        Some(d) => {
            count_quality_cells(&mut summary.quality, row);
            summary.total_rows = summary.total_rows + 1;
            batch.push(d);
            batch_is_full(batch.len())
        },
    }
}

/// The batch was written: its rows were new, or were there already.
pub fn batch_written(
    summary: &mut FileSummary,
    batch: &mut Vec<RowDraft>,
    inserted: u64,
    duplicates: u64,
)
    requires
        old(summary).imported + inserted <= u64::MAX,
        old(summary).duplicates + duplicates <= u64::MAX,
    ensures
        final(batch)@.len() == 0,
        *final(summary) == (FileSummary {
            imported: (old(summary).imported + inserted) as u64,
            duplicates: (old(summary).duplicates + duplicates) as u64,
            ..*old(summary)
        }),
{
    summary.imported = summary.imported + inserted;
    summary.duplicates = summary.duplicates + duplicates;
    batch.clear();
}

/// Behind a written batch an import can be cancelled. Gives whether it goes on.
pub fn goes_on(summary: &mut FileSummary, cancel: bool) -> (r: bool)
    ensures
        r == !cancel,
        *final(summary) == (FileSummary {
            cancelled: old(summary).cancelled || cancel,
            ..*old(summary)
        }),
{
    if cancel {
        summary.cancelled = true;
    }
    !cancel
}

/// A row with a cell put into it has that cell there, the others as they were,
/// and blanks where it was too short.
pub proof fn a_cell_is_put_in_its_place(row: Seq<Cell>, col: int, cell: Cell, i: int)
    requires
        0 <= col,
        0 <= i < with_cell(row, col, cell).len(),
    ensures
        with_cell(row, col, cell).len() == (if row.len() > col {
            row.len()
        } else {
            (col + 1) as nat
        }),
        with_cell(row, col, cell)[i] == (if i == col {
            cell
        } else if i < row.len() {
            row[i]
        } else {
            blank_cell()
        }),
        !has_value(blank_cell().value),
{
}

/// Texts are written without a control character, whatever they hold.
pub proof fn written_texts_have_no_control_character(s: Seq<char>)
    ensures
        forall|i: int| 0 <= i < json_string(s).len() ==> (#[trigger] json_string(s)[i]) as int >= 32,
{
    written_chars_are_plain(s);
}

/// A hexadecimal digit is no control character.
proof fn hex_digit_is_plain(n: int)
    requires
        0 <= n < 16,
    ensures
        json_digit(n) as int >= 48,
{
    if n < 10 {
        let k: u8 = (48 + n) as u8;
        assert(json_digit(n) == k as char);
    } else {
        let k: u8 = (87 + n) as u8;
        assert(json_digit(n) == k as char);
    }
}

/// A character is written without a control character.
proof fn written_char_is_plain(c: char)
    ensures
        forall|i: int| 0 <= i < json_char(c).len() ==> (#[trigger] json_char(c)[i]) as int >= 32,
{
    let high = json_digit(c as int / 16);
    let low = json_digit(c as int % 16);
    if 31 >= c as int {
        hex_digit_is_plain(c as int / 16);
        hex_digit_is_plain(c as int % 16);
    }
    assert forall|i: int| 0 <= i < json_char(c).len() implies (#[trigger] json_char(c)[i]) as int
        >= 32 by {
        if json_char(c).len() == 6 {
            assert(json_char(c) =~= seq!['\\', 'u', '0', '0', high, low]);
        }
    }
}

/// Characters are written without a control character.
proof fn written_chars_are_plain(s: Seq<char>)
    ensures
        forall|i: int| 0 <= i < json_chars(s).len() ==> (#[trigger] json_chars(s)[i]) as int >= 32,
    decreases s.len(),
{
    if s.len() > 0 {
        written_chars_are_plain(s.drop_last());
        let c = s.last();
        written_char_is_plain(c);
        let front = json_chars(s.drop_last());
        assert forall|i: int| 0 <= i < json_chars(s).len() implies (#[trigger] json_chars(s)[i]) as int
            >= 32 by {
            if i < front.len() {
                assert(json_chars(s)[i] == front[i]);
            } else {
                assert(json_chars(s)[i] == json_char(c)[i - front.len()]);
            }
        }
    }
}

/// A source that is not there says nothing, a fixed one always the same, and a
/// cell beyond the row nothing.
pub proof fn a_source_says_what_it_stands_for(
    row: Seq<Cell>,
    value: Seq<char>,
    i: usize,
    is_date: bool,
)
    ensures
        source_text(Source::Missing, row, is_date).len() == 0,
        source_text(Source::Fixed(value), row, is_date) == value,
        i < row.len() ==> source_text(Source::Cell(i), row, is_date) == clean_text(
            row[i as int].value,
            is_date,
        ),
        i >= row.len() ==> source_text(Source::Cell(i), row, is_date).len() == 0,
{
}

} // verus!
