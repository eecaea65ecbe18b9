//! Finding the header row of a table, and what its columns mean.
use vstd::prelude::*;
use vstd::string::*;

use crate::counting::{all_counted, count_bound, count_upto, counted, none_found};
use crate::import::aliases::{header_key, header_match, match_header, normalize_header};
use crate::import::cells::{cell_has_value, has_value, header_text, header_words, Cell};
use crate::import::mapping::{canonical_mapping, canonical_sources, sources, ColSrc};
use crate::import::meanings::{infer_semantics, table_meanings, Meanings};
use crate::import::sampling::{
    filled_width, label_cell, looks_like_header_label, looks_numeric_cell, numeric_cell, row_width,
    HEADER_SCAN_ROWS, SAMPLE_ROWS,
};
use crate::number::{decimal, decimal_text};
use crate::schema::Schema;
use crate::text::{push_text, trim, trimmed, views};

verus! {

/// How many rows behind row `index` are looked at.
pub open spec fn following(rows: Seq<Vec<Cell>>, index: int) -> int {
    if rows.len() - index - 1 < SAMPLE_ROWS {
        rows.len() - index - 1
    } else {
        SAMPLE_ROWS as int
    }
}

/// The key of a header cell.
pub open spec fn cell_key(cell: Cell) -> Seq<char> {
    header_key(header_words(cell.value))
}

/// Cell `i` is the first of a row with its key, and the key is not empty.
pub open spec fn new_key(row: Seq<Cell>, i: int) -> bool {
    cell_key(row[i]).len() > 0 && forall|j: int|
        0 <= j < i ==> cell_key(#[trigger] row[j]) != cell_key(row[i])
}

/// A row is about as wide as a header of the given width.
pub open spec fn consistent(row: Seq<Cell>, width: int) -> bool {
    let slack = if width / 5 > 1 {
        width / 5
    } else {
        1
    };
    let own = filled_width(row) as int;
    own > 0 && own - width <= slack && width - own <= slack
}

/// A column that is labelled in row `index` and holds something else below.
pub open spec fn transition(rows: Seq<Vec<Cell>>, index: int, column: int) -> bool {
    &&& column < rows[index]@.len()
    &&& label_cell(rows[index]@[column])
    &&& exists|k: int|
        1 <= k <= following(rows, index) && column < (#[trigger] rows[index + k])@.len()
            && !label_cell(rows[index + k]@[column])
}

/// How much a row looks like the header of the rows behind it; nothing for a
/// row that says nothing.
pub open spec fn score(rows: Seq<Vec<Cell>>, index: int) -> Option<int> {
    let row = rows[index]@;
    let n = row.len() as int;
    let width = filled_width(row) as int;
    let non_empty = count_upto(n, |i: int| has_value(row[i].value));
    if non_empty == 0 {
        None
    } else {
        Some(
            20 * non_empty + 6 * count_upto(n, |i: int| label_cell(row[i])) + 12 * count_upto(
                n,
                |i: int| header_match(header_words(row[i].value)) is Some,
            ) + 2 * count_upto(n, |i: int| new_key(row, i)) + 3 * count_upto(
                following(rows, index),
                |k: int| consistent(rows[index + 1 + k]@, width),
            ) + 2 * count_upto(width, |c: int| transition(rows, index, c)) - 10 * count_upto(
                n,
                |i: int| numeric_cell(row[i]),
            ),
        )
    }
}

/// Tests whether a column holds something else below its label.
fn has_transition(scanned: &Vec<Vec<Cell>>, index: usize, column: usize) -> (r: bool)
    requires
        index < scanned@.len(),
    ensures
        r == transition(scanned@, index as int, column as int),
{
    let row = &scanned[index];
    if column >= row.len() || !looks_like_header_label(&row[column]) {
        return false;
    }
    let mut k: usize = 1;
    while k <= SAMPLE_ROWS && k < scanned.len() - index
        invariant
            index < scanned@.len(),
            column < scanned@[index as int]@.len(),
            label_cell(scanned@[index as int]@[column as int]),
            1 <= k <= 9,
            k <= scanned@.len() - index,
            forall|j: int|
                1 <= j < k ==> !(column < (#[trigger] scanned@[index + j])@.len() && !label_cell(
                    scanned@[index + j]@[column as int],
                )),
        decreases 9 - k,
    {
        let sample = &scanned[index + k];
        if column < sample.len() && !looks_like_header_label(&sample[column]) {
            assert(column < scanned@[index + k]@.len());
            return true;
        }
        k += 1;
    }
    false
}

/// How much a row looks like the header of the rows behind it.
pub fn header_score(scanned: &Vec<Vec<Cell>>, index: usize) -> (r: Option<i128>)
    requires
        index < scanned@.len(),
    ensures
        match r {
            Some(s) => score(scanned@, index as int) == Some(s as int),
            None => score(scanned@, index as int) is None,
        },
{
    let row = &scanned[index];
    let ghost cells = scanned@[index as int]@;
    let ghost p_value = |i: int| has_value(cells[i].value);
    let ghost p_label = |i: int| label_cell(cells[i]);
    let ghost p_alias = |i: int| header_match(header_words(cells[i].value)) is Some;
    let ghost p_new = |i: int| new_key(cells, i);
    let ghost p_number = |i: int| numeric_cell(cells[i]);
    let mut non_empty: usize = 0;
    let mut labels: usize = 0;
    let mut aliases: usize = 0;
    let mut unique: usize = 0;
    let mut numeric: usize = 0;
    let mut keys: Vec<String> = Vec::new();
    let mut i: usize = 0;
    while i < row.len()
        invariant
            index < scanned@.len(),
            *row == scanned@[index as int],
            cells == row@,
            i <= cells.len(),
            p_value == (|i: int| has_value(cells[i].value)),
            p_label == (|i: int| label_cell(cells[i])),
            p_alias == (|i: int| header_match(header_words(cells[i].value)) is Some),
            p_new == (|i: int| new_key(cells, i)),
            p_number == (|i: int| numeric_cell(cells[i])),
            non_empty <= i,
            labels <= i,
            aliases <= i,
            unique <= i,
            numeric <= i,
            non_empty == count_upto(i as int, p_value),
            labels == count_upto(i as int, p_label),
            aliases == count_upto(i as int, p_alias),
            unique == count_upto(i as int, p_new),
            numeric == count_upto(i as int, p_number),
            keys@.len() == i,
            forall|j: int| 0 <= j < i ==> (#[trigger] keys@[j])@ == cell_key(cells[j]),
        decreases row.len() - i,
    {
        let cell = &row[i];
        if cell_has_value(cell) {
            non_empty += 1;
        }
        if looks_like_header_label(cell) {
            labels += 1;
        }
        if looks_numeric_cell(cell) {
            numeric += 1;
        }
        let text = header_text(cell);
        if match_header(text.as_str()).is_some() {
            aliases += 1;
        }
        let key = normalize_header(text.as_str());
        let mut fresh = key.as_str().unicode_len() > 0;
        let mut j: usize = 0;
        while j < i
            invariant
                j <= i,
                i < cells.len(),
                keys@.len() == i,
                key@ == cell_key(cells[i as int]),
                forall|k: int| 0 <= k < i ==> (#[trigger] keys@[k])@ == cell_key(cells[k]),
                fresh == (key@.len() > 0 && forall|k: int|
                    0 <= k < j ==> cell_key(#[trigger] cells[k]) != cell_key(cells[i as int])),
            decreases i - j,
        {
            assert(keys@[j as int]@ == cell_key(cells[j as int]));
            if keys[j] == key {
                fresh = false;
            }
            j += 1;
        }
        assert(fresh == new_key(cells, i as int));
        if fresh {
            unique += 1;
        }
        keys.push(key);
        i += 1;
    }
    if non_empty == 0 {
        return None;
    }
    let width: usize = row_width(row);
    let slack: usize = if width / 5 > 1 {
        width / 5
    } else {
        1
    };
    let ghost p_consistent = |k: int| consistent(scanned@[index + 1 + k]@, width as int);
    let mut regular: usize = 0;
    let mut k: usize = 0;
    while k < SAMPLE_ROWS && k < scanned.len() - index - 1
        invariant
            index < scanned@.len(),
            k <= 8,
            k <= scanned@.len() - index - 1,
            slack == (if width / 5 > 1 {
                width / 5
            } else {
                1usize
            }),
            p_consistent == (|k: int| consistent(scanned@[index + 1 + k]@, width as int)),
            regular <= k,
            regular == count_upto(k as int, p_consistent),
        decreases 8 - k,
    {
        let own: usize = row_width(&scanned[index + 1 + k]);
        let distance: usize = if own > width {
            own - width
        } else {
            width - own
        };
        if own > 0 && distance <= slack {
            regular += 1;
        }
        k += 1;
    }
    let ghost p_transition = |c: int| transition(scanned@, index as int, c);
    let mut transitions: usize = 0;
    let mut c: usize = 0;
    while c < width
        invariant
            index < scanned@.len(),
            c <= width,
            p_transition == (|c: int| transition(scanned@, index as int, c)),
            transitions <= c,
            transitions == count_upto(c as int, p_transition),
        decreases width - c,
    {
        if has_transition(scanned, index, c) {
            transitions += 1;
        }
        c += 1;
    }
    Some(
        non_empty as i128 * 20 + labels as i128 * 6 + aliases as i128 * 12 + unique as i128 * 2
            + regular as i128 * 3 + transitions as i128 * 2 - numeric as i128 * 10,
    )
}

/// Row `h` is the header: no scanned row scores higher, and none in front as high.
pub open spec fn is_header(rows: Seq<Vec<Cell>>, h: int) -> bool {
    &&& 0 <= h < rows.len()
    &&& h < HEADER_SCAN_ROWS
    &&& score(rows, h) is Some
    &&& forall|i: int|
        #![trigger score(rows, i)]
        0 <= i < rows.len() && i < HEADER_SCAN_ROWS && score(rows, i) is Some ==> score(rows, i)->0
            <= score(rows, h)->0 && (i < h ==> score(rows, i)->0 < score(rows, h)->0)
}

/// No row that may be the header says anything.
pub open spec fn without_header(rows: Seq<Vec<Cell>>) -> bool {
    forall|i: int|
        0 <= i < rows.len() && i < HEADER_SCAN_ROWS ==> (#[trigger] score(rows, i)) is None
}

/// Finds the header row.
pub fn find_header(scanned: &Vec<Vec<Cell>>) -> (r: Option<usize>)
    ensures
        match r {
            Some(h) => is_header(scanned@, h as int),
            None => without_header(scanned@),
        },
{
    let mut best: Option<(usize, i128)> = None;
    let mut i: usize = 0;
    while i < HEADER_SCAN_ROWS && i < scanned.len()
        invariant
            i <= 50,
            i <= scanned@.len(),
            match best {
                Some((h, s)) => h < i && score(scanned@, h as int) == Some(s as int) && forall|
                    j: int,
                |
                    #![trigger score(scanned@, j)]
                    0 <= j < i && score(scanned@, j) is Some ==> score(scanned@, j)->0 <= s && (j
                        < h ==> score(scanned@, j)->0 < s),
                None => forall|j: int| 0 <= j < i ==> (#[trigger] score(scanned@, j)) is None,
            },
        decreases 50 - i,
    {
        match header_score(scanned, i) {
            Some(s) => {
                let better = match best {
                    Some((_, top)) => s > top,
                    None => true,
                };
                if better {
                    best = Some((i, s));
                }
            },
            None => {},
        }
        i += 1;
    }
    match best {
        Some((h, _)) => Some(h),
        None => None,
    }
}

/// The widest of the first `n` rows from row `from` on.
pub open spec fn widest(rows: Seq<Vec<Cell>>, from: int, n: int) -> nat
    decreases n,
{
    if n <= 0 {
        0
    } else {
        let before = widest(rows, from, n - 1);
        let own = filled_width(rows[from + n - 1]@);
        if own > before {
            own
        } else {
            before
        }
    }
}

/// The width of a table: the widest of its header and the sample rows behind it.
pub open spec fn width_of_table(rows: Seq<Vec<Cell>>, header_index: int) -> nat {
    widest(rows, header_index, following(rows, header_index) + 1)
}

/// The width of a table.
pub fn table_width(scanned: &Vec<Vec<Cell>>, header_index: usize) -> (r: usize)
    requires
        header_index < scanned@.len(),
    ensures
        r == width_of_table(scanned@, header_index as int),
{
    let mut top: usize = 0;
    let mut k: usize = 0;
    while k <= SAMPLE_ROWS && k < scanned.len() - header_index
        invariant
            header_index < scanned@.len(),
            k <= 9,
            k <= scanned@.len() - header_index,
            top == widest(scanned@, header_index as int, k as int),
        decreases 9 - k,
    {
        let own: usize = row_width(&scanned[header_index + k]);
        if own > top {
            top = own;
        }
        k += 1;
    }
    top
}

/// The header texts of a row, up to a width.
pub open spec fn header_row(row: Seq<Cell>, width: nat) -> Seq<Seq<char>> {
    Seq::new(
        width,
        |i: int|
            if i < row.len() {
                header_words(row[i].value)
            } else {
                Seq::empty()
            },
    )
}

/// The header texts of a row, up to a width.
pub fn raw_headers(row: &Vec<Cell>, width: usize) -> (r: Vec<String>)
    ensures
        views(r@) == header_row(row@, width as nat),
{
    let mut out: Vec<String> = Vec::new();
    let mut i: usize = 0;
    while i < width
        invariant
            i <= width,
            views(out@) == header_row(row@, width as nat).take(i as int),
        decreases width - i,
    {
        if i < row.len() {
            push_text(&mut out, header_text(&row[i]).as_str());
        } else {
            push_text(&mut out, String::new().as_str());
        }
        assert(views(out@) =~= header_row(row@, width as nat).take(i + 1));
        i += 1;
    }
    assert(header_row(row@, width as nat).take(width as int) =~= header_row(row@, width as nat));
    out
}

/// A header, or the number of its column where it has none.
pub open spec fn base_header(headers: Seq<Seq<char>>, i: int) -> Seq<char> {
    if trimmed(headers[i]).len() == 0 {
        "Column "@ + decimal((i + 1) as nat)
    } else {
        headers[i]
    }
}

/// How many of the first `n` headers have the key `key`.
pub open spec fn headers_with_key(headers: Seq<Seq<char>>, key: Seq<char>, n: int) -> nat {
    count_upto(n, |j: int| header_key(base_header(headers, j)) == key)
}

/// A header as it is shown: from its second column on, a repeated one is numbered.
pub open spec fn shown_header(headers: Seq<Seq<char>>, i: int) -> Seq<char> {
    let base = base_header(headers, i);
    let seen = headers_with_key(headers, header_key(base), i);
    if seen == 0 {
        base
    } else {
        base + " ("@ + decimal(seen + 1) + ")"@
    }
}

/// The headers as they are shown.
pub open spec fn shown_headers(headers: Seq<Seq<char>>) -> Seq<Seq<char>> {
    Seq::new(headers.len(), |i: int| shown_header(headers, i))
}

/// The headers as they are shown: a blank one is numbered by its column, a
/// repeated one by its repetition.
pub fn display_headers(headers: &Vec<String>) -> (r: Vec<String>)
    ensures
        views(r@) == shown_headers(views(headers@)),
{
    let ghost texts = views(headers@);
    let mut out: Vec<String> = Vec::new();
    let mut keys: Vec<String> = Vec::new();
    let mut i: usize = 0;
    while i < headers.len()
        invariant
            i <= headers.len(),
            texts == views(headers@),
            views(out@) == shown_headers(texts).take(i as int),
            keys@.len() == i,
            forall|j: int|
                0 <= j < i ==> (#[trigger] keys@[j])@ == header_key(base_header(texts, j)),
        decreases headers.len() - i,
    {
        assert(texts[i as int] == headers@[i as int]@);
        let base = if trim(headers[i].as_str()).as_str().unicode_len() == 0 {
            let mut base = String::from_str("Column ");
            base.append(decimal_text((i + 1) as u64).as_str());
            base
        } else {
            headers[i].clone()
        };
        assert(base@ == base_header(texts, i as int));
        let key = normalize_header(base.as_str());
        let ghost p = |j: int| header_key(base_header(texts, j)) == key@;
        let mut seen: usize = 0;
        let mut j: usize = 0;
        while j < i
            invariant
                j <= i,
                i < headers.len(),
                keys@.len() == i,
                p == (|j: int| header_key(base_header(texts, j)) == key@),
                forall|k: int|
                    0 <= k < i ==> (#[trigger] keys@[k])@ == header_key(base_header(texts, k)),
                seen <= j,
                seen == count_upto(j as int, p),
            decreases i - j,
        {
            assert(keys@[j as int]@ == header_key(base_header(texts, j as int)));
            if keys[j] == key {
                seen += 1;
            }
            j += 1;
        }
        let mut shown = base;
        if seen > 0 {
            shown.append(" (");
            shown.append(decimal_text((seen + 1) as u64).as_str());
            shown.append(")");
        }
        assert(shown@ == shown_header(texts, i as int));
        push_text(&mut out, shown.as_str());
        keys.push(key);
        assert(views(out@) =~= shown_headers(texts).take(i + 1));
        i += 1;
    }
    assert(shown_headers(texts).take(texts.len() as int) =~= shown_headers(texts));
    out
}

/// The columns of a table: where the canonical columns are filled from, and what
/// the source columns mean.
#[derive(Clone, Debug)]
pub struct MappingPlan {
    pub columns: Vec<ColSrc>,
    pub semantics: Meanings,
}

/// A table found in the first rows of a sheet.
#[derive(Clone, Debug)]
pub struct DetectedTable {
    pub header_index: usize,
    pub headers: Vec<String>,
    pub plan: MappingPlan,
}

impl DetectedTable {
    /// The kind of layout.
    pub fn layout(&self) -> (r: &'static str)
        ensures
            r@ == "generic table"@,
    {
        "generic table"
    }
}

/// `table` is what the header row `h` and the rows behind it give.
pub open spec fn detected_at(
    schema: Schema,
    rows: Seq<Vec<Cell>>,
    h: int,
    table: DetectedTable,
) -> bool {
    let raw = header_row(rows[h]@, width_of_table(rows, h));
    let samples = rows.skip(h + 1);
    &&& table.header_index == h
    &&& views(table.headers@) == shown_headers(raw)
    &&& table.plan.semantics.wf()
    &&& table.plan.semantics@ == table_meanings(raw, samples)
    &&& sources(table.plan.columns@) == canonical_sources(
        schema,
        raw,
        table_meanings(raw, samples),
        samples,
    )
}

/// Finds the table in the first rows of a sheet.
pub fn detect_table(schema: &Schema, scanned: &Vec<Vec<Cell>>) -> (r: Option<DetectedTable>)
    ensures
        match r {
            Some(table) => is_header(scanned@, table.header_index as int) && detected_at(
                *schema,
                scanned@,
                table.header_index as int,
                table,
            ),
            None => without_header(scanned@),
        },
{
    let header_index: usize = match find_header(scanned) {
        Some(h) => h,
        None => {
            return None;
        },
    };
    let width: usize = table_width(scanned, header_index);
    let raw = raw_headers(&scanned[header_index], width);
    let headers = display_headers(&raw);
    let semantics = infer_semantics(&raw, scanned, header_index + 1);
    let columns = canonical_mapping(schema, &raw, &semantics, scanned, header_index + 1);
    Some(DetectedTable { header_index, headers, plan: MappingPlan { columns, semantics } })
}

/// A sheet has one header row at most: the choice does not depend on how the
/// rows are looked at.
pub proof fn header_is_unique(rows: Seq<Vec<Cell>>, g: int, h: int)
    requires
        is_header(rows, g),
        is_header(rows, h),
    ensures
        g == h,
{
    assert(score(rows, g)->0 <= score(rows, h)->0);
    assert(score(rows, h)->0 <= score(rows, g)->0);
}

/// Row `h` looks most like a header among the first `n` rows, and is the first
/// that does.
spec fn best_upto(rows: Seq<Vec<Cell>>, h: int, n: int) -> bool {
    &&& 0 <= h < n
    &&& score(rows, h) is Some
    &&& forall|i: int|
        #![trigger score(rows, i)]
        0 <= i < n && score(rows, i) is Some ==> score(rows, i)->0 <= score(rows, h)->0 && (i < h
            ==> score(rows, i)->0 < score(rows, h)->0)
}

/// Where a row says something, there is one that looks most like a header.
proof fn best_exists(rows: Seq<Vec<Cell>>, i: int, n: int) -> (h: int)
    requires
        0 <= i < n,
        score(rows, i) is Some,
    ensures
        best_upto(rows, h, n),
    decreases n,
{
    if exists|j: int| 0 <= j < n - 1 && (#[trigger] score(rows, j)) is Some {
        let j = choose|j: int| 0 <= j < n - 1 && (#[trigger] score(rows, j)) is Some;
        let h = best_exists(rows, j, n - 1);
        if score(rows, n - 1) is Some && score(rows, n - 1)->0 > score(rows, h)->0 {
            n - 1
        } else {
            h
        }
    } else {
        assert(i == n - 1);
        i
    }
}

/// No template is required: wherever one cell among the first rows says something,
/// there is a header. A table of one column is valid.
pub proof fn no_template_is_required(rows: Seq<Vec<Cell>>, i: int, c: int)
    requires
        0 <= i < rows.len(),
        i < HEADER_SCAN_ROWS,
        0 <= c < rows[i]@.len(),
        has_value(rows[i]@[c].value),
    ensures
        exists|h: int| is_header(rows, h),
{
    let row = rows[i]@;
    let p = |k: int| has_value(row[k].value);
    assert(p(c));
    counted(row.len() as int, p, c);
    assert(score(rows, i) is Some);
    let n = if rows.len() < HEADER_SCAN_ROWS {
        rows.len() as int
    } else {
        HEADER_SCAN_ROWS as int
    };
    let h = best_exists(rows, i, n);
    assert(is_header(rows, h));
}

/// How many cells of a row say something.
pub open spec fn speaking(row: Seq<Cell>) -> nat {
    count_upto(row.len() as int, |i: int| has_value(row[i].value))
}

/// How many cells of a row read as labels.
pub open spec fn labels(row: Seq<Cell>) -> nat {
    count_upto(row.len() as int, |i: int| label_cell(row[i]))
}

/// How many cells of a row are recognised headers.
pub open spec fn recognised(row: Seq<Cell>) -> nat {
    count_upto(row.len() as int, |i: int| header_match(header_words(row[i].value)) is Some)
}

/// How many different keys the cells of a row have.
pub open spec fn different_keys(row: Seq<Cell>) -> nat {
    count_upto(row.len() as int, |i: int| new_key(row, i))
}

/// How many cells of a row hold numbers.
pub open spec fn numbers(row: Seq<Cell>) -> nat {
    count_upto(row.len() as int, |i: int| numeric_cell(row[i]))
}

/// How many of the rows behind a row are about as wide.
pub open spec fn regular_rows(rows: Seq<Vec<Cell>>, index: int) -> nat {
    let width = filled_width(rows[index]@) as int;
    count_upto(following(rows, index), |k: int| consistent(rows[index + 1 + k]@, width))
}

/// How many columns are labelled in a row and hold something else below.
pub open spec fn turning_columns(rows: Seq<Vec<Cell>>, index: int) -> nat {
    count_upto(
        filled_width(rows[index]@) as int,
        |c: int| transition(rows, index, c),
    )
}

/// What speaks for a header speaks for it, and numbers speak against it: a row
/// that is not behind another in any respect (cells that say something, labels,
/// recognised headers, different headers, rows of its width behind it, columns
/// that hold something else below) and holds no more numbers scores no less, and
/// it scores more where it is ahead in one respect or holds fewer numbers. The
/// rows may be of different sheets.
pub proof fn better_evidence_scores_higher(
    a: Seq<Vec<Cell>>,
    i: int,
    b: Seq<Vec<Cell>>,
    j: int,
)
    requires
        speaking(b[j]@) > 0,
        speaking(a[i]@) >= speaking(b[j]@),
        labels(a[i]@) >= labels(b[j]@),
        recognised(a[i]@) >= recognised(b[j]@),
        different_keys(a[i]@) >= different_keys(b[j]@),
        regular_rows(a, i) >= regular_rows(b, j),
        turning_columns(a, i) >= turning_columns(b, j),
        numbers(a[i]@) <= numbers(b[j]@),
    ensures
        score(a, i) is Some && score(b, j) is Some,
        score(a, i)->0 >= score(b, j)->0,
        speaking(a[i]@) > speaking(b[j]@) || labels(a[i]@) > labels(b[j]@) || recognised(a[i]@)
            > recognised(b[j]@) || different_keys(a[i]@) > different_keys(b[j]@) || regular_rows(
            a,
            i,
        ) > regular_rows(b, j) || turning_columns(a, i) > turning_columns(b, j) || numbers(a[i]@)
            < numbers(b[j]@) ==> score(a, i)->0 > score(b, j)->0,
{
}

/// How much each respect weighs, by two rows that differ in it: a cell that says
/// something twenty, a recognised header twelve more, a label six more, a row of
/// the same width behind it three, a header that is not repeated two, a column
/// that holds something else below two; and a number takes ten away.
pub proof fn evidence_weighs(a: Seq<Vec<Cell>>, i: int, b: Seq<Vec<Cell>>, j: int)
    requires
        speaking(a[i]@) > 0,
        speaking(b[j]@) > 0,
    ensures
        score(a, i)->0 - score(b, j)->0 == 20 * (speaking(a[i]@) - speaking(b[j]@)) + 12 * (
        recognised(a[i]@) - recognised(b[j]@)) + 6 * (labels(a[i]@) - labels(b[j]@)) + 3 * (
        regular_rows(a, i) - regular_rows(b, j)) + 2 * (different_keys(a[i]@) - different_keys(
            b[j]@,
        )) + 2 * (turning_columns(a, i) - turning_columns(b, j)) + 10 * (numbers(b[j]@) - numbers(
            a[i]@,
        )),
{
}

/// A condition is counted where another is not, and together they are all.
proof fn counted_or_not(n: int, p: spec_fn(int) -> bool, q: spec_fn(int) -> bool)
    requires
        0 <= n,
        forall|i: int| 0 <= i < n ==> #[trigger] p(i) != q(i),
    ensures
        count_upto(n, p) + count_upto(n, q) == n,
    decreases n,
{
    if n > 0 {
        counted_or_not(n - 1, p, q);
    }
}

/// One condition holds in one place more than another, counted.
proof fn counted_one_more(n: int, p: spec_fn(int) -> bool, q: spec_fn(int) -> bool, c: int)
    requires
        0 <= c < n,
        q(c) && !p(c),
        forall|i: int| 0 <= i < n && i != c ==> #[trigger] p(i) == q(i),
    ensures
        count_upto(n, q) == count_upto(n, p) + 1,
    decreases n,
{
    if c == n - 1 {
        crate::counting::same_condition(n - 1, p, q);
    } else {
        counted_one_more(n - 1, p, q, c);
    }
}

/// Numbers speak against a header: of two sheets that differ only in that the text
/// in one cell of a row is a number in one and none in the other, the row with
/// the number scores less.
pub proof fn a_number_speaks_against_a_header(
    rows: Seq<Vec<Cell>>,
    other: Seq<Vec<Cell>>,
    index: int,
    c: int,
)
    requires
        rows.len() == other.len(),
        0 <= index < rows.len(),
        forall|k: int| 0 <= k < rows.len() && k != index ==> rows[k]@ == #[trigger] other[k]@,
        0 <= c < rows[index]@.len(),
        rows[index]@[c].value is Text,
        !rows[index]@[c].bare_number,
        other[index]@ == rows[index]@.update(
            c,
            Cell { bare_number: true, ..rows[index]@[c] },
        ),
        score(rows, index) is Some,
    ensures
        score(other, index) is Some,
        score(other, index)->0 < score(rows, index)->0,
        score(rows, index)->0 - score(other, index)->0 == 10,
{
    let row = rows[index]@;
    let changed = other[index]@;
    let n = row.len() as int;
    assert forall|i: int| 0 <= i < n implies (#[trigger] changed[i]).value == row[i].value by {}
    crate::counting::same_condition(
        n,
        |i: int| has_value(row[i].value),
        |i: int| has_value(changed[i].value),
    );
    crate::counting::same_condition(
        n,
        |i: int| label_cell(row[i]),
        |i: int| label_cell(changed[i]),
    );
    crate::counting::same_condition(
        n,
        |i: int| header_match(header_words(row[i].value)) is Some,
        |i: int| header_match(header_words(changed[i].value)) is Some,
    );
    assert forall|i: int| 0 <= i < n implies #[trigger] new_key(row, i) == new_key(changed, i) by {
        assert forall|j: int| 0 <= j < n implies cell_key(#[trigger] row[j]) == cell_key(
            changed[j],
        ) by {}
        if new_key(row, i) {
            assert forall|j: int| 0 <= j < i implies cell_key(#[trigger] changed[j]) != cell_key(
                changed[i],
            ) by {
                assert(cell_key(row[j]) != cell_key(row[i]));
            }
        }
        if new_key(changed, i) {
            assert forall|j: int| 0 <= j < i implies cell_key(#[trigger] row[j]) != cell_key(
                row[i],
            ) by {
                assert(cell_key(changed[j]) != cell_key(changed[i]));
            }
        }
    }
    crate::counting::same_condition(n, |i: int| new_key(row, i), |i: int| new_key(changed, i));
    counted_one_more(
        n,
        |i: int| numeric_cell(row[i]),
        |i: int| numeric_cell(changed[i]),
        c,
    );
    same_filled_width(row, changed);
    let width = filled_width(row) as int;
    assert forall|k: int| 0 <= k < following(rows, index) implies consistent(
        #[trigger] rows[index + 1 + k]@,
        width,
    ) == consistent(other[index + 1 + k]@, width) by {
        assert(rows[index + 1 + k]@ == other[index + 1 + k]@);
    }
    crate::counting::same_condition(
        following(rows, index),
        |k: int| consistent(rows[index + 1 + k]@, width),
        |k: int| consistent(other[index + 1 + k]@, width),
    );
    assert forall|col: int| 0 <= col < width implies #[trigger] transition(rows, index, col)
        == transition(other, index, col) by {
        if col < n {
            assert(label_cell(row[col]) == label_cell(changed[col]));
        }
        if transition(rows, index, col) {
            let k = choose|k: int|
                1 <= k <= following(rows, index) && col < (#[trigger] rows[index + k])@.len()
                    && !label_cell(rows[index + k]@[col]);
            assert(other[index + k]@ == rows[index + k]@);
        }
        if transition(other, index, col) {
            let k = choose|k: int|
                1 <= k <= following(other, index) && col < (#[trigger] other[index + k])@.len()
                    && !label_cell(other[index + k]@[col]);
            assert(other[index + k]@ == rows[index + k]@);
        }
    }
    crate::counting::same_condition(
        width,
        |col: int| transition(rows, index, col),
        |col: int| transition(other, index, col),
    );
}

/// Rows whose cells hold the same values are equally wide.
proof fn same_filled_width(a: Seq<Cell>, b: Seq<Cell>)
    requires
        a.len() == b.len(),
        forall|i: int| 0 <= i < a.len() ==> (#[trigger] b[i]).value == a[i].value,
    ensures
        filled_width(a) == filled_width(b),
    decreases a.len(),
{
    if a.len() > 0 {
        let n = a.len() - 1;
        assert(b[n].value == a[n].value);
        same_filled_width(a.drop_last(), b.drop_last());
    }
}

/// A row of cells that all say something is as wide as it is long.
proof fn full_row_width(row: Seq<Cell>)
    requires
        forall|c: int| 0 <= c < row.len() ==> has_value((#[trigger] row[c]).value),
    ensures
        filled_width(row) == row.len(),
{
    if row.len() > 0 {
        assert(has_value(row[row.len() - 1].value));
    }
}

/// Every cell of a row is a label of its own, and none is a number.
pub open spec fn all_labels(row: Seq<Cell>) -> bool {
    forall|c: int|
        0 <= c < row.len() ==> has_value((#[trigger] row[c]).value) && label_cell(row[c])
            && !numeric_cell(row[c]) && new_key(row, c)
}

/// A data row: in the columns of `number` it holds numbers, in the others words,
/// none of which is a header.
pub open spec fn data_row_of(row: Seq<Cell>, number: spec_fn(int) -> bool) -> bool {
    forall|c: int|
        0 <= c < row.len() ==> has_value((#[trigger] row[c]).value) && numeric_cell(row[c])
            == number(c) && label_cell(row[c]) == !number(c) && header_match(
            header_words(row[c].value),
        ) is None
}

/// What each respect of a row of labels amounts to.
proof fn evidence_of_labels(rows: Seq<Vec<Cell>>, index: int)
    requires
        0 <= index < rows.len(),
        all_labels(rows[index]@),
    ensures
        speaking(rows[index]@) == rows[index]@.len(),
        labels(rows[index]@) == rows[index]@.len(),
        different_keys(rows[index]@) == rows[index]@.len(),
        numbers(rows[index]@) == 0,
        filled_width(rows[index]@) == rows[index]@.len(),
{
    let row = rows[index]@;
    let n = row.len() as int;
    assert forall|c: int| 0 <= c < n implies new_key(row, c) by {
        assert(has_value(row[c].value));
    }
    all_counted(n, |i: int| has_value(row[i].value));
    all_counted(n, |i: int| label_cell(row[i]));
    all_counted(n, |i: int| new_key(row, i));
    none_found(n, |i: int| numeric_cell(row[i]));
    full_row_width(row);
}

/// A row of labels above rows that hold numbers in the same columns is the
/// header: in a sheet of rows of one width, whose first row holds different
/// labels and whose other rows hold numbers in some columns and words in the
/// others, the first row is the header and every row below it is kept as data.
pub proof fn labels_above_numbers_are_the_header(
    rows: Seq<Vec<Cell>>,
    number: spec_fn(int) -> bool,
    column: int,
)
    requires
        rows.len() >= 2,
        forall|k: int| 0 <= k < rows.len() ==> (#[trigger] rows[k])@.len() == rows[0]@.len(),
        all_labels(rows[0]@),
        forall|k: int| 1 <= k < rows.len() ==> data_row_of((#[trigger] rows[k])@, number),
        0 <= column < rows[0]@.len(),
        number(column),
    ensures
        is_header(rows, 0),
        forall|h: int| is_header(rows, h) ==> h == 0,
{
    let n = rows[0]@.len() as int;
    evidence_of_labels(rows, 0);
    assert forall|k: int| 1 <= k < rows.len() implies filled_width((#[trigger] rows[k])@) == n by {
        full_row_width(rows[k]@);
    }
    let near = |k: int| consistent(rows[0 + 1 + k]@, n);
    assert forall|k: int| 0 <= k < following(rows, 0) implies #[trigger] near(k) by {
        assert(filled_width(rows[1 + k]@) == n);
    }
    all_counted(following(rows, 0), near);
    assert forall|i: int|
        1 <= i < rows.len() && (#[trigger] score(rows, i)) is Some implies score(rows, i)->0
        < score(rows, 0)->0 by {
        let row = rows[i]@;
        assert(data_row_of(rows[i]@, number));
        let p_label = |c: int| label_cell(row[c]);
        let p_number = |c: int| numeric_cell(row[c]);
        all_counted(n, |c: int| has_value(row[c].value));
        assert forall|c: int| 0 <= c < n implies #[trigger] p_label(c) != p_number(c) by {
            assert(has_value(row[c].value));
        }
        counted_or_not(n, p_label, p_number);
        assert(p_number(column)) by {
            assert(has_value(row[column].value));
        }
        counted(n, p_number, column);
        let p_alias = |c: int| header_match(header_words(row[c].value)) is Some;
        assert forall|c: int| 0 <= c < n implies !#[trigger] p_alias(c) by {
            assert(has_value(row[c].value));
        }
        none_found(n, p_alias);
        count_bound(n, |c: int| new_key(row, c));
        count_bound(
            following(rows, i),
            |k: int| consistent(rows[i + 1 + k]@, filled_width(row) as int),
        );
        let turns = |c: int| transition(rows, i, c);
        assert forall|c: int| 0 <= c < n implies !#[trigger] turns(c) by {
            if turns(c) {
                assert(has_value(row[c].value));
                let k = choose|k: int|
                    1 <= k <= following(rows, i) && c < (#[trigger] rows[i + k])@.len()
                        && !label_cell(rows[i + k]@[c]);
                assert(data_row_of(rows[i + k]@, number));
                assert(has_value(rows[i + k]@[c].value));
            }
        }
        none_found(n, turns);
        evidence_weighs(rows, 0, rows, i);
    }
    assert(is_header(rows, 0));
    assert forall|h: int| is_header(rows, h) implies h == 0 by {
        header_is_unique(rows, h, 0);
    }
}

/// A title does not beat a header: a row of one cell, whatever it says, scores
/// less than a row of three different labels or more without numbers.
pub proof fn a_title_does_not_beat_a_header(rows: Seq<Vec<Cell>>, title: int, header: int)
    requires
        0 <= title < rows.len(),
        0 <= header < rows.len(),
        rows[title]@.len() == 1,
        rows[header]@.len() >= 3,
        all_labels(rows[header]@),
    ensures
        score(rows, header) is Some,
        score(rows, title) is Some ==> score(rows, title)->0 < score(rows, header)->0,
        header < HEADER_SCAN_ROWS ==> !is_header(rows, title),
{
    let row = rows[title]@;
    evidence_of_labels(rows, header);
    count_bound(1, |i: int| has_value(row[i].value));
    count_bound(1, |i: int| label_cell(row[i]));
    count_bound(1, |i: int| header_match(header_words(row[i].value)) is Some);
    count_bound(1, |i: int| new_key(row, i));
    assert(filled_width(row) <= 1) by {
        reveal_with_fuel(filled_width, 2);
    }
    count_bound(filled_width(row) as int, |k: int| transition(rows, title, k));
    count_bound(
        following(rows, title),
        |k: int| consistent(rows[title + 1 + k]@, filled_width(row) as int),
    );
    if score(rows, title) is Some {
        evidence_weighs(rows, header, rows, title);
    }
}

} // verus!
