//! A look at a table before it is imported.
use vstd::prelude::*;
use vstd::string::*;

use crate::counting::{all_bound, all_upto};
use crate::import::cells::{clean_text, normalize_value, Cell};
use crate::import::columns::{placed_column, shape_for_headers};
use crate::import::detection::{
    detect_table, detected_at, header_row, is_header, shown_headers, width_of_table,
    without_header,
};
use crate::import::mapping::canonical_sources;
use crate::import::meanings::table_meanings;
use crate::number::{decimal, decimal_text};
use crate::schema::Schema;
use crate::table::{ColumnRole, SemanticField, SourceColumn};
use crate::text::{chars_of, stretch, string_of, views};

verus! {

/// A lightweight preview of a spreadsheet's structure without importing it:
/// the first sheets with their size, header row, and one sample data row.
#[derive(Debug, Clone)]
pub struct WorkbookPeek {
    pub sheets: Vec<SheetPeek>,
}

/// The preview of one sheet.
#[derive(Debug, Clone)]
pub struct SheetPeek {
    pub name: String,
    pub rows: usize,
    pub cols: usize,
    pub header_row: usize,
    pub layout: String,
    pub columns: Vec<ColumnPeek>,
}

/// The preview of one column.
#[derive(Debug, Clone)]
pub struct ColumnPeek {
    pub index: usize,
    pub id: String,
    pub header: String,
    pub sample: String,
    pub role: ColumnRole,
    pub semantic: Option<SemanticField>,
}

/// At most the first `n` characters of a text.
pub open spec fn short(s: Seq<char>, n: int) -> Seq<char> {
    if s.len() <= n {
        s
    } else {
        s.take(n)
    }
}

/// Cuts a text after its first `n` characters.
pub fn shorten(s: &str, n: usize) -> (r: String)
    ensures
        r@ == short(s@, n as int),
{
    let v = chars_of(s);
    if v.len() <= n {
        string_of(&v)
    } else {
        let cut = stretch(&v, 0, n);
        assert(cut@ =~= v@.take(n as int));
        string_of(&cut)
    }
}

/// The sample row of a table: the clean texts of the row behind its header.
pub open spec fn sample_row(rows: Seq<Vec<Cell>>, h: int) -> Seq<Seq<char>> {
    if h + 1 < rows.len() {
        Seq::new(
            rows[h + 1]@.len(),
            |i: int| short(clean_text(rows[h + 1]@[i].value, false), 80),
        )
    } else {
        Seq::empty()
    }
}

/// `peek` is the preview of column `i` of the table with header row `h`.
pub open spec fn previews_column(
    schema: Schema,
    rows: Seq<Vec<Cell>>,
    h: int,
    i: int,
    peek: ColumnPeek,
) -> bool {
    let raw = header_row(rows[h]@, width_of_table(rows, h));
    let samples = rows.skip(h + 1);
    let meanings = table_meanings(raw, samples);
    let sample = sample_row(rows, h);
    &&& peek.index == i
    &&& peek.sample@ == (if i < sample.len() {
        sample[i]
    } else {
        Seq::empty()
    })
    &&& if i < raw.len() {
        exists|column: SourceColumn|
            #[trigger] placed_column(
                schema,
                shown_headers(raw),
                canonical_sources(schema, raw, meanings, samples),
                Some(meanings),
                Map::empty(),
                i as usize,
                column,
            ) && peek.id@ == column.id@ && peek.header@ == column.header@ && peek.role
                == column.role && peek.semantic == column.semantic
    } else {
        peek.id@ == "column_"@ + decimal((i + 1) as nat) && peek.header@ == "Column "@ + decimal(
            (i + 1) as nat,
        ) && peek.role == ColumnRole::Text && peek.semantic is None
    }
}

/// `peek` is the preview of the sheet whose header is row `h`.
pub open spec fn previews_sheet(
    schema: Schema,
    rows: Seq<Vec<Cell>>,
    h: int,
    peek: SheetPeek,
) -> bool {
    let width = width_of_table(rows, h);
    let sample = sample_row(rows, h).len();
    &&& peek.header_row == h + 1
    &&& peek.layout@ == "generic table"@
    &&& peek.columns@.len() == (if width >= sample {
        width
    } else {
        sample
    })
    &&& forall|i: int|
        0 <= i < peek.columns@.len() ==> previews_column(
            schema,
            rows,
            h,
            i,
            #[trigger] peek.columns@[i],
        )
}

/// Previews one sheet by its first rows.
pub fn preview_sheet(
    schema: &Schema,
    name: String,
    rows: usize,
    cols: usize,
    scanned: &Vec<Vec<Cell>>,
) -> (r: Option<SheetPeek>)
    ensures
        match r {
            Some(peek) => peek.name == name && peek.rows == rows && peek.cols == cols
                && exists|h: int|
                #[trigger] is_header(scanned@, h) && previews_sheet(*schema, scanned@, h, peek),
            None => without_header(scanned@),
        },
{
    let detected = match detect_table(schema, scanned) {
        Some(detected) => detected,
        None => {
            return None;
        },
    };
    let ghost h = detected.header_index as int;
    let ghost raw = header_row(scanned@[h]@, width_of_table(scanned@, h));
    let ghost samples = scanned@.skip(h + 1);
    let ghost meanings = table_meanings(raw, samples);
    assert(detected_at(*schema, scanned@, h, detected));
    assert(detected.headers@.len() == raw.len()) by {
        assert(views(detected.headers@).len() == shown_headers(raw).len());
    }
    assert(detected.plan.columns@.len() == schema.columns@.len()) by {
        assert(crate::import::mapping::sources(detected.plan.columns@).len() == canonical_sources(
            *schema,
            raw,
            meanings,
            samples,
        ).len());
    }
    let mut sample: Vec<String> = Vec::new();
    if detected.header_index + 1 < scanned.len() {
        let row = &scanned[detected.header_index + 1];
        let mut i: usize = 0;
        while i < row.len()
            invariant
                h + 1 < scanned@.len(),
                0 <= h,
                *row == scanned@[h + 1],
                i <= row@.len(),
                sample@.len() == i,
                forall|j: int|
                    0 <= j < i ==> (#[trigger] sample@[j])@ == sample_row(scanned@, h)[j],
            decreases row.len() - i,
        {
            sample.push(shorten(normalize_value(&row[i]).as_str(), 80));
            i += 1;
        }
    }
    let shape = shape_for_headers(
        schema,
        &detected.headers,
        Some(&detected.plan.columns),
        Some(&detected.plan.semantics),
        None,
    );
    let width: usize = if detected.headers.len() >= sample.len() {
        detected.headers.len()
    } else {
        sample.len()
    };
    let mut columns: Vec<ColumnPeek> = Vec::new();
    let mut index: usize = 0;
    while index < width
        invariant
            index <= width,
            0 <= h < scanned@.len(),
            raw == header_row(scanned@[h]@, width_of_table(scanned@, h)),
            samples == scanned@.skip(h + 1),
            meanings == table_meanings(raw, samples),
            shape.columns@.len() == raw.len(),
            sample@.len() == sample_row(scanned@, h).len(),
            forall|j: int|
                0 <= j < sample@.len() ==> (#[trigger] sample@[j])@ == sample_row(scanned@, h)[j],
            forall|i: int|
                0 <= i < raw.len() ==> placed_column(
                    *schema,
                    shown_headers(raw),
                    canonical_sources(*schema, raw, meanings, samples),
                    Some(meanings),
                    Map::empty(),
                    i as usize,
                    #[trigger] shape.columns@[i],
                ),
            columns@.len() == index,
            forall|i: int|
                0 <= i < index ==> previews_column(
                    *schema,
                    scanned@,
                    h,
                    i,
                    #[trigger] columns@[i],
                ),
        decreases width - index,
    {
        let text = if index < sample.len() {
            sample[index].clone()
        } else {
            String::new()
        };
        let peek = if index < shape.columns.len() {
            let column = &shape.columns[index];
            ColumnPeek {
                index,
                id: column.id.clone(),
                header: column.header.clone(),
                sample: text,
                role: column.role,
                semantic: column.semantic,
            }
        } else {
            let number = decimal_text(index as u64 + 1);
            let mut id = String::from_str("column_");
            id.append(number.as_str());
            let mut header = String::from_str("Column ");
            header.append(number.as_str());
            ColumnPeek { index, id, header, sample: text, role: ColumnRole::Text, semantic: None }
        };
        assert(previews_column(*schema, scanned@, h, index as int, peek));
        columns.push(peek);
        index += 1;
    }
    let peek = SheetPeek {
        name,
        rows,
        cols,
        header_row: detected.header_index + 1,
        layout: String::from_str(detected.layout()),
        columns,
    };
    assert(is_header(scanned@, h) && previews_sheet(*schema, scanned@, h, peek));
    Some(peek)
}

/// A sheet as it was read: its name, its size, and its first rows.
#[derive(Clone, Debug)]
pub struct ReadSheet {
    pub name: String,
    pub rows: usize,
    pub cols: usize,
    pub scanned: Vec<Vec<Cell>>,
}

/// `peek` is the preview of a sheet.
pub open spec fn previews_read(schema: Schema, sheet: ReadSheet, peek: SheetPeek) -> bool {
    &&& peek.name@ == sheet.name@
    &&& peek.rows == sheet.rows
    &&& peek.cols == sheet.cols
    &&& exists|h: int| #[trigger]
        is_header(sheet.scanned@, h) && previews_sheet(schema, sheet.scanned@, h, peek)
}

/// Sheet `i` could be read and has a table.
pub open spec fn shows_table(sheets: Seq<Option<ReadSheet>>, i: int) -> bool {
    sheets[i] is Some && !without_header(sheets[i]->0.scanned@)
}

/// The places of the sheets with a table among the first `max_sheets`.
pub open spec fn shown_sheets(sheets: Seq<Option<ReadSheet>>, max_sheets: int) -> Seq<usize> {
    all_upto(
        if max_sheets < sheets.len() {
            max_sheets
        } else {
            sheets.len() as int
        },
        |i: int| shows_table(sheets, i),
    )
}

/// `r` is the preview of the first sheets of a workbook, or that it has nothing
/// to show.
pub open spec fn peeks_workbook(
    schema: Schema,
    sheets: Seq<Option<ReadSheet>>,
    max_sheets: int,
    r: Result<WorkbookPeek, String>,
) -> bool {
    let kept = shown_sheets(sheets, max_sheets);
    match r {
        Ok(peek) => {
            &&& kept.len() > 0
            &&& peek.sheets@.len() == kept.len()
            &&& forall|k: int|
                0 <= k < kept.len() ==> previews_read(
                    schema,
                    sheets[kept[k] as int]->0,
                    #[trigger] peek.sheets@[k],
                )
        },
        Err(e) => kept.len() == 0 && e@ == "No readable sheets in this file."@,
    }
}

/// Previews the first sheets of a workbook. One that could not be read, or that
/// has no table, is passed over; a workbook with nothing to show is refused.
fn peek_workbook(schema: &Schema, sheets: &Vec<Option<ReadSheet>>, max_sheets: usize) -> (r: Result<
    WorkbookPeek,
    String,
>)
    ensures
        peeks_workbook(*schema, sheets@, max_sheets as int, r),
{
    let n: usize = if max_sheets < sheets.len() {
        max_sheets
    } else {
        sheets.len()
    };
    let ghost p = |i: int| shows_table(sheets@, i);
    let mut shown: Vec<SheetPeek> = Vec::new();
    let mut i: usize = 0;
    while i < n
        invariant
            i <= n <= sheets@.len(),
            p == (|i: int| shows_table(sheets@, i)),
            shown@.len() == all_upto(i as int, p).len(),
            forall|k: int|
                0 <= k < shown@.len() ==> previews_read(
                    *schema,
                    sheets@[all_upto(i as int, p)[k] as int]->0,
                    #[trigger] shown@[k],
                ),
        decreases n - i,
    {
        let ghost before = all_upto(i as int, p);
        let ghost at = i as int;
        match &sheets[i] {
            Some(sheet) => {
                match preview_sheet(
                    schema,
                    sheet.name.clone(),
                    sheet.rows,
                    sheet.cols,
                    &sheet.scanned,
                ) {
                    Some(peek) => {
                        proof {
                            let h = choose|h: int| #[trigger]
                                is_header(sheet.scanned@, h) && previews_sheet(
                                    *schema,
                                    sheet.scanned@,
                                    h,
                                    peek,
                                );
                            assert(!without_header(sheet.scanned@));
                            assert(p(at));
                        }
                        assert(previews_read(*schema, *sheet, peek));
                        shown.push(peek);
                    },
                    None => {
                        assert(!p(at));
                    },
                }
            },
            None => {
                assert(!p(at));
            },
        }
        i += 1;
        assert forall|k: int| 0 <= k < shown@.len() implies previews_read(
            *schema,
            sheets@[all_upto(i as int, p)[k] as int]->0,
            #[trigger] shown@[k],
        ) by {
            if k < before.len() {
                assert(all_upto(i as int, p)[k] == before[k]);
            }
        }
    }
    if shown.len() == 0 {
        return Err(String::from_str("No readable sheets in this file."));
    }
    Ok(WorkbookPeek { sheets: shown })
}

/// The length of the longest row.
pub open spec fn widest(rows: Seq<Vec<Cell>>, n: int) -> nat
    decreases n,
{
    if n <= 0 {
        0
    } else if rows[n - 1]@.len() > widest(rows, n - 1) {
        rows[n - 1]@.len()
    } else {
        widest(rows, n - 1)
    }
}

/// The length of the longest row.
fn widest_row(rows: &Vec<Vec<Cell>>) -> (r: usize)
    ensures
        r == widest(rows@, rows@.len() as int),
{
    let mut most: usize = 0;
    let mut i: usize = 0;
    while i < rows.len()
        invariant
            i <= rows@.len(),
            most == widest(rows@, i as int),
        decreases rows.len() - i,
    {
        if rows[i].len() > most {
            most = rows[i].len();
        }
        i += 1;
    }
    most
}

/// The name under which a delimited file is previewed.
pub open spec fn table_name(file_name: Option<Seq<char>>) -> Seq<char> {
    match file_name {
        Some(name) => name,
        None => "Delimited table"@,
    }
}

/// `r` is the preview of a delimited file, or why it has none.
pub open spec fn peeks_delimited(
    schema: Schema,
    file_name: Option<Seq<char>>,
    scanned: Seq<Vec<Cell>>,
    r: Result<WorkbookPeek, String>,
) -> bool {
    match r {
        Ok(peek) => {
            &&& peek.sheets@.len() == 1
            &&& peek.sheets@[0].name@ == table_name(file_name)
            &&& peek.sheets@[0].rows == scanned.len()
            &&& peek.sheets@[0].cols == widest(scanned, scanned.len() as int)
            &&& exists|h: int| #[trigger]
                is_header(scanned, h) && previews_sheet(schema, scanned, h, peek.sheets@[0])
        },
        Err(e) => if scanned.len() == 0 {
            e@ == "The delimited file has no header row."@
        } else {
            without_header(scanned) && e@
                == "No non-empty table was found in the delimited file."@
        },
    }
}

/// Previews a delimited file by its first rows, as the one sheet that it is.
pub fn peek_delimited_file(
    schema: &Schema,
    file_name: Option<&str>,
    scanned: &Vec<Vec<Cell>>,
) -> (r: Result<WorkbookPeek, String>)
    ensures
        peeks_delimited(
            *schema,
            match file_name {
                Some(name) => Some(name@),
                None => None,
            },
            scanned@,
            r,
        ),
{
    if scanned.len() == 0 {
        return Err(String::from_str("The delimited file has no header row."));
    }
    let name = match file_name {
        Some(name) => String::from_str(name),
        None => String::from_str("Delimited table"),
    };
    match preview_sheet(schema, name, scanned.len(), widest_row(scanned), scanned) {
        Some(sheet) => {
            let mut sheets: Vec<SheetPeek> = Vec::new();
            sheets.push(sheet);
            Ok(WorkbookPeek { sheets })
        },
        None => Err(String::from_str("No non-empty table was found in the delimited file.")),
    }
}

/// No more sheets are shown than were asked for.
proof fn shown_sheets_are_few(sheets: Seq<Option<ReadSheet>>, max_sheets: int)
    requires
        0 <= max_sheets,
    ensures
        shown_sheets(sheets, max_sheets).len() <= max_sheets,
{
    let n = if max_sheets < sheets.len() {
        max_sheets
    } else {
        sheets.len() as int
    };
    all_bound(n, |i: int| shows_table(sheets, i));
}

/// A file as it was read: the first sheets of a workbook, in their order and
/// without those that could not be read, or the first rows of a delimited file.
#[derive(Clone, Debug)]
pub enum ReadFile {
    Workbook(Vec<Option<ReadSheet>>),
    Delimited { name: Option<String>, scanned: Vec<Vec<Cell>> },
}

/// Previews at most `max_sheets` sheets of a file. A delimited file is one sheet.
pub fn peek_file(schema: &Schema, file: &ReadFile, max_sheets: usize) -> (r: Result<
    WorkbookPeek,
    String,
>)
    ensures
        match file {
            ReadFile::Workbook(sheets) => peeks_workbook(*schema, sheets@, max_sheets as int, r),
            ReadFile::Delimited { name, scanned } => if max_sheets == 0 {
                r is Err && r->Err_0@ == "No readable sheets in this file."@
            } else {
                peeks_delimited(
                    *schema,
                    match name {
                        Some(name) => Some(name@),
                        None => None,
                    },
                    scanned@,
                    r,
                )
            },
        },
        r matches Ok(peek) ==> peek.sheets@.len() <= max_sheets,
{
    match file {
        ReadFile::Workbook(sheets) => {
            proof {
                shown_sheets_are_few(sheets@, max_sheets as int);
            }
            peek_workbook(schema, sheets, max_sheets)
        },
        ReadFile::Delimited { name, scanned } => {
            if max_sheets == 0 {
                return Err(String::from_str("No readable sheets in this file."));
            }
            let shown = match name {
                Some(name) => Some(name.as_str()),
                None => None,
            };
            peek_delimited_file(schema, shown, scanned)
        },
    }
}

/// A sample is the row behind the header, each text cut at eighty characters.
pub proof fn a_sample_is_the_first_row_cut_short(rows: Seq<Vec<Cell>>, h: int, i: int)
    requires
        0 <= h,
    ensures
        h + 1 >= rows.len() ==> sample_row(rows, h).len() == 0,
        h + 1 < rows.len() ==> sample_row(rows, h).len() == rows[h + 1]@.len(),
        h + 1 < rows.len() && 0 <= i < rows[h + 1]@.len() ==> {
            let text = clean_text(rows[h + 1]@[i].value, false);
            &&& sample_row(rows, h)[i].len() <= 80
            &&& text.len() <= 80 ==> sample_row(rows, h)[i] == text
            &&& text.len() > 80 ==> sample_row(rows, h)[i] == text.take(80)
        },
{
}

} // verus!
