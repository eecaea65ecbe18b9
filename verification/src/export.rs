//! Export of results to CSV and Excel files.
use vstd::prelude::*;
use vstd::string::*;
use vstd::utf8::encode_utf8;

use crate::counting::{first_found, first_is, first_upto, none_found};
use crate::number::{decimal, decimal_text};
use crate::paths::{FilePath, PathModel};
use crate::query::{FieldInfo, ResultSort};
use crate::text::{ascii_lowered, ascii_text, chars_of, lower_text, push_text, same, text_to_lowercase, views};

verus! {

/// Excel worksheet row limit minus the header row.
pub const XLSX_MAX_ROWS: u64 = 1_048_575;

/// After how many rows progress is told.
pub const BATCH: u64 = 4096;

/// How many fields an export may have.
pub const MAX_EXPORT_FIELDS: usize = 4096;

/// The format of an export.
#[derive(Clone, Copy, PartialEq, Eq, Debug, Structural)]
pub enum ExportFormat {
    Csv,
    Xlsx,
}

/// Why an export did not come about.
#[derive(Debug)]
pub enum ExportError {
    /// More rows than a single Excel worksheet can store; CSV is required.
    TooManyRowsForXlsx(u64),
    UnsupportedExtension(String),
    Cancelled,
    Other(String),
}

/// What is wrong with the fields selected for an export.
#[derive(Debug)]
pub enum ExportSelectionError {
    EmptyFieldSelection,
    TooManyFields { requested: usize, maximum: usize },
    DuplicateField(String),
    UnknownField(String),
    UnknownSortField(String),
}

/// The extension of a file in small letters; empty where there is none.
pub open spec fn export_extension(path: PathModel) -> Seq<char> {
    match path.extension() {
        Some(e) => lower_text(e),
        None => Seq::empty(),
    }
}

impl ExportFormat {
    /// The format of an export, by the extension of its file.
    pub fn from_path(path: &FilePath) -> (r: Result<ExportFormat, ExportError>)
        ensures
            match r {
                Ok(ExportFormat::Csv) => path@.extension() is Some && export_extension(path@)
                    == "csv"@,
                Ok(ExportFormat::Xlsx) => path@.extension() is Some && export_extension(path@)
                    == "xlsx"@,
                Err(e) => e is UnsupportedExtension && e->UnsupportedExtension_0@
                    == export_extension(path@) && (path@.extension() is Some ==> export_extension(
                    path@,
                ) != "csv"@ && export_extension(path@) != "xlsx"@),
            },
            path@.extension() is Some && ascii_text(path@.extension()->0) ==> {
                let e = ascii_lowered(path@.extension()->0);
                &&& (r == Ok::<ExportFormat, ExportError>(ExportFormat::Csv) <==> e == "csv"@)
                &&& (r == Ok::<ExportFormat, ExportError>(ExportFormat::Xlsx) <==> e == "xlsx"@)
            },
    {
        proof {
            reveal_strlit("csv");
            reveal_strlit("xlsx");
            assert("csv"@.len() != "xlsx"@.len());
        }
        match path.extension() {
            Some(e) => {
                let lower = text_to_lowercase(e.as_str());
                if same(lower.as_str(), "csv") {
                    Ok(ExportFormat::Csv)
                } else if same(lower.as_str(), "xlsx") {
                    Ok(ExportFormat::Xlsx)
                } else {
                    Err(ExportError::UnsupportedExtension(lower))
                }
            },
            None => Err(ExportError::UnsupportedExtension(String::new())),
        }
    }
}

/// What is said of a selection that is wrong.
pub open spec fn selection_message(error: ExportSelectionError) -> Seq<char> {
    match error {
        ExportSelectionError::EmptyFieldSelection => "Select at least one export field."@,
        ExportSelectionError::TooManyFields { requested, maximum } => "Selected "@ + decimal(
            requested as nat,
        ) + " export fields; the maximum is "@ + decimal(maximum as nat) + "."@,
        ExportSelectionError::DuplicateField(field) => "Export field '"@ + field@
            + "' was selected more than once."@,
        ExportSelectionError::UnknownField(field) => "Unknown export field: '"@ + field@ + "'."@,
        ExportSelectionError::UnknownSortField(field) => "Unknown export sort field: '"@ + field@
            + "'."@,
    }
}

impl ExportSelectionError {
    /// What is said of the selection.
    pub fn message(&self) -> (r: String)
        ensures
            r@ == selection_message(*self),
    {
        match self {
            ExportSelectionError::EmptyFieldSelection => String::from_str(
                "Select at least one export field.",
            ),
            ExportSelectionError::TooManyFields { requested, maximum } => {
                let mut out = String::from_str("Selected ");
                out.append(decimal_text(*requested as u64).as_str());
                out.append(" export fields; the maximum is ");
                out.append(decimal_text(*maximum as u64).as_str());
                out.append(".");
                out
            },
            ExportSelectionError::DuplicateField(field) => {
                let mut out = String::from_str("Export field '");
                out.append(field.as_str());
                out.append("' was selected more than once.");
                out
            },
            ExportSelectionError::UnknownField(field) => {
                let mut out = String::from_str("Unknown export field: '");
                out.append(field.as_str());
                out.append("'.");
                out
            },
            ExportSelectionError::UnknownSortField(field) => {
                let mut out = String::from_str("Unknown export sort field: '");
                out.append(field.as_str());
                out.append("'.");
                out
            },
        }
    }
}

/// The place of the last field with an id among the first `n`.
pub open spec fn last_field(catalog: Seq<FieldInfo>, id: Seq<char>, n: int) -> Option<int>
    decreases n,
{
    if n <= 0 {
        None
    } else if catalog[n - 1].id@ == id {
        Some(n - 1)
    } else {
        last_field(catalog, id, n - 1)
    }
}

/// The place of a field: where an id stands twice, the later field has it.
pub open spec fn field_place(catalog: Seq<FieldInfo>, id: Seq<char>) -> Option<int> {
    last_field(catalog, id, catalog.len() as int)
}

/// A place that was found is in the catalog, and its field has the id.
pub proof fn found_field(catalog: Seq<FieldInfo>, id: Seq<char>, n: int)
    requires
        0 <= n <= catalog.len(),
    ensures
        match last_field(catalog, id, n) {
            Some(k) => 0 <= k < n && catalog[k].id@ == id,
            None => forall|k: int| 0 <= k < n ==> #[trigger] catalog[k].id@ != id,
        },
    decreases n,
{
    if n > 0 && catalog[n - 1].id@ != id {
        found_field(catalog, id, n - 1);
    }
}

/// Finds a field by its id.
pub fn find_field(catalog: &Vec<FieldInfo>, id: &str) -> (r: Option<usize>)
    ensures
        match r {
            Some(k) => field_place(catalog@, id@) == Some(k as int) && k < catalog@.len(),
            None => field_place(catalog@, id@) is None,
        },
{
    let mut n: usize = catalog.len();
    while n > 0
        invariant
            n <= catalog@.len(),
            last_field(catalog@, id@, n as int) == field_place(catalog@, id@),
        decreases n,
    {
        if same(catalog[n - 1].id.as_str(), id) {
            return Some(n - 1);
        }
        n -= 1;
    }
    None
}

/// An id that stands before its place too.
pub open spec fn repeats(ids: Seq<String>, i: int) -> bool {
    exists|j: int| 0 <= j < i && #[trigger] ids[j]@ == ids[i]@
}

/// An id that cannot be taken: it stands before its place too, or no field has it.
pub open spec fn bad_id(catalog: Seq<FieldInfo>, ids: Seq<String>, i: int) -> bool {
    repeats(ids, i) || field_place(catalog, ids[i]@) is None
}

/// The place of the first id that cannot be taken.
pub open spec fn first_bad(catalog: Seq<FieldInfo>, ids: Seq<String>) -> Option<int> {
    first_upto(ids.len() as int, |i: int| bad_id(catalog, ids, i))
}

/// Whether an id stands before its place too.
fn is_repeated(ids: &Vec<String>, i: usize) -> (r: bool)
    requires
        i < ids@.len(),
    ensures
        r == repeats(ids@, i as int),
{
    let mut j: usize = 0;
    while j < i
        invariant
            j <= i < ids@.len(),
            forall|k: int| 0 <= k < j ==> #[trigger] ids@[k]@ != ids@[i as int]@,
        decreases i - j,
    {
        if same(ids[j].as_str(), ids[i].as_str()) {
            assert(ids@[j as int]@ == ids@[i as int]@);
            return true;
        }
        j += 1;
    }
    false
}

/// Copies a field.
pub fn copy_field(field: &FieldInfo) -> (r: FieldInfo)
    ensures
        r == *field,
{
    FieldInfo { id: field.id.clone(), label: field.label.clone() }
}

/// Copies some fields.
pub fn copy_fields(fields: &Vec<FieldInfo>) -> (r: Vec<FieldInfo>)
    ensures
        r@ == fields@,
{
    let mut out: Vec<FieldInfo> = Vec::new();
    let mut i: usize = 0;
    while i < fields.len()
        invariant
            i <= fields@.len(),
            out@ == fields@.take(i as int),
        decreases fields.len() - i,
    {
        out.push(copy_field(&fields[i]));
        assert(out@ =~= fields@.take(i + 1));
        i += 1;
    }
    assert(fields@.take(i as int) =~= fields@);
    out
}

/// The fields of an export: those selected, in their order, or all of the
/// catalog.
pub fn resolve_fields(catalog: &Vec<FieldInfo>, field_ids: Option<&Vec<String>>) -> (r: Result<
    Vec<FieldInfo>,
    ExportSelectionError,
>)
    ensures
        match field_ids {
            None => match r {
                Ok(fields) => catalog@.len() > 0 && fields@ == catalog@,
                Err(e) => catalog@.len() == 0 && e is EmptyFieldSelection,
            },
            Some(ids) => match r {
                Ok(fields) => {
                    &&& 0 < ids@.len() <= MAX_EXPORT_FIELDS
                    &&& first_bad(catalog@, ids@) is None
                    &&& fields@.len() == ids@.len()
                    &&& forall|i: int|
                        0 <= i < ids@.len() ==> #[trigger] fields@[i] == catalog@[field_place(
                            catalog@,
                            ids@[i]@,
                        )->0]
                },
                Err(ExportSelectionError::EmptyFieldSelection) => ids@.len() == 0,
                Err(ExportSelectionError::TooManyFields { requested, maximum }) => ids@.len()
                    > MAX_EXPORT_FIELDS && requested == ids@.len() && maximum == MAX_EXPORT_FIELDS,
                Err(ExportSelectionError::DuplicateField(id)) => 0 < ids@.len()
                    <= MAX_EXPORT_FIELDS && first_bad(catalog@, ids@) is Some && repeats(
                    ids@,
                    first_bad(catalog@, ids@)->0,
                ) && id == ids@[first_bad(catalog@, ids@)->0],
                Err(ExportSelectionError::UnknownField(id)) => 0 < ids@.len() <= MAX_EXPORT_FIELDS
                    && first_bad(catalog@, ids@) is Some && !repeats(
                    ids@,
                    first_bad(catalog@, ids@)->0,
                ) && id == ids@[first_bad(catalog@, ids@)->0],
                Err(ExportSelectionError::UnknownSortField(_)) => false,
            },
        },
{
    let ids = match field_ids {
        Some(ids) => ids,
        None => {
            if catalog.len() == 0 {
                return Err(ExportSelectionError::EmptyFieldSelection);
            }
            return Ok(copy_fields(catalog));
        },
    };
    if ids.len() == 0 {
        return Err(ExportSelectionError::EmptyFieldSelection);
    }
    if ids.len() > MAX_EXPORT_FIELDS {
        return Err(
            ExportSelectionError::TooManyFields {
                requested: ids.len(),
                maximum: MAX_EXPORT_FIELDS,
            },
        );
    }
    let ghost p = |i: int| bad_id(catalog@, ids@, i);
    let mut fields: Vec<FieldInfo> = Vec::new();
    let mut i: usize = 0;
    while i < ids.len()
        invariant
            i <= ids@.len(),
            0 < ids@.len() <= MAX_EXPORT_FIELDS,
            field_ids == Some(ids),
            p == (|i: int| bad_id(catalog@, ids@, i)),
            forall|k: int| 0 <= k < i ==> !#[trigger] p(k),
            fields@.len() == i,
            forall|k: int|
                0 <= k < i ==> #[trigger] fields@[k] == catalog@[field_place(
                    catalog@,
                    ids@[k]@,
                )->0],
        decreases ids.len() - i,
    {
        if is_repeated(ids, i) {
            proof {
                assert(p(i as int));
                first_is(ids@.len() as int, p, i as int);
            }
            return Err(ExportSelectionError::DuplicateField(ids[i].clone()));
        }
        match find_field(catalog, ids[i].as_str()) {
            Some(k) => {
                fields.push(copy_field(&catalog[k]));
            },
            None => {
                proof {
                    assert(p(i as int));
                    first_is(ids@.len() as int, p, i as int);
                }
                return Err(ExportSelectionError::UnknownField(ids[i].clone()));
            },
        }
        assert(!p(i as int));
        i += 1;
    }
    proof {
        none_found(ids@.len() as int, p);
    }
    Ok(fields)
}

/// No field is exported twice, and each has the id that was selected.
pub proof fn exported_fields_differ(
    catalog: Seq<FieldInfo>,
    ids: Seq<String>,
    fields: Seq<FieldInfo>,
    i: int,
    j: int,
)
    requires
        first_bad(catalog, ids) is None,
        fields.len() == ids.len(),
        forall|k: int|
            0 <= k < ids.len() ==> #[trigger] fields[k] == catalog[field_place(
                catalog,
                ids[k]@,
            )->0],
        0 <= i < j < fields.len(),
    ensures
        fields[i].id@ == ids[i]@,
        fields[j].id@ == ids[j]@,
        fields[i].id@ != fields[j].id@,
{
    let p = |k: int| bad_id(catalog, ids, k);
    first_found(ids.len() as int, p);
    assert(!p(i));
    assert(!p(j));
    found_field(catalog, ids[i]@, catalog.len() as int);
    found_field(catalog, ids[j]@, catalog.len() as int);
    assert(fields[i] == catalog[field_place(catalog, ids[i]@)->0]);
    assert(fields[j] == catalog[field_place(catalog, ids[j]@)->0]);
    assert(ids[i]@ != ids[j]@);
}

/// Refuses an order by a field that the catalog does not have.
pub fn validate_sort(catalog: &Vec<FieldInfo>, sort: Option<&ResultSort>) -> (r: Result<
    (),
    ExportSelectionError,
>)
    ensures
        match r {
            Ok(_) => sort is None || field_place(catalog@, sort->0.field@) is Some,
            Err(e) => sort is Some && field_place(catalog@, sort->0.field@) is None && e
                == ExportSelectionError::UnknownSortField(sort->0.field),
        },
{
    match sort {
        Some(sort) => match find_field(catalog, sort.field.as_str()) {
            Some(_) => Ok(()),
            None => Err(ExportSelectionError::UnknownSortField(sort.field.clone())),
        },
        None => Ok(()),
    }
}

/// Refuses an export that was cancelled, or that has no field.
pub fn start_export(cancelled: bool, fields: usize) -> (r: Result<(), ExportError>)
    ensures
        match r {
            Ok(_) => !cancelled && fields > 0,
            Err(ExportError::Cancelled) => cancelled,
            Err(ExportError::Other(e)) => !cancelled && fields == 0 && e@
                == "Select at least one export field."@,
            Err(_) => false,
        },
{
    if cancelled {
        return Err(ExportError::Cancelled);
    }
    if fields == 0 {
        return Err(ExportError::Other(String::from_str("Select at least one export field.")));
    }
    Ok(())
}

/// The format of an export, unless it cannot hold the rows.
pub fn admit_export(path: &FilePath, total: u64) -> (r: Result<ExportFormat, ExportError>)
    ensures
        match r {
            Ok(ExportFormat::Csv) => path@.extension() is Some && export_extension(path@)
                == "csv"@,
            Ok(ExportFormat::Xlsx) => path@.extension() is Some && export_extension(path@)
                == "xlsx"@ && total <= XLSX_MAX_ROWS,
            Err(ExportError::TooManyRowsForXlsx(n)) => path@.extension() is Some
                && export_extension(path@) == "xlsx"@ && total > XLSX_MAX_ROWS && n == total,
            Err(ExportError::UnsupportedExtension(e)) => e@ == export_extension(path@) && (
            path@.extension() is Some ==> e@ != "csv"@ && e@ != "xlsx"@),
            Err(_) => false,
        },
{
    let format = match ExportFormat::from_path(path) {
        Ok(format) => format,
        Err(e) => {
            return Err(e);
        },
    };
    if format == ExportFormat::Xlsx && total > XLSX_MAX_ROWS {
        proof {
            assert("csv"@ != "xlsx"@) by {
                reveal_strlit("csv");
                reveal_strlit("xlsx");
                assert("csv"@.len() != "xlsx"@.len());
            }
        }
        return Err(ExportError::TooManyRowsForXlsx(total));
    }
    Ok(format)
}

/// Where an export is written before it takes its place.
pub fn temp_export_path(dest: &FilePath, process: u32, stamp: u64) -> (r: FilePath)
    ensures
        r@ == dest@.with_file_name(
            (match dest@.file_name() {
                Some(name) => name,
                None => "base-search-export"@,
            }) + "."@ + decimal(process as nat) + "."@ + decimal(stamp as nat) + ".tmp"@,
        ),
{
    let mut name = match dest.file_name() {
        Some(name) => String::from_str(name),
        None => String::from_str("base-search-export"),
    };
    name.append(".");
    name.append(decimal_text(process as u64).as_str());
    name.append(".");
    name.append(decimal_text(stamp).as_str());
    name.append(".tmp");
    dest.with_file_name(name.as_str())
}

/// A step of an export.
#[derive(Debug)]
pub enum ExportStep {
    /// The rows are written to the temporary file.
    Write,
    /// The file in the place is removed.
    RemoveOld { written: u64 },
    /// The temporary file takes the place.
    Rename { written: u64 },
    /// The temporary file is removed; whether that works does not matter.
    Discard { error: ExportError },
    Done(u64),
    Failed(ExportError),
}

/// The step after the rows were written, or could not be.
pub fn after_rows(rows: Result<u64, ExportError>, dest_exists: bool) -> (r: ExportStep)
    ensures
        match rows {
            Ok(written) => r == (if dest_exists {
                ExportStep::RemoveOld { written }
            } else {
                ExportStep::Rename { written }
            }),
            Err(error) => r == (ExportStep::Discard { error }),
        },
{
    match rows {
        Ok(written) => if dest_exists {
            ExportStep::RemoveOld { written }
        } else {
            ExportStep::Rename { written }
        },
        Err(error) => ExportStep::Discard { error },
    }
}

/// The step after one that worked or not.
pub fn export_selected(step: ExportStep, outcome: Result<(), String>) -> (r: ExportStep)
    ensures
        match step {
            ExportStep::RemoveOld { written } => match outcome {
                Ok(_) => r == (ExportStep::Rename { written }),
                Err(e) => r == ExportStep::Failed(ExportError::Other(e)),
            },
            ExportStep::Rename { written } => match outcome {
                Ok(_) => r == ExportStep::Done(written),
                Err(e) => r == ExportStep::Failed(ExportError::Other(e)),
            },
            ExportStep::Discard { error } => r == ExportStep::Failed(error),
            _ => r == step,
        },
{
    match step {
        ExportStep::RemoveOld { written } => match outcome {
            Ok(_) => ExportStep::Rename { written },
            Err(e) => ExportStep::Failed(ExportError::Other(e)),
        },
        ExportStep::Rename { written } => match outcome {
            Ok(_) => ExportStep::Done(written),
            Err(e) => ExportStep::Failed(ExportError::Other(e)),
        },
        ExportStep::Discard { error } => ExportStep::Failed(error),
        other => other,
    }
}

/// The rows that were written, and whether the export goes on.
pub struct ExportRun {
    pub total: u64,
    pub written: u64,
    pub failure: Option<ExportError>,
}

impl ExportRun {
    /// No row was written yet.
    pub fn new(total: u64) -> (r: Self)
        ensures
            r.total == total,
            r.written == 0,
            r.failure is None,
    {
        ExportRun { total, written: 0, failure: None }
    }

    /// Whether a row is to be written: not once the export was cancelled.
    pub fn begin_row(&mut self, cancelled: bool) -> (r: bool)
        ensures
            r == !cancelled,
            final(self).total == old(self).total,
            final(self).written == old(self).written,
            cancelled ==> final(self).failure == Some(ExportError::Cancelled),
            !cancelled ==> final(self).failure == old(self).failure,
    {
        if cancelled {
            self.failure = Some(ExportError::Cancelled);
        }
        !cancelled
    }

    /// Takes note of a row that was written or could not be. Gives whether the
    /// export goes on, and whether progress is due.
    pub fn end_row(&mut self, outcome: Result<(), String>) -> (r: (bool, bool))
        requires
            old(self).written < u64::MAX,
        ensures
            final(self).total == old(self).total,
            match outcome {
                Ok(_) => final(self).written == old(self).written + 1 && final(self).failure
                    == old(self).failure && r.0 && r.1 == (final(self).written % BATCH == 0),
                Err(e) => final(self).written == old(self).written && final(self).failure == Some(
                    ExportError::Other(e),
                ) && !r.0 && !r.1,
            },
    {
        match outcome {
            Ok(_) => {
                self.written = self.written + 1;
                (true, self.written % BATCH == 0)
            },
            Err(e) => {
                self.failure = Some(ExportError::Other(e));
                (false, false)
            },
        }
    }

    /// How the rows ended: with the first failure, or cancelled, or with how many
    /// were written.
    pub fn finish(self, cancelled: bool) -> (r: Result<u64, ExportError>)
        ensures
            match self.failure {
                Some(e) => r == Err::<u64, ExportError>(e),
                None => if cancelled {
                    r == Err::<u64, ExportError>(ExportError::Cancelled)
                } else {
                    r == Ok::<u64, ExportError>(self.written)
                },
            },
    {
        match self.failure {
            Some(e) => Err(e),
            None => if cancelled {
                Err(ExportError::Cancelled)
            } else {
                Ok(self.written)
            },
        }
    }
}

/// A blank that a table program skips before a formula.
pub open spec fn skipped_blank(c: char) -> bool {
    c == ' ' || c == '\t' || c == '\r' || c == '\n'
}

/// A text without the blanks that it begins with.
pub open spec fn unblanked(s: Seq<char>) -> Seq<char>
    decreases s.len(),
{
    if s.len() > 0 && skipped_blank(s[0]) {
        unblanked(s.drop_first())
    } else {
        s
    }
}

/// A text that a table program would take for a formula.
pub open spec fn is_formula(s: Seq<char>) -> bool {
    let t = unblanked(s);
    t.len() > 0 && (t[0] == '=' || t[0] == '+' || t[0] == '-' || t[0] == '@')
}

/// A text as it is safe in a table: a formula is marked as a text.
pub open spec fn safe_cell(s: Seq<char>) -> Seq<char> {
    if is_formula(s) {
        seq!['\''] + s
    } else {
        s
    }
}

/// A text as it is safe in a table.
pub fn csv_safe_cell(value: &str) -> (r: String)
    ensures
        r@ == safe_cell(value@),
{
    let v = chars_of(value);
    let mut i: usize = 0;
    assert(v@.skip(0) =~= v@);
    while i < v.len() && (v[i] == ' ' || v[i] == '\t' || v[i] == '\r' || v[i] == '\n')
        invariant
            i <= v@.len(),
            unblanked(v@.skip(i as int)) == unblanked(v@),
        decreases v.len() - i,
    {
        assert(v@.skip(i as int).drop_first() =~= v@.skip(i + 1));
        i += 1;
    }
    assert(unblanked(v@) == v@.skip(i as int));
    if i < v.len() && (v[i] == '=' || v[i] == '+' || v[i] == '-' || v[i] == '@') {
        let mut out = String::from_str("'");
        out.append(value);
        proof {
            reveal_strlit("'");
            assert("'"@ =~= seq!['\'']);
        }
        out
    } else {
        String::from_str(value)
    }
}

/// A safe text is no formula, and is safe as it is.
pub proof fn safe_cell_is_no_formula(s: Seq<char>)
    ensures
        !is_formula(safe_cell(s)),
        safe_cell(safe_cell(s)) == safe_cell(s),
{
    if is_formula(s) {
        let t = seq!['\''] + s;
        assert(unblanked(t) == t);
        assert(t[0] == '\'');
    }
}

/// A byte that a field is quoted for: the delimiter, a quote or an end of line.
pub open spec fn quoted_byte(b: u8) -> bool {
    b == 59 || b == 34 || b == 13 || b == 10
}

/// Some bytes with every quote doubled.
pub open spec fn doubled(s: Seq<u8>) -> Seq<u8>
    decreases s.len(),
{
    if s.len() == 0 {
        Seq::empty()
    } else if s[0] == 34 {
        seq![34u8, 34u8] + doubled(s.drop_first())
    } else {
        seq![s[0]] + doubled(s.drop_first())
    }
}

/// One field of a CSV file: it stands in quotes only where it has to.
pub open spec fn csv_field(s: Seq<u8>) -> Seq<u8> {
    if exists|i: int| 0 <= i < s.len() && quoted_byte(#[trigger] s[i]) {
        seq![34u8] + doubled(s) + seq![34u8]
    } else {
        s
    }
}

/// Some fields with `;` between them.
pub open spec fn csv_fields(fields: Seq<Seq<char>>) -> Seq<u8>
    decreases fields.len(),
{
    if fields.len() == 0 {
        Seq::empty()
    } else if fields.len() == 1 {
        csv_field(encode_utf8(fields[0]))
    } else {
        csv_field(encode_utf8(fields[0])) + seq![59u8] + csv_fields(fields.drop_first())
    }
}

/// The bytes of one line of a CSV file. A line that would be empty holds a quoted
/// empty field.
pub open spec fn csv_line_bytes(fields: Seq<Seq<char>>) -> Seq<u8> {
    (if csv_fields(fields).len() == 0 {
        seq![34u8, 34u8]
    } else {
        csv_fields(fields)
    }) + seq![13u8, 10u8]
}

/// `csv::Writer::write_record` of one record by a new writer into memory, with
/// the delimiter `;` and the terminator CRLF. A first record of any length is
/// written, and memory takes every byte. By default a field stands in quotes only
/// where it holds the delimiter, a quote or an end of line, with its quotes
/// doubled, and an empty record is written as one quoted empty field.
#[verifier::external_body]
fn csv_line(fields: &Vec<String>) -> (r: Vec<u8>)
    ensures
        r@ == csv_line_bytes(views(fields@)),
{
    let mut writer = csv::WriterBuilder::new()
        .delimiter(b';')
        .terminator(csv::Terminator::CRLF)
        .from_writer(Vec::new());
    let _ = writer.write_record(fields);
    writer.into_inner().unwrap_or_default()
}

/// A quoted field behind its opening quote, and what follows its closing quote.
pub open spec fn quoted_part(s: Seq<u8>) -> (Seq<u8>, Seq<u8>)
    decreases s.len(),
{
    if s.len() == 0 {
        (Seq::empty(), Seq::empty())
    } else if s[0] != 34 {
        let rest = quoted_part(s.drop_first());
        (seq![s[0]] + rest.0, rest.1)
    } else if s.len() > 1 && s[1] == 34 {
        let rest = quoted_part(s.skip(2));
        (seq![34u8] + rest.0, rest.1)
    } else {
        (Seq::empty(), s.drop_first())
    }
}

/// A field without quotes, and what follows it.
pub open spec fn plain_part(s: Seq<u8>) -> (Seq<u8>, Seq<u8>)
    decreases s.len(),
{
    if s.len() == 0 || s[0] == 59 || s[0] == 13 {
        (Seq::empty(), s)
    } else {
        let rest = plain_part(s.drop_first());
        (seq![s[0]] + rest.0, rest.1)
    }
}

/// The first field of some bytes, and what follows it.
pub open spec fn first_field(s: Seq<u8>) -> (Seq<u8>, Seq<u8>) {
    if s.len() > 0 && s[0] == 34 {
        quoted_part(s.drop_first())
    } else {
        plain_part(s)
    }
}

/// The fields of the first line of a CSV file with `;` between the fields.
pub open spec fn fields_of_line(s: Seq<u8>) -> Seq<Seq<u8>>
    decreases s.len(),
{
    let (field, rest) = first_field(s);
    if 0 < rest.len() <= s.len() && rest[0] == 59 {
        seq![field] + fields_of_line(rest.drop_first())
    } else {
        seq![field]
    }
}

proof fn quoted_part_reads_back(s: Seq<u8>, tail: Seq<u8>)
    requires
        tail.len() > 0,
        tail[0] != 34,
    ensures
        quoted_part(doubled(s) + seq![34u8] + tail) == (s, tail),
    decreases s.len(),
{
    let all = doubled(s) + seq![34u8] + tail;
    if s.len() == 0 {
        assert(all.drop_first() =~= tail);
        assert(s =~= Seq::<u8>::empty());
    } else {
        let inner = doubled(s.drop_first()) + seq![34u8] + tail;
        quoted_part_reads_back(s.drop_first(), tail);
        if s[0] == 34 {
            assert(all.skip(2) =~= inner);
        } else {
            assert(all.drop_first() =~= inner);
        }
        assert(seq![s[0]] + s.drop_first() =~= s);
    }
}

proof fn plain_part_reads_back(s: Seq<u8>, tail: Seq<u8>)
    requires
        forall|i: int| 0 <= i < s.len() ==> !quoted_byte(#[trigger] s[i]),
        tail.len() > 0,
        tail[0] == 59 || tail[0] == 13,
    ensures
        plain_part(s + tail) == (s, tail),
    decreases s.len(),
{
    if s.len() == 0 {
        assert(s + tail =~= tail);
        assert(s =~= Seq::<u8>::empty());
    } else {
        assert(!quoted_byte(s[0]));
        plain_part_reads_back(s.drop_first(), tail);
        assert((s + tail).drop_first() =~= s.drop_first() + tail);
        assert(seq![s[0]] + s.drop_first() =~= s);
    }
}

proof fn field_reads_back(s: Seq<u8>, tail: Seq<u8>)
    requires
        tail.len() > 0,
        tail[0] == 59 || tail[0] == 13,
    ensures
        first_field(csv_field(s) + tail) == (s, tail),
{
    let all = csv_field(s) + tail;
    if exists|i: int| 0 <= i < s.len() && quoted_byte(#[trigger] s[i]) {
        quoted_part_reads_back(s, tail);
        assert(all.drop_first() =~= doubled(s) + seq![34u8] + tail);
    } else {
        plain_part_reads_back(s, tail);
        if s.len() > 0 {
            assert(!quoted_byte(s[0]));
        }
    }
}

proof fn fields_read_back(fields: Seq<Seq<char>>, tail: Seq<u8>)
    requires
        fields.len() > 0,
        tail.len() > 0,
        tail[0] == 13,
    ensures
        fields_of_line(csv_fields(fields) + tail) == fields.map_values(
            |f: Seq<char>| encode_utf8(f),
        ),
    decreases fields.len(),
{
    let bytes = fields.map_values(|f: Seq<char>| encode_utf8(f));
    let all = csv_fields(fields) + tail;
    if fields.len() == 1 {
        field_reads_back(bytes[0], tail);
        assert(bytes =~= seq![bytes[0]]);
    } else {
        let others = csv_fields(fields.drop_first()) + tail;
        let rest = seq![59u8] + others;
        assert(all =~= csv_field(bytes[0]) + rest);
        field_reads_back(bytes[0], rest);
        fields_read_back(fields.drop_first(), tail);
        assert(rest.drop_first() =~= others);
        assert(bytes =~= seq![bytes[0]] + fields.drop_first().map_values(
            |f: Seq<char>| encode_utf8(f),
        ));
    }
}

/// What a line of a CSV file holds reads back as the fields that it was written
/// for: quoting loses nothing, and no text reaches into another field.
pub proof fn line_reads_back(fields: Seq<Seq<char>>)
    requires
        fields.len() > 0,
    ensures
        fields_of_line(csv_line_bytes(fields)) == fields.map_values(
            |f: Seq<char>| encode_utf8(f),
        ),
{
    let end = seq![13u8, 10u8];
    fields_read_back(fields, end);
    if csv_fields(fields).len() == 0 {
        assert(fields.len() == 1);
        let line = csv_line_bytes(fields);
        assert(line.drop_first() =~= seq![34u8, 13u8, 10u8]);
        assert(csv_field(encode_utf8(fields[0])).len() == 0);
        assert(encode_utf8(fields[0]) =~= Seq::<u8>::empty());
        assert(fields.map_values(|f: Seq<char>| encode_utf8(f)) =~= seq![Seq::<u8>::empty()]);
    }
}

/// Some texts as they are safe in a table.
pub open spec fn safe_cells(cells: Seq<Seq<char>>) -> Seq<Seq<char>> {
    cells.map_values(|c: Seq<char>| safe_cell(c))
}

/// Some texts as they are safe in a table.
fn safe_row(cells: &Vec<String>) -> (r: Vec<String>)
    ensures
        views(r@) == safe_cells(views(cells@)),
        r@.len() == cells@.len(),
{
    let ghost all = safe_cells(views(cells@));
    let mut out: Vec<String> = Vec::new();
    let mut i: usize = 0;
    assert(views(out@) =~= all.take(0));
    while i < cells.len()
        invariant
            i <= cells@.len(),
            out@.len() == i,
            all == safe_cells(views(cells@)),
            views(out@) == all.take(i as int),
        decreases cells.len() - i,
    {
        let cell = csv_safe_cell(cells[i].as_str());
        assert(cell@ == all[i as int]);
        let ghost before = views(out@);
        out.push(cell);
        assert(views(out@) =~= before.push(all[i as int]));
        assert(all.take(i + 1) =~= all.take(i as int).push(all[i as int]));
        i += 1;
    }
    assert(all.take(i as int) =~= all);
    out
}

/// The mark by which table programs take a file for UTF-8.
pub open spec fn byte_order_mark() -> Seq<u8> {
    seq![0xefu8, 0xbbu8, 0xbfu8]
}

/// The labels of some fields.
pub open spec fn field_labels(fields: Seq<FieldInfo>) -> Seq<Seq<char>> {
    fields.map_values(|f: FieldInfo| f.label@)
}

/// The labels of some fields.
fn label_list(fields: &Vec<FieldInfo>) -> (r: Vec<String>)
    ensures
        views(r@) == field_labels(fields@),
        r@.len() == fields@.len(),
{
    let mut labels: Vec<String> = Vec::new();
    let ghost all = field_labels(fields@);
    let mut i: usize = 0;
    assert(views(labels@) =~= all.take(0));
    while i < fields.len()
        invariant
            i <= fields@.len(),
            labels@.len() == i,
            all == field_labels(fields@),
            views(labels@) == all.take(i as int),
        decreases fields.len() - i,
    {
        let ghost before = views(labels@);
        labels.push(fields[i].label.clone());
        assert(views(labels@) =~= before.push(all[i as int]));
        assert(all.take(i + 1) =~= all.take(i as int).push(all[i as int]));
        i += 1;
    }
    assert(all.take(i as int) =~= all);
    labels
}

/// How a CSV file begins: the mark, then the labels of its fields.
pub fn csv_head(fields: &Vec<FieldInfo>) -> (r: Vec<u8>)
    ensures
        r@ == byte_order_mark() + csv_line_bytes(safe_cells(field_labels(fields@))),
{
    let labels = label_list(fields);
    let line = csv_line(&safe_row(&labels));
    let mut out: Vec<u8> = Vec::new();
    out.push(0xef);
    out.push(0xbb);
    out.push(0xbf);
    let mut k: usize = 0;
    assert(out@ =~= byte_order_mark() + line@.take(0));
    while k < line.len()
        invariant
            k <= line@.len(),
            out@ == byte_order_mark() + line@.take(k as int),
        decreases line.len() - k,
    {
        out.push(line[k]);
        assert(out@ =~= byte_order_mark() + line@.take(k + 1));
        k += 1;
    }
    assert(line@.take(k as int) =~= line@);
    out
}

/// What is said of a row of another width than the head's.
pub open spec fn unequal_widths(len: nat, width: nat) -> Seq<char> {
    "CSV error: found record with "@ + decimal(len) + " fields, but the previous record has "@
        + decimal(width) + " fields"@
}

/// `csv::Writer::write_record` of a record behind one of another length: by
/// default it is refused, and its error displays both lengths.
#[verifier::external_body]
fn csv_refusal(head: &Vec<String>, row: &Vec<String>) -> (r: String)
    requires
        row@.len() != head@.len(),
    ensures
        r@ == unequal_widths(row@.len(), head@.len()),
{
    let mut writer = csv::Writer::from_writer(Vec::new());
    let written = writer.write_record(head).and_then(|_| writer.write_record(row));
    written.err().map(|error| error.to_string()).unwrap_or_default()
}

/// The line of one row below the head: every text is safe in a table. A row of
/// another width than the head's is refused.
pub fn csv_row(fields: &Vec<FieldInfo>, row: &Vec<String>) -> (r: Result<Vec<u8>, String>)
    ensures
        match r {
            Ok(bytes) => row@.len() == fields@.len() && bytes@ == csv_line_bytes(
                safe_cells(views(row@)),
            ),
            Err(e) => row@.len() != fields@.len() && e@ == unequal_widths(
                row@.len(),
                fields@.len(),
            ),
        },
{
    if row.len() != fields.len() {
        let labels = label_list(fields);
        assert(views(labels@).len() == labels@.len());
        return Err(csv_refusal(&labels, row));
    }
    Ok(csv_line(&safe_row(row)))
}

/// Whether a field is shown.
pub open spec fn is_shown(fields: Seq<FieldInfo>, visible: Seq<bool>, i: int) -> bool {
    i < visible.len() && visible[i]
}

/// The ids of the fields shown among the first `n`.
pub open spec fn shown_ids(fields: Seq<FieldInfo>, visible: Seq<bool>, n: int) -> Seq<Seq<char>>
    decreases n,
{
    if n <= 0 {
        Seq::empty()
    } else if is_shown(fields, visible, n - 1) {
        shown_ids(fields, visible, n - 1).push(fields[n - 1].id@)
    } else {
        shown_ids(fields, visible, n - 1)
    }
}

/// The fields that an export holds: those on the screen, in their order. Where
/// none is shown, it holds all.
pub fn visible_field_ids(fields: &Vec<FieldInfo>, visible: &Vec<bool>) -> (r: Option<Vec<String>>)
    ensures
        match r {
            Some(ids) => ids@.len() > 0 && views(ids@) == shown_ids(
                fields@,
                visible@,
                fields@.len() as int,
            ),
            None => shown_ids(fields@, visible@, fields@.len() as int).len() == 0,
        },
{
    let mut ids: Vec<String> = Vec::new();
    let mut i: usize = 0;
    assert(views(ids@) =~= Seq::<Seq<char>>::empty());
    while i < fields.len()
        invariant
            i <= fields@.len(),
            views(ids@) == shown_ids(fields@, visible@, i as int),
        decreases fields.len() - i,
    {
        if i < visible.len() && visible[i] {
            push_text(&mut ids, fields[i].id.as_str());
        }
        i += 1;
    }
    assert(views(ids@).len() == ids@.len());
    if ids.len() == 0 {
        None
    } else {
        Some(ids)
    }
}

/// The file of an export or a report: a name without an extension gets one.
pub fn with_default_extension(dest: &FilePath, extension: &str) -> (r: FilePath)
    ensures
        r@ == (if dest@.extension() is Some {
            dest@
        } else {
            dest@.with_extension(extension@)
        }),
{
    match dest.extension() {
        Some(_) => dest.copy(),
        None => dest.with_extension(extension),
    }
}

/// A cell that a spreadsheet would take for a formula is marked as a text: one
/// that begins, but for blanks, with an equals sign, a plus, a minus or an at
/// sign. Every other cell stays as it is.
pub proof fn formulas_are_marked(c: char, rest: Seq<char>)
    ensures
        c == '=' || c == '+' || c == '-' || c == '@' ==> safe_cell(seq![c] + rest) == seq!['\'', c]
            + rest,
        c == '=' || c == '+' || c == '-' || c == '@' ==> safe_cell(seq![' ', c] + rest) == seq![
            '\'',
            ' ',
            c,
        ] + rest,
        c != '=' && c != '+' && c != '-' && c != '@' && c != ' ' && c != '\t' && c != '\r' && c
            != '\n' ==> safe_cell(seq![c] + rest) == seq![c] + rest,
        safe_cell(Seq::empty()) == Seq::<char>::empty(),
{
    let s = seq![c] + rest;
    assert(s[0] == c);
    let t = seq![' ', c] + rest;
    assert(t[0] == ' ');
    assert(t.drop_first() =~= s);
    assert(unblanked(t) == unblanked(t.drop_first()));
    assert(seq!['\''] + s =~= seq!['\'', c] + rest);
    assert(seq!['\''] + t =~= seq!['\'', ' ', c] + rest);
}

/// A worksheet has room for its head and as many rows as are exported at most.
pub proof fn a_worksheet_has_room_for_the_export()
    ensures
        XLSX_MAX_ROWS + 1 == 0x10_0000,
{
}

} // verus!
