//! What an import reports, and the steps that an import goes through.
use vstd::prelude::*;
use vstd::string::*;

use crate::analytics::Real;
use crate::import::cells::{cell_has_value, has_value, Cell};
use crate::counting::count_upto;
use crate::import::fingerprint::{fingerprint, import_fingerprint};
use crate::import::options::{sheet_refusal, validate_import_options, ImportOptions};
use crate::number::{decimal, decimal_text};
use crate::records::ImportQuality;
use crate::text::{copy_texts, push_text, same, views};

verus! {

/// The part of an import that is under way.
#[derive(Clone, Copy, PartialEq, Eq, Debug, Structural)]
pub enum ImportPhase {
    /// File reading and parsing.
    Reading,
    /// Writing rows to the database.
    Inserting,
    /// Full-text index construction.
    Indexing,
}

/// What importing one file came to.
#[derive(Clone, Debug)]
pub struct FileSummary {
    pub file_name: String,
    pub total_rows: u64,
    pub imported: u64,
    pub duplicates: u64,
    pub seconds: Real,
    pub error: Option<String>,
    pub cancelled: bool,
    /// Whole-file skip because this content was already imported.
    /// Stores the previously imported filename.
    pub skipped_duplicate_of: Option<String>,
    pub quality: ImportQuality,
}

impl FileSummary {
    /// The summary of a file of which nothing is known yet.
    pub fn new(file_name: String) -> (r: Self)
        ensures
            r.file_name == file_name,
            r.total_rows == 0,
            r.imported == 0,
            r.duplicates == 0,
            r.seconds.bits == 0,
            r.error is None,
            !r.cancelled,
            r.skipped_duplicate_of is None,
            r.quality.layout@ == Seq::<char>::empty(),
            r.quality.warnings@ == Seq::<String>::empty(),
            r.quality.header_row == 0,
            r.quality.source_columns == 0,
            r.quality.recognized_columns == 0,
            r.quality.extra_columns == 0,
            r.quality.non_empty_cells == 0,
            r.quality.empty_cells == 0,
    {
        FileSummary {
            file_name,
            total_rows: 0,
            imported: 0,
            duplicates: 0,
            seconds: Real { bits: 0 },
            error: None,
            cancelled: false,
            skipped_duplicate_of: None,
            quality: ImportQuality::default(),
        }
    }
}

/// Some warnings and one more, unless it is among them.
pub open spec fn with_warning(warnings: Seq<Seq<char>>, warning: Seq<char>) -> Seq<Seq<char>> {
    if warnings.contains(warning) {
        warnings
    } else {
        warnings.push(warning)
    }
}

/// The report but for its warnings.
pub open spec fn same_but_warnings(a: ImportQuality, b: ImportQuality) -> bool {
    &&& a.layout@ == b.layout@
    &&& a.header_row == b.header_row
    &&& a.source_columns == b.source_columns
    &&& a.recognized_columns == b.recognized_columns
    &&& a.extra_columns == b.extra_columns
    &&& a.non_empty_cells == b.non_empty_cells
    &&& a.empty_cells == b.empty_cells
}

/// Adds a warning, unless it was given already.
pub fn push_quality_warning(quality: &mut ImportQuality, warning: &str)
    ensures
        same_but_warnings(*final(quality), *old(quality)),
        views(final(quality).warnings@) == with_warning(
            views(old(quality).warnings@),
            warning@,
        ),
{
    let ghost texts = views(quality.warnings@);
    let mut i: usize = 0;
    while i < quality.warnings.len()
        invariant
            *quality == *old(quality),
            texts == views(quality.warnings@),
            i <= quality.warnings@.len(),
            forall|j: int| 0 <= j < i ==> #[trigger] texts[j] != warning@,
        decreases quality.warnings.len() - i,
    {
        assert(texts[i as int] == quality.warnings@[i as int]@);
        if same(quality.warnings[i].as_str(), warning) {
            assert(texts.contains(warning@));
            return ;
        }
        i += 1;
    }
    assert(!texts.contains(warning@)) by {
        assert(texts.len() == quality.warnings@.len());
    }
    push_text(&mut quality.warnings, warning);
}

/// The warning about a header that was not in the first row.
pub open spec fn late_header_warning(row: u64) -> Seq<char> {
    "Header row was detected at row "@ + decimal(row as nat)
        + "; earlier rows were treated as title or metadata."@
}

/// The warning about few recognised columns.
pub open spec fn few_columns_warning(columns: u64) -> Seq<char> {
    "Only "@ + decimal(columns as nat)
        + " semantic fields were recognized; source columns are still preserved, but domain analytics may be limited."@
}

/// The warning about mostly empty cells.
pub open spec fn sparse_warning(percent: Seq<char>) -> Seq<char> {
    percent + "% of imported table cells are empty."@
}

/// Whether a table is mostly empty: it has cells, and nine in ten of them or
/// more say nothing.
pub open spec fn mostly_empty(quality: ImportQuality) -> bool {
    let total = quality.non_empty_cells + quality.empty_cells;
    total > 0 && quality.empty_cells * 100 >= 90 * total
}

/// Whether a table is mostly empty.
pub fn is_mostly_empty(quality: &ImportQuality) -> (r: bool)
    ensures
        r == mostly_empty(*quality),
{
    let empty: u128 = quality.empty_cells as u128;
    let total: u128 = quality.non_empty_cells as u128 + empty;
    total > 0 && empty * 100 >= 90 * total
}

/// The warnings of a finished import. `percent` is the share of empty cells in
/// percent.
pub open spec fn final_warnings(quality: ImportQuality, percent: Seq<char>) -> Seq<Seq<char>> {
    let given = views(quality.warnings@);
    if quality.layout@.len() == 0 {
        given
    } else {
        let first = if quality.header_row > 1 {
            with_warning(given, late_header_warning(quality.header_row))
        } else {
            given
        };
        let second = if 0 < quality.recognized_columns < 6 {
            with_warning(first, few_columns_warning(quality.recognized_columns))
        } else {
            first
        };
        if mostly_empty(quality) {
            with_warning(second, sparse_warning(percent))
        } else {
            second
        }
    }
}

/// Adds the warnings of a finished import. `percent` is the share of empty cells
/// in percent, as it is rendered; it is said only where they are many.
pub fn finalize_quality(quality: &mut ImportQuality, percent: &str)
    ensures
        same_but_warnings(*final(quality), *old(quality)),
        views(final(quality).warnings@) == final_warnings(*old(quality), percent@),
{
    if quality.layout.as_str().unicode_len() == 0 {
        return ;
    }
    if quality.header_row > 1 {
        let mut warning = String::from_str("Header row was detected at row ");
        warning.append(decimal_text(quality.header_row).as_str());
        warning.append("; earlier rows were treated as title or metadata.");
        push_quality_warning(quality, warning.as_str());
    }
    if quality.recognized_columns > 0 && quality.recognized_columns < 6 {
        let mut warning = String::from_str("Only ");
        warning.append(decimal_text(quality.recognized_columns).as_str());
        warning.append(
            " semantic fields were recognized; source columns are still preserved, but domain analytics may be limited.",
        );
        push_quality_warning(quality, warning.as_str());
    }
    if is_mostly_empty(quality) {
        let mut warning = String::from_str(percent);
        warning.append("% of imported table cells are empty.");
        push_quality_warning(quality, warning.as_str());
    }
}

/// Cell `i` of a row is there and says something.
pub open spec fn says_something(row: Seq<Cell>, i: int) -> bool {
    i < row.len() && has_value(row[i].value)
}

/// How many of the first `width` cells of a row say something.
pub open spec fn filled_cells(row: Seq<Cell>, width: int) -> nat {
    count_upto(width, |i: int| says_something(row, i))
}

/// Counts the cells of one data row.
pub fn count_quality_cells(quality: &mut ImportQuality, row: &Vec<Cell>)
    requires
        old(quality).source_columns <= usize::MAX,
        old(quality).non_empty_cells + old(quality).source_columns <= u64::MAX,
        old(quality).empty_cells + old(quality).source_columns <= u64::MAX,
    ensures
        final(quality).non_empty_cells == old(quality).non_empty_cells + filled_cells(
            row@,
            old(quality).source_columns as int,
        ),
        final(quality).empty_cells == old(quality).empty_cells + old(quality).source_columns
            - filled_cells(row@, old(quality).source_columns as int),
        *final(quality) == (ImportQuality {
            non_empty_cells: final(quality).non_empty_cells,
            empty_cells: final(quality).empty_cells,
            ..*old(quality)
        }),
{
    let width: usize = quality.source_columns as usize;
    let ghost p = |i: int| says_something(row@, i);
    let mut filled: u64 = 0;
    let mut col: usize = 0;
    while col < width
        invariant
            col <= width,
            p == (|i: int| says_something(row@, i)),
            filled <= col,
            filled == count_upto(col as int, p),
        decreases width - col,
    {
        if col < row.len() && cell_has_value(&row[col]) {
            filled += 1;
        }
        col += 1;
    }
    quality.non_empty_cells = quality.non_empty_cells + filled;
    quality.empty_cells = quality.empty_cells + (width as u64 - filled);
}

/// The larger of two counts.
pub open spec fn larger(a: u64, b: u64) -> u64 {
    if a >= b {
        a
    } else {
        b
    }
}

/// The larger of two counts.
fn max_of(a: u64, b: u64) -> (r: u64)
    ensures
        r == larger(a, b),
{
    if a >= b {
        a
    } else {
        b
    }
}

/// All warnings of a list added in order.
pub open spec fn with_warnings(start: Seq<Seq<char>>, more: Seq<Seq<char>>) -> Seq<Seq<char>>
    decreases more.len(),
{
    if more.len() == 0 {
        start
    } else {
        with_warning(with_warnings(start, more.drop_last()), more.last())
    }
}

/// The report of a workbook once the report of one more sheet is merged into it.
pub open spec fn merged_quality(
    target: ImportQuality,
    sheet: ImportQuality,
    merged: ImportQuality,
) -> bool {
    if target.layout@.len() == 0 {
        same_but_warnings(merged, sheet) && views(merged.warnings@) == views(sheet.warnings@)
    } else {
        &&& merged.layout@ == target.layout@
        &&& merged.header_row == target.header_row
        &&& merged.source_columns == larger(target.source_columns, sheet.source_columns)
        &&& merged.recognized_columns == larger(
            target.recognized_columns,
            sheet.recognized_columns,
        )
        &&& merged.extra_columns == larger(target.extra_columns, sheet.extra_columns)
        &&& merged.non_empty_cells == target.non_empty_cells + sheet.non_empty_cells
        &&& merged.empty_cells == target.empty_cells + sheet.empty_cells
        &&& views(merged.warnings@) == with_warnings(
            views(target.warnings@),
            views(sheet.warnings@),
        )
    }
}

/// A copy of a report.
pub fn copy_quality(quality: &ImportQuality) -> (r: ImportQuality)
    ensures
        same_but_warnings(r, *quality),
        views(r.warnings@) == views(quality.warnings@),
{
    ImportQuality {
        layout: quality.layout.clone(),
        header_row: quality.header_row,
        source_columns: quality.source_columns,
        recognized_columns: quality.recognized_columns,
        extra_columns: quality.extra_columns,
        non_empty_cells: quality.non_empty_cells,
        empty_cells: quality.empty_cells,
        warnings: copy_texts(&quality.warnings),
    }
}

/// Merges the summary of one sheet into that of its workbook.
pub fn merge_sheet_summary(target: &mut FileSummary, sheet: &FileSummary)
    requires
        old(target).total_rows + sheet.total_rows <= u64::MAX,
        old(target).imported + sheet.imported <= u64::MAX,
        old(target).duplicates + sheet.duplicates <= u64::MAX,
        old(target).quality.non_empty_cells + sheet.quality.non_empty_cells <= u64::MAX,
        old(target).quality.empty_cells + sheet.quality.empty_cells <= u64::MAX,
    ensures
        final(target).total_rows == old(target).total_rows + sheet.total_rows,
        final(target).imported == old(target).imported + sheet.imported,
        final(target).duplicates == old(target).duplicates + sheet.duplicates,
        final(target).cancelled == (old(target).cancelled || sheet.cancelled),
        final(target).file_name == old(target).file_name,
        final(target).seconds == old(target).seconds,
        final(target).error == old(target).error,
        final(target).skipped_duplicate_of == old(target).skipped_duplicate_of,
        merged_quality(old(target).quality, sheet.quality, final(target).quality),
{
    target.total_rows = target.total_rows + sheet.total_rows;
    target.imported = target.imported + sheet.imported;
    target.duplicates = target.duplicates + sheet.duplicates;
    target.cancelled = target.cancelled || sheet.cancelled;
    if target.quality.layout.as_str().unicode_len() == 0 {
        target.quality = copy_quality(&sheet.quality);
        return ;
    }
    let ghost before = target.quality;
    let mut quality = copy_quality(&target.quality);
    quality.source_columns = max_of(quality.source_columns, sheet.quality.source_columns);
    quality.recognized_columns = max_of(
        quality.recognized_columns,
        sheet.quality.recognized_columns,
    );
    quality.extra_columns = max_of(quality.extra_columns, sheet.quality.extra_columns);
    quality.non_empty_cells = quality.non_empty_cells + sheet.quality.non_empty_cells;
    quality.empty_cells = quality.empty_cells + sheet.quality.empty_cells;
    let ghost counted = quality;
    let ghost more = views(sheet.quality.warnings@);
    let mut i: usize = 0;
    assert(more.take(0) =~= Seq::<Seq<char>>::empty());
    while i < sheet.quality.warnings.len()
        invariant
            more == views(sheet.quality.warnings@),
            i <= sheet.quality.warnings@.len(),
            same_but_warnings(quality, counted),
            views(quality.warnings@) == with_warnings(
                views(before.warnings@),
                more.take(i as int),
            ),
        decreases sheet.quality.warnings.len() - i,
    {
        assert(more.take(i + 1).drop_last() =~= more.take(i as int));
        assert(more.take(i + 1).last() == sheet.quality.warnings@[i as int]@);
        push_quality_warning(&mut quality, sheet.quality.warnings[i].as_str());
        i += 1;
    }
    assert(more.take(i as int) =~= more);
    target.quality = quality;
}

/// What to do next for an import.
#[derive(Clone, Debug)]
pub enum ImportAction {
    /// Hash the content of the file.
    Hash,
    /// Look for an import with this identity.
    LookUp(String),
    /// Begin a transaction.
    Begin,
    /// Read the rows of the file into the transaction.
    Read,
    /// Commit the transaction.
    Commit,
    /// Roll the transaction back.
    RollBack,
    /// Bring the full-text index up to date.
    Index,
    /// Finish the report, and log the import with its identity.
    FinishAndLog,
    /// Finish the report; nothing was imported.
    Finish,
    /// The report is complete.
    Done,
}

/// Which action comes after an action. `worked` says of a look-up that nothing was
/// found, of reading that all rows were read and it was not cancelled, and of any
/// other action that it did not fail.
pub open spec fn import_follows(action: ImportAction, worked: bool, next: ImportAction) -> bool {
    match action {
        ImportAction::Hash => if worked {
            next is LookUp
        } else {
            next is Done
        },
        ImportAction::LookUp(_) => if worked {
            next is Begin
        } else {
            next is Done
        },
        ImportAction::Begin => if worked {
            next is Read
        } else {
            next is Finish
        },
        ImportAction::Read => if worked {
            next is Commit
        } else {
            next is RollBack
        },
        ImportAction::Commit => if worked {
            next is Index
        } else {
            next is RollBack
        },
        ImportAction::RollBack => next is Finish,
        ImportAction::Index => next is FinishAndLog,
        ImportAction::FinishAndLog => next is Done,
        ImportAction::Finish => next is Done,
        ImportAction::Done => next is Done,
    }
}

/// Some actions, each with whether it worked, are those of one import.
pub open spec fn import_trace(actions: Seq<ImportAction>, worked: Seq<bool>) -> bool {
    &&& actions.len() > 0
    &&& worked.len() == actions.len()
    &&& actions[0] is Hash
    &&& forall|i: int|
        0 <= i < actions.len() - 1 ==> import_follows(
            #[trigger] actions[i],
            worked[i],
            actions[i + 1],
        )
}

/// Whether a transaction was committed among the first `n` actions.
pub open spec fn was_committed(actions: Seq<ImportAction>, worked: Seq<bool>, n: int) -> bool {
    exists|j: int| 0 <= j < n && #[trigger] actions[j] is Commit && worked[j]
}

/// Nothing but the end of an import comes after its transaction was committed.
proof fn commit_is_final(actions: Seq<ImportAction>, worked: Seq<bool>, j: int, i: int)
    requires
        import_trace(actions, worked),
        0 <= j < i < actions.len(),
        actions[j] is Commit && worked[j],
    ensures
        actions[i] is Index || actions[i] is FinishAndLog || actions[i] is Done,
    decreases i,
{
    if i > j + 1 {
        commit_is_final(actions, worked, j, i - 1);
    }
    assert(import_follows(actions[i - 1], worked[i - 1], actions[i - 1 + 1]));
}

/// An import is logged with its identity exactly where its transaction was
/// committed, so that an interrupted import can be tried again.
pub proof fn only_committed_imports_are_logged(
    actions: Seq<ImportAction>,
    worked: Seq<bool>,
    i: int,
)
    requires
        import_trace(actions, worked),
        0 <= i < actions.len(),
    ensures
        actions[i] is FinishAndLog ==> was_committed(actions, worked, i),
        actions[i] is Finish ==> !was_committed(actions, worked, i),
{
    if actions[i] is FinishAndLog {
        assert(import_follows(actions[i - 1], worked[i - 1], actions[i - 1 + 1]));
        assert(import_follows(actions[i - 2], worked[i - 2], actions[i - 2 + 1]));
        assert(actions[i - 2] is Commit && worked[i - 2]);
    }
    if actions[i] is Finish && was_committed(actions, worked, i) {
        let j = choose|j: int| 0 <= j < i && #[trigger] actions[j] is Commit && worked[j];
        commit_is_final(actions, worked, j, i);
    }
}

/// Begins an import: options that are refused end it.
pub fn start_import(file_name: String, options: &ImportOptions) -> (r: (FileSummary, ImportAction))
    requires
        options.wf(),
    ensures
        r.0.file_name == file_name,
        r.0.imported == 0 && r.0.duplicates == 0 && r.0.total_rows == 0,
        !r.0.cancelled,
        r.0.skipped_duplicate_of is None,
        match sheet_refusal(options.sheet_fixed_values.entries@) {
            Some(e) => r.1 is Done && r.0.error is Some && r.0.error->0@ == e,
            None => r.1 is Hash && r.0.error is None,
        },
{
    let mut summary = FileSummary::new(file_name);
    match validate_import_options(options) {
        Ok(_) => (summary, ImportAction::Hash),
        Err(e) => {
            summary.error = Some(e);
            (summary, ImportAction::Done)
        },
    }
}

/// The content was hashed, or could not be read.
pub fn after_hash(
    summary: &mut FileSummary,
    content_hash: Result<String, String>,
    options: &ImportOptions,
) -> (r: ImportAction)
    ensures
        import_follows(ImportAction::Hash, content_hash is Ok, r),
        match content_hash {
            Ok(hash) => *final(summary) == *old(summary) && r is LookUp && r->LookUp_0@
                == fingerprint(hash@, *options),
            Err(e) => r is Done && *final(summary) == (FileSummary {
                error: Some(e),
                ..*old(summary)
            }),
        },
{
    match content_hash {
        Ok(hash) => ImportAction::LookUp(import_fingerprint(hash.as_str(), options)),
        Err(e) => {
            summary.error = Some(e);
            ImportAction::Done
        },
    }
}

/// An earlier import with the same identity was found, or none: identical content
/// is not imported again.
pub fn after_look_up(summary: &mut FileSummary, previous: Option<String>) -> (r: ImportAction)
    ensures
        forall|id: String| #[trigger] import_follows(ImportAction::LookUp(id), previous is None, r),
        match previous {
            Some(name) => r is Done && *final(summary) == (FileSummary {
                skipped_duplicate_of: Some(name),
                ..*old(summary)
            }),
            None => r is Begin && *final(summary) == *old(summary),
        },
{
    match previous {
        Some(name) => {
            summary.skipped_duplicate_of = Some(name);
            ImportAction::Done
        },
        None => ImportAction::Begin,
    }
}

/// The transaction was begun, or not.
pub fn after_begin(summary: &mut FileSummary, outcome: Result<(), String>) -> (r: ImportAction)
    ensures
        import_follows(ImportAction::Begin, outcome is Ok, r),
        match outcome {
            Ok(_) => r is Read && *final(summary) == *old(summary),
            Err(e) => r is Finish && *final(summary) == (FileSummary {
                error: Some(e),
                ..*old(summary)
            }),
        },
{
    match outcome {
        Ok(_) => ImportAction::Read,
        Err(e) => {
            summary.error = Some(e);
            ImportAction::Finish
        },
    }
}

/// The rows were read, or the reading failed or was cancelled: then nothing
/// counts as imported.
pub fn after_read(summary: &mut FileSummary, outcome: Result<(), String>) -> (r: ImportAction)
    ensures
        import_follows(ImportAction::Read, outcome is Ok && !old(summary).cancelled, r),
        match outcome {
            Ok(_) => if old(summary).cancelled {
                r is RollBack && *final(summary) == (FileSummary {
                    imported: 0,
                    duplicates: 0,
                    ..*old(summary)
                })
            } else {
                r is Commit && *final(summary) == *old(summary)
            },
            Err(e) => r is RollBack && *final(summary) == (FileSummary {
                error: Some(e),
                imported: 0,
                duplicates: 0,
                ..*old(summary)
            }),
        },
{
    match outcome {
        Ok(_) => {
            if summary.cancelled {
                summary.imported = 0;
                summary.duplicates = 0;
                ImportAction::RollBack
            } else {
                ImportAction::Commit
            }
        },
        Err(e) => {
            summary.error = Some(e);
            summary.imported = 0;
            summary.duplicates = 0;
            ImportAction::RollBack
        },
    }
}

/// The transaction was committed, or not.
pub fn after_commit(summary: &mut FileSummary, outcome: Result<(), String>) -> (r: ImportAction)
    ensures
        import_follows(ImportAction::Commit, outcome is Ok, r),
        match outcome {
            Ok(_) => r is Index && *final(summary) == *old(summary),
            Err(e) => r is RollBack && *final(summary) == (FileSummary {
                error: Some(e),
                ..*old(summary)
            }),
        },
{
    match outcome {
        Ok(_) => ImportAction::Index,
        Err(e) => {
            summary.error = Some(e);
            ImportAction::RollBack
        },
    }
}

/// The transaction was rolled back: the report is finished without a log entry,
/// so that an interrupted import can be tried again.
pub fn after_roll_back() -> (r: ImportAction)
    ensures
        import_follows(ImportAction::RollBack, true, r),
        r is Finish,
{
    ImportAction::Finish
}

/// The index was brought up to date, which may have been cancelled, or failed.
/// The rows are in the store either way.
pub fn after_index(summary: &mut FileSummary, outcome: Result<bool, String>) -> (r: ImportAction)
    ensures
        import_follows(ImportAction::Index, outcome is Ok, r),
        r is FinishAndLog,
        match outcome {
            Ok(cancelled) => *final(summary) == (FileSummary {
                cancelled: old(summary).cancelled || cancelled,
                ..*old(summary)
            }),
            Err(e) => *final(summary) == (FileSummary { error: Some(e), ..*old(summary) }),
        },
{
    match outcome {
        Ok(cancelled) => {
            summary.cancelled = summary.cancelled || cancelled;
        },
        Err(e) => {
            summary.error = Some(e);
        },
    }
    ImportAction::FinishAndLog
}

/// What an action of an import came to.
#[derive(Debug)]
pub enum ImportOutcome {
    Hashed(Result<String, String>),
    /// The file that was imported with the identity before, if any.
    LookedUp(Option<String>),
    Began(Result<(), String>),
    ReadRows(Result<(), String>),
    Committed(Result<(), String>),
    RolledBack,
    /// Whether indexing was cancelled.
    Indexed(Result<bool, String>),
    /// The report was finished, and logged where it was to be.
    Finished,
}

/// The report once the outcome of an action was taken note of.
pub open spec fn report_after(summary: FileSummary, outcome: ImportOutcome) -> FileSummary {
    match outcome {
        ImportOutcome::Hashed(Err(e)) => FileSummary { error: Some(e), ..summary },
        ImportOutcome::LookedUp(Some(name)) => FileSummary {
            skipped_duplicate_of: Some(name),
            ..summary
        },
        ImportOutcome::Began(Err(e)) => FileSummary { error: Some(e), ..summary },
        ImportOutcome::ReadRows(Err(e)) => FileSummary {
            error: Some(e),
            imported: 0,
            duplicates: 0,
            ..summary
        },
        ImportOutcome::ReadRows(Ok(_)) => if summary.cancelled {
            FileSummary { imported: 0, duplicates: 0, ..summary }
        } else {
            summary
        },
        ImportOutcome::Committed(Err(e)) => FileSummary { error: Some(e), ..summary },
        ImportOutcome::Indexed(Ok(cancelled)) => FileSummary {
            cancelled: summary.cancelled || cancelled,
            ..summary
        },
        ImportOutcome::Indexed(Err(e)) => FileSummary { error: Some(e), ..summary },
        _ => summary,
    }
}

/// `action` comes behind an outcome: whatever fails before the commit leads to a
/// report without a log entry, and what was committed is indexed and logged.
pub open spec fn action_after(
    summary: FileSummary,
    options: ImportOptions,
    outcome: ImportOutcome,
    action: ImportAction,
) -> bool {
    match outcome {
        ImportOutcome::Hashed(Ok(hash)) => action is LookUp && action->LookUp_0@ == fingerprint(
            hash@,
            options,
        ),
        ImportOutcome::Hashed(Err(_)) => action is Done,
        ImportOutcome::LookedUp(Some(_)) => action is Done,
        ImportOutcome::LookedUp(None) => action is Begin,
        ImportOutcome::Began(Ok(_)) => action is Read,
        ImportOutcome::Began(Err(_)) => action is Finish,
        ImportOutcome::ReadRows(Ok(_)) => if summary.cancelled {
            action is RollBack
        } else {
            action is Commit
        },
        ImportOutcome::ReadRows(Err(_)) => action is RollBack,
        ImportOutcome::Committed(Ok(_)) => action is Index,
        ImportOutcome::Committed(Err(_)) => action is RollBack,
        ImportOutcome::RolledBack => action is Finish,
        ImportOutcome::Indexed(_) => action is FinishAndLog,
        ImportOutcome::Finished => action is Done,
    }
}

/// Takes an import one action further.
pub fn import_file_with_options(
    summary: &mut FileSummary,
    options: &ImportOptions,
    outcome: ImportOutcome,
) -> (r: ImportAction)
    ensures
        action_after(*old(summary), *options, outcome, r),
        *final(summary) == report_after(*old(summary), outcome),
{
    match outcome {
        ImportOutcome::Hashed(hash) => after_hash(summary, hash, options),
        ImportOutcome::LookedUp(previous) => after_look_up(summary, previous),
        ImportOutcome::Began(result) => after_begin(summary, result),
        ImportOutcome::ReadRows(result) => after_read(summary, result),
        ImportOutcome::Committed(result) => after_commit(summary, result),
        ImportOutcome::RolledBack => after_roll_back(),
        ImportOutcome::Indexed(result) => after_index(summary, result),
        ImportOutcome::Finished => ImportAction::Done,
    }
}

/// A warning is given once: one more of the same changes nothing, and none is
/// lost.
pub proof fn a_warning_is_given_once(warnings: Seq<Seq<char>>, warning: Seq<char>)
    ensures
        with_warning(warnings, warning).contains(warning),
        with_warning(with_warning(warnings, warning), warning) == with_warning(warnings, warning),
        forall|w: Seq<char>| #[trigger]
            warnings.contains(w) ==> with_warning(warnings, warning).contains(w),
{
    if !warnings.contains(warning) {
        assert(warnings.push(warning)[warnings.len() as int] == warning);
    }
    assert forall|w: Seq<char>| #[trigger] warnings.contains(w) implies with_warning(
        warnings,
        warning,
    ).contains(w) by {
        let k = choose|k: int| 0 <= k < warnings.len() && warnings[k] == w;
        assert(with_warning(warnings, warning)[k] == w);
    }
}

/// A table whose header is not in the first row, in which fewer than six columns
/// are recognised, or nine tenths of whose cells are empty, is warned of, each
/// with its own warning; one that has none of these is not.
pub proof fn each_doubt_has_its_warning(quality: ImportQuality, percent: Seq<char>)
    requires
        quality.layout@.len() > 0,
    ensures
        quality.header_row > 1 ==> final_warnings(quality, percent).contains(
            "Header row was detected at row "@ + decimal(quality.header_row as nat)
                + "; earlier rows were treated as title or metadata."@,
        ),
        1 <= quality.recognized_columns <= 5 ==> final_warnings(quality, percent).contains(
            "Only "@ + decimal(quality.recognized_columns as nat)
                + " semantic fields were recognized; source columns are still preserved, but domain analytics may be limited."@,
        ),
        quality.empty_cells > 0 && quality.empty_cells >= 9 * quality.non_empty_cells
            ==> final_warnings(quality, percent).contains(
            percent + "% of imported table cells are empty."@,
        ),
        quality.header_row <= 1 && (quality.recognized_columns == 0 || quality.recognized_columns
            >= 6) && quality.empty_cells < 9 * quality.non_empty_cells ==> final_warnings(
            quality,
            percent,
        ) == views(quality.warnings@),
{
    let given = views(quality.warnings@);
    let late = late_header_warning(quality.header_row);
    let few = few_columns_warning(quality.recognized_columns);
    let first = if quality.header_row > 1 {
        with_warning(given, late)
    } else {
        given
    };
    let second = if 0 < quality.recognized_columns < 6 {
        with_warning(first, few)
    } else {
        first
    };
    a_warning_is_given_once(given, late);
    a_warning_is_given_once(first, few);
    a_warning_is_given_once(second, sparse_warning(percent));
}

/// A file that failed or was cancelled while it was read has imported nothing,
/// its error is reported, and what was read is rolled back; only what was read
/// without either is committed.
pub proof fn a_failed_file_imports_nothing(
    summary: FileSummary,
    options: ImportOptions,
    outcome: ImportOutcome,
    action: ImportAction,
)
    requires
        action_after(summary, options, outcome, action),
    ensures
        match outcome {
            ImportOutcome::ReadRows(Err(e)) => report_after(summary, outcome).imported == 0
                && report_after(summary, outcome).duplicates == 0 && report_after(
                summary,
                outcome,
            ).error == Some(e) && action is RollBack,
            ImportOutcome::ReadRows(Ok(_)) => (summary.cancelled ==> report_after(
                summary,
                outcome,
            ).imported == 0 && action is RollBack) && (!summary.cancelled ==> report_after(
                summary,
                outcome,
            ) == summary && action is Commit),
            ImportOutcome::LookedUp(Some(name)) => report_after(
                summary,
                outcome,
            ).skipped_duplicate_of == Some(name) && action is Done,
            ImportOutcome::Committed(Err(e)) => report_after(summary, outcome).error == Some(e)
                && action is RollBack,
            _ => true,
        },
        action is Commit ==> outcome is ReadRows && !summary.cancelled,
{
}

} // verus!
