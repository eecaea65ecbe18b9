//! Importing the sheets of a workbook one after the other.
use vstd::prelude::*;
use vstd::string::*;

use crate::import::options::{FixedValues, ImportOptions, Overrides, TextSet};
use crate::import::summary::{
    merge_sheet_summary, merged_quality, push_quality_warning, with_warning, FileSummary,
};
use crate::ordered::OrderedMap;
use crate::paths::{delimited, is_delimited_path, FilePath};
use crate::text::{copy_texts, join, joined, push_text, same, views};

verus! {

/// The selected names that no sheet has, in their order.
pub open spec fn missing_names(selected: Seq<(String, ())>, names: Seq<Seq<char>>) -> Seq<Seq<char>>
    decreases selected.len(),
{
    if selected.len() == 0 {
        Seq::empty()
    } else {
        let before = missing_names(selected.drop_last(), names);
        if names.contains(selected.last().0@) {
            before
        } else {
            before.push(selected.last().0@)
        }
    }
}

/// The sheets that are selected, in the order of the workbook.
pub open spec fn selected_names(names: Seq<Seq<char>>, selected: Map<Seq<char>, ()>) -> Seq<
    Seq<char>,
>
    decreases names.len(),
{
    if names.len() == 0 {
        Seq::empty()
    } else {
        let before = selected_names(names.drop_last(), selected);
        if selected.contains_key(names.last()) {
            before.push(names.last())
        } else {
            before
        }
    }
}

/// The sheets to import, or why there are none.
pub open spec fn sheets_to_import(names: Seq<Seq<char>>, selected: Option<TextSet>) -> Result<
    Seq<Seq<char>>,
    Seq<char>,
> {
    if names.len() == 0 {
        Err("The workbook contains no sheets."@)
    } else {
        match selected {
            None => Ok(names),
            Some(set) => if set.entries@.len() == 0 {
                Err("No workbook sheet was selected for import."@)
            } else if missing_names(set.entries@, names).len() > 0 {
                Err(
                    "Selected workbook sheets were not found: "@ + joined(
                        missing_names(set.entries@, names),
                        ", "@,
                    ) + "."@,
                )
            } else {
                Ok(selected_names(names, set@))
            },
        }
    }
}

/// Whether a name is among some names.
fn has_name(names: &Vec<String>, name: &str) -> (r: bool)
    ensures
        r == views(names@).contains(name@),
{
    let mut i: usize = 0;
    while i < names.len()
        invariant
            i <= names@.len(),
            forall|j: int| 0 <= j < i ==> #[trigger] views(names@)[j] != name@,
        decreases names.len() - i,
    {
        assert(views(names@)[i as int] == names@[i as int]@);
        if same(names[i].as_str(), name) {
            return true;
        }
        i += 1;
    }
    false
}

/// Decides which sheets of a workbook are imported.
pub fn select_sheets(sheet_names: &Vec<String>, selected: &Option<TextSet>) -> (r: Result<
    Vec<String>,
    String,
>)
    requires
        selected matches Some(set) ==> set.wf(),
    ensures
        match r {
            Ok(list) => sheets_to_import(views(sheet_names@), *selected) == Ok::<
                Seq<Seq<char>>,
                Seq<char>,
            >(views(list@)),
            Err(e) => sheets_to_import(views(sheet_names@), *selected) == Err::<
                Seq<Seq<char>>,
                Seq<char>,
            >(e@),
        },
{
    let ghost names = views(sheet_names@);
    assert(names.len() == sheet_names@.len());
    if sheet_names.len() == 0 {
        return Err(String::from_str("The workbook contains no sheets."));
    }
    match selected {
        None => Ok(copy_texts(sheet_names)),
        Some(set) => {
            if set.len() == 0 {
                return Err(String::from_str("No workbook sheet was selected for import."));
            }
            let mut missing: Vec<String> = Vec::new();
            let mut i: usize = 0;
            assert(views(missing@) =~= missing_names(set.entries@.take(0), names));
            while i < set.entries.len()
                invariant
                    i <= set.entries@.len(),
                    names == views(sheet_names@),
                    views(missing@) == missing_names(set.entries@.take(i as int), names),
                decreases set.entries.len() - i,
            {
                assert(set.entries@.take(i + 1).drop_last() =~= set.entries@.take(i as int));
                assert(set.entries@.take(i + 1).last() == set.entries@[i as int]);
                if !has_name(sheet_names, set.entries[i].0.as_str()) {
                    push_text(&mut missing, set.entries[i].0.as_str());
                }
                i += 1;
            }
            assert(set.entries@.take(i as int) =~= set.entries@);
            assert(views(missing@).len() == missing@.len());
            if missing.len() > 0 {
                let mut message = String::from_str("Selected workbook sheets were not found: ");
                message.append(join(&missing, ", ").as_str());
                message.append(".");
                return Err(message);
            }
            let mut out: Vec<String> = Vec::new();
            let mut k: usize = 0;
            assert(views(out@) =~= selected_names(names.take(0), set@));
            while k < sheet_names.len()
                invariant
                    set.wf(),
                    k <= sheet_names@.len(),
                    names == views(sheet_names@),
                    views(out@) == selected_names(names.take(k as int), set@),
                decreases sheet_names.len() - k,
            {
                assert(names.take(k + 1).drop_last() =~= names.take(k as int));
                assert(names.take(k + 1).last() == sheet_names@[k as int]@);
                if set.contains_key(&sheet_names[k]) {
                    push_text(&mut out, sheet_names[k].as_str());
                }
                k += 1;
            }
            assert(names.take(k as int) =~= names);
            Ok(out)
        },
    }
}

/// The entry of a table in a map by table names: its own, or for a file with one
/// table the only one there is.
pub open spec fn entry_of_table<V>(map: OrderedMap<String, V>, table: Seq<char>, only: bool) -> Option<
    V,
> {
    if map@.contains_key(table) {
        Some(map@[table])
    } else if only && map.entries@.len() == 1 {
        Some(map.entries@[0].1)
    } else {
        None
    }
}

/// The entry of a table in a map by table names.
pub fn find_entry<'a, V>(map: &'a OrderedMap<String, V>, table: &String, only: bool) -> (r: Option<
    &'a V,
>)
    requires
        map.wf(),
    ensures
        match r {
            Some(v) => entry_of_table(*map, table@, only) == Some(*v),
            None => entry_of_table(*map, table@, only) is None,
        },
{
    match map.get(table) {
        Some(v) => Some(v),
        None => if only && map.entries.len() == 1 {
            Some(&map.entries[0].1)
        } else {
            None
        },
    }
}

/// The decided meanings of a sheet.
pub fn sheet_overrides<'a>(options: &'a ImportOptions, sheet: &String) -> (r: Option<&'a Overrides>)
    requires
        options.wf(),
    ensures
        match r {
            Some(v) => entry_of_table(options.sheet_semantics, sheet@, false) == Some(*v)
                && v.wf(),
            None => entry_of_table(options.sheet_semantics, sheet@, false) is None,
        },
{
    find_entry(&options.sheet_semantics, sheet, false)
}

/// The pinned values of a sheet.
pub fn sheet_fixed_values<'a>(options: &'a ImportOptions, sheet: &String) -> (r: Option<
    &'a FixedValues,
>)
    requires
        options.wf(),
    ensures
        match r {
            Some(v) => entry_of_table(options.sheet_fixed_values, sheet@, false) == Some(*v)
                && v.wf(),
            None => entry_of_table(options.sheet_fixed_values, sheet@, false) is None,
        },
{
    find_entry(&options.sheet_fixed_values, sheet, false)
}

/// The decided meanings and pinned values of a delimited file, which has one
/// table: those given under its name, or the only ones given.
pub fn delimited_decisions<'a>(options: &'a ImportOptions, file_name: &String) -> (r: Result<
    (Option<&'a Overrides>, Option<&'a FixedValues>),
    String,
>)
    requires
        options.wf(),
    ensures
        match r {
            Ok((meanings, values)) => !(options.selected_sheets matches Some(set)
                && set.entries@.len() == 0) && entry_of_table(
                options.sheet_semantics,
                file_name@,
                true,
            ) == (match meanings {
                Some(v) => Some(*v),
                None => None,
            }) && entry_of_table(options.sheet_fixed_values, file_name@, true) == (match values {
                Some(v) => Some(*v),
                None => None,
            }),
            Err(e) => (options.selected_sheets matches Some(set) && set.entries@.len() == 0) && e@
                == "No table was selected for import."@,
        },
{
    match &options.selected_sheets {
        Some(set) => {
            if set.len() == 0 {
                return Err(String::from_str("No table was selected for import."));
            }
        },
        None => {},
    }
    Ok(
        (
            find_entry(&options.sheet_semantics, file_name, true),
            find_entry(&options.sheet_fixed_values, file_name, true),
        ),
    )
}

/// The name that the records of a sheet carry.
pub open spec fn source_label(file_name: Seq<char>, sheet: Seq<char>, qualify: bool) -> Seq<char> {
    if qualify {
        file_name + " ["@ + sheet + "]"@
    } else {
        file_name
    }
}

/// The name that the records of a sheet carry: in a workbook of several sheets
/// the sheet is named too.
pub fn source_name(file_name: &str, sheet: &str, qualify: bool) -> (r: String)
    ensures
        r@ == source_label(file_name@, sheet@, qualify),
{
    let mut out = String::from_str(file_name);
    if qualify {
        out.append(" [");
        out.append(sheet);
        out.append("]");
    }
    out
}

/// The import of a workbook on its way through its sheets.
#[derive(Clone, Debug)]
pub struct WorkbookRun {
    pub sheets: Vec<String>,
    pub at: usize,
    pub stopped: bool,
    pub imported: Vec<String>,
}

/// Counts of two summaries that can be added.
pub open spec fn addable(target: FileSummary, sheet: FileSummary) -> bool {
    &&& target.total_rows + sheet.total_rows <= u64::MAX
    &&& target.imported + sheet.imported <= u64::MAX
    &&& target.duplicates + sheet.duplicates <= u64::MAX
    &&& target.quality.non_empty_cells + sheet.quality.non_empty_cells <= u64::MAX
    &&& target.quality.empty_cells + sheet.quality.empty_cells <= u64::MAX
}

impl WorkbookRun {
    /// The run stands between two sheets.
    pub open spec fn wf(&self) -> bool {
        self.at <= self.sheets@.len()
    }

    /// A run before its first sheet.
    pub fn new(sheets: Vec<String>) -> (r: Self)
        ensures
            r.wf(),
            r.sheets == sheets,
            r.at == 0,
            !r.stopped,
            r.imported@.len() == 0,
    {
        WorkbookRun { sheets, at: 0, stopped: false, imported: Vec::new() }
    }

    /// The next sheet to import, unless the run was stopped or cancelled.
    pub fn next_sheet(&mut self, summary: &mut FileSummary, cancel: bool) -> (r: Option<String>)
        requires
            old(self).wf(),
        ensures
            final(self).wf(),
            final(self).sheets == old(self).sheets,
            final(self).imported == old(self).imported,
            final(self).at == old(self).at,
            match r {
                Some(sheet) => !old(self).stopped && old(self).at < old(self).sheets@.len()
                    && !cancel && sheet@ == old(self).sheets@[old(self).at as int]@
                    && !final(self).stopped && *final(summary) == *old(summary),
                None => if old(self).stopped || old(self).at == old(self).sheets@.len() {
                    final(self).stopped == old(self).stopped && *final(summary) == *old(summary)
                } else {
                    cancel && final(self).stopped && *final(summary) == (FileSummary {
                        cancelled: true,
                        ..*old(summary)
                    })
                },
            },
    {
        if self.stopped || self.at == self.sheets.len() {
            return None;
        }
        if cancel {
            summary.cancelled = true;
            self.stopped = true;
            return None;
        }
        Some(self.sheets[self.at].clone())
    }

    /// A sheet was imported: its summary is merged unless it held no table, and a
    /// cancelled sheet stops the run.
    pub fn sheet_done(&mut self, summary: &mut FileSummary, sheet: &FileSummary)
        requires
            old(self).wf(),
            old(self).at < old(self).sheets@.len(),
            !old(self).stopped,
            addable(*old(summary), *sheet),
        ensures
            final(self).wf(),
            final(self).sheets == old(self).sheets,
            final(self).at == old(self).at + 1,
            final(self).stopped == sheet.cancelled,
            views(final(self).imported@) == (if sheet.quality.layout@.len() > 0 {
                views(old(self).imported@).push(old(self).sheets@[old(self).at as int]@)
            } else {
                views(old(self).imported@)
            }),
            final(summary).cancelled == (old(summary).cancelled || sheet.cancelled),
            final(summary).file_name == old(summary).file_name,
            final(summary).error == old(summary).error,
            final(summary).skipped_duplicate_of == old(summary).skipped_duplicate_of,
            if sheet.quality.layout@.len() > 0 {
                final(summary).total_rows == old(summary).total_rows + sheet.total_rows
                    && final(summary).imported == old(summary).imported + sheet.imported
                    && final(summary).duplicates == old(summary).duplicates + sheet.duplicates
                    && merged_quality(old(summary).quality, sheet.quality, final(summary).quality)
            } else {
                final(summary).total_rows == old(summary).total_rows && final(summary).imported
                    == old(summary).imported && final(summary).duplicates == old(
                    summary,
                ).duplicates && final(summary).quality == old(summary).quality
            },
    {
        if sheet.quality.layout.as_str().unicode_len() > 0 {
            merge_sheet_summary(summary, sheet);
            push_text(&mut self.imported, self.sheets[self.at].as_str());
        }
        if sheet.cancelled {
            summary.cancelled = true;
            self.stopped = true;
        }
        assert(self.at < self.sheets.len());
        self.at = self.at + 1;
    }

    /// Ends the run: a workbook without a table is refused, and one with several
    /// is reported as such.
    pub fn finish(&self, summary: &mut FileSummary) -> (r: Result<(), String>)
        ensures
            match r {
                Err(e) => self.imported@.len() == 0 && !old(summary).cancelled && e@
                    == "No non-empty table was found in the workbook."@ && *final(summary) == *old(
                    summary,
                ),
                Ok(_) => !(self.imported@.len() == 0 && !old(summary).cancelled) && if self.imported@.len()
                    > 1 {
                    &&& final(summary).quality.layout@ == "multi-sheet workbook"@
                    &&& final(summary).quality.header_row == 0
                    &&& final(summary).quality.source_columns == old(summary).quality.source_columns
                    &&& final(summary).quality.recognized_columns == old(
                        summary,
                    ).quality.recognized_columns
                    &&& final(summary).quality.extra_columns == old(summary).quality.extra_columns
                    &&& final(summary).quality.non_empty_cells == old(
                        summary,
                    ).quality.non_empty_cells
                    &&& final(summary).quality.empty_cells == old(summary).quality.empty_cells
                    &&& views(final(summary).quality.warnings@) == with_warning(
                        views(old(summary).quality.warnings@),
                        "Imported sheets: "@ + joined(views(self.imported@), ", "@) + "."@,
                    )
                    &&& *final(summary) == (FileSummary {
                        quality: final(summary).quality,
                        ..*old(summary)
                    })
                } else {
                    *final(summary) == *old(summary)
                },
            },
    {
        if self.imported.len() == 0 && !summary.cancelled {
            return Err(String::from_str("No non-empty table was found in the workbook."));
        }
        if self.imported.len() > 1 {
            summary.quality.layout = String::from_str("multi-sheet workbook");
            summary.quality.header_row = 0;
            let mut warning = String::from_str("Imported sheets: ");
            warning.append(join(&self.imported, ", ").as_str());
            warning.append(".");
            push_quality_warning(&mut summary.quality, warning.as_str());
        }
        Ok(())
    }
}

/// The error of a sheet that the file does not have.
pub open spec fn no_such_sheet(name: Seq<char>) -> Seq<char> {
    "The file has no sheet named \""@ + name + "\"."@
}

/// Finds the sheet of a name.
pub fn find_sheet(sheet_names: &Vec<String>, name: &str) -> (r: Result<usize, String>)
    ensures
        match r {
            Ok(i) => i < sheet_names@.len() && sheet_names@[i as int]@ == name@ && forall|j: int|
                0 <= j < i ==> (#[trigger] sheet_names@[j])@ != name@,
            Err(e) => e@ == no_such_sheet(name@) && forall|j: int|
                0 <= j < sheet_names@.len() ==> (#[trigger] sheet_names@[j])@ != name@,
        },
{
    let mut i: usize = 0;
    while i < sheet_names.len()
        invariant
            i <= sheet_names@.len(),
            forall|j: int| 0 <= j < i ==> (#[trigger] sheet_names@[j])@ != name@,
        decreases sheet_names.len() - i,
    {
        if same(sheet_names[i].as_str(), name) {
            return Ok(i);
        }
        i += 1;
    }
    let mut out = String::from_str("The file has no sheet named \"");
    out.append(name);
    out.append("\".");
    Err(out)
}

/// How the tables of a file are imported.
#[derive(Debug)]
pub enum FileRun<'a> {
    /// One table, with what was decided for it.
    Delimited { overrides: Option<&'a Overrides>, fixed: Option<&'a FixedValues> },
    /// The sheets to import, one after the other. Where the workbook has several,
    /// records carry the name of their sheet too.
    Workbook { run: WorkbookRun, qualify: bool },
}

/// No table of a file was selected.
pub open spec fn nothing_selected(options: ImportOptions) -> bool {
    options.selected_sheets matches Some(set) && set.entries@.len() == 0
}

/// Why no table of a file is imported, if so. The sheets count for a workbook only.
pub open spec fn refused_file(
    path: FilePath,
    options: ImportOptions,
    sheet_names: Result<Vec<String>, String>,
) -> Option<Seq<char>> {
    if delimited(path) {
        if nothing_selected(options) {
            Some("No table was selected for import."@)
        } else {
            None
        }
    } else {
        match sheet_names {
            Err(e) => Some(e@),
            Ok(names) => match sheets_to_import(views(names@), options.selected_sheets) {
                Err(e) => Some(e),
                Ok(_) => None,
            },
        }
    }
}

/// Decides how the tables of a file are imported, given the sheets of a workbook,
/// or why they could not be read.
pub fn import_file_inner<'a>(
    path: &FilePath,
    file_name: &String,
    options: &'a ImportOptions,
    sheet_names: Result<Vec<String>, String>,
) -> (r: Result<FileRun<'a>, String>)
    requires
        options.wf(),
    ensures
        match r {
            Err(e) => refused_file(*path, *options, sheet_names) == Some(e@),
            Ok(FileRun::Delimited { overrides, fixed }) => delimited(*path) && refused_file(
                *path,
                *options,
                sheet_names,
            ) is None && entry_of_table(options.sheet_semantics, file_name@, true) == (
            match overrides {
                Some(v) => Some(*v),
                None => None,
            }) && entry_of_table(options.sheet_fixed_values, file_name@, true) == (match fixed {
                Some(v) => Some(*v),
                None => None,
            }),
            Ok(FileRun::Workbook { run, qualify }) => !delimited(*path) && sheet_names is Ok
                && sheets_to_import(views(sheet_names->Ok_0@), options.selected_sheets) == Ok::<
                Seq<Seq<char>>,
                Seq<char>,
            >(views(run.sheets@)) && run.wf() && run.at == 0 && !run.stopped && run.imported@.len()
                == 0 && qualify == (sheet_names->Ok_0@.len() > 1),
        },
{
    if is_delimited_path(path) {
        return match delimited_decisions(options, file_name) {
            Ok((overrides, fixed)) => Ok(FileRun::Delimited { overrides, fixed }),
            Err(e) => Err(e),
        };
    }
    let names = match sheet_names {
        Ok(names) => names,
        Err(e) => {
            return Err(e);
        },
    };
    match select_sheets(&names, &options.selected_sheets) {
        Ok(sheets) => Ok(
            FileRun::Workbook { run: WorkbookRun::new(sheets), qualify: names.len() > 1 },
        ),
        Err(e) => Err(e),
    }
}

/// The sheets that are imported are those of the workbook that were selected, all
/// of them where none was named; a selection that names another sheet is refused.
pub proof fn only_selected_sheets_are_imported(names: Seq<Seq<char>>, selected: Option<TextSet>)
    ensures
        names.len() == 0 ==> sheets_to_import(names, selected) is Err,
        names.len() > 0 && selected is None ==> sheets_to_import(names, selected) == Ok::<
            Seq<Seq<char>>,
            Seq<char>,
        >(names),
        match sheets_to_import(names, selected) {
            Ok(sheets) => forall|name: Seq<char>| #[trigger]
                sheets.contains(name) <==> names.contains(name) && (match selected {
                    Some(set) => set@.contains_key(name),
                    None => true,
                }),
            Err(_) => true,
        },
        selected is Some && selected->0.entries@.len() == 0 ==> sheets_to_import(
            names,
            selected,
        ) is Err,
{
    match selected {
        Some(set) => {
            assert forall|name: Seq<char>| #[trigger]
                selected_names(names, set@).contains(name) <==> names.contains(name)
                    && set@.contains_key(name) by {
                selected_are_named(names, set@, name);
            }
        },
        None => {},
    }
}

/// A name is among the selected ones exactly where it is there and selected.
proof fn selected_are_named(
    names: Seq<Seq<char>>,
    selected: Map<Seq<char>, ()>,
    name: Seq<char>,
)
    ensures
        selected_names(names, selected).contains(name) <==> names.contains(name)
            && selected.contains_key(name),
    decreases names.len(),
{
    if names.len() > 0 {
        let front = names.drop_last();
        selected_are_named(front, selected, name);
        assert(names =~= front.push(names.last()));
        let before = selected_names(front, selected);
        if names.last() == name {
            assert(names[names.len() - 1] == name);
            if selected.contains_key(name) {
                assert(before.push(name)[before.len() as int] == name);
            }
        }
        if front.contains(name) {
            let k = choose|k: int| 0 <= k < front.len() && front[k] == name;
            assert(names[k] == name);
        }
        if names.contains(name) && names.last() != name {
            let k = choose|k: int| 0 <= k < names.len() && names[k] == name;
            assert(front[k] == name);
        }
        if before.contains(name) {
            let k = choose|k: int| 0 <= k < before.len() && before[k] == name;
            assert(before.push(names.last())[k] == name);
        }
        if before.push(names.last()).contains(name) && names.last() != name {
            let k = choose|k: int|
                0 <= k < before.push(names.last()).len() && before.push(names.last())[k] == name;
            assert(before[k] == name);
        }
    }
}

/// A table's own entry is used before any other, and another's only where the
/// table is the only one and the entry too.
pub proof fn a_tables_own_entry_is_used<V>(
    map: OrderedMap<String, V>,
    table: Seq<char>,
    only: bool,
)
    ensures
        map@.contains_key(table) ==> entry_of_table(map, table, only) == Some(map@[table]),
        !map@.contains_key(table) && !only ==> entry_of_table(map, table, only) is None,
        !map@.contains_key(table) && map.entries@.len() != 1 ==> entry_of_table(
            map,
            table,
            only,
        ) is None,
{
}

} // verus!
