//! Records on their way into the store, and what an import reports.
use vstd::prelude::*;
use vstd::string::*;

use crate::analytics::Real;
use crate::text::{
    chars_of, is_space, join, joined, last_piece, only_piece, pieces, push_text, string_of, trim,
    trimmed, trimmed_is_fixed, views,
};

verus! {

/// One row prepared for insertion during import.
#[derive(Clone, Debug)]
pub struct ImportRecord {
    pub hash: [u8; 16],
    pub year: Option<i64>,
    pub values: Vec<String>,
    /// Source columns not stored in compatibility schema fields. JSON array of
    /// [header, value] pairs.
    pub extra: Option<String>,
}

/// What was wrong with a full-text index.
#[derive(Clone, Copy, Debug, PartialEq, Eq, Structural)]
pub enum FtsRepairIssue {
    MissingIndex,
    VersionStale,
    IntegrityCheckFailed,
    ContentMismatch,
    WatermarkMismatch,
}

/// The outcome of repairing a full-text index.
#[derive(Clone, Debug, PartialEq, Eq)]
pub struct FtsRepairReport {
    pub rebuilt: bool,
    pub cancelled: bool,
    pub indexed_rows: u64,
    pub watermark: i64,
    pub schema_version: String,
    pub issues: Vec<FtsRepairIssue>,
}

/// Why repairing a full-text index failed.
#[derive(Clone, Debug, PartialEq, Eq)]
pub enum FtsRepairError {
    Database(String),
    SourceChanged,
    Validation(String),
}

impl FtsRepairError {
    /// The message shown for the failure.
    pub fn message(&self) -> (r: String)
        ensures
            r@ == (match *self {
                FtsRepairError::Database(error) => error@,
                FtsRepairError::SourceChanged =>
                    "records changed during FTS rebuild; the live index was kept"@,
                FtsRepairError::Validation(message) => message@,
            }),
    {
        match self {
            FtsRepairError::Database(error) => error.clone(),
            FtsRepairError::SourceChanged => String::from_str(
                "records changed during FTS rebuild; the live index was kept",
            ),
            FtsRepairError::Validation(message) => message.clone(),
        }
    }
}

/// One record shown in full.
#[derive(Clone, Debug)]
pub struct RecordCard {
    pub fields: Vec<(String, String)>,
    pub source_file: String,
    /// Extra source columns this file had beyond the known schema, in file order.
    pub extra: Vec<(String, String)>,
}

/// One finished import.
#[derive(Clone, Debug)]
pub struct ImportLogEntry {
    pub file_name: String,
    pub total_rows: u64,
    pub imported: u64,
    pub duplicates: u64,
    pub seconds: Real,
    pub imported_at: String,
    pub quality: ImportQuality,
}

/// What an import found in its source.
#[derive(Clone, Debug, PartialEq, Eq)]
pub struct ImportQuality {
    pub layout: String,
    pub header_row: u64,
    pub source_columns: u64,
    pub recognized_columns: u64,
    pub extra_columns: u64,
    pub non_empty_cells: u64,
    pub empty_cells: u64,
    pub warnings: Vec<String>,
}

impl Default for ImportQuality {
    fn default() -> (r: Self)
        ensures
            r.layout@ == Seq::<char>::empty(),
            r.header_row == 0,
            r.source_columns == 0,
            r.recognized_columns == 0,
            r.extra_columns == 0,
            r.non_empty_cells == 0,
            r.empty_cells == 0,
            r.warnings@ == Seq::<String>::empty(),
    {
        ImportQuality {
            layout: String::new(),
            header_row: 0,
            source_columns: 0,
            recognized_columns: 0,
            extra_columns: 0,
            non_empty_cells: 0,
            empty_cells: 0,
            warnings: Vec::new(),
        }
    }
}

/// The end of a line.
pub open spec fn line_end(c: char) -> bool {
    c == '\n'
}

/// The trimmed texts that are not empty.
pub open spec fn trimmed_lines(lines: Seq<Seq<char>>) -> Seq<Seq<char>>
    decreases lines.len(),
{
    if lines.len() == 0 {
        Seq::empty()
    } else if trimmed(lines.last()).len() == 0 {
        trimmed_lines(lines.drop_last())
    } else {
        trimmed_lines(lines.drop_last()).push(trimmed(lines.last()))
    }
}

/// The warnings that a stored text lists, one on each line.
pub open spec fn listed_warnings(text: Seq<char>) -> Seq<Seq<char>> {
    trimmed_lines(pieces(text, |c: char| line_end(c)))
}

/// A warning that fits on a line of its own.
pub open spec fn one_line(s: Seq<char>) -> bool {
    &&& s.len() > 0
    &&& !is_space(s[0])
    &&& !is_space(s.last())
    &&& forall|i: int| 0 <= i < s.len() ==> !line_end(#[trigger] s[i])
}

/// Warnings that fit on a line each are read back as they were written.
pub proof fn warnings_round_trip(warnings: Seq<Seq<char>>)
    requires
        forall|i: int| 0 <= i < warnings.len() ==> one_line(#[trigger] warnings[i]),
    ensures
        listed_warnings(joined(warnings, seq!['\n'])) == warnings,
    decreases warnings.len(),
{
    let sep = |c: char| line_end(c);
    let text = joined(warnings, seq!['\n']);
    if warnings.len() == 0 {
        assert(pieces(text, sep) =~= seq![Seq::<char>::empty()]);
        let lines = pieces(text, sep);
        assert(trimmed(lines.last()).len() == 0);
        assert(lines.drop_last() =~= Seq::<Seq<char>>::empty());
        assert(trimmed_lines(lines.drop_last()) =~= warnings);
    } else {
        let last = warnings.last();
        assert(one_line(last));
        trimmed_is_fixed(last);
        if warnings.len() == 1 {
            only_piece(last, sep);
            let lines = pieces(text, sep);
            assert(lines == seq![last]);
            assert(lines.drop_last() =~= Seq::<Seq<char>>::empty());
            assert(trimmed_lines(lines.drop_last()) =~= Seq::<Seq<char>>::empty());
            assert(trimmed_lines(lines) =~= warnings);
        } else {
            let start = warnings.drop_last();
            warnings_round_trip(start);
            let before = joined(start, seq!['\n']);
            last_piece(before, '\n', last, sep);
            let lines = pieces(text, sep);
            assert(lines.drop_last() =~= pieces(before, sep));
            assert(trimmed_lines(lines) =~= warnings);
        }
    }
}

impl ImportQuality {
    /// What the share of filled cells is a quotient of: the filled cells and all
    /// cells. Where no cell was counted there is none.
    pub fn filled_percent(&self) -> (r: Option<(u64, u64)>)
        requires
            self.non_empty_cells + self.empty_cells <= u64::MAX,
        ensures
            r == (if self.non_empty_cells + self.empty_cells == 0 {
                None
            } else {
                Some(
                    (self.non_empty_cells, (self.non_empty_cells + self.empty_cells) as u64),
                )
            }),
    {
        let total: u64 = self.non_empty_cells + self.empty_cells;
        if total == 0 {
            None
        } else {
            Some((self.non_empty_cells, total))
        }
    }

    /// The warnings, one on each line.
    pub fn warnings_text(&self) -> (r: String)
        ensures
            r@ == joined(views(self.warnings@), seq!['\n']),
    {
        proof {
            reveal_strlit("\n");
            assert("\n"@ =~= seq!['\n']);
        }
        join(&self.warnings, "\n")
    }

    /// The same report with the warnings that a stored text lists.
    pub fn with_warnings_text(self, warnings: String) -> (r: ImportQuality)
        ensures
            views(r.warnings@) == listed_warnings(warnings@),
            r == (ImportQuality { warnings: r.warnings, ..self }),
    {
        let v = chars_of(warnings.as_str());
        let ghost sep = |c: char| line_end(c);
        let mut out: Vec<String> = Vec::new();
        let mut current: Vec<char> = Vec::new();
        let ghost mut done: Seq<Seq<char>> = Seq::empty();
        let mut i: usize = 0;
        assert(done.push(current@) =~= pieces(v@.take(0), sep));
        assert(views(out@) =~= trimmed_lines(done));
        while i < v.len()
            invariant
                i <= v.len(),
                sep == (|c: char| line_end(c)),
                pieces(v@.take(i as int), sep) == done.push(current@),
                views(out@) == trimmed_lines(done),
            decreases v.len() - i,
        {
            let c = v[i];
            let ghost before = pieces(v@.take(i as int), sep);
            let ghost old_current = current@;
            assert(v@.take(i + 1).drop_last() =~= v@.take(i as int));
            assert(v@.take(i + 1).last() == c);
            if c == '\n' {
                let line = trim(string_of(&current).as_str());
                assert(done.push(old_current).drop_last() =~= done);
                if line.as_str().unicode_len() > 0 {
                    push_text(&mut out, line.as_str());
                }
                proof {
                    done = done.push(old_current);
                }
                current = Vec::new();
                assert(done.push(current@) =~= before.push(Seq::empty()));
            } else {
                current.push(c);
                assert(before.drop_last() =~= done);
                assert(done.push(current@) =~= before.drop_last().push(before.last().push(c)));
            }
            i += 1;
        }
        assert(v@.take(v@.len() as int) =~= v@);
        let line = trim(string_of(&current).as_str());
        assert(done.push(current@).drop_last() =~= done);
        if line.as_str().unicode_len() > 0 {
            push_text(&mut out, line.as_str());
        }
        ImportQuality {
            layout: self.layout,
            header_row: self.header_row,
            source_columns: self.source_columns,
            recognized_columns: self.recognized_columns,
            extra_columns: self.extra_columns,
            non_empty_cells: self.non_empty_cells,
            empty_cells: self.empty_cells,
            warnings: out,
        }
    }
}

/// One finished import as it is written to the log.
#[derive(Clone, Copy, Debug)]
pub struct ImportLogWrite<'a> {
    pub file_name: &'a str,
    pub total_rows: u64,
    pub imported: u64,
    pub duplicates: u64,
    pub seconds: Real,
    pub file_hash: Option<&'a str>,
    pub quality: &'a ImportQuality,
}

} // verus!
