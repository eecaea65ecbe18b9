//! What opening a database is doing, and how it is told across processes.
use vstd::prelude::*;
use vstd::string::*;

use crate::number::{
    all_digits, decimal, decimal_reads_back, parse_unsigned, push_decimal, read_unsigned,
    unsigned_round_trip,
};
use crate::text::{
    begins, chars_of, chars_stand_at, chars_views, is_digit, is_space, is_word, last_word,
    only_word, same, split_words, stretch, string_of, trim, trimmed, trimmed_is_fixed, words,
};

verus! {

/// What opening a database is doing right now.
///
/// Opening is usually instant, but a database carried over from an older
/// version is rebuilt on the first open: backed up, verified, copied, its row
/// fingerprints and typed columns recomputed. On a multi-gigabyte database that
/// is minutes of work, and every phase below is a thing the person can be told.
#[derive(Clone, Copy, Debug, PartialEq, Eq, Structural)]
pub enum StartupPhase {
    CheckingVersion,
    CheckingFreeSpace,
    CreatingBackup,
    VerifyingBackup,
    UpgradingStructure,
    RebuildingFingerprints { done: u64, total: u64 },
    ComputingTypedColumns { done: u64, total: u64 },
    VerifyingUpgrade,
}

/// The name of a phase on the wire.
pub open spec fn phase_name(phase: StartupPhase) -> Seq<char> {
    match phase {
        StartupPhase::CheckingVersion => "checking_version"@,
        StartupPhase::CheckingFreeSpace => "checking_free_space"@,
        StartupPhase::CreatingBackup => "creating_backup"@,
        StartupPhase::VerifyingBackup => "verifying_backup"@,
        StartupPhase::UpgradingStructure => "upgrading_structure"@,
        StartupPhase::RebuildingFingerprints { .. } => "rebuilding_fingerprints"@,
        StartupPhase::ComputingTypedColumns { .. } => "computing_typed_columns"@,
        StartupPhase::VerifyingUpgrade => "verifying_upgrade"@,
    }
}

/// The phase that a name and its counts stand for.
pub open spec fn named_phase(name: Seq<char>, done: u64, total: u64) -> Option<StartupPhase> {
    if name == "checking_version"@ {
        Some(StartupPhase::CheckingVersion)
    } else if name == "checking_free_space"@ {
        Some(StartupPhase::CheckingFreeSpace)
    } else if name == "creating_backup"@ {
        Some(StartupPhase::CreatingBackup)
    } else if name == "verifying_backup"@ {
        Some(StartupPhase::VerifyingBackup)
    } else if name == "upgrading_structure"@ {
        Some(StartupPhase::UpgradingStructure)
    } else if name == "rebuilding_fingerprints"@ {
        Some(StartupPhase::RebuildingFingerprints { done, total })
    } else if name == "computing_typed_columns"@ {
        Some(StartupPhase::ComputingTypedColumns { done, total })
    } else if name == "verifying_upgrade"@ {
        Some(StartupPhase::VerifyingUpgrade)
    } else {
        None
    }
}

/// The counts of a phase.
pub open spec fn phase_progress(phase: StartupPhase) -> Option<(u64, u64)> {
    match phase {
        StartupPhase::RebuildingFingerprints { done, total } => Some((done, total)),
        StartupPhase::ComputingTypedColumns { done, total } => Some((done, total)),
        _ => None,
    }
}

/// The counts that a phase sends: zeros where it has none.
pub open spec fn sent_counts(phase: StartupPhase) -> (u64, u64) {
    match phase_progress(phase) {
        Some(counts) => counts,
        None => (0u64, 0u64),
    }
}

/// The line that a phase is sent as.
pub open spec fn phase_line(phase: StartupPhase) -> Seq<char> {
    "[base-search] phase "@ + phase_name(phase) + seq![' '] + decimal(sent_counts(phase).0 as nat)
        + seq![' '] + decimal(sent_counts(phase).1 as nat)
}

/// The phase that a line tells of.
pub open spec fn read_phase(line: Seq<char>) -> Option<StartupPhase> {
    let start = "[base-search] phase "@;
    let bare = trimmed(line);
    let parts = words(bare.skip(start.len() as int));
    if begins(bare, start) && parts.len() >= 3 {
        match (read_unsigned(parts[1], u64::MAX as nat), read_unsigned(parts[2], u64::MAX as nat)) {
            (Some(done), Some(total)) => named_phase(parts[0], done as u64, total as u64),
            _ => None,
        }
    } else {
        None
    }
}

impl StartupPhase {
    /// Stable name for crossing a process boundary.
    ///
    /// The browser workspace runs the database in a child process, so the only
    /// way this reaches the window is through that child's output. Sending a
    /// name rather than a sentence is what lets the launcher show it in the
    /// reader's language and draw a real progress bar.
    pub fn wire_name(&self) -> (r: &'static str)
        ensures
            r@ == phase_name(*self),
    {
        match self {
            StartupPhase::CheckingVersion => "checking_version",
            StartupPhase::CheckingFreeSpace => "checking_free_space",
            StartupPhase::CreatingBackup => "creating_backup",
            StartupPhase::VerifyingBackup => "verifying_backup",
            StartupPhase::UpgradingStructure => "upgrading_structure",
            StartupPhase::RebuildingFingerprints { .. } => "rebuilding_fingerprints",
            StartupPhase::ComputingTypedColumns { .. } => "computing_typed_columns",
            StartupPhase::VerifyingUpgrade => "verifying_upgrade",
        }
    }

    /// Rebuilds a phase from [`StartupPhase::wire_name`] and its counts.
    pub fn from_wire(name: &str, done: u64, total: u64) -> (r: Option<StartupPhase>)
        ensures
            r == named_phase(name@, done, total),
    {
        if same(name, "checking_version") {
            Some(StartupPhase::CheckingVersion)
        } else if same(name, "checking_free_space") {
            Some(StartupPhase::CheckingFreeSpace)
        } else if same(name, "creating_backup") {
            Some(StartupPhase::CreatingBackup)
        } else if same(name, "verifying_backup") {
            Some(StartupPhase::VerifyingBackup)
        } else if same(name, "upgrading_structure") {
            Some(StartupPhase::UpgradingStructure)
        } else if same(name, "rebuilding_fingerprints") {
            Some(StartupPhase::RebuildingFingerprints { done, total })
        } else if same(name, "computing_typed_columns") {
            Some(StartupPhase::ComputingTypedColumns { done, total })
        } else if same(name, "verifying_upgrade") {
            Some(StartupPhase::VerifyingUpgrade)
        } else {
            None
        }
    }

    /// The line a child process prints for the launcher to read.
    pub fn wire_line(&self) -> (r: String)
        ensures
            r@ == phase_line(*self),
    {
        let (done, total) = match self.progress() {
            Some(counts) => counts,
            None => (0, 0),
        };
        let mut out = String::from_str("[base-search] phase ");
        out.append(self.wire_name());
        out.push(' ');
        push_decimal(&mut out, done);
        out.push(' ');
        push_decimal(&mut out, total);
        assert(out@ =~= phase_line(*self));
        out
    }

    /// Reads back a line written by [`StartupPhase::wire_line`].
    pub fn parse_wire_line(line: &str) -> (r: Option<StartupPhase>)
        ensures
            r == read_phase(line@),
    {
        let bare = trim(line);
        let chars = chars_of(bare.as_str());
        let start = chars_of("[base-search] phase ");
        if !chars_stand_at(&chars, &start, 0) {
            return None;
        }
        let rest = stretch(&chars, start.len(), chars.len());
        assert(rest@ =~= bare@.skip(start@.len() as int));
        let parts = split_words(string_of(&rest).as_str());
        let ghost texts = words(rest@);
        assert(chars_views(parts@) == texts);
        assert(parts@.len() == texts.len());
        if parts.len() < 3 {
            return None;
        }
        assert(parts@[0]@ == texts[0] && parts@[1]@ == texts[1] && parts@[2]@ == texts[2]);
        let done = parse_unsigned(string_of(&parts[1]).as_str(), u64::MAX);
        let total = parse_unsigned(string_of(&parts[2]).as_str(), u64::MAX);
        match (done, total) {
            (Some(done), Some(total)) => StartupPhase::from_wire(
                string_of(&parts[0]).as_str(),
                done,
                total,
            ),
            _ => None,
        }
    }

    /// Progress within the phase, when it has any. `None` means the phase
    /// cannot say how far along it is and the bar stays indeterminate.
    pub fn progress(&self) -> (r: Option<(u64, u64)>)
        ensures
            r == phase_progress(*self),
    {
        match *self {
            StartupPhase::RebuildingFingerprints { done, total } => Some((done, total)),
            StartupPhase::ComputingTypedColumns { done, total } => Some((done, total)),
            _ => None,
        }
    }

    /// True once the open is doing upgrade work rather than the instant check
    /// every start performs. `CheckingFreeSpace` counts: it is only reached when
    /// an upgrade is going ahead.
    pub fn is_upgrade(&self) -> (r: bool)
        ensures
            r == !(*self is CheckingVersion),
    {
        !matches!(self, StartupPhase::CheckingVersion)
    }
}

/// The names on the wire are words.
proof fn names_are_words(phase: StartupPhase)
    ensures
        is_word(phase_name(phase)),
{
    reveal_strlit("checking_version");
    reveal_strlit("checking_free_space");
    reveal_strlit("creating_backup");
    reveal_strlit("verifying_backup");
    reveal_strlit("upgrading_structure");
    reveal_strlit("rebuilding_fingerprints");
    reveal_strlit("computing_typed_columns");
    reveal_strlit("verifying_upgrade");
}

/// A phase is told by its name and its counts, so no two names are the same.
pub proof fn name_tells_the_phase(phase: StartupPhase)
    ensures
        named_phase(phase_name(phase), sent_counts(phase).0, sent_counts(phase).1) == Some(phase),
{
    reveal_strlit("checking_version");
    reveal_strlit("checking_free_space");
    reveal_strlit("creating_backup");
    reveal_strlit("verifying_backup");
    reveal_strlit("upgrading_structure");
    reveal_strlit("rebuilding_fingerprints");
    reveal_strlit("computing_typed_columns");
    reveal_strlit("verifying_upgrade");
    assert("checking_version"@.len() == 16 && "verifying_backup"@.len() == 16);
    assert("checking_free_space"@.len() == 19 && "upgrading_structure"@.len() == 19);
    assert("rebuilding_fingerprints"@.len() == 23 && "computing_typed_columns"@.len() == 23);
    assert("creating_backup"@.len() == 15 && "verifying_upgrade"@.len() == 17);
    assert("checking_version"@[0] == 'c');
    assert("verifying_backup"@[0] == 'v');
    assert("checking_free_space"@[0] == 'c');
    assert("upgrading_structure"@[0] == 'u');
    assert("rebuilding_fingerprints"@[0] == 'r');
    assert("computing_typed_columns"@[0] == 'c');
}

/// Every phase survives the trip between two processes: reading its line gives
/// it back.
pub proof fn phase_round_trip(phase: StartupPhase)
    ensures
        read_phase(phase_line(phase)) == Some(phase),
{
    let start = "[base-search] phase "@;
    let name = phase_name(phase);
    let done = decimal(sent_counts(phase).0 as nat);
    let total = decimal(sent_counts(phase).1 as nat);
    let line = phase_line(phase);
    reveal_strlit("[base-search] phase ");
    decimal_reads_back(sent_counts(phase).0 as nat);
    decimal_reads_back(sent_counts(phase).1 as nat);
    names_are_words(phase);
    assert forall|s: Seq<char>| all_digits(s) implies is_word(s) by {
        assert forall|i: int| 0 <= i < s.len() implies !is_space(#[trigger] s[i]) by {
            assert(is_digit(s[i]));
        }
    }
    assert(is_word(done));
    assert(is_word(total));
    assert(line.last() == total.last());
    assert(is_digit(total[total.len() - 1]));
    assert(line[0] == start[0]);
    trimmed_is_fixed(line);
    let rest = name + seq![' '] + done + seq![' '] + total;
    assert(line.skip(start.len() as int) =~= rest);
    assert(line.subrange(0, start.len() as int) =~= start);
    only_word(name);
    last_word(name, ' ', done);
    last_word(name + seq![' '] + done, ' ', total);
    assert(words(rest) =~= seq![name, done, total]);
    unsigned_round_trip(sent_counts(phase).0 as nat, u64::MAX as nat);
    unsigned_round_trip(sent_counts(phase).1 as nat, u64::MAX as nat);
    name_tells_the_phase(phase);
}

/// Each phase goes by its own name, and only the phases that count something have
/// progress: theirs.
pub proof fn each_phase_has_its_name_and_progress(done: u64, total: u64)
    ensures
        phase_name(StartupPhase::CheckingVersion) == "checking_version"@,
        phase_name(StartupPhase::CheckingFreeSpace) == "checking_free_space"@,
        phase_name(StartupPhase::CreatingBackup) == "creating_backup"@,
        phase_name(StartupPhase::VerifyingBackup) == "verifying_backup"@,
        phase_name(StartupPhase::UpgradingStructure) == "upgrading_structure"@,
        phase_name(StartupPhase::RebuildingFingerprints { done, total })
            == "rebuilding_fingerprints"@,
        phase_name(StartupPhase::ComputingTypedColumns { done, total })
            == "computing_typed_columns"@,
        phase_name(StartupPhase::VerifyingUpgrade) == "verifying_upgrade"@,
        phase_progress(StartupPhase::RebuildingFingerprints { done, total }) == Some((done, total)),
        phase_progress(StartupPhase::ComputingTypedColumns { done, total }) == Some((done, total)),
        phase_progress(StartupPhase::CheckingVersion) is None,
        phase_progress(StartupPhase::CheckingFreeSpace) is None,
        phase_progress(StartupPhase::CreatingBackup) is None,
        phase_progress(StartupPhase::VerifyingBackup) is None,
        phase_progress(StartupPhase::UpgradingStructure) is None,
        phase_progress(StartupPhase::VerifyingUpgrade) is None,
{
}

} // verus!
