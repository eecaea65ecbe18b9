//! Building a projection beside the one in use, and putting it in its place.
use vstd::prelude::*;
use vstd::string::*;

use crate::analytics::Real;
use crate::calendar::{is_moment_text, moment_text};
use crate::digest::{hex_bytes, sha256_of};
use crate::number::{decimal, decimal_text};
use crate::olap::contract::{
    rollup_bytes, rollup_contract_fingerprint, SourceContract, PROJECTION_SCHEMA_VERSION,
    ROLLUP_RULES_VERSION, ROLLUP_SCHEMA_VERSION,
};
use crate::olap::measures::{count_of, read_count};
use crate::olap::meta::{
    entry_views, meta_of, record_reads_back, write_projection_meta, written, MetaEntry, MetaModel,
};
use crate::paths::{FilePath, PathModel};

verus! {

/// The projection that belongs to a database file.
pub fn default_projection_path(sqlite_path: &FilePath) -> (r: FilePath)
    ensures
        r@ == sqlite_path@.with_extension("duckdb"@),
{
    sqlite_path.with_extension("duckdb")
}

/// The name of a projection's file.
pub open spec fn projection_name(path: PathModel) -> Seq<char> {
    match path.file_name() {
        Some(name) => name,
        None => "projection.duckdb"@,
    }
}

/// The name of a projection's file.
fn name_of(path: &FilePath) -> (r: String)
    ensures
        r@ == projection_name(path@),
{
    match path.file_name() {
        Some(name) => String::from_str(name),
        None => String::from_str("projection.duckdb"),
    }
}

/// Where a projection is built before it is put in its place: beside it, under
/// a name that no other process and no other build has.
pub fn temporary_projection_path(path: &FilePath, label: &str, process: u32, sequence: u64) -> (r:
    FilePath)
    ensures
        r@ == path@.with_file_name(
            projection_name(path@) + "."@ + label@ + "."@ + decimal(process as nat) + "."@
                + decimal(sequence as nat) + ".tmp"@,
        ),
{
    let mut name = name_of(path);
    name.append(".");
    name.append(label);
    name.append(".");
    name.append(decimal_text(process as u64).as_str());
    name.append(".");
    name.append(decimal_text(sequence).as_str());
    name.append(".tmp");
    path.with_file_name(name.as_str())
}

/// Where the projection in use is kept while another takes its place.
pub fn backup_path(destination: &FilePath, label: &str) -> (r: FilePath)
    ensures
        r@ == destination@.with_file_name(
            projection_name(destination@) + "."@ + label@ + ".backup"@,
        ),
{
    let mut name = name_of(destination);
    name.append(".");
    name.append(label);
    name.append(".backup");
    destination.with_file_name(name.as_str())
}

/// A step of putting a file in the place of another.
#[derive(Clone, Debug)]
pub enum ReplaceStep {
    /// A backup that was left behind is removed.
    RemoveBackup,
    /// Whether there is a file in the place is looked up.
    Look,
    /// The file in the place is moved to the backup.
    MoveAside,
    /// The new file is moved to the place.
    Install { had: bool },
    /// The backup is removed; whether that works does not matter.
    DropBackup,
    /// The backup is moved back to the place.
    Restore { reason: String },
    Done,
    Failed(String),
}

/// The first step.
pub fn start_replace(backup_exists: bool) -> (r: ReplaceStep)
    ensures
        r == (if backup_exists {
            ReplaceStep::RemoveBackup
        } else {
            ReplaceStep::Look
        }),
{
    if backup_exists {
        ReplaceStep::RemoveBackup
    } else {
        ReplaceStep::Look
    }
}

/// That the new file could not be put in its place.
pub open spec fn not_installed(destination: Seq<char>, reason: Seq<char>) -> Seq<char> {
    "Could not install DuckDB projection "@ + destination + ": "@ + reason
}

/// Which step comes after a step, whether it worked or not. Looking works, and
/// tells whether there is a file.
pub open spec fn follows(
    step: ReplaceStep,
    outcome: Result<bool, String>,
    destination: Seq<char>,
    backup: Seq<char>,
    next: ReplaceStep,
) -> bool {
    match step {
        ReplaceStep::RemoveBackup => match outcome {
            Ok(_) => next is Look,
            Err(e) => next is Failed && next->Failed_0@ == "Could not remove stale backup "@
                + backup + ": "@ + e@,
        },
        ReplaceStep::Look => match outcome {
            Ok(true) => next is MoveAside,
            _ => next == (ReplaceStep::Install { had: false }),
        },
        ReplaceStep::MoveAside => match outcome {
            Ok(_) => next == (ReplaceStep::Install { had: true }),
            Err(e) => next is Failed && next->Failed_0@
                == "Could not move existing projection "@ + destination + " to backup "@ + backup
                + ": "@ + e@,
        },
        ReplaceStep::Install { had } => match outcome {
            Ok(_) => if had {
                next is DropBackup
            } else {
                next is Done
            },
            Err(e) => if had {
                next == (ReplaceStep::Restore { reason: e })
            } else {
                next is Failed && next->Failed_0@ == not_installed(destination, e@)
            },
        },
        ReplaceStep::DropBackup => next is Done,
        ReplaceStep::Restore { reason } => match outcome {
            Ok(_) => next is Failed && next->Failed_0@ == not_installed(destination, reason@),
            Err(e) => next is Failed && next->Failed_0@ == not_installed(destination, reason@)
                + "; the previous projection could not be restored from "@ + backup + ": "@ + e@,
        },
        ReplaceStep::Done => next is Done,
        ReplaceStep::Failed(reason) => next == ReplaceStep::Failed(reason),
    }
}

/// Which step comes after a step.
pub fn replace_file_preserving_backup(
    step: ReplaceStep,
    outcome: Result<bool, String>,
    destination: &str,
    backup: &str,
) -> (r: ReplaceStep)
    ensures
        follows(step, outcome, destination@, backup@, r),
{
    match step {
        ReplaceStep::RemoveBackup => match outcome {
            Ok(_) => ReplaceStep::Look,
            Err(e) => {
                let mut message = String::from_str("Could not remove stale backup ");
                message.append(backup);
                message.append(": ");
                message.append(e.as_str());
                ReplaceStep::Failed(message)
            },
        },
        ReplaceStep::Look => match outcome {
            Ok(true) => ReplaceStep::MoveAside,
            _ => ReplaceStep::Install { had: false },
        },
        ReplaceStep::MoveAside => match outcome {
            Ok(_) => ReplaceStep::Install { had: true },
            Err(e) => {
                let mut message = String::from_str("Could not move existing projection ");
                message.append(destination);
                message.append(" to backup ");
                message.append(backup);
                message.append(": ");
                message.append(e.as_str());
                ReplaceStep::Failed(message)
            },
        },
        ReplaceStep::Install { had } => match outcome {
            Ok(_) => if had {
                ReplaceStep::DropBackup
            } else {
                ReplaceStep::Done
            },
            Err(e) => if had {
                ReplaceStep::Restore { reason: e }
            } else {
                ReplaceStep::Failed(install_problem(destination, e.as_str()))
            },
        },
        ReplaceStep::DropBackup => ReplaceStep::Done,
        ReplaceStep::Restore { reason } => match outcome {
            Ok(_) => ReplaceStep::Failed(install_problem(destination, reason.as_str())),
            Err(e) => {
                let mut message = install_problem(destination, reason.as_str());
                message.append("; the previous projection could not be restored from ");
                message.append(backup);
                message.append(": ");
                message.append(e.as_str());
                ReplaceStep::Failed(message)
            },
        },
        ReplaceStep::Done => ReplaceStep::Done,
        ReplaceStep::Failed(reason) => ReplaceStep::Failed(reason),
    }
}

/// That the new file could not be put in its place.
fn install_problem(destination: &str, reason: &str) -> (r: String)
    ensures
        r@ == not_installed(destination@, reason@),
{
    let mut message = String::from_str("Could not install DuckDB projection ");
    message.append(destination);
    message.append(": ");
    message.append(reason);
    message
}

/// What the three files hold.
pub ghost struct Files {
    pub new_file: Option<nat>,
    pub place: Option<nat>,
    pub backup: Option<nat>,
}

/// What a step does to the files. A move or a removal that fails changes nothing.
pub open spec fn performed(step: ReplaceStep, works: bool, files: Files) -> Files {
    if !works {
        files
    } else {
        match step {
            ReplaceStep::RemoveBackup | ReplaceStep::DropBackup => Files { backup: None, ..files },
            ReplaceStep::MoveAside => Files { backup: files.place, place: None, ..files },
            ReplaceStep::Install { .. } => Files { place: files.new_file, new_file: None, ..files },
            ReplaceStep::Restore { .. } => Files { place: files.backup, backup: None, ..files },
            _ => files,
        }
    }
}

/// Where the projection that was in use and the new one are before a step.
pub open spec fn kept(step: ReplaceStep, files: Files, old_one: Option<nat>, new_one: nat) -> bool {
    match step {
        ReplaceStep::RemoveBackup | ReplaceStep::Look | ReplaceStep::MoveAside => files.place
            == old_one && files.new_file == Some(new_one),
        ReplaceStep::Install { had } => files.new_file == Some(new_one) && files.place is None && (
        if had {
            files.backup == old_one
        } else {
            old_one is None
        }),
        ReplaceStep::DropBackup | ReplaceStep::Done => files.place == Some(new_one),
        ReplaceStep::Restore { .. } => files.backup == old_one,
        ReplaceStep::Failed(_) => files.place == old_one || files.backup == old_one,
    }
}

/// The projection in use is not lost: after every step it is still in its place,
/// or in the backup, or the new one is in the place. Looking tells the truth
/// about the place.
pub proof fn projection_is_not_lost(
    step: ReplaceStep,
    outcome: Result<bool, String>,
    destination: Seq<char>,
    backup: Seq<char>,
    next: ReplaceStep,
    files: Files,
    old_one: Option<nat>,
    new_one: nat,
)
    requires
        kept(step, files, old_one, new_one),
        follows(step, outcome, destination, backup, next),
        step is Look ==> outcome == Ok::<bool, String>(files.place is Some),
    ensures
        kept(next, performed(step, outcome is Ok, files), old_one, new_one),
{
}

/// Where putting the new file in its place fails and moving the old one back
/// works, the old one is in its place.
pub proof fn restored_projection_is_back(
    reason: String,
    files: Files,
    old_one: Option<nat>,
    new_one: nat,
)
    requires
        kept(ReplaceStep::Restore { reason }, files, old_one, new_one),
    ensures
        performed(ReplaceStep::Restore { reason }, true, files).place == old_one,
{
}

/// A step of building a projection and putting it in its place.
#[derive(Clone, Debug)]
pub enum BuildStep {
    /// A temporary file that was left behind is removed.
    ClearTemporary,
    /// The projection is built into the temporary file.
    Build,
    /// Whether the new projection is current is looked up.
    Validate,
    /// The projection in use is locked against readers.
    Lock,
    /// The temporary file is put in the place of the projection in use.
    Install,
    /// The temporary file is removed; whether that works does not matter.
    Discard { reason: String },
    Done,
    Failed(String),
}

/// The first step.
pub fn start_build(temporary_exists: bool) -> (r: BuildStep)
    ensures
        r == (if temporary_exists {
            BuildStep::ClearTemporary
        } else {
            BuildStep::Build
        }),
{
    if temporary_exists {
        BuildStep::ClearTemporary
    } else {
        BuildStep::Build
    }
}

/// Which step comes after a step, whether it worked or not. Validating tells
/// whether the new projection is current.
pub open spec fn build_follows(
    step: BuildStep,
    outcome: Result<bool, String>,
    temporary: Seq<char>,
    next: BuildStep,
) -> bool {
    match step {
        BuildStep::ClearTemporary => match outcome {
            Ok(_) => next is Build,
            Err(e) => next is Failed && next->Failed_0@
                == "Could not remove stale temporary DuckDB projection "@ + temporary + ": "@ + e@,
        },
        BuildStep::Build => match outcome {
            Ok(_) => next is Validate,
            Err(e) => next == (BuildStep::Discard { reason: e }),
        },
        BuildStep::Validate => match outcome {
            Ok(true) => next is Lock,
            Ok(false) => next is Discard && next->reason@
                == "SQLite changed while the DuckDB projection was being built; keeping the previous projection."@,
            Err(e) => next is Discard && next->reason@
                == "Could not validate the new DuckDB projection: "@ + e@,
        },
        BuildStep::Lock => match outcome {
            Ok(_) => next is Install,
            Err(_) => next is Failed && next->Failed_0@
                == "DuckDB projection access lock is poisoned."@,
        },
        BuildStep::Install => match outcome {
            Ok(_) => next is Done,
            Err(e) => next == (BuildStep::Discard { reason: e }),
        },
        BuildStep::Discard { reason } => next == BuildStep::Failed(reason),
        BuildStep::Done => next is Done,
        BuildStep::Failed(reason) => next == BuildStep::Failed(reason),
    }
}

/// Which step comes after a step.
pub fn build_projection_replacing(
    step: BuildStep,
    outcome: Result<bool, String>,
    temporary: &str,
) -> (r: BuildStep)
    ensures
        build_follows(step, outcome, temporary@, r),
{
    match step {
        BuildStep::ClearTemporary => match outcome {
            Ok(_) => BuildStep::Build,
            Err(e) => {
                let mut message = String::from_str(
                    "Could not remove stale temporary DuckDB projection ",
                );
                message.append(temporary);
                message.append(": ");
                message.append(e.as_str());
                BuildStep::Failed(message)
            },
        },
        BuildStep::Build => match outcome {
            Ok(_) => BuildStep::Validate,
            Err(e) => BuildStep::Discard { reason: e },
        },
        BuildStep::Validate => match outcome {
            Ok(true) => BuildStep::Lock,
            Ok(false) => BuildStep::Discard {
                reason: String::from_str(
                    "SQLite changed while the DuckDB projection was being built; keeping the previous projection.",
                ),
            },
            Err(e) => {
                let mut message = String::from_str(
                    "Could not validate the new DuckDB projection: ",
                );
                message.append(e.as_str());
                BuildStep::Discard { reason: message }
            },
        },
        BuildStep::Lock => match outcome {
            Ok(_) => BuildStep::Install,
            Err(_) => BuildStep::Failed(
                String::from_str("DuckDB projection access lock is poisoned."),
            ),
        },
        BuildStep::Install => match outcome {
            Ok(_) => BuildStep::Done,
            Err(e) => BuildStep::Discard { reason: e },
        },
        BuildStep::Discard { reason } => BuildStep::Failed(reason),
        BuildStep::Done => BuildStep::Done,
        BuildStep::Failed(reason) => BuildStep::Failed(reason),
    }
}

/// Only a projection that was found current is put in the place of the one in
/// use, and only while readers are locked out.
pub proof fn only_current_is_installed(
    step: BuildStep,
    outcome: Result<bool, String>,
    temporary: Seq<char>,
    next: BuildStep,
)
    requires
        build_follows(step, outcome, temporary, next),
    ensures
        next is Lock ==> step is Validate && outcome == Ok::<bool, String>(true),
        next is Install ==> step is Lock && outcome is Ok,
        next is Done ==> step is Done || (step is Install && outcome is Ok),
{
}

/// A stage of filling a new projection file from the database.
#[derive(Clone, Debug)]
pub enum FillStage {
    RemoveOld,
    OpenSource,
    InstallTracking,
    LockSource,
    PrepareGeneration,
    /// Whether preparing the generation changed what it had to.
    CheckGeneration,
    ReadContract,
    OpenProjection,
    PrepareSchema,
    /// Making the statement that reads the rows.
    SelectRows,
    /// Preparing that statement.
    PrepareRows,
    CopyRows,
    BuildRollups,
    WriteMeta,
    CloseProjection,
    Commit,
    Done,
    Failed(String),
}

/// The first stage.
pub fn start_fill(file_exists: bool) -> (r: FillStage)
    ensures
        r == (if file_exists {
            FillStage::RemoveOld
        } else {
            FillStage::OpenSource
        }),
{
    if file_exists {
        FillStage::RemoveOld
    } else {
        FillStage::OpenSource
    }
}

/// What is said before the reason where a stage fails.
pub open spec fn fill_problem(stage: FillStage, file: Seq<char>) -> Seq<char> {
    match stage {
        FillStage::RemoveOld => "Could not replace DuckDB projection "@ + file + ": "@,
        FillStage::InstallTracking => "Could not install SQLite projection tracking: "@,
        FillStage::LockSource => "Could not lock SQLite for projection build: "@,
        FillStage::PrepareGeneration => "Could not prepare the SQLite projection generation: "@,
        FillStage::PrepareRows => "Could not read projection columns from SQLite: "@,
        FillStage::Commit => "Could not finish the SQLite projection snapshot: "@,
        _ => ""@,
    }
}

/// The stage after one that worked.
pub open spec fn stage_after(stage: FillStage) -> FillStage {
    match stage {
        FillStage::RemoveOld => FillStage::OpenSource,
        FillStage::OpenSource => FillStage::InstallTracking,
        FillStage::InstallTracking => FillStage::LockSource,
        FillStage::LockSource => FillStage::PrepareGeneration,
        FillStage::PrepareGeneration => FillStage::CheckGeneration,
        FillStage::CheckGeneration => FillStage::ReadContract,
        FillStage::ReadContract => FillStage::OpenProjection,
        FillStage::OpenProjection => FillStage::PrepareSchema,
        FillStage::PrepareSchema => FillStage::SelectRows,
        FillStage::SelectRows => FillStage::PrepareRows,
        FillStage::PrepareRows => FillStage::CopyRows,
        FillStage::CopyRows => FillStage::BuildRollups,
        FillStage::BuildRollups => FillStage::WriteMeta,
        FillStage::WriteMeta => FillStage::CloseProjection,
        FillStage::CloseProjection => FillStage::Commit,
        FillStage::Commit => FillStage::Done,
        FillStage::Done => FillStage::Done,
        FillStage::Failed(reason) => FillStage::Failed(reason),
    }
}

/// The stage after a stage, whether it worked or not.
pub fn build_projection_file(stage: FillStage, outcome: Result<(), String>, file: &str) -> (r:
    FillStage)
    ensures
        match stage {
            FillStage::Done => r is Done,
            FillStage::Failed(reason) => r == stage,
            _ => match outcome {
                Ok(_) => r == stage_after(stage),
                Err(e) => r is Failed && r->Failed_0@ == fill_problem(stage, file@) + e@,
            },
        },
{
    let reason = match outcome {
        Ok(_) => {
            return match stage {
                FillStage::RemoveOld => FillStage::OpenSource,
                FillStage::OpenSource => FillStage::InstallTracking,
                FillStage::InstallTracking => FillStage::LockSource,
                FillStage::LockSource => FillStage::PrepareGeneration,
                FillStage::PrepareGeneration => FillStage::CheckGeneration,
                FillStage::CheckGeneration => FillStage::ReadContract,
                FillStage::ReadContract => FillStage::OpenProjection,
                FillStage::OpenProjection => FillStage::PrepareSchema,
                FillStage::PrepareSchema => FillStage::SelectRows,
                FillStage::SelectRows => FillStage::PrepareRows,
                FillStage::PrepareRows => FillStage::CopyRows,
                FillStage::CopyRows => FillStage::BuildRollups,
                FillStage::BuildRollups => FillStage::WriteMeta,
                FillStage::WriteMeta => FillStage::CloseProjection,
                FillStage::CloseProjection => FillStage::Commit,
                FillStage::Commit => FillStage::Done,
                FillStage::Done => FillStage::Done,
                FillStage::Failed(reason) => FillStage::Failed(reason),
            };
        },
        Err(e) => e,
    };
    let mut message = match stage {
        FillStage::RemoveOld => {
            let mut m = String::from_str("Could not replace DuckDB projection ");
            m.append(file);
            m.append(": ");
            m
        },
        FillStage::InstallTracking => String::from_str(
            "Could not install SQLite projection tracking: ",
        ),
        FillStage::LockSource => String::from_str("Could not lock SQLite for projection build: "),
        FillStage::PrepareGeneration => String::from_str(
            "Could not prepare the SQLite projection generation: ",
        ),
        FillStage::PrepareRows => String::from_str(
            "Could not read projection columns from SQLite: ",
        ),
        FillStage::Commit => String::from_str("Could not finish the SQLite projection snapshot: "),
        FillStage::Done => {
            return FillStage::Done;
        },
        FillStage::Failed(reason) => {
            return FillStage::Failed(reason);
        },
        _ => String::from_str(""),
    };
    message.append(reason.as_str());
    FillStage::Failed(message)
}

/// The rows copied so far, and the greatest record among them.
#[derive(Clone, Copy, Debug, PartialEq, Eq, Structural)]
pub struct RowTally {
    pub rows: u64,
    pub max_record_id: u64,
}

/// The greatest record of some rows; a negative one counts as none.
pub open spec fn greatest(ids: Seq<i64>) -> u64
    decreases ids.len(),
{
    if ids.len() == 0 {
        0
    } else {
        let rest = greatest(ids.drop_last());
        let id = count_of(ids.last());
        if rest < id {
            id
        } else {
            rest
        }
    }
}

impl RowTally {
    /// The tally of some rows, by their records.
    pub open spec fn of(self, ids: Seq<i64>) -> bool {
        self.rows == ids.len() && self.max_record_id == greatest(ids)
    }

    /// No row yet.
    pub fn new() -> (r: RowTally)
        ensures
            r.of(Seq::empty()),
    {
        RowTally { rows: 0, max_record_id: 0 }
    }

    /// One more row.
    pub fn note(self, id: i64) -> (r: RowTally)
        requires
            self.rows < u64::MAX,
        ensures
            forall|ids: Seq<i64>| #[trigger] self.of(ids) ==> r.of(ids.push(id)),
    {
        let counted = read_count(id);
        let r = RowTally {
            rows: self.rows + 1,
            max_record_id: if self.max_record_id < counted {
                counted
            } else {
                self.max_record_id
            },
        };
        assert forall|ids: Seq<i64>| #[trigger] self.of(ids) implies r.of(ids.push(id)) by {
            assert(ids.push(id).drop_last() =~= ids);
        }
        r
    }
}

/// A projection that was built.
#[derive(Clone, Debug)]
pub struct DuckProjectionBuild {
    pub projection_path: FilePath,
    pub rows: u64,
    pub max_record_id: u64,
    pub schema_version: String,
    pub source_generation: String,
    pub source_fingerprint: String,
    pub rollup_schema_version: String,
    pub rollup_rules_version: String,
    pub rollup_fingerprint: String,
    pub built_at: String,
    pub elapsed_ms: Real,
}

/// What a projection is built from, and when.
#[derive(Clone, Debug)]
pub struct BuildRecord {
    pub source_sqlite: String,
    pub tally: RowTally,
    pub contract: SourceContract,
    pub built_at: String,
}

impl BuildRecord {
    /// The entries that the projection records.
    pub open spec fn recorded(self) -> Seq<(Seq<char>, Seq<char>)> {
        written(
            self.source_sqlite@,
            self.tally.rows as nat,
            self.tally.max_record_id as nat,
            self.contract.generation@,
            self.contract.fingerprint@,
            self.built_at@,
        )
    }

    /// A build at a moment, by the seconds and nanoseconds since the beginning of
    /// 1970.
    pub fn new(
        source_sqlite: String,
        tally: RowTally,
        contract: SourceContract,
        secs: i64,
        nanos: u32,
    ) -> (r: Self)
        requires
            0 <= secs <= 8_000_000_000_000,
            nanos < 1_000_000_000,
        ensures
            r.source_sqlite == source_sqlite,
            r.tally == tally,
            r.contract == contract,
            is_moment_text(secs as int, nanos as nat, r.built_at@),
            r.built_at@.len() > 0,
    {
        BuildRecord { source_sqlite, tally, contract, built_at: moment_text(secs, nanos) }
    }

    /// The entries that the projection records.
    pub fn entries(&self) -> (r: Vec<MetaEntry>)
        ensures
            entry_views(r@) == self.recorded(),
    {
        write_projection_meta(
            self.source_sqlite.as_str(),
            self.tally.rows,
            self.tally.max_record_id,
            &self.contract,
            self.built_at.as_str(),
        )
    }
}

/// A projection tells what it was built from.
pub open spec fn tells(build: DuckProjectionBuild, record: BuildRecord) -> bool {
    &&& build.rows == record.tally.rows
    &&& build.max_record_id == record.tally.max_record_id
    &&& build.schema_version@ == PROJECTION_SCHEMA_VERSION@
    &&& build.source_generation == record.contract.generation
    &&& build.source_fingerprint == record.contract.fingerprint
    &&& build.rollup_schema_version@ == ROLLUP_SCHEMA_VERSION@
    &&& build.rollup_rules_version@ == ROLLUP_RULES_VERSION@
    &&& build.rollup_fingerprint@ == hex_bytes(sha256_of(rollup_bytes()))
    &&& build.built_at == record.built_at
}

/// What is said of a projection that was built.
pub fn built_projection(projection_path: FilePath, record: BuildRecord, elapsed_ms: Real) -> (r:
    DuckProjectionBuild)
    ensures
        tells(r, record),
        r.projection_path == projection_path,
        r.elapsed_ms == elapsed_ms,
{
    DuckProjectionBuild {
        projection_path,
        rows: record.tally.rows,
        max_record_id: record.tally.max_record_id,
        schema_version: String::from_str(PROJECTION_SCHEMA_VERSION),
        source_generation: record.contract.generation,
        source_fingerprint: record.contract.fingerprint,
        rollup_schema_version: String::from_str(ROLLUP_SCHEMA_VERSION),
        rollup_rules_version: String::from_str(ROLLUP_RULES_VERSION),
        rollup_fingerprint: rollup_contract_fingerprint(),
        built_at: record.built_at,
        elapsed_ms,
    }
}

/// The record of a build reads back as that build: what `BuildRecord::entries`
/// gives is read as the counts, versions, identity and time that
/// `built_projection` tells, and the time is that of a moment.
pub proof fn build_reads_back(
    record: BuildRecord,
    build: DuckProjectionBuild,
    secs: int,
    nanos: nat,
    missing: Seq<char>,
)
    requires
        tells(build, record),
        is_moment_text(secs, nanos, record.built_at@),
    ensures
        meta_of(record.recorded(), missing) == Ok::<MetaModel, Seq<char>>(
            MetaModel {
                source_sqlite: record.source_sqlite@,
                rows: build.rows as nat,
                max_record_id: build.max_record_id as nat,
                schema_version: "8"@,
                source_generation: build.source_generation@,
                source_fingerprint: build.source_fingerprint@,
                rollup_schema_version: "3"@,
                rollup_rules_version: "2"@,
                rollup_fingerprint: hex_bytes(sha256_of(rollup_bytes())),
                built_at: build.built_at@,
            },
        ),
        build.rollup_fingerprint@ == hex_bytes(sha256_of(rollup_bytes())),
        build.built_at@.len() > 0,
{
    reveal_strlit("+00:00");
    record_reads_back(
        record.source_sqlite@,
        record.tally.rows as nat,
        record.tally.max_record_id as nat,
        record.contract.generation@,
        record.contract.fingerprint@,
        record.built_at@,
        missing,
    );
}

} // verus!
