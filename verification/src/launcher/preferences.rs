//! What the launcher remembers between starts.
use vstd::prelude::*;
use vstd::string::*;

use crate::launcher::network::WorkspaceMode;
use crate::number::{decimal, decimal_text};
use crate::paths::{FilePath, PathModel};

verus! {

/// The layout of the remembered preferences.
pub const LAUNCHER_PREFERENCES_VERSION: u8 = 1;

/// What the launcher remembers. No name and no password is among it.
#[derive(Clone, Copy, Debug, PartialEq, Eq, Structural)]
pub struct LauncherPreferences {
    pub version: u8,
    pub mode: WorkspaceMode,
    pub preferred_port: u16,
}

impl LauncherPreferences {
    /// Preferences that can be used.
    pub open spec fn valid(self) -> bool {
        self.version == LAUNCHER_PREFERENCES_VERSION && self.preferred_port != 0
    }

    /// The preferences of a first start.
    pub fn defaults(preferred_port: u16) -> (r: Self)
        ensures
            r == (LauncherPreferences {
                version: LAUNCHER_PREFERENCES_VERSION,
                mode: WorkspaceMode::Personal,
                preferred_port,
            }),
    {
        LauncherPreferences {
            version: LAUNCHER_PREFERENCES_VERSION,
            mode: WorkspaceMode::Personal,
            preferred_port,
        }
    }

    /// Whether the preferences can be used.
    pub fn is_valid(&self) -> (r: bool)
        ensures
            r == self.valid(),
    {
        self.version == LAUNCHER_PREFERENCES_VERSION && self.preferred_port != 0
    }
}

/// The name of a database's file, for a file beside it.
pub open spec fn database_name(path: PathModel) -> Seq<char> {
    match path.file_name() {
        Some(name) => if name.len() == 0 {
            "base_search.db"@
        } else {
            name
        },
        None => "base_search.db"@,
    }
}

/// Where the preferences are kept: beside the database that they are for.
pub fn launcher_preferences_path(db_path: &FilePath) -> (r: FilePath)
    ensures
        r@ == db_path@.with_file_name(database_name(db_path@) + ".launcher.json"@),
{
    let mut name = match db_path.file_name() {
        Some(name) => if name.unicode_len() == 0 {
            String::from_str("base_search.db")
        } else {
            String::from_str(name)
        },
        None => String::from_str("base_search.db"),
    };
    name.append(".launcher.json");
    db_path.with_file_name(name.as_str())
}

/// What reading the preferences gave.
#[derive(Clone, Debug)]
pub enum PreferencesRead {
    Missing,
    Unreadable(String),
    /// The file was read; it holds preferences, or something else.
    Read(Option<LauncherPreferences>),
}

/// The preferences to use, and what is said where they had to be put aside.
#[derive(Clone, Debug)]
pub struct LoadedLauncherPreferences {
    pub preferences: LauncherPreferences,
    pub warning: Option<String>,
}

/// The preferences to use: those that were read where they are valid, else the
/// defaults.
pub open spec fn preferences_to_use(read: PreferencesRead, default_port: u16) -> LauncherPreferences {
    match read {
        PreferencesRead::Read(Some(p)) if p.valid() => p,
        _ => LauncherPreferences {
            version: LAUNCHER_PREFERENCES_VERSION,
            mode: WorkspaceMode::Personal,
            preferred_port: default_port,
        },
    }
}

/// What is said where preferences had to be put aside.
pub open spec fn preferences_warning(read: PreferencesRead) -> Option<Seq<char>> {
    match read {
        PreferencesRead::Missing => None,
        PreferencesRead::Unreadable(e) => Some(
            "Launcher preferences could not be read and were ignored: "@ + e@,
        ),
        PreferencesRead::Read(Some(p)) if p.valid() => None,
        PreferencesRead::Read(_) => Some(
            "Launcher preferences are invalid and Personal defaults were restored."@,
        ),
    }
}

/// The preferences to use.
pub fn load_launcher_preferences(read: PreferencesRead, default_port: u16) -> (r:
    LoadedLauncherPreferences)
    ensures
        r.preferences == preferences_to_use(read, default_port),
        match r.warning {
            Some(w) => preferences_warning(read) == Some(w@),
            None => preferences_warning(read) is None,
        },
{
    let defaults = LauncherPreferences::defaults(default_port);
    match read {
        PreferencesRead::Missing => LoadedLauncherPreferences {
            preferences: defaults,
            warning: None,
        },
        PreferencesRead::Unreadable(e) => {
            let mut warning = String::from_str(
                "Launcher preferences could not be read and were ignored: ",
            );
            warning.append(e.as_str());
            LoadedLauncherPreferences { preferences: defaults, warning: Some(warning) }
        },
        PreferencesRead::Read(found) => {
            match found {
                Some(p) => if p.is_valid() {
                    return LoadedLauncherPreferences { preferences: p, warning: None };
                },
                None => {},
            }
            LoadedLauncherPreferences {
                preferences: defaults,
                warning: Some(
                    String::from_str(
                        "Launcher preferences are invalid and Personal defaults were restored.",
                    ),
                ),
            }
        },
    }
}

/// The name under which preferences are written before they take their place.
pub fn preferences_temp_name(path: &FilePath, process: u32, sequence: u64) -> (r: String)
    ensures
        r@ == "."@ + (match path@.file_name() {
            Some(name) => name,
            None => "launcher.json"@,
        }) + ".tmp-"@ + decimal(process as nat) + "-"@ + decimal(sequence as nat),
{
    let mut name = String::from_str(".");
    match path.file_name() {
        Some(n) => {
            name.append(n);
        },
        None => {
            name.append("launcher.json");
        },
    }
    name.append(".tmp-");
    name.append(decimal_text(process as u64).as_str());
    name.append("-");
    name.append(decimal_text(sequence).as_str());
    name
}

/// A step of saving the preferences.
#[derive(Clone, Debug)]
pub enum SaveStep {
    CreateFolder,
    Encode,
    /// The temporary file is created, written and flushed to the disk.
    Write,
    /// The temporary file takes the place of the preferences, in one step.
    Replace,
    /// The folder is flushed to the disk.
    SyncFolder,
    /// The temporary file is removed; whether that works does not matter.
    Discard { reason: String },
    Done,
    Failed(String),
}

/// The first step: preferences that cannot be used are not saved.
pub fn start_save(preferences: &LauncherPreferences) -> (r: SaveStep)
    ensures
        if preferences.valid() {
            r is CreateFolder
        } else {
            r is Failed && r->Failed_0@ == "launcher preferences are invalid"@
        },
{
    if preferences.is_valid() {
        SaveStep::CreateFolder
    } else {
        SaveStep::Failed(String::from_str("launcher preferences are invalid"))
    }
}

/// Which step comes after a step, whether it worked or not.
pub open spec fn save_follows(step: SaveStep, outcome: Result<(), String>, next: SaveStep) -> bool {
    match step {
        SaveStep::CreateFolder => match outcome {
            Ok(_) => next is Encode,
            Err(e) => next is Failed && next->Failed_0@
                == "cannot create launcher preferences folder: "@ + e@,
        },
        SaveStep::Encode => match outcome {
            Ok(_) => next is Write,
            Err(e) => next is Failed && next->Failed_0@ == "cannot encode launcher preferences: "@
                + e@,
        },
        SaveStep::Write => match outcome {
            Ok(_) => next is Replace,
            Err(e) => next is Discard && next->reason@ == "cannot save launcher preferences: "@
                + e@,
        },
        SaveStep::Replace => match outcome {
            Ok(_) => next is SyncFolder,
            Err(e) => next is Discard && next->reason@ == "cannot save launcher preferences: "@
                + e@,
        },
        SaveStep::SyncFolder => match outcome {
            Ok(_) => next is Done,
            Err(e) => next is Discard && next->reason@ == "cannot save launcher preferences: "@
                + e@,
        },
        SaveStep::Discard { reason } => next == SaveStep::Failed(reason),
        SaveStep::Done => next is Done,
        SaveStep::Failed(reason) => next == SaveStep::Failed(reason),
    }
}

/// A reason behind what could not be done.
fn because(what: &str, reason: &str) -> (r: String)
    ensures
        r@ == what@ + reason@,
{
    let mut message = String::from_str(what);
    message.append(reason);
    message
}

/// Which step comes after a step.
pub fn save_launcher_preferences(step: SaveStep, outcome: Result<(), String>) -> (r: SaveStep)
    ensures
        save_follows(step, outcome, r),
{
    match step {
        SaveStep::CreateFolder => match outcome {
            Ok(_) => SaveStep::Encode,
            Err(e) => SaveStep::Failed(
                because("cannot create launcher preferences folder: ", e.as_str()),
            ),
        },
        SaveStep::Encode => match outcome {
            Ok(_) => SaveStep::Write,
            Err(e) => SaveStep::Failed(because("cannot encode launcher preferences: ", e.as_str())),
        },
        SaveStep::Write => match outcome {
            Ok(_) => SaveStep::Replace,
            Err(e) => SaveStep::Discard {
                reason: because("cannot save launcher preferences: ", e.as_str()),
            },
        },
        SaveStep::Replace => match outcome {
            Ok(_) => SaveStep::SyncFolder,
            Err(e) => SaveStep::Discard {
                reason: because("cannot save launcher preferences: ", e.as_str()),
            },
        },
        SaveStep::SyncFolder => match outcome {
            Ok(_) => SaveStep::Done,
            Err(e) => SaveStep::Discard {
                reason: because("cannot save launcher preferences: ", e.as_str()),
            },
        },
        SaveStep::Discard { reason } => SaveStep::Failed(reason),
        SaveStep::Done => SaveStep::Done,
        SaveStep::Failed(reason) => SaveStep::Failed(reason),
    }
}

/// Whether a temporary file can be there before a step.
pub open spec fn may_have_temporary(step: SaveStep) -> bool {
    step is Write || step is Replace || step is Discard
}

/// Whether a temporary file can be there after a step. A write that fails can
/// leave one.
pub open spec fn temporary_after(step: SaveStep, works: bool, there: bool) -> bool {
    match step {
        SaveStep::Write => true,
        SaveStep::Replace => there && !works,
        SaveStep::Discard { .. } => there && !works,
        _ => there,
    }
}

/// No temporary file is left behind: where removing it works, none is there once
/// saving is over.
pub proof fn no_temporary_is_left(
    step: SaveStep,
    outcome: Result<(), String>,
    next: SaveStep,
    there: bool,
)
    requires
        save_follows(step, outcome, next),
        there ==> may_have_temporary(step),
        step is Discard ==> outcome is Ok,
    ensures
        temporary_after(step, outcome is Ok, there) ==> may_have_temporary(next),
{
}

/// Preferences that were saved are those that are used at the next start.
pub proof fn saved_preferences_are_used(preferences: LauncherPreferences, default_port: u16)
    requires
        preferences.valid(),
    ensures
        preferences_to_use(PreferencesRead::Read(Some(preferences)), default_port) == preferences,
        preferences_warning(PreferencesRead::Read(Some(preferences))) is None,
{
}

/// What is used is always valid, whatever was read, as long as the default port
/// is one.
pub proof fn used_preferences_are_valid(read: PreferencesRead, default_port: u16)
    requires
        default_port != 0,
    ensures
        preferences_to_use(read, default_port).valid(),
{
}

} // verus!
