//! The state of a launch, and how events change it.
use vstd::prelude::*;
use vstd::string::*;

use crate::launcher::network::{WorkspaceMode, WorkspaceUrls};
use crate::paths::FilePath;
use crate::text::{trim, trimmed, views};

verus! {

/// How far a launch is.
#[derive(Clone, Debug, PartialEq, Eq)]
pub enum LaunchStatus {
    Starting,
    Ready,
    Error(String),
    Stopped,
}

/// What happened to a launch.
#[derive(Clone, Debug, PartialEq, Eq)]
pub enum LaunchEvent {
    Prepared { urls: WorkspaceUrls },
    Progress(String),
    Output(String),
    Ready,
    Failed(String),
}

/// What is to be done about a launch.
#[derive(Clone, Debug, PartialEq, Eq)]
pub enum LaunchAction {
    OpenBrowser(String),
}

/// The state of a launch.
pub struct LauncherModel {
    pub db_path: FilePath,
    pub mode: WorkspaceMode,
    pub status: LaunchStatus,
    pub stage: String,
    pub open_on_ready: bool,
    pub generation: u64,
    pub local_url: Option<String>,
    pub lan_url: Option<String>,
    pub browser_opened: bool,
}

/// The number of the next launch. None has the number zero.
pub open spec fn next_generation(generation: u64) -> u64 {
    if generation == u64::MAX {
        1
    } else {
        (generation + 1) as u64
    }
}

/// The number of the next launch.
pub fn following_generation(generation: u64) -> (r: u64)
    ensures
        r == next_generation(generation),
        r != 0,
{
    if generation == u64::MAX {
        1
    } else {
        generation + 1
    }
}

/// Copies a text that may be missing.
fn copy_text(s: &Option<String>) -> (r: Option<String>)
    ensures
        r == *s,
{
    match s {
        Some(s) => Some(s.clone()),
        None => None,
    }
}

/// A workspace that runs, or is about to.
pub open spec fn is_running(status: LaunchStatus) -> bool {
    status is Starting || status is Ready
}

impl LauncherModel {
    /// A launch that has not begun.
    pub fn new(db_path: FilePath, open_on_ready: bool) -> (r: Self)
        ensures
            r.db_path == db_path,
            r.mode == WorkspaceMode::Personal,
            r.status is Stopped,
            r.stage@ == ""@,
            r.open_on_ready == open_on_ready,
            r.generation == 0,
            r.local_url is None,
            r.lan_url is None,
            !r.browser_opened,
    {
        LauncherModel {
            db_path,
            mode: WorkspaceMode::Personal,
            status: LaunchStatus::Stopped,
            stage: String::from_str(""),
            open_on_ready,
            generation: 0,
            local_url: None,
            lan_url: None,
            browser_opened: false,
        }
    }

    /// Begins a launch, under a number of its own.
    pub fn begin_start(&mut self) -> (r: u64)
        ensures
            r == final(self).generation,
            final(self).generation == next_generation(old(self).generation),
            final(self).status is Starting,
            final(self).stage@ == "Preparing the local workspace"@,
            final(self).local_url is None,
            final(self).lan_url is None,
            !final(self).browser_opened,
            final(self).db_path == old(self).db_path,
            final(self).mode == old(self).mode,
            final(self).open_on_ready == old(self).open_on_ready,
    {
        self.generation = following_generation(self.generation);
        self.status = LaunchStatus::Starting;
        self.stage = String::from_str("Preparing the local workspace");
        self.local_url = None;
        self.lan_url = None;
        self.browser_opened = false;
        self.generation
    }

    /// Changes how the workspace is run, unless it runs.
    pub fn set_mode(&mut self, mode: WorkspaceMode) -> (r: Result<(), String>)
        ensures
            r is Ok <==> !is_running(old(self).status),
            r is Err ==> r->Err_0@ == "Stop the workspace before changing its mode."@,
            *final(self) == (LauncherModel {
                mode: if r is Ok {
                    mode
                } else {
                    old(self).mode
                },
                ..*old(self)
            }),
    {
        if matches!(self.status, LaunchStatus::Starting | LaunchStatus::Ready) {
            return Err(String::from_str("Stop the workspace before changing its mode."));
        }
        self.mode = mode;
        Ok(())
    }

    /// How the workspace is run.
    pub fn mode(&self) -> (r: WorkspaceMode)
        ensures
            r == self.mode,
    {
        self.mode
    }

    /// Where the workspace is reached from this computer.
    pub fn local_url(&self) -> (r: Option<&str>)
        ensures
            match r {
                Some(url) => self.local_url is Some && url@ == self.local_url->0@,
                None => self.local_url is None,
            },
    {
        match &self.local_url {
            Some(url) => Some(url.as_str()),
            None => None,
        }
    }

    /// Where the workspace is reached from the network.
    pub fn lan_url(&self) -> (r: Option<&str>)
        ensures
            match r {
                Some(url) => self.lan_url is Some && url@ == self.lan_url->0@,
                None => self.lan_url is None,
            },
    {
        match &self.lan_url {
            Some(url) => Some(url.as_str()),
            None => None,
        }
    }

    /// How far the launch is.
    pub fn status(&self) -> (r: LaunchStatus)
        ensures
            r == self.status,
    {
        match &self.status {
            LaunchStatus::Starting => LaunchStatus::Starting,
            LaunchStatus::Ready => LaunchStatus::Ready,
            LaunchStatus::Error(e) => LaunchStatus::Error(e.clone()),
            LaunchStatus::Stopped => LaunchStatus::Stopped,
        }
    }

    /// What is said of how far the launch is.
    pub fn stage(&self) -> (r: &str)
        ensures
            r@ == self.stage@,
    {
        self.stage.as_str()
    }

    /// Ends a launch. What happens to it from now on comes too late: the state
    /// is that of another number.
    pub fn stop(&mut self) -> (r: u64)
        ensures
            r == final(self).generation,
            final(self).generation == next_generation(old(self).generation),
            final(self).status is Stopped,
            final(self).stage@ == "Local server stopped"@,
            final(self).local_url is None,
            final(self).lan_url is None,
            final(self).db_path == old(self).db_path,
            final(self).mode == old(self).mode,
            final(self).open_on_ready == old(self).open_on_ready,
            final(self).browser_opened == old(self).browser_opened,
    {
        self.generation = following_generation(self.generation);
        self.status = LaunchStatus::Stopped;
        self.stage = String::from_str("Local server stopped");
        self.local_url = None;
        self.lan_url = None;
        self.generation
    }

    /// Whether a readiness opens the browser.
    pub open spec fn opens_browser(self) -> bool {
        self.open_on_ready && !self.browser_opened && self.local_url is Some
    }

    /// What an event makes of a launch of the same number.
    pub open spec fn changed(self, event: LaunchEvent, next: Self) -> bool {
        match event {
            LaunchEvent::Prepared { urls } => {
                &&& next.stage@ == "Opening the database"@
                &&& next == (LauncherModel {
                    local_url: Some(urls.local),
                    lan_url: urls.lan,
                    stage: next.stage,
                    ..self
                })
            },
            LaunchEvent::Progress(stage) => next == (LauncherModel { stage, ..self }),
            LaunchEvent::Output(_) => next == self,
            LaunchEvent::Ready => {
                &&& next.stage@ == "Workspace ready"@
                &&& next == (LauncherModel {
                    status: LaunchStatus::Ready,
                    stage: next.stage,
                    browser_opened: self.browser_opened || self.opens_browser(),
                    ..self
                })
            },
            LaunchEvent::Failed(message) => next == (LauncherModel {
                status: LaunchStatus::Error(message),
                stage: message,
                local_url: None,
                lan_url: None,
                ..self
            }),
        }
    }

    /// Why a launch that was ready is over, if it is: its server is not running any
    /// more.
    pub fn lost_server(&self, running: bool) -> (r: Option<String>)
        ensures
            (r is Some) == (self.status is Ready && !running),
            r is Some ==> r->0@
                == "The local server stopped unexpectedly. Restart it to continue."@,
    {
        match &self.status {
            LaunchStatus::Ready => if running {
                None
            } else {
                Some(
                    String::from_str(
                        "The local server stopped unexpectedly. Restart it to continue.",
                    ),
                )
            },
            _ => None,
        }
    }

    /// The browser could not be opened: the address is left to the person.
    pub fn browser_failed(&mut self)
        ensures
            final(self).stage@ == "Workspace ready; open the URL below manually"@,
            *final(self) == (LauncherModel { stage: final(self).stage, ..*old(self) }),
    {
        self.stage = String::from_str("Workspace ready; open the URL below manually");
    }

    /// Takes note of an event. One of another launch is ignored. The first
    /// readiness opens the browser where that is wanted and there is an address.
    pub fn apply(&mut self, generation: u64, event: LaunchEvent) -> (r: Option<LaunchAction>)
        ensures
            if generation != old(self).generation {
                *final(self) == *old(self) && r is None
            } else {
                old(self).changed(event, *final(self))
            },
            r == (if generation == old(self).generation && event is Ready
                && old(self).opens_browser() {
                Some(LaunchAction::OpenBrowser(old(self).local_url->0))
            } else {
                None
            }),
    {
        if generation != self.generation {
            return None;
        }
        match event {
            LaunchEvent::Prepared { urls } => {
                self.local_url = Some(urls.local);
                self.lan_url = urls.lan;
                self.stage = String::from_str("Opening the database");
                None
            },
            LaunchEvent::Progress(stage) => {
                self.stage = stage;
                None
            },
            LaunchEvent::Output(_) => None,
            LaunchEvent::Ready => {
                self.status = LaunchStatus::Ready;
                self.stage = String::from_str("Workspace ready");
                if self.open_on_ready && !self.browser_opened {
                    match copy_text(&self.local_url) {
                        Some(url) => {
                            self.browser_opened = true;
                            Some(LaunchAction::OpenBrowser(url))
                        },
                        None => None,
                    }
                } else {
                    None
                }
            },
            LaunchEvent::Failed(message) => {
                self.stage = message.clone();
                self.status = LaunchStatus::Error(message);
                // A workspace that failed to start has no working URL; keeping
                // the last prepared one would show a dead link.
                self.local_url = None;
                self.lan_url = None;
                None
            },
        }
    }
}

/// The browser is opened once for a launch: after it was, no event of that
/// launch opens it again, and it stays noted that it was.
pub proof fn browser_opens_once(model: LauncherModel, event: LaunchEvent, next: LauncherModel)
    requires
        model.changed(event, next),
        model.browser_opened,
    ensures
        !model.opens_browser(),
        next.browser_opened,
        next.generation == model.generation,
{
}

/// The browser is opened only at an address of this computer's that the launch
/// was given, and only once the server is ready.
pub proof fn browser_opens_when_ready(model: LauncherModel, event: LaunchEvent, next: LauncherModel)
    requires
        model.changed(event, next),
        next.browser_opened,
        !model.browser_opened,
    ensures
        event is Ready,
        next.status is Ready,
        next.local_url is Some,
{
}

/// A launch that failed keeps no address, whatever it was told before.
pub proof fn failed_launch_has_no_url(model: LauncherModel, message: String, next: LauncherModel)
    requires
        model.changed(LaunchEvent::Failed(message), next),
    ensures
        next.local_url is None,
        next.lan_url is None,
        !is_running(next.status),
{
}

/// A new number differs from the old one, so nothing that happens to the old
/// launch reaches the new one.
pub proof fn numbers_move_on(generation: u64)
    ensures
        next_generation(generation) != generation,
        next_generation(generation) != 0,
{
}

/// How many lines of output are kept.
pub const MAX_LOG_LINES: usize = 80;

/// The last lines of a launch's output.
pub struct LaunchLog {
    pub lines: Vec<String>,
}

/// The lines with one more, without the oldest where there would be too many. A
/// blank line is left out.
pub open spec fn with_line(lines: Seq<Seq<char>>, line: Seq<char>) -> Seq<Seq<char>> {
    if trimmed(line).len() == 0 {
        lines
    } else if lines.len() == MAX_LOG_LINES {
        lines.drop_first().push(trimmed(line))
    } else {
        lines.push(trimmed(line))
    }
}

impl LaunchLog {
    /// No more lines than are kept, and no blank one.
    pub open spec fn wf(&self) -> bool {
        &&& self.lines@.len() <= MAX_LOG_LINES
        &&& forall|i: int| 0 <= i < self.lines@.len() ==> (#[trigger] self.lines@[i])@.len() > 0
    }

    /// No line.
    pub fn new() -> (r: Self)
        ensures
            r.wf(),
            r.lines@.len() == 0,
    {
        LaunchLog { lines: Vec::new() }
    }

    /// Notes a line.
    pub fn push_log(&mut self, line: &str)
        requires
            old(self).wf(),
        ensures
            final(self).wf(),
            views(final(self).lines@) == with_line(views(old(self).lines@), line@),
    {
        let ghost before = views(self.lines@);
        let line = trim(line);
        if line.as_str().unicode_len() == 0 {
            return ;
        }
        if self.lines.len() == MAX_LOG_LINES {
            self.lines.remove(0);
            assert(views(self.lines@) =~= before.drop_first());
        }
        let ghost kept = views(self.lines@);
        self.lines.push(line);
        assert(views(self.lines@) =~= kept.push(line@));
    }
}

/// A line more stands last in the log, the oldest goes where there are eighty, and
/// a blank line is not kept.
pub proof fn the_log_keeps_the_newest_lines(lines: Seq<Seq<char>>, line: Seq<char>)
    requires
        lines.len() <= 80,
    ensures
        with_line(lines, line).len() <= 80,
        trimmed(line).len() == 0 ==> with_line(lines, line) == lines,
        trimmed(line).len() > 0 ==> with_line(lines, line).last() == trimmed(line),
        trimmed(line).len() > 0 && lines.len() < 80 ==> with_line(lines, line).len() == lines.len()
            + 1 && with_line(lines, line).drop_last() == lines,
        trimmed(line).len() > 0 && lines.len() == 80 ==> with_line(lines, line).drop_last()
            == lines.drop_first(),
{
    if trimmed(line).len() > 0 && lines.len() < 80 {
        assert(with_line(lines, line).drop_last() =~= lines);
    }
    if trimmed(line).len() > 0 && lines.len() == 80 {
        assert(with_line(lines, line).drop_last() =~= lines.drop_first());
    }
}

} // verus!
