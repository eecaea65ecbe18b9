//! Setting a workspace up before it starts.
use vstd::prelude::*;
use vstd::string::*;

use crate::launcher::model::{is_running, LaunchStatus};
use crate::launcher::network::{start_problem, validate_start_requirements, Ipv4, WorkspaceMode};
use crate::launcher::preferences::{LauncherPreferences, LAUNCHER_PREFERENCES_VERSION};
use crate::paths::FilePath;

verus! {

/// The port that the server listens on unless another is preferred.
pub const DEFAULT_PORT: u16 = 7833;

/// What a launcher is started with.
#[derive(Clone, Debug)]
pub struct LauncherConfig {
    pub db_path: FilePath,
    pub preferred_port: u16,
    pub open_browser: bool,
}

impl LauncherConfig {
    /// A launcher for a database of this computer.
    pub fn local(db_path: FilePath) -> (r: Self)
        ensures
            r.db_path == db_path,
            r.preferred_port == DEFAULT_PORT,
            r.open_browser,
    {
        LauncherConfig { db_path, preferred_port: DEFAULT_PORT, open_browser: true }
    }
}

/// What is known of the accounts of a shared workspace.
#[derive(Clone, Debug, PartialEq, Eq)]
pub enum LanAccountState {
    NotChecked,
    NeedsOwner,
    Ready,
    Error(String),
}

/// What is known of the accounts, from how many there are.
pub fn account_state(accounts: Result<usize, String>) -> (r: LanAccountState)
    ensures
        match accounts {
            Ok(n) => r == (if n == 0 {
                LanAccountState::NeedsOwner
            } else {
                LanAccountState::Ready
            }),
            Err(e) => r == LanAccountState::Error(e),
        },
{
    match accounts {
        Ok(n) => if n == 0 {
            LanAccountState::NeedsOwner
        } else {
            LanAccountState::Ready
        },
        Err(e) => LanAccountState::Error(e),
    }
}

/// What is known of the accounts where the folder of the database cannot be made.
pub fn account_folder_problem(error: &str) -> (r: LanAccountState)
    ensures
        r is Error && r->Error_0@ == "Cannot create the database folder: "@ + error@,
{
    let mut message = String::from_str("Cannot create the database folder: ");
    message.append(error);
    LanAccountState::Error(message)
}

/// Whether visitors have an account to sign in with.
pub fn account_ready(state: &LanAccountState) -> (r: bool)
    ensures
        r == (state is Ready),
{
    matches!(state, LanAccountState::Ready)
}

/// Whether settings can be changed: not while the workspace runs.
pub fn can_configure(status: &LaunchStatus) -> (r: bool)
    ensures
        r == !is_running(*status),
{
    !matches!(status, LaunchStatus::Starting | LaunchStatus::Ready)
}

/// The preferences to save, unless they cannot be changed now or the port is
/// none.
pub fn update_preferences(status: &LaunchStatus, mode: WorkspaceMode, preferred_port: u16) -> (r:
    Result<LauncherPreferences, String>)
    ensures
        match r {
            Ok(p) => preferred_port != 0 && !is_running(*status) && p.valid() && p
                == (LauncherPreferences {
                version: LAUNCHER_PREFERENCES_VERSION,
                mode,
                preferred_port,
            }),
            Err(e) => if preferred_port == 0 {
                e@ == "Preferred port must be between 1 and 65535."@
            } else {
                is_running(*status) && e@
                    == "Stop the workspace before changing launcher settings."@
            },
        },
{
    if preferred_port == 0 {
        return Err(String::from_str("Preferred port must be between 1 and 65535."));
    }
    if !can_configure(status) {
        return Err(String::from_str("Stop the workspace before changing launcher settings."));
    }
    Ok(LauncherPreferences { version: LAUNCHER_PREFERENCES_VERSION, mode, preferred_port })
}

/// An interface of a trusted network.
#[derive(Clone, Debug, PartialEq, Eq)]
pub struct TrustedIpv4Interface {
    pub name: String,
    pub address: Ipv4,
}

/// Whether an address is one of some interfaces.
pub open spec fn offered(interfaces: Seq<TrustedIpv4Interface>, address: Ipv4) -> bool {
    exists|i: int| 0 <= i < interfaces.len() && #[trigger] interfaces[i].address == address
}

/// Whether an address is one of some interfaces.
fn is_offered(interfaces: &Vec<TrustedIpv4Interface>, address: Ipv4) -> (r: bool)
    ensures
        r == offered(interfaces@, address),
{
    let mut i: usize = 0;
    while i < interfaces.len()
        invariant
            i <= interfaces@.len(),
            forall|k: int| 0 <= k < i ==> #[trigger] interfaces@[k].address != address,
        decreases interfaces.len() - i,
    {
        if interfaces[i].address == address {
            assert(interfaces@[i as int].address == address);
            return true;
        }
        i += 1;
    }
    false
}

/// The address that is selected once the interfaces were read again: the same as
/// before where it is still there, else the first.
pub open spec fn address_to_select(previous: Option<Ipv4>, interfaces: Seq<TrustedIpv4Interface>) ->
    Option<Ipv4> {
    if previous is Some && offered(interfaces, previous->0) {
        previous
    } else if interfaces.len() > 0 {
        Some(interfaces[0].address)
    } else {
        None
    }
}

/// The interfaces to choose from, the selected one, and what is said where there
/// is none.
#[derive(Clone, Debug)]
pub struct LanInterfaces {
    pub interfaces: Vec<TrustedIpv4Interface>,
    pub selected: Option<Ipv4>,
    pub problem: Option<String>,
}

/// What is known once the interfaces were looked for.
pub open spec fn found_interfaces(
    r: LanInterfaces,
    previous: Option<Ipv4>,
    found: Result<Vec<TrustedIpv4Interface>, String>,
) -> bool {
    match found {
        Ok(interfaces) => r.interfaces == interfaces && r.selected == address_to_select(
            previous,
            interfaces@,
        ) && (if interfaces@.len() == 0 {
            r.problem is Some && r.problem->0@
                == "No private LAN or VPN IPv4 interface is available. Connect to a trusted network, then refresh interfaces."@
        } else {
            r.problem is None
        }),
        Err(e) => r.interfaces@.len() == 0 && r.selected is None && r.problem is Some
            && r.problem->0@ == "Network interfaces could not be read: "@ + e@,
    }
}

/// Takes note of the interfaces that are there now.
pub fn refresh_lan_interfaces(
    previous: Option<Ipv4>,
    found: Result<Vec<TrustedIpv4Interface>, String>,
) -> (r: LanInterfaces)
    ensures
        found_interfaces(r, previous, found),
{
    match found {
        Ok(interfaces) => {
            let first = if interfaces.len() > 0 {
                Some(interfaces[0].address)
            } else {
                None
            };
            let selected = match previous {
                Some(address) => if is_offered(&interfaces, address) {
                    Some(address)
                } else {
                    first
                },
                None => first,
            };
            let problem = if interfaces.len() == 0 {
                Some(
                    String::from_str(
                        "No private LAN or VPN IPv4 interface is available. Connect to a trusted network, then refresh interfaces.",
                    ),
                )
            } else {
                None
            };
            LanInterfaces { interfaces, selected, problem }
        },
        Err(e) => {
            let mut problem = String::from_str("Network interfaces could not be read: ");
            problem.append(e.as_str());
            LanInterfaces { interfaces: Vec::new(), selected: None, problem: Some(problem) }
        },
    }
}

/// What is said to the person who made the first account: whether it can be used
/// is known once the accounts were read again.
pub fn owner_feedback(created: Result<(), String>, reloaded: &LanAccountState) -> (r: Result<
    String,
    String,
>)
    ensures
        match created {
            Err(e) => r == Err::<String, String>(e),
            Ok(_) => if reloaded is Ready {
                r is Ok && r->Ok_0@ == "Owner account created. LAN sign-in is ready."@
            } else {
                r is Err && r->Err_0@
                    == "The owner account was created but could not be reloaded."@
            },
        },
{
    match created {
        Err(e) => Err(e),
        Ok(_) => if account_ready(reloaded) {
            Ok(String::from_str("Owner account created. LAN sign-in is ready."))
        } else {
            Err(String::from_str("The owner account was created but could not be reloaded."))
        },
    }
}

/// What has to be set up again once settings were saved.
#[derive(Clone, Copy, Debug, PartialEq, Eq, Structural)]
pub enum SetupChange {
    /// The mode is the same.
    Nothing,
    /// The workspace is now shared: the confirmation is asked for again, and the
    /// accounts and interfaces are read.
    EnterLan,
    /// The workspace is now personal: what was set up for sharing is forgotten.
    LeaveLan,
}

/// What has to be set up again once settings were saved.
pub fn apply_preferences(before: WorkspaceMode, mode: WorkspaceMode) -> (r: SetupChange)
    ensures
        r == (if before == mode {
            SetupChange::Nothing
        } else if mode == WorkspaceMode::TrustedLan {
            SetupChange::EnterLan
        } else {
            SetupChange::LeaveLan
        }),
{
    if before == mode {
        SetupChange::Nothing
    } else if mode == WorkspaceMode::TrustedLan {
        SetupChange::EnterLan
    } else {
        SetupChange::LeaveLan
    }
}

/// Whether the confirmation of a trusted network still stands once another
/// interface may have been selected.
pub fn confirmation_stands(confirmed: bool, before: Option<Ipv4>, selected: Option<Ipv4>) -> (r:
    bool)
    ensures
        r == (confirmed && before == selected),
{
    match (before, selected) {
        (Some(a), Some(b)) => confirmed && a == b,
        (None, None) => confirmed,
        _ => false,
    }
}

/// What is set up in the window before a workspace starts: the accounts, the
/// interfaces, whether the network was confirmed to be a trusted one, what was
/// typed for the first account, and what the last step said.
#[derive(Clone, Debug)]
pub struct LanSetup {
    pub accounts: LanAccountState,
    pub lan: LanInterfaces,
    pub confirmed: bool,
    pub username: String,
    pub password: String,
    pub confirmation: String,
    pub feedback: Option<String>,
}

impl LanSetup {
    /// No password is held.
    pub open spec fn holds_no_password(self) -> bool {
        self.password@.len() == 0 && self.confirmation@.len() == 0
    }

    /// No interface was read.
    pub open spec fn knows_no_interface(self) -> bool {
        self.lan.interfaces@.len() == 0 && self.lan.selected is None && self.lan.problem is None
    }

    /// Why a workspace of a mode may not start, if so.
    pub open spec fn problem(self, mode: WorkspaceMode) -> Option<Seq<char>> {
        start_problem(mode, self.confirmed, self.accounts is Ready, self.lan.selected)
    }

    /// Nothing was read, typed or confirmed yet.
    pub fn new() -> (r: Self)
        ensures
            r.accounts == LanAccountState::NotChecked,
            r.knows_no_interface(),
            !r.confirmed,
            r.username@.len() == 0,
            r.holds_no_password(),
            r.feedback is None,
    {
        proof {
            reveal_strlit("");
        }
        LanSetup {
            accounts: LanAccountState::NotChecked,
            lan: LanInterfaces { interfaces: Vec::new(), selected: None, problem: None },
            confirmed: false,
            username: String::from_str(""),
            password: String::from_str(""),
            confirmation: String::from_str(""),
            feedback: None,
        }
    }

    /// Takes note of the accounts that are there now.
    pub fn accounts_read(&mut self, accounts: LanAccountState)
        ensures
            *final(self) == (LanSetup { accounts, ..*old(self) }),
    {
        self.accounts = accounts;
    }

    /// Takes note of the interfaces that are there now. The selected one stays
    /// selected while it is there.
    pub fn interfaces_read(&mut self, found: Result<Vec<TrustedIpv4Interface>, String>)
        ensures
            found_interfaces(final(self).lan, old(self).lan.selected, found),
            *final(self) == (LanSetup { lan: final(self).lan, ..*old(self) }),
    {
        self.lan = refresh_lan_interfaces(self.lan.selected, found);
    }

    /// Takes note that interfaces were on offer, where `listed`, and that the
    /// selected one was `before`: another interface asks for another
    /// confirmation.
    pub fn selection_settled(&mut self, listed: bool, before: Option<Ipv4>)
        ensures
            final(self).confirmed == (old(self).confirmed && (listed ==> before == old(self).lan.selected)),
            *final(self) == (LanSetup { confirmed: final(self).confirmed, ..*old(self) }),
    {
        if listed {
            self.confirmed = confirmation_stands(self.confirmed, before, self.lan.selected);
        }
    }

    /// Takes note of an attempt to make the first account. Where it was made,
    /// the passwords are forgotten, and the accounts are those that were read
    /// again; where it was not, everything that was typed stays. Gives what was
    /// said, as an error where the account cannot be used.
    pub fn owner_created(&mut self, created: Result<(), String>, reloaded: LanAccountState) -> (r:
        Result<(), String>)
        ensures
            match created {
                Ok(_) => final(self).holds_no_password() && final(self).accounts == reloaded
                    && final(self).feedback is Some && (if reloaded is Ready {
                    r is Ok && final(self).feedback->0@
                        == "Owner account created. LAN sign-in is ready."@
                } else {
                    r is Err && r->Err_0@ == final(self).feedback->0@ && r->Err_0@
                        == "The owner account was created but could not be reloaded."@
                }),
                Err(e) => r is Err && r->Err_0@ == e@ && final(self).feedback is Some && final(self).feedback->0@ == e@ && final(self).password == old(self).password && final(self).confirmation == old(self).confirmation && final(self).accounts == old(self).accounts,
            },
            final(self).lan == old(self).lan,
            final(self).confirmed == old(self).confirmed,
            final(self).username == old(self).username,
    {
        if created.is_ok() {
            proof {
                reveal_strlit("");
            }
            self.password = String::from_str("");
            self.confirmation = String::from_str("");
            self.accounts = reloaded;
        }
        match owner_feedback(created, &self.accounts) {
            Ok(message) => {
                self.feedback = Some(message);
                Ok(())
            },
            Err(message) => {
                self.feedback = Some(message.clone());
                Err(message)
            },
        }
    }

    /// Takes note of another mode. Any change withdraws the confirmation and
    /// what was said; leaving the shared mode forgets the accounts and the
    /// interfaces too.
    pub fn mode_changed(&mut self, change: SetupChange)
        ensures
            match change {
                SetupChange::Nothing => *final(self) == *old(self),
                SetupChange::EnterLan => *final(self) == (LanSetup {
                    confirmed: false,
                    feedback: None,
                    ..*old(self)
                }),
                SetupChange::LeaveLan => final(self).knows_no_interface() && *final(self) == (
                LanSetup {
                    confirmed: false,
                    feedback: None,
                    accounts: LanAccountState::NotChecked,
                    lan: final(self).lan,
                    ..*old(self)
                }),
            },
    {
        match change {
            SetupChange::Nothing => {},
            SetupChange::EnterLan => {
                self.confirmed = false;
                self.feedback = None;
            },
            SetupChange::LeaveLan => {
                self.confirmed = false;
                self.feedback = None;
                self.accounts = LanAccountState::NotChecked;
                self.lan = LanInterfaces { interfaces: Vec::new(), selected: None, problem: None };
            },
        }
    }

    /// Whether a workspace of a mode may start.
    pub fn can_start(&self, mode: WorkspaceMode) -> (r: bool)
        ensures
            r == (self.problem(mode) is None),
    {
        validate_start_requirements(
            mode,
            self.confirmed,
            account_ready(&self.accounts),
            self.lan.selected,
        ).is_ok()
    }

    /// Whether a workspace of a mode starts now. What stands against it is said.
    pub fn start(&mut self, mode: WorkspaceMode) -> (r: bool)
        ensures
            r == (old(self).problem(mode) is None),
            match (old(self).problem(mode), final(self).feedback) {
                (None, said) => said is None,
                (Some(problem), Some(said)) => said@ == problem,
                _ => false,
            },
            *final(self) == (LanSetup { feedback: final(self).feedback, ..*old(self) }),
    {
        let found = validate_start_requirements(
            mode,
            self.confirmed,
            account_ready(&self.accounts),
            self.lan.selected,
        );
        match found {
            Ok(_) => {
                self.feedback = None;
                true
            },
            Err(problem) => {
                self.feedback = Some(problem);
                false
            },
        }
    }

    /// Takes note that the workspace was stopped. One that was shared asks for
    /// the confirmation again.
    pub fn stopped(&mut self, mode: WorkspaceMode)
        ensures
            *final(self) == (LanSetup {
                confirmed: old(self).confirmed && mode != WorkspaceMode::TrustedLan,
                ..*old(self)
            }),
    {
        if mode == WorkspaceMode::TrustedLan {
            self.confirmed = false;
        }
    }
}

/// Once the confirmation was withdrawn, no shared workspace starts until it is
/// given again, whatever the accounts and interfaces are.
pub proof fn a_withdrawn_confirmation_stops_sharing(setup: LanSetup)
    requires
        !setup.confirmed,
    ensures
        setup.problem(WorkspaceMode::TrustedLan) is Some,
        setup.problem(WorkspaceMode::Personal) is None,
{
}

/// What was chosen before stays chosen while it is offered; otherwise the first
/// that is offered is chosen, and none only where nothing is offered.
pub proof fn an_offered_address_is_chosen(
    previous: Option<Ipv4>,
    interfaces: Seq<TrustedIpv4Interface>,
)
    ensures
        address_to_select(previous, interfaces) is None <==> interfaces.len() == 0,
        match address_to_select(previous, interfaces) {
            Some(address) => offered(interfaces, address) && (Some(address) == previous || Some(
                address,
            ) == Some(interfaces[0].address)),
            None => true,
        },
        previous is Some && offered(interfaces, previous->0) ==> address_to_select(
            previous,
            interfaces,
        ) == previous,
        previous is Some && !offered(interfaces, previous->0) ==> address_to_select(
            previous,
            interfaces,
        ) != previous,
{
    if interfaces.len() > 0 {
        assert(interfaces[0].address == interfaces[0].address);
        assert(offered(interfaces, interfaces[0].address));
    }
}

} // verus!
