//! The steps by which the server is started.
use vstd::prelude::*;
use vstd::string::*;

use crate::launcher::network::{
    bind_host_of, dotted, localhost, selected_bind_host, Ipv4, WorkspaceMode,
};
use crate::number::{decimal, decimal_text};
use crate::text::{push_text, views};

verus! {

/// What is to be done to start the server.
#[derive(Clone, Debug)]
pub enum WorkerStep {
    /// The launch was ended: nothing is to be done.
    Quit,
    /// Whether a server of this program answers on the preferred port is looked
    /// up.
    LookForOther,
    /// A port is selected that is free on every address.
    SelectPort,
    /// The server is started on a port.
    Spawn { port: u16 },
    /// The process is put into its place.
    Register,
    /// The server is waited for.
    Wait,
    Ready,
    /// The process is stopped; then the launch has failed.
    StopAndFail { reason: String },
    Failed(String),
}

/// The addresses that the server listens on: always this computer's own, and the
/// selected one before it where the workspace is shared.
pub open spec fn hosts_of(mode: WorkspaceMode, bind_host: Ipv4) -> Seq<Ipv4> {
    match mode {
        WorkspaceMode::TrustedLan => seq![bind_host, localhost()],
        WorkspaceMode::Personal => seq![localhost()],
    }
}

/// The addresses that the server listens on.
pub fn listener_hosts(mode: WorkspaceMode, bind_host: Ipv4) -> (r: Vec<Ipv4>)
    ensures
        r@ == hosts_of(mode, bind_host),
        r@.len() > 0,
        r@.contains(localhost()),
{
    let mut hosts: Vec<Ipv4> = Vec::new();
    if mode == WorkspaceMode::TrustedLan {
        hosts.push(bind_host);
    }
    hosts.push(Ipv4::localhost());
    assert(hosts@ =~= hosts_of(mode, bind_host));
    assert(hosts@[hosts@.len() - 1] == localhost());
    hosts
}

/// The first step. A launch that was ended is not started, and one that may not
/// listen has failed.
pub fn start_server_worker(
    active: bool,
    mode: WorkspaceMode,
    lan_address: Option<Ipv4>,
    preferred_port: u16,
) -> (r: WorkerStep)
    ensures
        if !active {
            r is Quit
        } else {
            match bind_host_of(mode, lan_address) {
                Err(e) => r is Failed && r->Failed_0@ == e,
                Ok(_) => if preferred_port != 0 {
                    r is LookForOther
                } else {
                    r is SelectPort
                },
            }
        },
{
    if !active {
        return WorkerStep::Quit;
    }
    match selected_bind_host(mode, lan_address) {
        Err(e) => WorkerStep::Failed(e),
        Ok(_) => if preferred_port != 0 {
            WorkerStep::LookForOther
        } else {
            WorkerStep::SelectPort
        },
    }
}

/// What is said where a server of this program runs already.
pub open spec fn already_running(port: u16) -> Seq<char> {
    "A Base Search workspace is already running at http://127.0.0.1:"@ + decimal(port as nat)
        + "/. Use that window or browser tab, or stop the other copy before starting a new workspace. To run a second independent workspace on purpose, choose a different preferred port first."@
}

/// The step after looking for another server: a second one is not started beside
/// one that answers.
pub fn after_look(answers: bool, preferred_port: u16) -> (r: WorkerStep)
    ensures
        if answers {
            r is Failed && r->Failed_0@ == already_running(preferred_port)
        } else {
            r is SelectPort
        },
{
    if answers {
        let mut message = String::from_str(
            "A Base Search workspace is already running at http://127.0.0.1:",
        );
        message.append(decimal_text(preferred_port as u64).as_str());
        message.append(
            "/. Use that window or browser tab, or stop the other copy before starting a new workspace. To run a second independent workspace on purpose, choose a different preferred port first.",
        );
        WorkerStep::Failed(message)
    } else {
        WorkerStep::SelectPort
    }
}

/// The step after selecting a port.
pub fn after_port(port: Result<u16, String>) -> (r: WorkerStep)
    ensures
        match port {
            Ok(port) => r == (WorkerStep::Spawn { port }),
            Err(e) => r is Failed && r->Failed_0@ == "Cannot select a local port: "@ + e@,
        },
{
    match port {
        Ok(port) => WorkerStep::Spawn { port },
        Err(e) => {
            let mut message = String::from_str("Cannot select a local port: ");
            message.append(e.as_str());
            WorkerStep::Failed(message)
        },
    }
}

/// The step after starting the process.
pub fn after_spawn(spawned: Result<(), String>) -> (r: WorkerStep)
    ensures
        match spawned {
            Ok(_) => r is Register,
            Err(e) => r is Failed && r->Failed_0@ == "Cannot start the local server: "@ + e@,
        },
{
    match spawned {
        Ok(_) => WorkerStep::Register,
        Err(e) => {
            let mut message = String::from_str("Cannot start the local server: ");
            message.append(e.as_str());
            WorkerStep::Failed(message)
        },
    }
}

/// The step after putting the process into its place: where it was refused, the
/// launch was ended meanwhile.
pub fn after_register(registered: Result<bool, String>) -> (r: WorkerStep)
    ensures
        match registered {
            Ok(true) => r is Wait,
            Ok(false) => r is Quit,
            Err(e) => r == WorkerStep::Failed(e),
        },
{
    match registered {
        Ok(true) => WorkerStep::Wait,
        Ok(false) => WorkerStep::Quit,
        Err(e) => WorkerStep::Failed(e),
    }
}

/// What is said while the server is waited for.
pub const OPENING: &'static str = "Opening the database and applying upgrades";

/// The step after waiting for the server: one that did not become ready is
/// stopped.
pub fn after_wait(waited: Result<(), String>) -> (r: WorkerStep)
    ensures
        match waited {
            Ok(_) => r is Ready,
            Err(e) => r == (WorkerStep::StopAndFail { reason: e }),
        },
{
    match waited {
        Ok(_) => WorkerStep::Ready,
        Err(e) => WorkerStep::StopAndFail { reason: e },
    }
}

/// The arguments that the server process is started with.
pub open spec fn server_args(db_path: Seq<char>, port: u16, bind_host: Ipv4) -> Seq<Seq<char>> {
    seq![
        "--browser"@,
        "--db"@,
        db_path,
        "--host"@,
        dotted(bind_host),
        "--port"@,
        decimal(port as nat),
        "--no-open"@,
    ]
}

/// The arguments that the server process is started with.
pub fn build_server_command(db_path: &str, port: u16, bind_host: Ipv4) -> (r: Vec<String>)
    ensures
        views(r@) == server_args(db_path@, port, bind_host),
{
    let mut args: Vec<String> = Vec::new();
    push_text(&mut args, "--browser");
    push_text(&mut args, "--db");
    push_text(&mut args, db_path);
    push_text(&mut args, "--host");
    push_text(&mut args, bind_host.text().as_str());
    push_text(&mut args, "--port");
    push_text(&mut args, decimal_text(port as u64).as_str());
    push_text(&mut args, "--no-open");
    assert(views(args@) =~= server_args(db_path@, port, bind_host));
    args
}

/// A personal workspace listens on this computer alone, and a shared one on the
/// chosen address and on this computer.
pub proof fn a_workspace_is_always_reached_from_here(mode: WorkspaceMode, bind_host: Ipv4)
    ensures
        hosts_of(mode, bind_host).contains((Ipv4 { a: 127, b: 0, c: 0, d: 1 })),
        hosts_of(mode, bind_host).contains(bind_host) <==> mode == WorkspaceMode::TrustedLan
            || bind_host == (Ipv4 { a: 127, b: 0, c: 0, d: 1 }),
        mode == WorkspaceMode::Personal ==> hosts_of(mode, bind_host).len() == 1,
        mode == WorkspaceMode::TrustedLan ==> hosts_of(mode, bind_host).len() == 2,
{
    let hosts = hosts_of(mode, bind_host);
    assert(hosts[hosts.len() - 1] == localhost());
    if mode == WorkspaceMode::TrustedLan {
        assert(hosts[0] == bind_host);
    }
}

} // verus!
