use std::cell::RefCell;

use base_search::launcher::health::{
    health_is_ready, health_request, reply_is_well, split_reply, startup_progress_text,
    wait_for_health, wait_for_process, WaitStep,
};
use base_search::launcher::model::{
    following_generation, LaunchAction, LaunchEvent, LaunchLog, LaunchStatus, LauncherModel,
    MAX_LOG_LINES,
};
use base_search::launcher::network::{
    is_trusted_lan_ipv4, local_workspace_url, selected_bind_host, trusted_lan_workspace_url,
    validate_start_requirements, workspace_urls, Ipv4, WorkspaceMode, WorkspaceUrls,
};
use base_search::launcher::owner::{bootstrap_first_owner_with, check_owner};
use base_search::launcher::ports::{PortSearch, PortStep};
use base_search::launcher::preferences::{
    launcher_preferences_path, load_launcher_preferences, preferences_temp_name,
    save_launcher_preferences, start_save, LauncherPreferences, PreferencesRead, SaveStep,
    LAUNCHER_PREFERENCES_VERSION,
};
use base_search::launcher::process::ProcessSlot;
use base_search::launcher::setup::{
    account_folder_problem, account_ready, account_state, apply_preferences, can_configure,
    confirmation_stands, owner_feedback, refresh_lan_interfaces, update_preferences,
    LanAccountState, LanSetup, LauncherConfig, SetupChange, TrustedIpv4Interface,
};
use base_search::launcher::worker::{
    after_look, after_port, after_register, after_spawn, after_wait, build_server_command,
    listener_hosts, start_server_worker, WorkerStep,
};
use base_search::paths::FilePath;

fn path(text: &str) -> FilePath {
    FilePath {
        root: String::new(),
        parts: text.split('/').map(str::to_string).collect(),
    }
}

/// A folder in memory, as the files that it holds.
struct Folder {
    files: Vec<(String, LauncherPreferences)>,
}

impl Folder {
    fn read(&self, name: &str) -> PreferencesRead {
        match self.files.iter().find(|(file, _)| file == name) {
            Some((_, preferences)) => PreferencesRead::Read(Some(*preferences)),
            None => PreferencesRead::Missing,
        }
    }

    /// Saves preferences; the step of the given name fails.
    fn save(
        &mut self,
        file: &FilePath,
        preferences: &LauncherPreferences,
        fails: Option<&str>,
    ) -> Result<(), String> {
        let name = file.file_name().unwrap().to_string();
        let temporary = preferences_temp_name(file, 7, 1);
        let mut step = start_save(preferences);
        loop {
            let label = match &step {
                SaveStep::CreateFolder => "folder",
                SaveStep::Encode => "encode",
                SaveStep::Write => "write",
                SaveStep::Replace => "replace",
                SaveStep::SyncFolder => "sync",
                SaveStep::Discard { .. } => "discard",
                SaveStep::Done => return Ok(()),
                SaveStep::Failed(reason) => return Err(reason.clone()),
            };
            let outcome = if fails == Some(label) {
                Err("disk full".to_string())
            } else {
                Ok(())
            };
            match label {
                "write" => self.files.push((temporary.clone(), *preferences)),
                "replace" if outcome.is_ok() => {
                    self.files.retain(|(file, _)| *file != name);
                    for entry in &mut self.files {
                        if entry.0 == temporary {
                            entry.0 = name.clone();
                        }
                    }
                }
                "discard" => self.files.retain(|(file, _)| *file != temporary),
                _ => {}
            }
            step = save_launcher_preferences(step, outcome);
        }
    }
}

#[test]
fn launcher_preferences_round_trip_and_replace_atomically() {
    let file = path("base_search.db.launcher.json");
    let mut folder = Folder { files: Vec::new() };
    let defaults = LauncherPreferences::defaults(7833);

    let missing = load_launcher_preferences(folder.read("base_search.db.launcher.json"), 7833);
    assert_eq!(missing.preferences, defaults);
    assert!(missing.warning.is_none());

    let lan = LauncherPreferences {
        version: LAUNCHER_PREFERENCES_VERSION,
        mode: WorkspaceMode::TrustedLan,
        preferred_port: 8123,
    };
    folder.save(&file, &lan, None).unwrap();
    assert_eq!(
        load_launcher_preferences(folder.read("base_search.db.launcher.json"), 7833).preferences,
        lan
    );
    assert!(!format!("{:?}", folder.files).to_ascii_lowercase().contains("password"));

    let personal = LauncherPreferences {
        version: LAUNCHER_PREFERENCES_VERSION,
        mode: WorkspaceMode::Personal,
        preferred_port: 9000,
    };
    folder.save(&file, &personal, None).unwrap();
    assert_eq!(
        load_launcher_preferences(folder.read("base_search.db.launcher.json"), 7833).preferences,
        personal
    );
    assert_eq!(
        folder.files.len(),
        1,
        "an atomic replacement must not leave temporary files behind"
    );
}

#[test]
fn a_failed_save_leaves_the_old_preferences_and_no_temporary_file() {
    let file = path("data/base_search.db.launcher.json");
    let name = "base_search.db.launcher.json";
    let old = LauncherPreferences::defaults(7833);
    let new = LauncherPreferences::defaults(9000);
    for (fails, message) in [
        ("folder", "cannot create launcher preferences folder: disk full"),
        ("encode", "cannot encode launcher preferences: disk full"),
        ("write", "cannot save launcher preferences: disk full"),
        ("replace", "cannot save launcher preferences: disk full"),
    ] {
        let mut folder = Folder { files: vec![(name.to_string(), old)] };
        assert_eq!(folder.save(&file, &new, Some(fails)).unwrap_err(), message);
        assert_eq!(folder.files, vec![(name.to_string(), old)], "{fails}");
    }
    let mut folder = Folder { files: vec![(name.to_string(), old)] };
    assert!(folder.save(&file, &new, Some("sync")).is_err());
    assert_eq!(folder.files, vec![(name.to_string(), new)]);

    let none = LauncherPreferences { preferred_port: 0, ..new };
    let mut folder = Folder { files: Vec::new() };
    assert_eq!(
        folder.save(&file, &none, None).unwrap_err(),
        "launcher preferences are invalid"
    );
    assert!(folder.files.is_empty());
}

#[test]
fn a_temporary_file_is_named_after_the_preferences_and_the_process() {
    assert_eq!(
        preferences_temp_name(&path("data/a.db.launcher.json"), 41, 3),
        ".a.db.launcher.json.tmp-41-3"
    );
    assert_eq!(preferences_temp_name(&path(".."), 41, 3), ".launcher.json.tmp-41-3");
}

#[test]
fn launcher_preferences_live_next_to_the_workspace_database() {
    assert_eq!(
        launcher_preferences_path(&path("data/custom.db")),
        path("data/custom.db.launcher.json")
    );
}

#[test]
fn invalid_launcher_preferences_fall_back_to_personal_defaults() {
    let read = PreferencesRead::Read(Some(LauncherPreferences {
        version: 1,
        mode: WorkspaceMode::TrustedLan,
        preferred_port: 0,
    }));

    let loaded = load_launcher_preferences(read, 7833);

    assert_eq!(loaded.preferences, LauncherPreferences::defaults(7833));
    assert!(loaded
        .warning
        .as_deref()
        .is_some_and(|warning| warning.contains("invalid")));
}

#[test]
fn a_file_that_holds_no_preferences_restores_the_defaults() {
    let loaded = load_launcher_preferences(PreferencesRead::Read(None), 7833);

    assert_eq!(loaded.preferences, LauncherPreferences::defaults(7833));
    assert!(loaded.warning.is_some());
}

#[test]
fn unreadable_or_older_preferences_are_put_aside() {
    let unreadable =
        load_launcher_preferences(PreferencesRead::Unreadable("denied".to_string()), 7000);
    assert_eq!(unreadable.preferences, LauncherPreferences::defaults(7000));
    assert_eq!(
        unreadable.warning.as_deref(),
        Some("Launcher preferences could not be read and were ignored: denied")
    );
    let older = LauncherPreferences {
        version: LAUNCHER_PREFERENCES_VERSION + 1,
        mode: WorkspaceMode::TrustedLan,
        preferred_port: 8000,
    };
    assert!(!older.is_valid());
    let loaded = load_launcher_preferences(PreferencesRead::Read(Some(older)), 7000);
    assert_eq!(loaded.preferences, LauncherPreferences::defaults(7000));
}

#[test]
fn first_owner_bootstrap_validates_and_creates_exactly_one_owner() {
    let calls = RefCell::new(Vec::new());
    bootstrap_first_owner_with(
        &path("data/base_search.db"),
        "  workspace-owner  ",
        "strong-password",
        "strong-password",
        |_: &FilePath| Ok(Vec::new()),
        |path: &FilePath, username: &str, password: &str, role: &str| {
            calls.borrow_mut().push((
                path.clone(),
                username.to_string(),
                password.to_string(),
                role.to_string(),
            ));
            Ok(())
        },
    )
    .unwrap();

    assert_eq!(
        calls.into_inner(),
        vec![(
            path("data/base_search.db"),
            "workspace-owner".to_string(),
            "strong-password".to_string(),
            "owner".to_string(),
        )]
    );
}

#[test]
fn first_owner_bootstrap_rejects_mismatch_or_existing_accounts() {
    let add_calls = RefCell::new(0_u32);
    let mismatch = bootstrap_first_owner_with(
        &path("data/base_search.db"),
        "owner",
        "strong-password",
        "different-password",
        |_: &FilePath| Ok(Vec::new()),
        |_: &FilePath, _: &str, _: &str, _: &str| {
            *add_calls.borrow_mut() += 1;
            Ok(())
        },
    )
    .unwrap_err();
    assert!(mismatch.contains("match"));

    let existing = bootstrap_first_owner_with(
        &path("data/base_search.db"),
        "owner",
        "strong-password",
        "strong-password",
        |_: &FilePath| {
            Ok(vec![(
                "existing".to_string(),
                "owner".to_string(),
                "now".to_string(),
            )])
        },
        |_: &FilePath, _: &str, _: &str, _: &str| {
            *add_calls.borrow_mut() += 1;
            Ok(())
        },
    )
    .unwrap_err();
    assert!(existing.contains("already"));
    assert_eq!(*add_calls.borrow(), 0);
}

#[test]
fn an_owner_needs_a_name_and_a_long_enough_password() {
    assert_eq!(check_owner(" \t", "strong-password", "x").unwrap_err(), "Username cannot be empty.");
    let long = "n".repeat(129);
    assert_eq!(
        check_owner(&long, "strong-password", "x").unwrap_err(),
        "Username cannot exceed 128 characters."
    );
    assert!(check_owner(&"n".repeat(128), "12345678", "12345678").is_ok());
    assert_eq!(
        check_owner("owner", "1234567", "1234567").unwrap_err(),
        "Password must be at least 8 characters."
    );
    // The length of a password is counted in bytes.
    assert_eq!(check_owner("owner", "пароль", "пароль").unwrap(), "owner");
    let failed = bootstrap_first_owner_with(
        &path("a.db"),
        "owner",
        "12345678",
        "12345678",
        |_: &FilePath| Err("locked".to_string()),
        |_: &FilePath, _: &str, _: &str, _: &str| Ok(()),
    );
    assert_eq!(failed.unwrap_err(), "locked");
}

fn select_port(
    hosts: usize,
    preferred: u16,
    attempts: u16,
    offers: &[u16],
    free: impl Fn(u16) -> bool,
) -> Result<u16, String> {
    let mut search = PortSearch::start(hosts, preferred, attempts)?;
    let mut step = search.step();
    let mut offer = offers.iter().copied();
    loop {
        let port = match step {
            PortStep::Try(port) => port,
            PortStep::TryOffered => offer.next().unwrap(),
            PortStep::Found(port) => return Ok(port),
            PortStep::Failed(reason) => return Err(reason),
        };
        step = search.tried_port(port, free(port));
    }
}

#[test]
fn port_selection_skips_an_occupied_preferred_port_in_both_modes() {
    let preferred = 50123;
    let selected = select_port(1, preferred, 32, &[], |port| port != preferred).unwrap();
    assert_ne!(selected, preferred);
    assert_eq!(selected, 50124, "selected port must still be available");

    let selected_for_two_listeners =
        select_port(2, 0, 32, &[41000, 41001, 41002], |port| port == 41002).unwrap();
    assert_eq!(
        selected_for_two_listeners, 41002,
        "the selected port must be free on both listeners"
    );
}

#[test]
fn a_port_search_ends() {
    assert_eq!(
        select_port(0, 7833, 32, &[], |_| true).unwrap_err(),
        "at least one listener address is required"
    );
    assert_eq!(
        select_port(1, 65534, 3, &[5, 6, 7], |_| false).unwrap_err(),
        "no port is available on every selected listener address"
    );
    assert_eq!(select_port(1, 65534, 3, &[5, 6], |port| port == 6), Ok(6));
    // Without attempts one is made.
    assert_eq!(select_port(1, 7833, 0, &[9], |port| port == 9), Ok(9));
}

#[test]
fn workspace_urls_always_open_locally_and_only_lan_mode_exposes_a_lan_url() {
    let address = Ipv4::new(192, 168, 50, 23);

    let personal = workspace_urls(WorkspaceMode::Personal, 8123, Some(address));
    assert_eq!(personal.local, "http://127.0.0.1:8123");
    assert_eq!(personal.lan, None);

    let lan = workspace_urls(WorkspaceMode::TrustedLan, 8123, Some(address));
    assert_eq!(lan.local, "http://127.0.0.1:8123");
    assert_eq!(lan.lan.as_deref(), Some("http://192.168.50.23:8123"));
}

#[test]
fn selected_lan_bind_rejects_missing_or_public_interfaces_and_accepts_cgnat() {
    let missing = selected_bind_host(WorkspaceMode::TrustedLan, None).unwrap_err();
    assert!(missing.contains("No usable private LAN or VPN"));

    assert!(selected_bind_host(WorkspaceMode::TrustedLan, Some(Ipv4::new(8, 8, 8, 8))).is_err());
    assert_eq!(
        selected_bind_host(WorkspaceMode::TrustedLan, Some(Ipv4::new(100, 100, 42, 7))).unwrap(),
        Ipv4::new(100, 100, 42, 7)
    );
}

#[test]
fn trusted_addresses_end_where_their_ranges_do() {
    for (address, trusted) in [
        ((10, 0, 0, 0), true),
        ((11, 0, 0, 0), false),
        ((172, 15, 255, 255), false),
        ((172, 16, 0, 1), true),
        ((172, 31, 255, 255), true),
        ((172, 32, 0, 0), false),
        ((192, 168, 0, 1), true),
        ((192, 169, 0, 1), false),
        ((100, 63, 255, 255), false),
        ((100, 64, 0, 0), true),
        ((100, 127, 255, 255), true),
        ((100, 128, 0, 0), false),
        ((169, 254, 1, 2), false),
        ((8, 8, 8, 8), false),
    ] {
        let (a, b, c, d) = address;
        let address = Ipv4::new(a, b, c, d);
        assert_eq!(is_trusted_lan_ipv4(address), trusted, "{address:?}");
        assert_eq!(trusted_lan_workspace_url(address, 80).is_some(), trusted);
    }
    assert_eq!(
        trusted_lan_workspace_url(Ipv4::new(10, 1, 2, 3), 65535).as_deref(),
        Some("http://10.1.2.3:65535")
    );
    assert_eq!(local_workspace_url(7833), "http://127.0.0.1:7833");
    assert!(Ipv4::new(127, 8, 9, 10).is_loopback());
    assert!(Ipv4::new(0, 0, 0, 0).is_wildcard());
}

fn reply(name: &str) -> Vec<u8> {
    let body = format!("{{\"status\":\"ok\",\"name\":\"{name}\",\"version\":\"2.0.0\"}}");
    format!(
        "HTTP/1.1 200 OK\r\nContent-Type: application/json\r\nContent-Length: {}\r\nConnection: close\r\n\r\n{}",
        body.len(),
        body
    )
    .into_bytes()
}

#[test]
fn readiness_waits_for_a_successful_api_health_response() {
    // The server answers after 120 milliseconds; it is asked every 20.
    let answer = |waited: u64| -> Vec<u8> {
        if waited >= 120 {
            reply("Base Search")
        } else {
            Vec::new()
        }
    };
    assert!(health_request("127.0.0.1:7833").starts_with("GET /api/health HTTP/1.1\r\n"));
    let mut waited = 0;
    loop {
        wait_for_process(true).unwrap();
        match wait_for_health(health_is_ready(&answer(waited)), waited, 2000, 20) {
            WaitStep::Ready => break,
            WaitStep::Sleep(time) => waited += time,
            WaitStep::Failed(reason) => panic!("{reason}"),
        }
    }
    assert!(waited >= 100);
}

#[test]
fn readiness_rejects_an_unrelated_service_on_the_selected_port() {
    assert!(!health_is_ready(&reply("Another service")));
}

#[test]
fn a_server_is_not_waited_for_beyond_the_timeout() {
    assert_eq!(wait_for_health(false, 1990, 2000, 20), WaitStep::Sleep(10));
    assert_eq!(
        wait_for_health(false, 2000, 2000, 20),
        WaitStep::Failed("the local server did not become ready within 2 seconds".to_string())
    );
    assert_eq!(
        wait_for_process(false).unwrap_err(),
        "the local server stopped before it became ready"
    );
}

#[test]
fn a_reply_is_read_in_its_head_and_its_body() {
    assert_eq!(
        split_reply("HTTP/1.1 200 OK\r\nA: b\r\n\r\n{}\r\n\r\nx"),
        Some(("HTTP/1.1 200 OK\r\nA: b".to_string(), "{}\r\n\r\nx".to_string()))
    );
    assert_eq!(split_reply("HTTP/1.1 200 OK\r\n"), None);
    assert!(reply_is_well("HTTP/1.1 200 OK", Some("ok"), Some("Base Search")));
    assert!(reply_is_well("HTTP/1.0 200 OK", Some("ok"), Some("Base Search")));
    assert!(!reply_is_well("HTTP/1.1 404 Not Found", Some("ok"), Some("Base Search")));
    assert!(!reply_is_well("HTTP/1.1 200 OK", Some("busy"), Some("Base Search")));
    assert!(!reply_is_well("HTTP/1.1 200 OK", None, Some("Base Search")));
    assert!(!health_is_ready(b"HTTP/1.1 200 OK\r\n\r\n{\"status\":\"ok\",\"name\":1}"));
    assert!(!health_is_ready(b"HTTP/1.1 200 OK\r\n\r\nno json"));
    // A body that is no text is read with marks in place of what is not.
    assert!(health_is_ready(
        b"HTTP/1.1 200 OK\r\nX: \xff\r\n\r\n{\"name\":\"Base Search\",\"status\":\"ok\"}"
    ));
    assert!(health_is_ready(
        b"HTTP/1.1 200 OK\r\n\r\n{\"name\":\"Base \\u0053earch\",\"status\":\"ok\"}"
    ));
}

#[test]
fn browser_open_is_emitted_only_after_the_current_server_is_ready() {
    let mut model = LauncherModel::new(path("data/base_search.db"), true);
    let generation = model.begin_start();

    assert_eq!(model.status(), LaunchStatus::Starting);
    assert_eq!(
        model.apply(
            generation,
            LaunchEvent::Prepared {
                urls: WorkspaceUrls {
                    local: "http://127.0.0.1:7834".to_string(),
                    lan: None,
                },
            },
        ),
        None
    );
    assert_eq!(
        model.apply(
            generation,
            LaunchEvent::Progress("Upgrading database: 40%".to_string()),
        ),
        None
    );
    assert_eq!(model.stage(), "Upgrading database: 40%");
    assert_eq!(
        model.apply(generation.wrapping_sub(1), LaunchEvent::Ready),
        None,
        "a late event from an old server must be ignored"
    );
    assert_eq!(
        model.apply(generation, LaunchEvent::Ready),
        Some(LaunchAction::OpenBrowser("http://127.0.0.1:7834".to_string()))
    );
    assert_eq!(model.status(), LaunchStatus::Ready);
    assert_eq!(model.apply(generation, LaunchEvent::Ready), None);
}

#[test]
fn failed_and_stopped_launches_never_keep_a_dead_workspace_url() {
    let mut model = LauncherModel::new(path("data/base_search.db"), false);
    let generation = model.begin_start();
    model.apply(
        generation,
        LaunchEvent::Prepared {
            urls: WorkspaceUrls {
                local: "http://127.0.0.1:7834".to_string(),
                lan: Some("http://192.168.1.50:7834".to_string()),
            },
        },
    );
    assert_eq!(model.local_url(), Some("http://127.0.0.1:7834"));

    model.apply(
        generation,
        LaunchEvent::Failed("port stolen mid-start".to_string()),
    );
    assert_eq!(model.local_url(), None, "a failed launch has no working URL");
    assert_eq!(model.lan_url(), None);

    let generation = model.begin_start();
    model.apply(
        generation,
        LaunchEvent::Prepared {
            urls: WorkspaceUrls {
                local: "http://127.0.0.1:7835".to_string(),
                lan: None,
            },
        },
    );
    model.apply(generation, LaunchEvent::Ready);
    model.stop();
    assert_eq!(model.local_url(), None, "a stopped workspace has no URL");
    assert_eq!(model.lan_url(), None);
}

#[test]
fn lan_mode_state_exposes_both_urls_but_opens_loopback_and_locks_mode_while_running() {
    let mut model = LauncherModel::new(path("data/base_search.db"), true);
    model.set_mode(WorkspaceMode::TrustedLan).unwrap();
    let generation = model.begin_start();

    model.apply(
        generation,
        LaunchEvent::Prepared {
            urls: WorkspaceUrls {
                local: "http://127.0.0.1:7833".to_string(),
                lan: Some("http://192.168.1.50:7833".to_string()),
            },
        },
    );
    assert_eq!(model.local_url(), Some("http://127.0.0.1:7833"));
    assert_eq!(model.lan_url(), Some("http://192.168.1.50:7833"));
    assert_eq!(
        model.apply(generation, LaunchEvent::Ready),
        Some(LaunchAction::OpenBrowser("http://127.0.0.1:7833".to_string()))
    );
    assert!(model.set_mode(WorkspaceMode::Personal).is_err());

    model.stop();
    model.set_mode(WorkspaceMode::Personal).unwrap();
    assert_eq!(model.mode(), WorkspaceMode::Personal);
}

/// The state that a launcher is in once it was made: it has read what it
/// remembers, and nothing was started.
fn fresh_launcher(config: LauncherConfig, read: PreferencesRead) -> (LauncherModel, u16) {
    let loaded = load_launcher_preferences(read, config.preferred_port);
    let mut model = LauncherModel::new(config.db_path, config.open_browser);
    model.set_mode(loaded.preferences.mode).unwrap();
    (model, loaded.preferences.preferred_port)
}

fn quiet_config() -> LauncherConfig {
    LauncherConfig {
        db_path: path("data/base_search.db"),
        preferred_port: 7833,
        open_browser: false,
    }
}

fn lan_preferences(preferred_port: u16) -> PreferencesRead {
    PreferencesRead::Read(Some(LauncherPreferences {
        version: LAUNCHER_PREFERENCES_VERSION,
        mode: WorkspaceMode::TrustedLan,
        preferred_port,
    }))
}

#[test]
fn launcher_waits_for_mode_confirmation_before_starting() {
    let (model, _) = fresh_launcher(quiet_config(), PreferencesRead::Missing);

    assert_eq!(model.status(), LaunchStatus::Stopped);
}

#[test]
fn launcher_loads_saved_mode_and_port_without_starting() {
    let (model, preferred_port) = fresh_launcher(quiet_config(), lan_preferences(8456));

    assert_eq!(model.status(), LaunchStatus::Stopped);
    assert_eq!(model.mode(), WorkspaceMode::TrustedLan);
    assert_eq!(preferred_port, 8456);
}

#[test]
fn launcher_mode_and_port_changes_are_persisted_together() {
    let file = launcher_preferences_path(&path("data/base_search.db"));
    let mut folder = Folder { files: Vec::new() };
    let (mut model, _) = fresh_launcher(quiet_config(), PreferencesRead::Missing);

    let preferences =
        update_preferences(&model.status(), WorkspaceMode::TrustedLan, 8456).unwrap();
    folder.save(&file, &preferences, None).unwrap();
    model.set_mode(preferences.mode).unwrap();

    assert_eq!(model.mode(), WorkspaceMode::TrustedLan);
    assert_eq!(preferences.preferred_port, 8456);
    let loaded = load_launcher_preferences(folder.read("base_search.db.launcher.json"), 7833);
    assert_eq!(loaded.preferences.mode, WorkspaceMode::TrustedLan);
    assert_eq!(loaded.preferences.preferred_port, 8456);
}

#[test]
fn settings_stay_as_they_are_while_the_workspace_runs() {
    assert_eq!(
        update_preferences(&LaunchStatus::Stopped, WorkspaceMode::Personal, 0).unwrap_err(),
        "Preferred port must be between 1 and 65535."
    );
    for status in [LaunchStatus::Starting, LaunchStatus::Ready] {
        assert!(!can_configure(&status));
        assert_eq!(
            update_preferences(&status, WorkspaceMode::Personal, 7833).unwrap_err(),
            "Stop the workspace before changing launcher settings."
        );
    }
    assert!(can_configure(&LaunchStatus::Error("x".to_string())));
    let config = LauncherConfig::local(path("a.db"));
    assert_eq!((config.preferred_port, config.open_browser), (7833, true));
}

/// What a launcher has set up once it was opened: a saved shared mode is entered,
/// with the accounts that there are.
fn opened_setup(read: PreferencesRead, accounts: usize) -> LanSetup {
    let (model, _) = fresh_launcher(quiet_config(), read);
    let mut setup = LanSetup::new();
    let change = apply_preferences(WorkspaceMode::Personal, model.mode());
    setup.mode_changed(change);
    if change == SetupChange::EnterLan {
        setup.accounts_read(account_state(Ok(accounts)));
        setup.interfaces_read(Ok(Vec::new()));
    }
    setup
}

#[test]
fn saved_lan_mode_prompts_for_first_owner_without_retaining_credentials() {
    let setup = opened_setup(lan_preferences(7833), 0);

    assert_eq!(setup.accounts, LanAccountState::NeedsOwner);
    assert!(!setup.confirmed);
    assert!(setup.password.is_empty());
    assert!(setup.confirmation.is_empty());
}

#[test]
fn successful_first_owner_creation_clears_password_fields_and_enables_lan() {
    let mut setup = opened_setup(lan_preferences(7833), 0);
    setup.username = "owner".to_string();
    setup.password = "strong-password".to_string();
    setup.confirmation = "strong-password".to_string();

    let accounts = RefCell::new(Vec::new());
    let created = bootstrap_first_owner_with(
        &path("data/base_search.db"),
        &setup.username,
        &setup.password,
        &setup.confirmation,
        |_: &FilePath| Ok(accounts.borrow().clone()),
        |_: &FilePath, username: &str, _: &str, role: &str| {
            accounts
                .borrow_mut()
                .push((username.to_string(), role.to_string(), "now".to_string()));
            Ok(())
        },
    );
    setup.owner_created(created, account_state(Ok(accounts.borrow().len()))).unwrap();

    assert_eq!(setup.accounts, LanAccountState::Ready);
    assert!(setup.password.is_empty());
    assert!(setup.confirmation.is_empty());
    assert_eq!(
        setup.feedback.as_deref(),
        Some("Owner account created. LAN sign-in is ready.")
    );
    assert!(validate_start_requirements(
        WorkspaceMode::TrustedLan,
        true,
        setup.accounts == LanAccountState::Ready,
        Some(Ipv4::new(192, 168, 1, 20)),
    )
    .is_ok());
}

#[test]
fn an_owner_that_was_not_made_keeps_what_was_typed() {
    let mut setup = opened_setup(lan_preferences(7833), 0);
    setup.password = "strong-password".to_string();
    setup.confirmation = "another".to_string();
    let refused = setup.owner_created(Err("No match.".to_string()), LanAccountState::Ready);
    assert_eq!(refused.unwrap_err(), "No match.");
    assert_eq!(setup.feedback.as_deref(), Some("No match."));
    assert_eq!((setup.password.as_str(), setup.confirmation.as_str()), ("strong-password", "another"));
    assert_eq!(setup.accounts, LanAccountState::NeedsOwner);

    let lost = setup.owner_created(Ok(()), LanAccountState::NeedsOwner).unwrap_err();
    assert_eq!(lost, "The owner account was created but could not be reloaded.");
    assert_eq!(setup.feedback, Some(lost));
    assert!(setup.password.is_empty() && setup.confirmation.is_empty());
}

#[test]
fn a_confirmation_is_withdrawn_with_what_it_was_given_for() {
    let at = |last: u8| TrustedIpv4Interface {
        name: "lan".to_string(),
        address: Ipv4::new(10, 0, 0, last),
    };
    let shared = WorkspaceMode::TrustedLan;
    let mut setup = opened_setup(lan_preferences(7833), 1);
    setup.interfaces_read(Ok(vec![at(1), at(2)]));
    setup.confirmed = true;
    assert!(setup.can_start(shared) && setup.start(shared));
    assert_eq!(setup.feedback, None);

    setup.selection_settled(true, setup.lan.selected);
    assert!(setup.confirmed);
    let before = setup.lan.selected;
    setup.lan.selected = Some(at(2).address);
    setup.selection_settled(false, before);
    assert!(setup.confirmed);
    setup.selection_settled(true, before);
    assert!(!setup.confirmed && !setup.start(shared));
    assert_eq!(
        setup.feedback.as_deref(),
        Some("Please confirm that this is a trusted LAN or VPN.")
    );

    setup.confirmed = true;
    setup.stopped(WorkspaceMode::Personal);
    assert!(setup.confirmed);
    setup.stopped(shared);
    assert!(!setup.confirmed);

    setup.confirmed = true;
    setup.mode_changed(SetupChange::Nothing);
    assert!(setup.confirmed && setup.feedback.is_some());
    setup.mode_changed(SetupChange::EnterLan);
    assert!(!setup.confirmed && setup.feedback.is_none());
    assert_eq!(setup.lan.interfaces.len(), 2);

    setup.confirmed = true;
    setup.mode_changed(SetupChange::LeaveLan);
    assert!(!setup.confirmed && setup.lan.interfaces.is_empty());
    assert_eq!((setup.lan.selected, setup.accounts.clone()), (None, LanAccountState::NotChecked));
    assert!(setup.can_start(WorkspaceMode::Personal) && !setup.can_start(shared));
}

#[test]
fn what_is_known_of_the_accounts_is_said() {
    assert_eq!(
        account_state(Err("locked".to_string())),
        LanAccountState::Error("locked".to_string())
    );
    assert_eq!(
        account_folder_problem("denied"),
        LanAccountState::Error("Cannot create the database folder: denied".to_string())
    );
    assert_eq!(
        owner_feedback(Err("locked".to_string()), &LanAccountState::Ready).unwrap_err(),
        "locked"
    );
    assert_eq!(
        owner_feedback(Ok(()), &LanAccountState::NeedsOwner).unwrap_err(),
        "The owner account was created but could not be reloaded."
    );
}

#[test]
fn a_selected_interface_is_kept_while_it_is_there() {
    let at = |name: &str, last: u8| TrustedIpv4Interface {
        name: name.to_string(),
        address: Ipv4::new(10, 0, 0, last),
    };
    let kept = refresh_lan_interfaces(
        Some(Ipv4::new(10, 0, 0, 2)),
        Ok(vec![at("a", 1), at("b", 2)]),
    );
    assert_eq!(kept.selected, Some(Ipv4::new(10, 0, 0, 2)));
    assert_eq!(kept.problem, None);
    let gone = refresh_lan_interfaces(Some(Ipv4::new(10, 0, 0, 9)), Ok(vec![at("a", 1)]));
    assert_eq!(gone.selected, Some(Ipv4::new(10, 0, 0, 1)));
    let none = refresh_lan_interfaces(Some(Ipv4::new(10, 0, 0, 9)), Ok(Vec::new()));
    assert_eq!(none.selected, None);
    assert!(none.problem.unwrap().starts_with("No private LAN or VPN IPv4 interface"));
    let failed = refresh_lan_interfaces(None, Err("denied".to_string()));
    assert_eq!(
        failed.problem.as_deref(),
        Some("Network interfaces could not be read: denied")
    );
    assert!(confirmation_stands(true, gone.selected, gone.selected));
    assert!(!confirmation_stands(true, kept.selected, gone.selected));
    assert!(!confirmation_stands(false, None, None));
    assert_eq!(
        apply_preferences(WorkspaceMode::Personal, WorkspaceMode::TrustedLan),
        SetupChange::EnterLan
    );
    assert_eq!(
        apply_preferences(WorkspaceMode::TrustedLan, WorkspaceMode::Personal),
        SetupChange::LeaveLan
    );
    assert_eq!(
        apply_preferences(WorkspaceMode::Personal, WorkspaceMode::Personal),
        SetupChange::Nothing
    );
}

#[test]
fn trusted_lan_requires_an_account_and_explicit_confirmation() {
    assert!(validate_start_requirements(WorkspaceMode::Personal, false, false, None).is_ok());

    let address = Some(Ipv4::new(192, 168, 1, 20));
    let no_account =
        validate_start_requirements(WorkspaceMode::TrustedLan, true, false, address).unwrap_err();
    assert!(no_account.contains("owner"));

    let no_confirmation =
        validate_start_requirements(WorkspaceMode::TrustedLan, false, true, address).unwrap_err();
    assert!(no_confirmation.contains("confirm"));

    let no_interface =
        validate_start_requirements(WorkspaceMode::TrustedLan, true, true, None).unwrap_err();
    assert!(no_interface.contains("No usable private LAN or VPN"));

    assert!(validate_start_requirements(WorkspaceMode::TrustedLan, true, true, address).is_ok());
}

#[test]
fn stopping_invalidates_late_readiness_events() {
    let mut model = LauncherModel::new(path("data/base_search.db"), true);
    let generation = model.begin_start();

    model.stop();

    assert_eq!(model.apply(generation, LaunchEvent::Ready), None);
    assert_eq!(model.status(), LaunchStatus::Stopped);
}

#[test]
fn launches_are_numbered_on() {
    assert_eq!(following_generation(0), 1);
    let mut model = LauncherModel::new(path("a.db"), true);
    let first = model.begin_start();
    let stopped = model.stop();
    let second = model.begin_start();
    assert!(first != stopped && stopped != second && first != second);
}

#[test]
fn a_log_keeps_its_last_lines() {
    let mut log = LaunchLog::new();
    for n in 0..MAX_LOG_LINES + 3 {
        log.push_log(&format!("line {n}"));
    }
    assert_eq!(log.lines.len(), MAX_LOG_LINES);
    assert_eq!(log.lines[0], "line 3");
    assert_eq!(log.lines[MAX_LOG_LINES - 1], format!("line {}", MAX_LOG_LINES + 2));
}

#[test]
fn migration_output_is_converted_into_visible_startup_progress() {
    assert_eq!(
        startup_progress_text(
            "[base-search] Database upgrade: 40% (800000 of 2000000 rows, 15s elapsed)"
        ),
        Some("Database upgrade: 40% (800000 of 2000000 rows, 15s elapsed)".to_string())
    );
    assert_eq!(
        startup_progress_text(
            "[base-search] One-time database upgrade: computing typed columns for 2000000 rows."
        ),
        Some("One-time database upgrade: computing typed columns for 2000000 rows.".to_string())
    );
    assert_eq!(startup_progress_text("ordinary diagnostic output"), None);
}

#[test]
fn progress_is_told_by_its_words() {
    assert_eq!(startup_progress_text("  [base-search]  INDEX built "), Some("INDEX built".to_string()));
    assert_eq!(startup_progress_text("[base-search] Migration 3"), Some("Migration 3".to_string()));
    assert_eq!(startup_progress_text("[base-search] listening"), None);
    assert_eq!(startup_progress_text("upgrade"), None);
}

fn end(_: u32) -> Result<(), String> {
    Ok(())
}

fn alive(child: u32) -> Option<u32> {
    Some(child)
}

#[test]
fn managed_process_can_be_stopped_and_replaced_cleanly() {
    let mut process = ProcessSlot::new();
    process.activate(1, end).unwrap();
    assert!(process.replace_for_generation(1, 10, end).unwrap());
    assert!(process.is_running_for_generation(1, alive));

    process.stop_for_generation(1, end).unwrap();
    assert!(!process.is_running_for_generation(1, alive));

    assert!(process.replace_for_generation(1, 11, end).unwrap());
    assert!(process.is_running_for_generation(1, alive));
    let ended = RefCell::new(Vec::new());
    assert!(process
        .replace_for_generation(1, 12, |child: u32| {
            ended.borrow_mut().push(child);
            Ok(())
        })
        .unwrap());
    assert_eq!(ended.into_inner(), vec![11]);
    assert!(process.is_running_for_generation(1, alive));
    process.stop_for_generation(1, end).unwrap();
    assert!(!process.is_running_for_generation(1, alive));
}

#[test]
fn stale_start_cannot_install_a_process_after_stop_or_restart() {
    let mut process = ProcessSlot::new();
    process.activate(1, end).unwrap();
    process.activate(2, end).unwrap();

    assert!(!process.replace_for_generation(1, 10, end).unwrap());
    assert!(!process.is_running_for_generation(1, alive));
    assert!(!process.is_running_for_generation(2, alive));

    assert!(process.replace_for_generation(2, 11, end).unwrap());
    assert!(process.is_running_for_generation(2, alive));
    process.activate(3, end).unwrap();
    assert!(!process.is_running_for_generation(2, alive));
    assert!(!process.is_running_for_generation(3, alive));
}

#[test]
fn a_process_that_cannot_be_stopped_is_told() {
    let mut process = ProcessSlot::new();
    process.activate(1, end).unwrap();
    process.replace_for_generation(1, 10, end).unwrap();
    let stuck = |_: u32| Err("stuck".to_string());
    assert_eq!(process.activate(2, stuck).unwrap_err(), "stuck");
    assert!(process.is_generation_active(1));
    process.replace_for_generation(1, 11, end).unwrap();
    assert!(!process.is_running_for_generation(1, |_: u32| None));
    assert!(process.child.is_none());
    process.replace_for_generation(1, 12, end).unwrap();
    process.stop_for_generation(7, stuck).unwrap();
    assert_eq!(process.child, Some(12));
    assert_eq!(process.stop_all(stuck).unwrap_err(), "stuck");
}

#[test]
fn child_server_commands_use_loopback_or_the_selected_lan_interface() {
    let personal_args = build_server_command("data/base_search.db", 8123, Ipv4::localhost());

    assert_eq!(
        personal_args,
        vec![
            "--browser",
            "--db",
            "data/base_search.db",
            "--host",
            "127.0.0.1",
            "--port",
            "8123",
            "--no-open",
        ]
    );

    let lan_args =
        build_server_command("data/base_search.db", 8123, Ipv4::new(100, 100, 42, 7));
    assert_eq!(lan_args[3..5], ["--host", "100.100.42.7"]);
    assert_eq!(lan_args.last().map(String::as_str), Some("--no-open"));
}

#[test]
fn a_server_is_started_step_by_step() {
    let lan = Some(Ipv4::new(192, 168, 1, 20));
    assert!(matches!(
        start_server_worker(false, WorkspaceMode::Personal, None, 7833),
        WorkerStep::Quit
    ));
    assert!(matches!(
        start_server_worker(true, WorkspaceMode::Personal, None, 7833),
        WorkerStep::LookForOther
    ));
    assert!(matches!(
        start_server_worker(true, WorkspaceMode::TrustedLan, lan, 0),
        WorkerStep::SelectPort
    ));
    assert!(matches!(
        start_server_worker(true, WorkspaceMode::TrustedLan, None, 7833),
        WorkerStep::Failed(_)
    ));
    match after_look(true, 7833) {
        WorkerStep::Failed(reason) => assert!(reason.contains("http://127.0.0.1:7833/")),
        _ => panic!("a second server was started"),
    }
    assert!(matches!(after_look(false, 7833), WorkerStep::SelectPort));
    assert!(matches!(after_port(Ok(7834)), WorkerStep::Spawn { port: 7834 }));
    match after_port(Err("none".to_string())) {
        WorkerStep::Failed(reason) => assert_eq!(reason, "Cannot select a local port: none"),
        _ => panic!("no port was selected"),
    }
    assert!(matches!(after_spawn(Ok(())), WorkerStep::Register));
    match after_spawn(Err("missing".to_string())) {
        WorkerStep::Failed(reason) => assert_eq!(reason, "Cannot start the local server: missing"),
        _ => panic!("nothing was started"),
    }
    assert!(matches!(after_register(Ok(true)), WorkerStep::Wait));
    assert!(matches!(after_register(Ok(false)), WorkerStep::Quit));
    assert!(matches!(after_register(Err("x".to_string())), WorkerStep::Failed(_)));
    assert!(matches!(after_wait(Ok(())), WorkerStep::Ready));
    match after_wait(Err("late".to_string())) {
        WorkerStep::StopAndFail { reason } => assert_eq!(reason, "late"),
        _ => panic!("the server never answered"),
    }
    assert_eq!(
        listener_hosts(WorkspaceMode::TrustedLan, Ipv4::new(10, 0, 0, 1)),
        vec![Ipv4::new(10, 0, 0, 1), Ipv4::localhost()]
    );
    assert_eq!(
        listener_hosts(WorkspaceMode::Personal, Ipv4::new(10, 0, 0, 1)),
        vec![Ipv4::localhost()]
    );
}

#[test]
fn a_server_that_is_gone_is_told() {
    let mut model = LauncherModel::new(path("/data/base.db"), false);
    let generation = model.begin_start();
    assert!(model.lost_server(false).is_none());
    assert!(model.apply(generation, LaunchEvent::Ready).is_none());
    assert!(model.lost_server(true).is_none());
    assert_eq!(
        model.lost_server(false).unwrap(),
        "The local server stopped unexpectedly. Restart it to continue."
    );
    model.browser_failed();
    assert_eq!(model.stage(), "Workspace ready; open the URL below manually");
    assert_eq!(model.status(), LaunchStatus::Ready);
}
