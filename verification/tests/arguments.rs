use base_search::launcher::arguments::{
    parse_browser_config, request_of, validate_bind_policy, Argument, Host, Request,
};
use base_search::launcher::network::Ipv4;
use base_search::launcher::worker::build_server_command;

fn host_of(text: &str) -> Option<Host> {
    match text {
        "::1" => return Some(Host::LoopbackV6),
        "::" => return Some(Host::OtherV6),
        _ => {}
    }
    let parts: Vec<u8> = text
        .split('.')
        .map(|part| part.parse().ok())
        .collect::<Option<Vec<u8>>>()?;
    match parts.as_slice() {
        [a, b, c, d] => Some(Host::V4(Ipv4::new(*a, *b, *c, *d))),
        _ => None,
    }
}

fn arguments(texts: &[&str]) -> Vec<Argument> {
    texts
        .iter()
        .map(|text| Argument {
            text: text.to_string(),
            host: host_of(text),
        })
        .collect()
}

#[test]
fn direct_browser_mode_accepts_the_launcher_database_path() {
    let args = arguments(&[
        "--db",
        "data/custom.db",
        "--host",
        "127.0.0.1",
        "--port",
        "8123",
        "--no-open",
    ]);

    let config = parse_browser_config(&args, "data/default.db").unwrap();

    assert_eq!(config.db_path, "data/custom.db");
    assert_eq!(config.port, 8123);
    assert!(!config.open_browser);
}

#[test]
fn direct_browser_mode_accepts_private_interfaces_and_requires_wildcard_confirmation() {
    let selected = arguments(&["--host", "100.100.42.7", "--no-open"]);
    let selected_config = parse_browser_config(&selected, "data/default.db").unwrap();
    assert_eq!(selected_config.host, host_of("100.100.42.7").unwrap());

    let lan = arguments(&["--host", "0.0.0.0", "--confirm-wildcard-bind", "--no-open"]);
    let lan_config = parse_browser_config(&lan, "data/default.db").unwrap();
    assert_eq!(lan_config.host, host_of("0.0.0.0").unwrap());

    let unconfirmed = arguments(&["--host", "0.0.0.0"]);
    let error = parse_browser_config(&unconfirmed, "data/default.db").unwrap_err();
    assert!(error.contains("confirmation"));

    for host in ["8.8.8.8", "169.254.1.2", "::"] {
        let args = arguments(&["--host", host]);
        let error = parse_browser_config(&args, "data/default.db").unwrap_err();
        assert!(error.contains("loopback") || error.contains("RFC1918"));
    }
}

#[test]
fn without_arguments_the_server_is_for_this_computer() {
    let config = parse_browser_config(&Vec::new(), "data/default.db").unwrap();
    assert_eq!(config.db_path, "data/default.db");
    assert_eq!(config.host, Host::V4(Ipv4::localhost()));
    assert_eq!(config.port, 7833);
    assert!(config.open_browser);
    assert!(!config.wildcard_confirmed);
    assert!(validate_bind_policy(Host::LoopbackV6, false).is_ok());
}

#[test]
fn wrong_arguments_are_told() {
    for (texts, message) in [
        (vec!["--host"], "--host requires a valid IP address"),
        (vec!["--host", "here"], "--host requires a valid IP address"),
        (vec!["--port"], "--port must be a number between 1 and 65535"),
        (vec!["--port", "0"], "--port must be a number between 1 and 65535"),
        (vec!["--port", "65536"], "--port must be a number between 1 and 65535"),
        (vec!["--db"], "--db requires a database path"),
        (vec!["--db", "--no-open"], "--db requires a database path"),
        (vec!["--loud"], "Unknown option: --loud"),
    ] {
        let error = parse_browser_config(&arguments(&texts), "a.db").unwrap_err();
        assert_eq!(error, message);
    }
}

#[test]
fn the_server_reads_what_the_launcher_writes() {
    let written = build_server_command("data/my base.db", 8123, Ipv4::new(192, 168, 1, 20));
    assert_eq!(request_of(Some(&written[0])), Request::Browser);
    let texts: Vec<&str> = written[1..].iter().map(String::as_str).collect();
    let config = parse_browser_config(&arguments(&texts), "a.db").unwrap();
    assert_eq!(config.db_path, "data/my base.db");
    assert_eq!(config.host, Host::V4(Ipv4::new(192, 168, 1, 20)));
    assert_eq!(config.port, 8123);
    assert!(!config.open_browser);
}

#[test]
fn the_first_argument_says_what_is_asked_for() {
    assert_eq!(request_of(None), Request::Launcher);
    for text in ["--help", "-h", "help"] {
        assert_eq!(request_of(Some(text)), Request::Help);
    }
    assert_eq!(request_of(Some("--browser")), Request::Browser);
    assert_eq!(request_of(Some("--legacy-desktop")), Request::LegacyDesktop);
    assert_eq!(
        request_of(Some("--serve")),
        Request::Unknown("Unknown option: --serve".to_string())
    );
}
