//! The arguments of the program.
use vstd::prelude::*;
use vstd::string::*;

use crate::launcher::network::{is_trusted_lan_ipv4, localhost, trusted, Ipv4};
use crate::launcher::setup::DEFAULT_PORT;
use crate::launcher::worker::server_args;
use crate::number::{decimal, parse_unsigned, read_unsigned, unsigned_round_trip};
use crate::text::{begins, same, starts_with};

verus! {

/// What the program is asked to do.
#[derive(Clone, Debug, PartialEq, Eq)]
pub enum Request {
    Help,
    Browser,
    LegacyDesktop,
    Launcher,
    Unknown(String),
}

/// What the program is asked to do, by its first argument.
pub fn request_of(first: Option<&str>) -> (r: Request)
    ensures
        match first {
            None => r is Launcher,
            Some(s) => if s@ == "--help"@ || s@ == "-h"@ || s@ == "help"@ {
                r is Help
            } else if s@ == "--browser"@ {
                r is Browser
            } else if s@ == "--legacy-desktop"@ {
                r is LegacyDesktop
            } else {
                r is Unknown && r->Unknown_0@ == "Unknown option: "@ + s@
            },
        },
{
    match first {
        None => Request::Launcher,
        Some(s) => if same(s, "--help") || same(s, "-h") || same(s, "help") {
            Request::Help
        } else if same(s, "--browser") {
            Request::Browser
        } else if same(s, "--legacy-desktop") {
            Request::LegacyDesktop
        } else {
            let mut message = String::from_str("Unknown option: ");
            message.append(s);
            Request::Unknown(message)
        },
    }
}

/// An address that the server is to listen on.
#[derive(Clone, Copy, Debug, PartialEq, Eq, Structural)]
pub enum Host {
    V4(Ipv4),
    /// An address of the sixth version that points back to this computer.
    LoopbackV6,
    /// Any other address of the sixth version.
    OtherV6,
}

/// An argument, with the address that it is, if it is one.
#[derive(Clone, Debug)]
pub struct Argument {
    pub text: String,
    pub host: Option<Host>,
}

/// How the server is to run.
#[derive(Clone, Debug)]
pub struct BrowserConfig {
    pub db_path: String,
    pub host: Host,
    pub port: u16,
    pub open_browser: bool,
    pub wildcard_confirmed: bool,
}

/// How the server is to run, as the arguments say.
#[verifier::ext_equal]
pub ghost struct ConfigModel {
    pub db_path: Seq<char>,
    pub host: Host,
    pub port: nat,
    pub open_browser: bool,
    pub wildcard_confirmed: bool,
}

impl View for BrowserConfig {
    type V = ConfigModel;

    open spec fn view(&self) -> ConfigModel {
        ConfigModel {
            db_path: self.db_path@,
            host: self.host,
            port: self.port as nat,
            open_browser: self.open_browser,
            wildcard_confirmed: self.wildcard_confirmed,
        }
    }
}

/// How the server runs where no argument says otherwise.
pub open spec fn plain_config(db_path: Seq<char>) -> ConfigModel {
    ConfigModel {
        db_path,
        host: Host::V4(localhost()),
        port: DEFAULT_PORT as nat,
        open_browser: true,
        wildcard_confirmed: false,
    }
}

/// The port that an argument is, if it is one.
pub open spec fn port_of(text: Seq<char>) -> Option<nat> {
    match read_unsigned(text, u16::MAX as nat) {
        Some(n) => if n == 0 {
            None
        } else {
            Some(n)
        },
        None => None,
    }
}

/// What the arguments from a place on say of how the server is to run.
pub open spec fn config_from(args: Seq<Argument>, config: ConfigModel, i: int) -> Result<
    ConfigModel,
    Seq<char>,
>
    decreases args.len() - i,
{
    if i < 0 || i >= args.len() {
        Ok(config)
    } else {
        let option = args[i].text@;
        let has_value = i + 1 < args.len();
        if option == "--host"@ {
            if has_value && args[i + 1].host is Some {
                config_from(args, ConfigModel { host: args[i + 1].host->0, ..config }, i + 2)
            } else {
                Err("--host requires a valid IP address"@)
            }
        } else if option == "--port"@ {
            if has_value && port_of(args[i + 1].text@) is Some {
                config_from(
                    args,
                    ConfigModel { port: port_of(args[i + 1].text@)->0, ..config },
                    i + 2,
                )
            } else {
                Err("--port must be a number between 1 and 65535"@)
            }
        } else if option == "--db"@ {
            if has_value && !begins(args[i + 1].text@, "--"@) {
                config_from(args, ConfigModel { db_path: args[i + 1].text@, ..config }, i + 2)
            } else {
                Err("--db requires a database path"@)
            }
        } else if option == "--no-open"@ {
            config_from(args, ConfigModel { open_browser: false, ..config }, i + 1)
        } else if option == "--confirm-wildcard-bind"@ {
            config_from(args, ConfigModel { wildcard_confirmed: true, ..config }, i + 1)
        } else {
            Err("Unknown option: "@ + option)
        }
    }
}

/// Why the server may not listen on an address, if so.
pub open spec fn bind_problem(host: Host, wildcard_confirmed: bool) -> Option<Seq<char>> {
    match host {
        Host::LoopbackV6 => None,
        Host::V4(address) => if address.a == 127 || trusted(address) {
            None
        } else if address == (Ipv4 { a: 0, b: 0, c: 0, d: 0 }) {
            if wildcard_confirmed {
                None
            } else {
                Some("Binding every interface requires an explicit confirmation."@)
            }
        } else {
            Some("The server binds loopback, RFC1918 and CGNAT addresses only."@)
        },
        Host::OtherV6 => Some("The server binds loopback, RFC1918 and CGNAT addresses only."@),
    }
}

/// Refuses an address of an open network. Every interface at once needs a
/// confirmation.
pub fn validate_bind_policy(host: Host, wildcard_confirmed: bool) -> (r: Result<(), String>)
    ensures
        match r {
            Ok(_) => bind_problem(host, wildcard_confirmed) is None,
            Err(e) => bind_problem(host, wildcard_confirmed) == Some(e@),
        },
{
    match host {
        Host::LoopbackV6 => Ok(()),
        Host::V4(address) => if address.is_loopback() || is_trusted_lan_ipv4(address) {
            Ok(())
        } else if address.is_wildcard() {
            if wildcard_confirmed {
                Ok(())
            } else {
                Err(String::from_str("Binding every interface requires an explicit confirmation."))
            }
        } else {
            Err(String::from_str("The server binds loopback, RFC1918 and CGNAT addresses only."))
        },
        Host::OtherV6 => Err(
            String::from_str("The server binds loopback, RFC1918 and CGNAT addresses only."),
        ),
    }
}

/// How the server is to run, or what is wrong with the arguments.
pub open spec fn browser_config(args: Seq<Argument>, db_path: Seq<char>) -> Result<
    ConfigModel,
    Seq<char>,
> {
    match config_from(args, plain_config(db_path), 0) {
        Ok(config) => match bind_problem(config.host, config.wildcard_confirmed) {
            None => Ok(config),
            Some(e) => Err(e),
        },
        Err(e) => Err(e),
    }
}

/// Reads how the server is to run.
pub fn parse_browser_config(args: &Vec<Argument>, default_db_path: &str) -> (r: Result<
    BrowserConfig,
    String,
>)
    ensures
        match r {
            Ok(config) => browser_config(args@, default_db_path@) == Ok::<ConfigModel, Seq<char>>(
                config@,
            ),
            Err(e) => browser_config(args@, default_db_path@) == Err::<ConfigModel, Seq<char>>(e@),
        },
{
    let mut config = BrowserConfig {
        db_path: String::from_str(default_db_path),
        host: Host::V4(Ipv4::localhost()),
        port: DEFAULT_PORT,
        open_browser: true,
        wildcard_confirmed: false,
    };
    let mut i: usize = 0;
    while i < args.len()
        invariant
            i <= args@.len(),
            config_from(args@, config@, i as int) == config_from(
                args@,
                plain_config(default_db_path@),
                0,
            ),
        decreases args.len() - i,
    {
        let option = args[i].text.as_str();
        let has_value = i < args.len() - 1;
        if same(option, "--host") {
            if !has_value {
                return Err(String::from_str("--host requires a valid IP address"));
            }
            match args[i + 1].host {
                Some(host) => {
                    config.host = host;
                },
                None => {
                    return Err(String::from_str("--host requires a valid IP address"));
                },
            }
            i += 2;
        } else if same(option, "--port") {
            if !has_value {
                return Err(String::from_str("--port must be a number between 1 and 65535"));
            }
            match parse_unsigned(args[i + 1].text.as_str(), 65535) {
                Some(n) => {
                    if n == 0 {
                        return Err(String::from_str("--port must be a number between 1 and 65535"));
                    }
                    config.port = n as u16;
                },
                None => {
                    return Err(String::from_str("--port must be a number between 1 and 65535"));
                },
            }
            i += 2;
        } else if same(option, "--db") {
            if !has_value || starts_with(args[i + 1].text.as_str(), "--") {
                return Err(String::from_str("--db requires a database path"));
            }
            config.db_path = args[i + 1].text.clone();
            i += 2;
        } else if same(option, "--no-open") {
            config.open_browser = false;
            i += 1;
        } else if same(option, "--confirm-wildcard-bind") {
            config.wildcard_confirmed = true;
            i += 1;
        } else {
            let mut message = String::from_str("Unknown option: ");
            message.append(option);
            return Err(message);
        }
    }
    match validate_bind_policy(config.host, config.wildcard_confirmed) {
        Ok(_) => Ok(config),
        Err(e) => Err(e),
    }
}

/// The server never listens on an open network: every address that the
/// arguments can give is this computer's, one of a trusted network, or every
/// interface after a confirmation.
pub proof fn no_open_network(args: Seq<Argument>, db_path: Seq<char>, config: ConfigModel)
    requires
        browser_config(args, db_path) == Ok::<ConfigModel, Seq<char>>(config),
    ensures
        match config.host {
            Host::LoopbackV6 => true,
            Host::OtherV6 => false,
            Host::V4(address) => address.a == 127 || trusted(address) || (address == (Ipv4 {
                a: 0,
                b: 0,
                c: 0,
                d: 0,
            }) && config.wildcard_confirmed),
        },
{
}

/// The texts of some arguments.
pub open spec fn argument_texts(args: Seq<Argument>) -> Seq<Seq<char>> {
    args.map_values(|a: Argument| a.text@)
}

/// The server accepts what the launcher starts it with: the database, the
/// address and the port arrive as they were given, and no browser is opened.
pub proof fn server_accepts_the_launcher(
    args: Seq<Argument>,
    db_path: Seq<char>,
    port: u16,
    bind_host: Ipv4,
    default_db_path: Seq<char>,
)
    requires
        argument_texts(args) == server_args(db_path, port, bind_host).drop_first(),
        args[3].host == Some(Host::V4(bind_host)),
        bind_host == localhost() || trusted(bind_host),
        port != 0,
        !begins(db_path, "--"@),
    ensures
        browser_config(args, default_db_path) == Ok::<ConfigModel, Seq<char>>(
            ConfigModel {
                db_path,
                host: Host::V4(bind_host),
                port: port as nat,
                open_browser: false,
                wildcard_confirmed: false,
            },
        ),
{
    let given = server_args(db_path, port, bind_host).drop_first();
    assert(args.len() == given.len());
    assert forall|k: int| 0 <= k < args.len() implies #[trigger] args[k].text@ == given[k] by {
        assert(argument_texts(args)[k] == args[k].text@);
    }
    reveal_strlit("--db");
    reveal_strlit("--host");
    reveal_strlit("--port");
    reveal_strlit("--no-open");
    assert("--db"@.len() == 4);
    assert("--host"@[2] == 'h');
    assert("--port"@[2] == 'p');
    assert("--no-open"@.len() == 9);
    unsigned_round_trip(port as nat, u16::MAX as nat);
    let c0 = plain_config(default_db_path);
    let c1 = ConfigModel { db_path, ..c0 };
    let c2 = ConfigModel { host: Host::V4(bind_host), ..c1 };
    let c3 = ConfigModel { port: port as nat, ..c2 };
    let c4 = ConfigModel { open_browser: false, ..c3 };
    assert(args[0].text@ == "--db"@);
    assert(args[1].text@ == db_path);
    assert(args[2].text@ == "--host"@);
    assert(args[4].text@ == "--port"@);
    assert(args[5].text@ == decimal(port as nat));
    assert(args[6].text@ == "--no-open"@);
    assert(config_from(args, c0, 0) == config_from(args, c1, 2));
    assert(config_from(args, c1, 2) == config_from(args, c2, 4));
    assert(config_from(args, c2, 4) == config_from(args, c3, 6));
    assert(config_from(args, c3, 6) == config_from(args, c4, 7));
}

/// What no option names stays as it was, and a port lies between 1 and 65535.
pub proof fn options_change_what_they_name(args: Seq<Argument>, config: ConfigModel, i: int)
    requires
        1 <= config.port <= 65535,
    ensures
        match config_from(args, config, i) {
            Ok(read) => 1 <= read.port <= 65535,
            Err(_) => true,
        },
        (forall|k: int| i <= k < args.len() ==> #[trigger] args[k].text@ != "--port"@) ==> match config_from(
            args,
            config,
            i,
        ) {
            Ok(read) => read.port == config.port,
            Err(_) => true,
        },
        (forall|k: int| i <= k < args.len() ==> #[trigger] args[k].text@ != "--no-open"@)
            ==> match config_from(args, config, i) {
            Ok(read) => read.open_browser == config.open_browser,
            Err(_) => true,
        },
        (forall|k: int|
            i <= k < args.len() ==> #[trigger] args[k].text@ != "--confirm-wildcard-bind"@)
            ==> match config_from(args, config, i) {
            Ok(read) => read.wildcard_confirmed == config.wildcard_confirmed,
            Err(_) => true,
        },
        (forall|k: int| i <= k < args.len() ==> #[trigger] args[k].text@ != "--db"@)
            ==> match config_from(args, config, i) {
            Ok(read) => read.db_path == config.db_path,
            Err(_) => true,
        },
        (forall|k: int| i <= k < args.len() ==> #[trigger] args[k].text@ != "--host"@)
            ==> match config_from(args, config, i) {
            Ok(read) => read.host == config.host,
            Err(_) => true,
        },
    decreases args.len() - i,
{
    if 0 <= i < args.len() {
        let option = args[i].text@;
        let has_value = i + 1 < args.len();
        if option == "--host"@ {
            if has_value && args[i + 1].host is Some {
                options_change_what_they_name(args, ConfigModel { host: args[i + 1].host->0, ..config }, i + 2);
            }
        } else if option == "--port"@ {
            if has_value && port_of(args[i + 1].text@) is Some {
                options_change_what_they_name(
                    args,
                    ConfigModel { port: port_of(args[i + 1].text@)->0, ..config },
                    i + 2,
                );
            }
        } else if option == "--db"@ {
            if has_value && !begins(args[i + 1].text@, "--"@) {
                options_change_what_they_name(args, ConfigModel { db_path: args[i + 1].text@, ..config }, i + 2);
            }
        } else if option == "--no-open"@ {
            options_change_what_they_name(args, ConfigModel { open_browser: false, ..config }, i + 1);
        } else if option == "--confirm-wildcard-bind"@ {
            options_change_what_they_name(args, ConfigModel { wildcard_confirmed: true, ..config }, i + 1);
        }
    }
}

} // verus!
