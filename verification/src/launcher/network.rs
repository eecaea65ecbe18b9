//! Addresses and the networks that a workspace may be shared on.
use vstd::prelude::*;
use vstd::string::*;

use crate::number::{decimal, decimal_text};

verus! {

/// An address of the fourth version of the internet protocol.
#[derive(Clone, Copy, Debug, PartialEq, Eq, Structural)]
pub struct Ipv4 {
    pub a: u8,
    pub b: u8,
    pub c: u8,
    pub d: u8,
}

/// This computer.
pub open spec fn localhost() -> Ipv4 {
    Ipv4 { a: 127, b: 0, c: 0, d: 1 }
}

/// An address as it is written.
pub open spec fn dotted(address: Ipv4) -> Seq<char> {
    decimal(address.a as nat) + "."@ + decimal(address.b as nat) + "."@ + decimal(address.c as nat)
        + "."@ + decimal(address.d as nat)
}

/// An address of a private network, or one that carriers share among their
/// customers and private networks over the internet use.
pub open spec fn trusted(address: Ipv4) -> bool {
    ||| address.a == 10
    ||| address.a == 172 && 16 <= address.b <= 31
    ||| address.a == 192 && address.b == 168
    ||| address.a == 100 && 64 <= address.b <= 127
}

impl Ipv4 {
    /// An address by its four numbers.
    pub fn new(a: u8, b: u8, c: u8, d: u8) -> (r: Ipv4)
        ensures
            r == (Ipv4 { a, b, c, d }),
    {
        Ipv4 { a, b, c, d }
    }

    /// This computer.
    pub fn localhost() -> (r: Ipv4)
        ensures
            r == localhost(),
    {
        Ipv4 { a: 127, b: 0, c: 0, d: 1 }
    }

    /// The address as it is written.
    pub fn text(&self) -> (r: String)
        ensures
            r@ == dotted(*self),
    {
        let mut out = decimal_text(self.a as u64);
        out.append(".");
        out.append(decimal_text(self.b as u64).as_str());
        out.append(".");
        out.append(decimal_text(self.c as u64).as_str());
        out.append(".");
        out.append(decimal_text(self.d as u64).as_str());
        out
    }

    /// Whether the address points back to this computer.
    pub fn is_loopback(&self) -> (r: bool)
        ensures
            r == (self.a == 127),
    {
        self.a == 127
    }

    /// Whether the address stands for every interface.
    pub fn is_wildcard(&self) -> (r: bool)
        ensures
            r == (self == Ipv4 { a: 0, b: 0, c: 0, d: 0 }),
    {
        self.a == 0 && self.b == 0 && self.c == 0 && self.d == 0
    }
}

/// Whether an address is one of a network that a workspace may be shared on.
pub fn is_trusted_lan_ipv4(address: Ipv4) -> (r: bool)
    ensures
        r == trusted(address),
{
    address.a == 10 || (address.a == 172 && 16 <= address.b && address.b <= 31) || (address.a
        == 192 && address.b == 168) || (address.a == 100 && 64 <= address.b && address.b <= 127)
}

/// Where a workspace is reached at an address.
pub open spec fn url_at(address: Ipv4, port: u16) -> Seq<char> {
    "http://"@ + dotted(address) + ":"@ + decimal(port as nat)
}

/// Where a workspace is reached at an address.
fn url_text(address: Ipv4, port: u16) -> (r: String)
    ensures
        r@ == url_at(address, port),
{
    let mut out = String::from_str("http://");
    out.append(address.text().as_str());
    out.append(":");
    out.append(decimal_text(port as u64).as_str());
    out
}

/// Where a workspace is reached from this computer.
pub fn local_workspace_url(port: u16) -> (r: String)
    ensures
        r@ == url_at(localhost(), port),
{
    url_text(Ipv4::localhost(), port)
}

/// Where a workspace is reached from a trusted network.
pub fn trusted_lan_workspace_url(address: Ipv4, port: u16) -> (r: Option<String>)
    ensures
        match r {
            Some(url) => trusted(address) && url@ == url_at(address, port),
            None => !trusted(address),
        },
{
    if is_trusted_lan_ipv4(address) {
        Some(url_text(address, port))
    } else {
        None
    }
}

/// How a workspace is run.
#[derive(Clone, Copy, Debug, PartialEq, Eq, Structural)]
pub enum WorkspaceMode {
    Personal,
    TrustedLan,
}

impl Default for WorkspaceMode {
    fn default() -> (r: Self)
        ensures
            r is Personal,
    {
        WorkspaceMode::Personal
    }
}

/// Where a workspace is reached.
#[derive(Clone, Debug, PartialEq, Eq)]
pub struct WorkspaceUrls {
    pub local: String,
    pub lan: Option<String>,
}

/// The address at which others reach a workspace, if they may.
pub open spec fn lan_url_of(mode: WorkspaceMode, port: u16, lan_address: Option<Ipv4>) -> Option<
    Seq<char>,
> {
    match (mode, lan_address) {
        (WorkspaceMode::TrustedLan, Some(address)) => if trusted(address) {
            Some(url_at(address, port))
        } else {
            None
        },
        _ => None,
    }
}

/// Where a workspace is reached: always from this computer, and from others only
/// in a trusted network.
pub fn workspace_urls(mode: WorkspaceMode, port: u16, lan_address: Option<Ipv4>) -> (r:
    WorkspaceUrls)
    ensures
        r.local@ == url_at(localhost(), port),
        match r.lan {
            Some(url) => lan_url_of(mode, port, lan_address) == Some(url@),
            None => lan_url_of(mode, port, lan_address) is None,
        },
{
    let lan = match lan_address {
        Some(address) => if mode == WorkspaceMode::TrustedLan {
            trusted_lan_workspace_url(address, port)
        } else {
            None
        },
        None => None,
    };
    WorkspaceUrls { local: local_workspace_url(port), lan }
}

/// What is said where no interface of a trusted network is there.
pub open spec fn no_interface() -> Seq<char> {
    "No usable private LAN or VPN IPv4 interface is available. Connect this computer to a trusted network and refresh interfaces."@
}

/// What is said of an address of another network.
pub open spec fn not_trusted(address: Ipv4) -> Seq<char> {
    "The selected address "@ + dotted(address) + " is not a private LAN or CGNAT VPN address."@
}

/// Which address the server listens on, or why it may not start.
pub open spec fn bind_host_of(mode: WorkspaceMode, lan_address: Option<Ipv4>) -> Result<
    Ipv4,
    Seq<char>,
> {
    match mode {
        WorkspaceMode::Personal => Ok(localhost()),
        WorkspaceMode::TrustedLan => match lan_address {
            Some(address) => if trusted(address) {
                Ok(address)
            } else {
                Err(not_trusted(address))
            },
            None => Err(no_interface()),
        },
    }
}

/// Which address the server listens on: this computer alone, or the selected
/// address of a trusted network.
pub fn selected_bind_host(mode: WorkspaceMode, lan_address: Option<Ipv4>) -> (r: Result<
    Ipv4,
    String,
>)
    ensures
        match r {
            Ok(address) => bind_host_of(mode, lan_address) == Ok::<Ipv4, Seq<char>>(address),
            Err(e) => bind_host_of(mode, lan_address) == Err::<Ipv4, Seq<char>>(e@),
        },
{
    match mode {
        WorkspaceMode::Personal => Ok(Ipv4::localhost()),
        WorkspaceMode::TrustedLan => match lan_address {
            Some(address) => if is_trusted_lan_ipv4(address) {
                Ok(address)
            } else {
                let mut message = String::from_str("The selected address ");
                message.append(address.text().as_str());
                message.append(" is not a private LAN or CGNAT VPN address.");
                Err(message)
            },
            None => Err(
                String::from_str(
                    "No usable private LAN or VPN IPv4 interface is available. Connect this computer to a trusted network and refresh interfaces.",
                ),
            ),
        },
    }
}

/// Why a workspace may not start, if so.
pub open spec fn start_problem(
    mode: WorkspaceMode,
    lan_confirmed: bool,
    account_ready: bool,
    lan_address: Option<Ipv4>,
) -> Option<Seq<char>> {
    if mode == WorkspaceMode::Personal {
        None
    } else if !account_ready {
        Some("Create the first owner account before starting LAN mode."@)
    } else if !lan_confirmed {
        Some("Please confirm that this is a trusted LAN or VPN."@)
    } else {
        match bind_host_of(mode, lan_address) {
            Ok(_) => None,
            Err(e) => Some(e),
        }
    }
}

/// Whether a workspace may start. One that is shared needs an account, a
/// confirmation and a trusted interface.
pub fn validate_start_requirements(
    mode: WorkspaceMode,
    lan_confirmed: bool,
    account_ready: bool,
    lan_address: Option<Ipv4>,
) -> (r: Result<(), String>)
    ensures
        match r {
            Ok(_) => start_problem(mode, lan_confirmed, account_ready, lan_address) is None,
            Err(e) => start_problem(mode, lan_confirmed, account_ready, lan_address) == Some(e@),
        },
{
    if mode == WorkspaceMode::Personal {
        return Ok(());
    }
    if !account_ready {
        return Err(String::from_str("Create the first owner account before starting LAN mode."));
    }
    if !lan_confirmed {
        return Err(String::from_str("Please confirm that this is a trusted LAN or VPN."));
    }
    match selected_bind_host(mode, lan_address) {
        Ok(_) => Ok(()),
        Err(e) => Err(e),
    }
}

/// A workspace that others can reach was confirmed, has an account, and listens
/// on a trusted address; and in personal mode it listens on this computer alone.
pub proof fn sharing_is_deliberate(
    mode: WorkspaceMode,
    lan_confirmed: bool,
    account_ready: bool,
    lan_address: Option<Ipv4>,
    host: Ipv4,
)
    requires
        start_problem(mode, lan_confirmed, account_ready, lan_address) is None,
        bind_host_of(mode, lan_address) == Ok::<Ipv4, Seq<char>>(host),
        host != localhost(),
    ensures
        mode == WorkspaceMode::TrustedLan,
        lan_confirmed,
        account_ready,
        trusted(host),
        lan_address == Some(host),
{
}

/// An address as one number.
pub open spec fn as_number(address: Ipv4) -> int {
    ((address.a * 256 + address.b) * 256 + address.c) * 256 + address.d
}

/// Trusted are the private ranges from 10.0.0.0, 172.16.0.0 and 192.168.0.0 and
/// the shared range from 100.64.0.0, to their last addresses, and no other: neither
/// loopback nor the address of every interface.
pub proof fn trusted_addresses_lie_in_the_private_ranges(address: Ipv4)
    ensures
        trusted(address) <==> 0x0a00_0000 <= as_number(address) <= 0x0aff_ffff || 0xac10_0000
            <= as_number(address) <= 0xac1f_ffff || 0xc0a8_0000 <= as_number(address)
            <= 0xc0a8_ffff || 0x6440_0000 <= as_number(address) <= 0x647f_ffff,
        as_number(localhost()) == 0x7f00_0001,
        !trusted(localhost()),
        as_number(address) == 0 ==> !trusted(address),
{
}

/// A personal workspace is reached from this computer alone; a shared one is bound
/// to the chosen address, and to no address that is not trusted.
pub proof fn a_personal_workspace_is_not_shared(port: u16, address: Ipv4)
    ensures
        bind_host_of(WorkspaceMode::Personal, Some(address)) == Ok::<Ipv4, Seq<char>>(localhost()),
        lan_url_of(WorkspaceMode::Personal, port, Some(address)) is None,
        trusted(address) ==> bind_host_of(WorkspaceMode::TrustedLan, Some(address)) == Ok::<
            Ipv4,
            Seq<char>,
        >(address),
        trusted(address) ==> lan_url_of(WorkspaceMode::TrustedLan, port, Some(address)) == Some(
            "http://"@ + decimal(address.a as nat) + "."@ + decimal(address.b as nat) + "."@
                + decimal(address.c as nat) + "."@ + decimal(address.d as nat) + ":"@ + decimal(
                port as nat,
            ),
        ),
        !trusted(address) ==> bind_host_of(WorkspaceMode::TrustedLan, Some(address)) is Err,
        !trusted(address) ==> lan_url_of(WorkspaceMode::TrustedLan, port, Some(address)) is None,
        bind_host_of(WorkspaceMode::TrustedLan, None) is Err,
{
    if trusted(address) {
        assert(url_at(address, port) =~= "http://"@ + decimal(address.a as nat) + "."@ + decimal(
            address.b as nat,
        ) + "."@ + decimal(address.c as nat) + "."@ + decimal(address.d as nat) + ":"@ + decimal(
            port as nat,
        ));
    }
}

} // verus!
