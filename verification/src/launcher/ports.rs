//! The choice of the port that the server listens on.
use vstd::prelude::*;
use vstd::string::*;

verus! {

/// How many ports are tried from the preferred one on, and how many of those
/// that the system offers.
pub const PORT_SEARCH_WIDTH: u16 = 128;

/// What is to be tried next.
#[derive(Clone, Debug, PartialEq, Eq)]
pub enum PortStep {
    /// A port is tried on every address.
    Try(u16),
    /// A port that the system offers for the first address is tried on the others.
    TryOffered,
    Found(u16),
    Failed(String),
}

/// A search for a port that is free on every address.
pub struct PortSearch {
    pub preferred: u16,
    pub attempts: u16,
    /// How many ports were tried from the preferred one on.
    pub tried: u16,
    /// How many offered ports were tried.
    pub offered: u16,
}

/// How often is tried: at least once.
pub open spec fn rounds(attempts: u16) -> u16 {
    if attempts == 0 {
        1
    } else {
        attempts
    }
}

/// How often is tried.
fn round_count(attempts: u16) -> (r: u16)
    ensures
        r == rounds(attempts),
{
    if attempts == 0 {
        1
    } else {
        attempts
    }
}

impl PortSearch {
    /// No more was tried than is.
    pub open spec fn wf(&self) -> bool {
        self.tried <= rounds(self.attempts) && self.offered <= rounds(self.attempts)
    }

    /// Whether a port behind the preferred one is next.
    pub open spec fn has_preferred(&self) -> bool {
        self.preferred != 0 && self.tried < rounds(self.attempts) && self.preferred + self.tried
            <= u16::MAX
    }

    /// What is to be tried next.
    pub open spec fn next_step(&self) -> PortStep {
        if self.has_preferred() {
            PortStep::Try((self.preferred + self.tried) as u16)
        } else {
            PortStep::TryOffered
        }
    }

    /// Begins a search. It needs an address to listen on.
    pub fn start(hosts: usize, preferred: u16, attempts: u16) -> (r: Result<Self, String>)
        ensures
            match r {
                Ok(search) => hosts > 0 && search.wf() && search.preferred == preferred
                    && search.attempts == attempts && search.tried == 0 && search.offered == 0,
                Err(e) => hosts == 0 && e@ == "at least one listener address is required"@,
            },
    {
        if hosts == 0 {
            return Err(String::from_str("at least one listener address is required"));
        }
        Ok(PortSearch { preferred, attempts, tried: 0, offered: 0 })
    }

    /// What is to be tried next: the preferred port, then those behind it, then
    /// what the system offers.
    pub fn step(&self) -> (r: PortStep)
        requires
            self.wf(),
        ensures
            r == self.next_step(),
            r is Try || r is TryOffered,
    {
        if self.preferred != 0 && self.tried < round_count(self.attempts) {
            match self.preferred.checked_add(self.tried) {
                Some(port) => {
                    return PortStep::Try(port);
                },
                None => {},
            }
        }
        PortStep::TryOffered
    }

    /// Takes note of whether the port was free on every address. A port that was
    /// is the answer; once all was tried, there is none.
    pub fn tried_port(&mut self, port: u16, free: bool) -> (r: PortStep)
        requires
            old(self).wf(),
            old(self).has_preferred() ==> port == old(self).preferred + old(self).tried,
            !old(self).has_preferred() ==> old(self).offered < rounds(old(self).attempts),
        ensures
            final(self).wf(),
            final(self).preferred == old(self).preferred,
            final(self).attempts == old(self).attempts,
            free ==> r == PortStep::Found(port) && *final(self) == *old(self),
            !free && old(self).has_preferred() ==> final(self).tried == old(self).tried + 1
                && final(self).offered == old(self).offered && r == final(self).next_step(),
            !free && !old(self).has_preferred() ==> final(self).tried == old(self).tried
                && final(self).offered == old(self).offered + 1 && (if final(self).offered
                < rounds(final(self).attempts) {
                r == PortStep::TryOffered
            } else {
                r is Failed && r->Failed_0@
                    == "no port is available on every selected listener address"@
            }),
    {
        if free {
            return PortStep::Found(port);
        }
        match self.step() {
            PortStep::Try(_) => {
                self.tried = self.tried + 1;
                self.step()
            },
            _ => {
                self.offered = self.offered + 1;
                if self.offered < round_count(self.attempts) {
                    PortStep::TryOffered
                } else {
                    PortStep::Failed(
                        String::from_str("no port is available on every selected listener address"),
                    )
                }
            },
        }
    }
}

/// Ports are tried upwards from the preferred one, none beyond the last, and at
/// least one; without a preferred one, any that the system offers is taken.
pub proof fn ports_are_tried_upwards(search: PortSearch)
    requires
        search.wf(),
    ensures
        rounds(0) == 1,
        search.attempts > 0 ==> rounds(search.attempts) == search.attempts,
        match search.next_step() {
            PortStep::Try(port) => port == search.preferred + search.tried && port
                >= search.preferred && search.preferred > 0,
            PortStep::TryOffered => search.preferred == 0 || search.tried == rounds(
                search.attempts,
            ) || search.preferred + search.tried > 65535,
            _ => false,
        },
{
}

} // verus!
