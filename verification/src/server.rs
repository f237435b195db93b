//! A relay together with what is known of it live: its last status, its
//! ping and whether it answered.

use vstd::prelude::*;
use vstd::string::*;

use crate::models::{PortValue, ServerEntry, ServerStatus};
use crate::probe::{backend_name, backend_str, Backend, StatusReply};
use crate::text::{decimal, decimal_string, find_char, first_index};

verus! {

/// A relay with live state attached.
#[derive(Clone, Debug)]
pub struct Server {
    pub entry: ServerEntry,
    pub status: ServerStatus,
    pub ping_ms: Option<u128>,
    pub reachable: bool,
}

/// The number of players online: the `online` count, else the dotnet
/// `clientCount`, else 0.
pub open spec fn spec_online(st: ServerStatus) -> u32 {
    match st.online {
        Some(n) => n,
        None => match st.client_count {
            Some(c) => c,
            None => 0,
        },
    }
}

/// The number of idle players, 0 where the relay gives none.
pub open spec fn spec_idle(st: ServerStatus) -> u32 {
    match st.idle {
        Some(n) => n,
        None => 0,
    }
}

/// Online players that are not idle; 0 where the idle count is larger.
pub open spec fn spec_active(st: ServerStatus) -> u32 {
    if spec_online(st) >= spec_idle(st) {
        (spec_online(st) - spec_idle(st)) as u32
    } else {
        0
    }
}

/// The ping as it is shown: the milliseconds followed by ` ms`, or a dash
/// where there is none.
pub open spec fn spec_ping_label(ping: Option<u128>) -> Seq<char> {
    match ping {
        Some(ms) => decimal(ms as nat) + " ms"@,
        None => "\u{2014}"@,
    }
}

/// How a ping is judged: below 100 ms good, below 250 ms fair, else poor.
#[derive(Clone, Copy, Debug, PartialEq, Eq, Structural)]
pub enum PingLevel {
    Good,
    Fair,
    Poor,
}

/// The level of a ping of `ms` milliseconds.
pub fn ping_level(ms: u128) -> (l: PingLevel)
    ensures
        ms < 100 ==> l == PingLevel::Good,
        100 <= ms < 250 ==> l == PingLevel::Fair,
        250 <= ms ==> l == PingLevel::Poor,
{
    if ms < 100 {
        PingLevel::Good
    } else if ms < 250 {
        PingLevel::Fair
    } else {
        PingLevel::Poor
    }
}

/// The host part of a typed address: what precedes the first `:`.
pub open spec fn qc_host(addr: Seq<char>) -> Seq<char> {
    addr.take(first_index(addr, ':') as int)
}

/// The port part of a typed address: what follows the first `:`, or the
/// lan-play default 11451 where there is no `:`.
pub open spec fn qc_port(addr: Seq<char>) -> Seq<char> {
    let k = first_index(addr, ':');
    if k < addr.len() {
        addr.skip(k + 1int)
    } else {
        "11451"@
    }
}

/// The list entry for a relay that was typed in as `addr` and detected as
/// `server_type`.
pub fn make_qc_entry(addr: &str, server_type: &str) -> (e: ServerEntry)
    ensures
        e.ip matches Some(ip) && ip@ == qc_host(addr@),
        e.port matches Some(PortValue::Text(p)) && p@ == qc_port(addr@),
        e.server_type matches Some(t) && t@ == server_type@,
        e.flag is None,
        e.hidden is None,
{
    let n = addr.unicode_len();
    let k = find_char(addr, ':');
    let ip = String::from_str(addr.substring_char(0, k));
    let port = if k < n {
        String::from_str(addr.substring_char(k + 1, n))
    } else {
        String::from_str("11451")
    };
    ServerEntry {
        ip: Some(ip),
        port: Some(PortValue::Text(port)),
        server_type: Some(String::from_str(server_type)),
        flag: None,
        hidden: None,
    }
}

/// `s` is the relay found by detection at `addr`: listed under the
/// backend's type with the address as typed, and reachable with the status
/// and ping of the accepted reply.
pub open spec fn is_detected(
    s: Server,
    addr: Seq<char>,
    backend: Backend,
    elapsed_ms: u128,
    status: ServerStatus,
) -> bool {
    &&& s.entry.ip matches Some(ip) && ip@ == qc_host(addr)
    &&& s.entry.port matches Some(PortValue::Text(p)) && p@ == qc_port(addr)
    &&& s.entry.server_type matches Some(t) && t@ == backend_name(backend)
    &&& s.entry.flag is None
    &&& s.entry.hidden is None
    &&& s.status == status
    &&& s.ping_ms == Some(elapsed_ms)
    &&& s.reachable
}

/// `s` after a periodic ping: no answer makes it unreachable with no ping;
/// any answer makes it reachable with the measured ping, and a decoded
/// status replaces the status.
pub open spec fn spec_server_ping(s: Server, r: StatusReply) -> Server {
    match r {
        StatusReply::Unreachable => Server { reachable: false, ping_ms: None, ..s },
        StatusReply::Unreadable { elapsed_ms } => Server {
            reachable: true,
            ping_ms: Some(elapsed_ms),
            ..s
        },
        StatusReply::Received { elapsed_ms, status } => Server {
            status: match status {
                Some(st) => st,
                None => s.status,
            },
            reachable: true,
            ping_ms: Some(elapsed_ms),
            ..s
        },
    }
}

impl Server {
    /// A relay from the list, not yet asked: nothing reported, no ping,
    /// not reachable.
    pub fn from_entry(entry: ServerEntry) -> (s: Server)
        ensures
            s.entry == entry,
            s.status.online is None,
            s.status.idle is None,
            s.status.version is None,
            s.status.client_count is None,
            s.ping_ms is None,
            !s.reachable,
    {
        Server { entry, status: ServerStatus::empty(), ping_ms: None, reachable: false }
    }

    /// A relay found by detection at `addr`: listed under the backend's
    /// type, with the status and ping of the reply, reachable.
    pub fn detected(addr: &str, backend: Backend, elapsed_ms: u128, status: ServerStatus) -> (s:
        Server)
        ensures
            s.entry.ip matches Some(ip) && ip@ == qc_host(addr@),
            s.entry.port matches Some(PortValue::Text(p)) && p@ == qc_port(addr@),
            s.entry.server_type matches Some(t) && t@ == backend_name(backend),
            s.entry.flag is None,
            s.entry.hidden is None,
            s.status == status,
            s.ping_ms == Some(elapsed_ms),
            s.reachable,
    {
        Server {
            entry: make_qc_entry(addr, backend_str(backend)),
            status,
            ping_ms: Some(elapsed_ms),
            reachable: true,
        }
    }

    /// The number of players online.
    pub fn online_count(&self) -> (n: u32)
        ensures
            n == spec_online(self.status),
    {
        match self.status.online {
            Some(n) => n,
            None => match self.status.client_count {
                Some(c) => c,
                None => 0,
            },
        }
    }

    /// The number of idle players.
    pub fn idle_count(&self) -> (n: u32)
        ensures
            n == spec_idle(self.status),
    {
        match self.status.idle {
            Some(n) => n,
            None => 0,
        }
    }

    /// The number of active players.
    pub fn active_count(&self) -> (n: u32)
        ensures
            n == spec_active(self.status),
    {
        let online = self.online_count();
        let idle = self.idle_count();
        if online >= idle {
            online - idle
        } else {
            0
        }
    }

    /// The version the relay reports, or `N/A`.
    pub fn version(&self) -> (v: &str)
        ensures
            v@ == match self.status.version {
                Some(s) => s@,
                None => "N/A"@,
            },
    {
        match &self.status.version {
            Some(v) => v.as_str(),
            None => "N/A",
        }
    }

    /// The ping as it is shown.
    pub fn ping_label(&self) -> (l: String)
        ensures
            l@ == spec_ping_label(self.ping_ms),
    {
        match self.ping_ms {
            Some(ms) => {
                let mut l = decimal_string(ms);
                l.append(" ms");
                l
            },
            None => String::from_str("\u{2014}"),
        }
    }

    /// Takes the reply to a periodic ping.
    pub fn record_ping(&mut self, reply: StatusReply)
        ensures
            *final(self) == spec_server_ping(*old(self), reply),
    {
        match reply {
            StatusReply::Unreachable => {
                self.reachable = false;
                self.ping_ms = None;
            },
            StatusReply::Unreadable { elapsed_ms } => {
                self.reachable = true;
                self.ping_ms = Some(elapsed_ms);
            },
            StatusReply::Received { elapsed_ms, status } => {
                match status {
                    Some(st) => {
                        self.status = st;
                    },
                    None => {},
                }
                self.reachable = true;
                self.ping_ms = Some(elapsed_ms);
            },
        }
    }

    /// The relay after a status request: unreachable with no ping when
    /// nothing answered; unchanged when the body could not be read;
    /// reachable with the measured ping otherwise, taking the reported
    /// status where the body decoded to one.
    pub fn record_reply(self, reply: StatusReply) -> (s: Server)
        ensures
            s.entry == self.entry,
            match reply {
                StatusReply::Unreachable => {
                    &&& s.status == self.status
                    &&& s.ping_ms is None
                    &&& !s.reachable
                },
                StatusReply::Unreadable { .. } => s == self,
                StatusReply::Received { elapsed_ms, status } => {
                    &&& s.status == match status {
                        Some(st) => st,
                        None => self.status,
                    }
                    &&& s.ping_ms == Some(elapsed_ms)
                    &&& s.reachable
                },
            },
    {
        let mut s = self;
        match reply {
            StatusReply::Unreachable => {
                s.reachable = false;
                s.ping_ms = None;
            },
            StatusReply::Unreadable { .. } => {},
            StatusReply::Received { elapsed_ms, status } => {
                match status {
                    Some(st) => {
                        s.status = st;
                    },
                    None => {},
                }
                s.ping_ms = Some(elapsed_ms);
                s.reachable = true;
            },
        }
        s
    }
}

} // verus!
