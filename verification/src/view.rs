//! The relay record that the web interface reports, and how status
//! requests and periodic pings update it.

use vstd::prelude::*;
use vstd::string::*;

use crate::models::{entry_addr, entry_type, status_url_for, status_url_of, ServerEntry, ServerStatus};
use crate::platform::opt_view;
use crate::probe::{backend_name, backend_str, Backend, StatusReply};

verus! {

/// A relay as the web interface reports it.
#[derive(Clone, Debug)]
pub struct ServerView {
    pub addr: String,
    pub server_type: String,
    pub flag: Option<String>,
    pub reachable: bool,
    pub online: Option<u32>,
    pub idle: Option<u32>,
    pub version: Option<String>,
    pub client_count: Option<u32>,
    pub ping_ms: Option<u128>,
}

/// `v` after a status: the reported counts and version, the ping, and
/// reachable.
pub open spec fn spec_apply_status(v: ServerView, st: ServerStatus, ping_ms: u128) -> ServerView {
    ServerView {
        addr: v.addr,
        server_type: v.server_type,
        flag: v.flag,
        reachable: true,
        online: st.online,
        idle: st.idle,
        version: st.version,
        client_count: st.client_count,
        ping_ms: Some(ping_ms),
    }
}

/// `v` after a periodic ping: no answer makes it unreachable with no ping;
/// any answer makes it reachable with the measured ping, and a decoded
/// status replaces the counts and the version.
pub open spec fn spec_record_ping(v: ServerView, r: StatusReply) -> ServerView {
    match r {
        StatusReply::Unreachable => ServerView { reachable: false, ping_ms: None, ..v },
        StatusReply::Unreadable { elapsed_ms } => ServerView {
            reachable: true,
            ping_ms: Some(elapsed_ms),
            ..v
        },
        StatusReply::Received { elapsed_ms, status } => match status {
            Some(st) => spec_apply_status(v, st, elapsed_ms),
            None => ServerView { reachable: true, ping_ms: Some(elapsed_ms), ..v },
        },
    }
}

/// `v` after a status request of a refresh: as after a ping, except that
/// a body that could not be read leaves it unchanged.
pub open spec fn spec_record_reply(v: ServerView, r: StatusReply) -> ServerView {
    match r {
        StatusReply::Unreadable { .. } => v,
        _ => spec_record_ping(v, r),
    }
}

impl ServerView {
    /// The record of a listed relay that was not asked yet.
    pub fn from_entry(entry: &ServerEntry) -> (v: ServerView)
        ensures
            v.addr@ == entry_addr(*entry),
            v.server_type@ == entry_type(*entry),
            opt_view(v.flag) == opt_view(entry.flag),
            !v.reachable,
            v.online is None,
            v.idle is None,
            v.version is None,
            v.client_count is None,
            v.ping_ms is None,
    {
        ServerView {
            addr: entry.addr(),
            server_type: entry.type_str(),
            flag: match &entry.flag {
                Some(f) => Some(f.clone()),
                None => None,
            },
            reachable: false,
            online: None,
            idle: None,
            version: None,
            client_count: None,
            ping_ms: None,
        }
    }

    /// The record of a relay found by detection at `addr`.
    pub fn detected(addr: &str, backend: Backend, elapsed_ms: u128, status: ServerStatus) -> (v:
        ServerView)
        ensures
            v.addr@ == addr@,
            v.server_type@ == backend_name(backend),
            v.flag is None,
            v.reachable,
            v.online == status.online,
            v.idle == status.idle,
            v.version == status.version,
            v.client_count == status.client_count,
            v.ping_ms == Some(elapsed_ms),
    {
        let mut v = ServerView {
            addr: String::from_str(addr),
            server_type: String::from_str(backend_str(backend)),
            flag: None,
            reachable: true,
            online: None,
            idle: None,
            version: None,
            client_count: None,
            ping_ms: Some(elapsed_ms),
        };
        v.apply_status(status, elapsed_ms);
        v
    }

    /// Takes a reported status and the ping it took.
    pub fn apply_status(&mut self, status: ServerStatus, ping_ms: u128)
        ensures
            *final(self) == spec_apply_status(*old(self), status, ping_ms),
    {
        self.online = status.online;
        self.idle = status.idle;
        self.version = status.version;
        self.client_count = status.client_count;
        self.ping_ms = Some(ping_ms);
        self.reachable = true;
    }

    /// The URL at which the relay reports its status: `/` for dotnet
    /// relays, `/info` for the others.
    pub fn status_url(&self) -> (url: String)
        ensures
            url@ == status_url_for(self.addr@, self.server_type@),
    {
        status_url_of(self.addr.as_str(), self.server_type.as_str())
    }

    /// Takes the reply to a status request of a refresh.
    pub fn record_reply(self, reply: StatusReply) -> (v: ServerView)
        ensures
            v == spec_record_reply(self, reply),
    {
        let mut v = self;
        match reply {
            StatusReply::Unreachable => {
                v.reachable = false;
                v.ping_ms = None;
            },
            StatusReply::Unreadable { .. } => {},
            StatusReply::Received { elapsed_ms, status } => match status {
                Some(st) => {
                    v.apply_status(st, elapsed_ms);
                },
                None => {
                    v.ping_ms = Some(elapsed_ms);
                    v.reachable = true;
                },
            },
        }
        v
    }

    /// Takes the reply to a periodic ping.
    pub fn record_ping(&mut self, reply: StatusReply)
        ensures
            *final(self) == spec_record_ping(*old(self), reply),
    {
        match reply {
            StatusReply::Unreachable => {
                self.reachable = false;
                self.ping_ms = None;
            },
            StatusReply::Unreadable { elapsed_ms } => {
                self.reachable = true;
                self.ping_ms = Some(elapsed_ms);
            },
            StatusReply::Received { elapsed_ms, status } => match status {
                Some(st) => {
                    self.apply_status(st, elapsed_ms);
                },
                None => {
                    self.reachable = true;
                    self.ping_ms = Some(elapsed_ms);
                },
            },
        }
    }
}

/// Applies a ping reply to the first record whose address is `addr`, and
/// says which one that was; without such a record nothing changes.
pub fn record_ping_for(views: &mut Vec<ServerView>, addr: &str, reply: StatusReply) -> (found:
    Option<usize>)
    ensures
        match found {
            Some(i) => {
                &&& i < old(views)@.len()
                &&& old(views)@[i as int].addr@ == addr@
                &&& forall|j: int| 0 <= j < i ==> (#[trigger] old(views)@[j]).addr@ != addr@
                &&& final(views)@ == old(views)@.update(
                    i as int,
                    spec_record_ping(old(views)@[i as int], reply),
                )
            },
            None => {
                &&& forall|j: int| 0 <= j < old(views)@.len() ==> (#[trigger] old(views)@[j]).addr@
                    != addr@
                &&& final(views)@ == old(views)@
            },
        },
{
    let target = String::from_str(addr);
    let n = views.len();
    let mut i: usize = 0;
    while i < n
        invariant
            n == views@.len(),
            views@ == old(views)@,
            target@ == addr@,
            i <= n,
            forall|j: int| 0 <= j < i ==> (#[trigger] views@[j]).addr@ != addr@,
        decreases n - i,
    {
        if views[i].addr == target {
            let mut v = views.remove(i);
            v.record_ping(reply);
            views.insert(i, v);
            assert(views@ =~= old(views)@.update(i as int, spec_record_ping(old(views)@[i as int], reply)));
            return Some(i);
        }
        i = i + 1;
    }
    None
}

} // verus!
