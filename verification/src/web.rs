//! The state behind the web interface: the relay list and its refresh,
//! periodic pings, the quick-connect relay and the client download.

use vstd::prelude::*;
use vstd::string::*;

use crate::models::status_url_for;
use crate::ordering::{is_stable_sorting, sort_by_ping};
use crate::probe::StatusReply;
use crate::view::{record_ping_for, spec_record_ping, ServerView};

verus! {

/// Where the download of the client stands, as the web interface reports
/// it.
#[derive(Clone, Debug)]
pub enum DownloadStatus {
    Idle,
    Downloading,
    Done,
    Failed(String),
}

/// The text the web interface reports for a download status.
pub open spec fn download_text(d: DownloadStatus) -> Seq<char> {
    match d {
        DownloadStatus::Idle => "idle"@,
        DownloadStatus::Downloading => "downloading"@,
        DownloadStatus::Done => "done"@,
        DownloadStatus::Failed(e) => "error: "@ + e@,
    }
}

impl DownloadStatus {
    /// The reported text.
    pub fn text(&self) -> (t: String)
        ensures
            t@ == download_text(*self),
    {
        match self {
            DownloadStatus::Idle => String::from_str("idle"),
            DownloadStatus::Downloading => String::from_str("downloading"),
            DownloadStatus::Done => String::from_str("done"),
            DownloadStatus::Failed(e) => {
                let mut t = String::from_str("error: ");
                t.append(e.as_str());
                t
            },
        }
    }

    /// Asks to start a download: refused while one runs, otherwise the
    /// download runs.
    pub fn begin(&mut self) -> (started: bool)
        ensures
            started == !((*old(self)) is Downloading),
            started ==> (*final(self)) is Downloading,
            !started ==> *final(self) == *old(self),
    {
        match self {
            DownloadStatus::Downloading => false,
            _ => {
                *self = DownloadStatus::Downloading;
                true
            },
        }
    }

    /// The download has ended with `result`.
    pub fn end(&mut self, result: Result<(), String>)
        ensures
            match result {
                Ok(()) => (*final(self)) is Done,
                Err(e) => *final(self) == DownloadStatus::Failed(e),
            },
    {
        match result {
            Ok(()) => {
                *self = DownloadStatus::Done;
            },
            Err(e) => {
                *self = DownloadStatus::Failed(e);
            },
        }
    }
}

/// `new` is `old` after a ping reply for `addr`: the first record with that
/// address takes the reply; without one nothing changes.
pub open spec fn is_ping_update(
    old: Seq<ServerView>,
    new: Seq<ServerView>,
    addr: Seq<char>,
    reply: StatusReply,
) -> bool {
    ||| exists|i: int|
        0 <= i < old.len() && (#[trigger] old[i]).addr@ == addr && (forall|j: int|
            0 <= j < i ==> (#[trigger] old[j]).addr@ != addr) && new == old.update(
            i,
            spec_record_ping(old[i], reply),
        )
    ||| (forall|j: int| 0 <= j < old.len() ==> (#[trigger] old[j]).addr@ != addr) && new == old
}

/// The records `listed` after the checks `checks` of a refresh, taken in
/// order: each pair of a position and a checked record replaces the record
/// at that position where there is one, as `WebRelays::record_checked`
/// does.
pub open spec fn apply_checks(listed: Seq<ServerView>, checks: Seq<(usize, ServerView)>) -> Seq<
    ServerView,
>
    decreases checks.len(),
{
    if checks.len() == 0 {
        listed
    } else {
        let prev = apply_checks(listed, checks.drop_last());
        let (i, v) = checks.last();
        if i < prev.len() {
            prev.update(i as int, v)
        } else {
            prev
        }
    }
}

/// A relay to ping: its address, its status URL, and whether it is the
/// quick-connect relay.
pub struct PingTarget {
    pub addr: String,
    pub url: String,
    pub is_qc: bool,
}

/// The answer to a periodic ping.
pub struct PingResult {
    pub addr: String,
    pub is_qc: bool,
    pub reply: StatusReply,
}

/// The relays the web interface knows and their refresh.
pub struct WebRelays {
    pub servers: Vec<ServerView>,
    pub refreshing: bool,
    pub done: usize,
    pub total: usize,
    pub error: Option<String>,
    pub qc_server: Option<ServerView>,
}

impl WebRelays {
    /// No relays and no refresh.
    pub fn new() -> (r: WebRelays)
        ensures
            r.servers@.len() == 0,
            !r.refreshing,
            r.done == 0,
            r.total == 0,
            r.error is None,
            r.qc_server is None,
    {
        WebRelays {
            servers: Vec::new(),
            refreshing: false,
            done: 0,
            total: 0,
            error: None,
            qc_server: None,
        }
    }

    /// Asks to start a refresh: refused while one runs; otherwise the
    /// relays, the progress and the last error are cleared.
    pub fn begin_refresh(&mut self) -> (started: bool)
        ensures
            started == !old(self).refreshing,
            !started ==> *final(self) == *old(self),
            started ==> {
                &&& final(self).refreshing
                &&& final(self).done == 0
                &&& final(self).total == 0
                &&& final(self).error is None
                &&& final(self).servers@.len() == 0
                &&& final(self).qc_server == old(self).qc_server
            },
    {
        if self.refreshing {
            return false;
        }
        self.refreshing = true;
        self.done = 0;
        self.total = 0;
        self.error = None;
        self.servers = Vec::new();
        true
    }

    /// The refresh has failed with `error`.
    pub fn fail_refresh(&mut self, error: String)
        ensures
            !final(self).refreshing,
            final(self).error == Some(error),
            final(self).servers == old(self).servers,
            final(self).done == old(self).done,
            final(self).total == old(self).total,
            final(self).qc_server == old(self).qc_server,
    {
        self.refreshing = false;
        self.error = Some(error);
    }

    /// The list has been fetched: its records, none checked yet.
    pub fn set_listed(&mut self, views: Vec<ServerView>)
        ensures
            final(self).servers == views,
            final(self).total == views@.len(),
            final(self).refreshing == old(self).refreshing,
            final(self).done == old(self).done,
            final(self).error == old(self).error,
            final(self).qc_server == old(self).qc_server,
    {
        self.total = views.len();
        self.servers = views;
    }

    /// The record at `i` has been checked: it is replaced where it still
    /// exists, and one more check is done.
    pub fn record_checked(&mut self, i: usize, checked: ServerView)
        requires
            old(self).done < usize::MAX,
        ensures
            final(self).done == old(self).done + 1,
            i < old(self).servers@.len() ==> final(self).servers@ == old(self).servers@.update(
                i as int,
                checked,
            ),
            i >= old(self).servers@.len() ==> final(self).servers == old(self).servers,
            forall|checks: Seq<(usize, ServerView)>, listed: Seq<ServerView>|
                apply_checks(listed, checks) == old(self).servers@ ==> #[trigger] apply_checks(
                    listed,
                    checks.push((i, checked)),
                ) == final(self).servers@,
            final(self).refreshing == old(self).refreshing,
            final(self).total == old(self).total,
            final(self).error == old(self).error,
            final(self).qc_server == old(self).qc_server,
    {
        if i < self.servers.len() {
            let _ = self.servers.remove(i);
            self.servers.insert(i, checked);
            assert(self.servers@ =~= old(self).servers@.update(i as int, checked));
        }
        self.done = self.done + 1;
        assert forall|checks: Seq<(usize, ServerView)>, listed: Seq<ServerView>|
            apply_checks(listed, checks) == old(self).servers@ implies #[trigger] apply_checks(
            listed,
            checks.push((i, checked)),
        ) == self.servers@ by {
            assert(checks.push((i, checked)).drop_last() =~= checks);
        }
    }

    /// The checks are over: the records are sorted by ping and the refresh
    /// ends.
    pub fn finish_refresh(&mut self)
        ensures
            is_stable_sorting(old(self).servers@, final(self).servers@),
            !final(self).refreshing,
            final(self).done == old(self).done,
            final(self).total == old(self).total,
            final(self).error == old(self).error,
            final(self).qc_server == old(self).qc_server,
    {
        let mut servers: Vec<ServerView> = Vec::new();
        std::mem::swap(&mut servers, &mut self.servers);
        let ghost before = servers@;
        assert(before == old(self).servers@);
        self.servers = sort_by_ping(servers);
        self.refreshing = false;
    }

    /// The relays to ping: none during a refresh; otherwise every record,
    /// then the quick-connect relay if there is one.
    pub fn ping_targets(&self) -> (t: Vec<PingTarget>)
        ensures
            self.refreshing ==> t@.len() == 0,
            !self.refreshing ==> {
                &&& t@.len() == self.servers@.len() + if self.qc_server is Some {
                    1int
                } else {
                    0int
                }
                &&& forall|k: int|
                    0 <= k < self.servers@.len() ==> {
                        &&& (#[trigger] t@[k]).addr@ == self.servers@[k].addr@
                        &&& t@[k].url@ == status_url_for(
                            self.servers@[k].addr@,
                            self.servers@[k].server_type@,
                        )
                        &&& !t@[k].is_qc
                    }
                &&& self.qc_server matches Some(q) ==> {
                    let l = t@.last();
                    &&& l.addr@ == q.addr@
                    &&& l.url@ == status_url_for(q.addr@, q.server_type@)
                    &&& l.is_qc
                }
            },
    {
        let mut t: Vec<PingTarget> = Vec::new();
        if self.refreshing {
            return t;
        }
        let n = self.servers.len();
        let mut i: usize = 0;
        while i < n
            invariant
                n == self.servers@.len(),
                i <= n,
                t@.len() == i,
                forall|k: int|
                    0 <= k < i ==> {
                        &&& (#[trigger] t@[k]).addr@ == self.servers@[k].addr@
                        &&& t@[k].url@ == status_url_for(
                            self.servers@[k].addr@,
                            self.servers@[k].server_type@,
                        )
                        &&& !t@[k].is_qc
                    },
            decreases n - i,
        {
            let v = &self.servers[i];
            t.push(PingTarget { addr: v.addr.clone(), url: v.status_url(), is_qc: false });
            i = i + 1;
        }
        if let Some(q) = &self.qc_server {
            t.push(PingTarget { addr: q.addr.clone(), url: q.status_url(), is_qc: true });
        }
        t
    }

    /// Takes a ping answer: ignored during a refresh; otherwise it goes to
    /// the quick-connect relay or to the first record with its address.
    pub fn apply_ping(&mut self, result: PingResult)
        ensures
            final(self).refreshing == old(self).refreshing,
            final(self).done == old(self).done,
            final(self).total == old(self).total,
            final(self).error == old(self).error,
            old(self).refreshing ==> *final(self) == *old(self),
            !old(self).refreshing && result.is_qc ==> {
                &&& final(self).servers == old(self).servers
                &&& final(self).qc_server == match old(self).qc_server {
                    Some(q) => Some(spec_record_ping(q, result.reply)),
                    None => None,
                }
            },
            !old(self).refreshing && !result.is_qc ==> {
                &&& is_ping_update(
                    old(self).servers@,
                    final(self).servers@,
                    result.addr@,
                    result.reply,
                )
                &&& final(self).qc_server == old(self).qc_server
            },
    {
        if self.refreshing {
            return ;
        }
        if result.is_qc {
            match &mut self.qc_server {
                Some(q) => {
                    q.record_ping(result.reply);
                },
                None => {},
            }
        } else {
            let found = record_ping_for(&mut self.servers, result.addr.as_str(), result.reply);
            proof {
                if let Some(i) = found {
                    assert(old(self).servers@[i as int].addr@ == result.addr@);
                }
            }
        }
    }
}

/// The lan-play session of the web interface: whether the client runs,
/// the relay it was started for, and its shown command line.
pub struct WebSession {
    pub running: bool,
    pub addr: Option<String>,
    pub console_cmd: String,
}

impl WebSession {
    /// No session.
    pub fn new() -> (s: WebSession)
        ensures
            !s.running,
            s.addr is None,
            s.console_cmd@ == Seq::<char>::empty(),
    {
        WebSession { running: false, addr: None, console_cmd: String::new() }
    }

    /// Why a connect request is refused: a session already runs.
    pub fn connect_refusal(&self) -> (e: Option<String>)
        ensures
            self.running ==> (e matches Some(m) && m@ == "already connected"@),
            !self.running ==> e is None,
    {
        if self.running {
            Some(String::from_str("already connected"))
        } else {
            None
        }
    }

    /// The client has been started for `addr` with the command line
    /// `console_cmd`.
    pub fn started(&mut self, addr: String, console_cmd: String)
        ensures
            final(self).running,
            final(self).addr == Some(addr),
            final(self).console_cmd == console_cmd,
    {
        self.running = true;
        self.addr = Some(addr);
        self.console_cmd = console_cmd;
    }

    /// A disconnect request: where a session runs, it ends, its relay and
    /// command line are cleared and so is the quick-connect relay; the
    /// result says whether there was a client to stop. Without a session
    /// nothing changes.
    pub fn stop(&mut self, relays: &mut WebRelays) -> (was_running: bool)
        ensures
            was_running == old(self).running,
            was_running ==> {
                &&& !final(self).running
                &&& final(self).addr is None
                &&& final(self).console_cmd@ == Seq::<char>::empty()
                &&& final(relays).qc_server is None
            },
            !was_running ==> *final(self) == *old(self) && *final(relays) == *old(relays),
            final(relays).servers == old(relays).servers,
            final(relays).refreshing == old(relays).refreshing,
            final(relays).done == old(relays).done,
            final(relays).total == old(relays).total,
            final(relays).error == old(relays).error,
    {
        if !self.running {
            return false;
        }
        self.running = false;
        self.addr = None;
        self.console_cmd = String::new();
        relays.qc_server = None;
        true
    }

    /// The client has exited by itself: the session ends and forgets its
    /// relay; the command line stays shown.
    pub fn exited(&mut self)
        ensures
            !final(self).running,
            final(self).addr is None,
            final(self).console_cmd == old(self).console_cmd,
    {
        self.running = false;
        self.addr = None;
    }
}

} // verus!
