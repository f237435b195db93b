//! The state of the desktop relay browser: loading the relay list, the
//! listing, the download of the client and the status line.

use vstd::prelude::*;
use vstd::string::*;

use crate::ordering::{is_listing_order, listing_order};
use crate::models::{entry_addr, entry_type, status_url_for};
use crate::probe::{DetectStep, StatusReply};
use crate::server::{is_detected, spec_server_ping, Server};
use crate::web::{PingResult, PingTarget};
use crate::text::{decimal, decimal_string, trim, trim_string};

verus! {

/// Where loading the relay list stands.
#[derive(Clone, Debug)]
pub enum LoadState {
    Idle,
    FetchingList,
    CheckingServers { done: usize, total: usize },
    Done,
    Error(String),
}

/// Where the download of the lan-play client stands.
#[derive(Clone, Debug)]
pub enum DownloadState {
    Idle,
    Downloading,
    Done,
    Error(String),
}

/// What the background refresh has produced so far: the relays checked,
/// how many of how many, and, once finished, its error if it failed.
pub struct RefreshProgress {
    pub servers: Vec<Server>,
    pub error: Option<String>,
    pub done: usize,
    pub total: usize,
    pub finished: bool,
}

impl RefreshProgress {
    /// Nothing produced yet.
    pub fn new() -> (p: RefreshProgress)
        ensures
            p.servers@.len() == 0,
            p.error is None,
            p.done == 0,
            p.total == 0,
            !p.finished,
    {
        RefreshProgress { servers: Vec::new(), error: None, done: 0, total: 0, finished: false }
    }

    /// One more relay checked: `done` of them so far.
    pub fn record(&mut self, done: usize, server: Server)
        ensures
            final(self).servers@ == old(self).servers@.push(server),
            final(self).done == done,
            final(self).error == old(self).error,
            final(self).total == old(self).total,
            final(self).finished == old(self).finished,
    {
        self.done = done;
        self.servers.push(server);
    }

    /// The refresh has ended, with `error` if it failed, and with `servers`.
    pub fn finish(&mut self, error: Option<String>, servers: Vec<Server>)
        ensures
            final(self).servers == servers,
            final(self).error == error,
            final(self).done == old(self).done,
            final(self).total == old(self).total,
            final(self).finished,
    {
        self.error = error;
        self.servers = servers;
        self.finished = true;
    }
}

/// The number of relays that answered.
pub open spec fn spec_count_reachable(s: Seq<Server>) -> nat {
    s.filter(|x: Server| x.reachable).len()
}

/// Counts the relays that answered.
pub fn count_reachable(servers: &Vec<Server>) -> (n: usize)
    ensures
        n as nat == spec_count_reachable(servers@),
{
    let len = servers.len();
    let mut n: usize = 0;
    let mut i: usize = 0;
    while i < len
        invariant
            len == servers@.len(),
            i <= len,
            n as nat == spec_count_reachable(servers@.take(i as int)),
            n <= i,
        decreases len - i,
    {
        let ghost t = servers@.take(i + 1);
        assert(t.drop_last() =~= servers@.take(i as int));
        assert(t.last() == servers@[i as int]);
        proof {
            reveal_with_fuel(Seq::<Server>::filter, 1);
        }
        if servers[i].reachable {
            n = n + 1;
        }
        i = i + 1;
    }
    assert(servers@.take(len as int) =~= servers@);
    n
}

/// The first line of the status bar.
pub open spec fn ready_message() -> Seq<char> {
    "Ready \u{2014} click Refresh to load servers."@
}

/// The status line while the relays are being checked.
pub open spec fn checking_message(done: nat, total: nat) -> Seq<char> {
    "Checking servers\u{2026} "@ + decimal(done) + "/"@ + decimal(total)
}

/// The status line after a refresh that loaded `n` relays, `online` of
/// which answered.
pub open spec fn loaded_message(n: nat, online: nat) -> Seq<char> {
    "Loaded "@ + decimal(n) + " servers \u{2014} "@ + decimal(online) + " online."@
}

/// Why connecting is not offered for a relay, in the order the reasons are
/// told.
#[derive(Clone, Copy, Debug, PartialEq, Eq, Structural)]
pub enum ConnectHint {
    PcapMissing,
    ClientMissing,
    Offline,
}

/// Whether connecting is offered, and if not, the reason told: the packet
/// capture library first, then the client binary, then the relay.
pub fn connect_hint(reachable: bool, binary_exists: bool, pcap_ok: bool) -> (r: (
    bool,
    Option<ConnectHint>,
))
    ensures
        r.0 == (reachable && binary_exists && pcap_ok),
        r.1 == if !pcap_ok {
            Some(ConnectHint::PcapMissing)
        } else if !binary_exists {
            Some(ConnectHint::ClientMissing)
        } else if !reachable {
            Some(ConnectHint::Offline)
        } else {
            None::<ConnectHint>
        },
{
    let can = reachable && binary_exists && pcap_ok;
    let hint = if !pcap_ok {
        Some(ConnectHint::PcapMissing)
    } else if !binary_exists {
        Some(ConnectHint::ClientMissing)
    } else if !reachable {
        Some(ConnectHint::Offline)
    } else {
        None
    };
    (can, hint)
}

/// The relay to connect to from the quick-connect field: the typed text
/// without surrounding white space, when it is not empty and the client
/// and the capture library are there.
pub fn quick_connect_target(typed: &str, binary_exists: bool, pcap_ok: bool) -> (r: Option<String>)
    ensures
        r matches Some(a) ==> a@ == trim(typed@) && trim(typed@).len() > 0 && binary_exists
            && pcap_ok,
        r is None ==> !(trim(typed@).len() > 0 && binary_exists && pcap_ok),
{
    let t = trim_string(typed);
    if t.as_str().unicode_len() > 0 && binary_exists && pcap_ok {
        Some(t)
    } else {
        None
    }
}

/// `new` is `old` after a ping reply for `addr`: the first relay with that
/// address takes the reply; without one nothing changes.
pub open spec fn is_server_ping_update(
    old: Seq<Server>,
    new: Seq<Server>,
    addr: Seq<char>,
    reply: StatusReply,
) -> bool {
    ||| exists|i: int|
        0 <= i < old.len() && entry_addr((#[trigger] old[i]).entry) == addr && (forall|j: int|
            0 <= j < i ==> entry_addr((#[trigger] old[j]).entry) != addr) && new == old.update(
            i,
            spec_server_ping(old[i], reply),
        )
    ||| (forall|j: int| 0 <= j < old.len() ==> entry_addr((#[trigger] old[j]).entry) != addr)
        && new == old
}

fn ping_first_with_addr(servers: &mut Vec<Server>, addr: &str, reply: StatusReply)
    ensures
        is_server_ping_update(old(servers)@, final(servers)@, addr@, reply),
{
    let target = String::from_str(addr);
    let n = servers.len();
    let mut i: usize = 0;
    while i < n
        invariant
            n == servers@.len(),
            servers@ == old(servers)@,
            target@ == addr@,
            i <= n,
            forall|j: int| 0 <= j < i ==> entry_addr((#[trigger] servers@[j]).entry) != addr@,
        decreases n - i,
    {
        let a = servers[i].entry.addr();
        if a == target {
            let mut s = servers.remove(i);
            s.record_ping(reply);
            servers.insert(i, s);
            assert(servers@ =~= old(servers)@.update(
                i as int,
                spec_server_ping(old(servers)@[i as int], reply),
            ));
            assert(entry_addr(old(servers)@[i as int].entry) == addr@);
            return ;
        }
        i = i + 1;
    }
}

/// The desktop browser's state.
pub struct Browser {
    pub servers: Vec<Server>,
    pub selected: Option<usize>,
    pub load_state: LoadState,
    pub status_msg: String,
    pub hide_offline: bool,
    pub dl_state: DownloadState,
    pub qc_server: Option<Server>,
}

impl Browser {
    /// A browser with no relays, offline relays hidden, nothing loading.
    pub fn new() -> (b: Browser)
        ensures
            b.servers@.len() == 0,
            b.selected is None,
            b.load_state is Idle,
            b.status_msg@ == ready_message(),
            b.hide_offline,
            b.dl_state is Idle,
            b.qc_server is None,
    {
        Browser {
            servers: Vec::new(),
            selected: None,
            load_state: LoadState::Idle,
            status_msg: String::from_str("Ready \u{2014} click Refresh to load servers."),
            hide_offline: true,
            dl_state: DownloadState::Idle,
            qc_server: None,
        }
    }

    /// The browser as the application starts: nothing listed yet, offline
    /// relays hidden, and the relay list already being fetched.
    pub fn at_start_up() -> (b: Browser)
        ensures
            b.servers@.len() == 0,
            b.selected is None,
            b.load_state is FetchingList,
            b.status_msg@ == "Fetching server list\u{2026}"@,
            b.hide_offline,
            b.dl_state is Idle,
            b.qc_server is None,
    {
        let mut b = Browser::new();
        b.start_refresh();
        b
    }

    /// A refresh begins: the relays and the selection are dropped and the
    /// list is being fetched.
    pub fn start_refresh(&mut self)
        ensures
            final(self).servers@.len() == 0,
            final(self).selected is None,
            final(self).load_state is FetchingList,
            final(self).status_msg@ == "Fetching server list\u{2026}"@,
            final(self).hide_offline == old(self).hide_offline,
            final(self).dl_state == old(self).dl_state,
            final(self).qc_server == old(self).qc_server,
    {
        self.servers = Vec::new();
        self.selected = None;
        self.status_msg = String::from_str("Fetching server list\u{2026}");
        self.load_state = LoadState::FetchingList;
    }

    /// Takes what the background refresh has produced, and says whether it
    /// has ended. A failed refresh keeps the relays and shows its error; a
    /// finished one shows its relays and how many answered; one still
    /// running shows the relays checked so far and its progress.
    pub fn take_progress(&mut self, p: RefreshProgress) -> (finished: bool)
        ensures
            finished == p.finished,
            final(self).selected == old(self).selected,
            final(self).hide_offline == old(self).hide_offline,
            final(self).dl_state == old(self).dl_state,
            final(self).qc_server == old(self).qc_server,
            p.finished && p.error is Some ==> {
                &&& final(self).servers == old(self).servers
                &&& final(self).load_state matches LoadState::Error(e) && e == p.error->Some_0
                &&& final(self).status_msg@ == "Error: "@ + p.error->Some_0@
            },
            p.finished && p.error is None ==> {
                &&& final(self).servers == p.servers
                &&& final(self).load_state is Done
                &&& final(self).status_msg@ == loaded_message(
                    p.servers@.len(),
                    spec_count_reachable(p.servers@),
                )
            },
            !p.finished ==> {
                &&& final(self).servers == p.servers
                &&& final(self).load_state == (LoadState::CheckingServers {
                    done: p.done,
                    total: p.total,
                })
                &&& final(self).status_msg@ == checking_message(p.done as nat, p.total as nat)
            },
    {
        if p.finished {
            match p.error {
                Some(e) => {
                    let mut msg = String::from_str("Error: ");
                    msg.append(e.as_str());
                    self.load_state = LoadState::Error(e);
                    self.status_msg = msg;
                },
                None => {
                    let online = count_reachable(&p.servers);
                    let n = p.servers.len();
                    self.servers = p.servers;
                    self.load_state = LoadState::Done;
                    let mut msg = String::from_str("Loaded ");
                    let a = decimal_string(n as u128);
                    msg.append(a.as_str());
                    msg.append(" servers \u{2014} ");
                    let b = decimal_string(online as u128);
                    msg.append(b.as_str());
                    msg.append(" online.");
                    self.status_msg = msg;
                },
            }
            true
        } else {
            self.load_state = LoadState::CheckingServers { done: p.done, total: p.total };
            self.servers = p.servers;
            let mut msg = String::from_str("Checking servers\u{2026} ");
            let a = decimal_string(p.done as u128);
            msg.append(a.as_str());
            msg.append("/");
            let b = decimal_string(p.total as u128);
            msg.append(b.as_str());
            self.status_msg = msg;
            false
        }
    }

    /// Whether a refresh is under way.
    pub fn is_refreshing(&self) -> (r: bool)
        ensures
            r == (self.load_state is FetchingList || self.load_state is CheckingServers),
    {
        match self.load_state {
            LoadState::FetchingList | LoadState::CheckingServers { .. } => true,
            _ => false,
        }
    }

    /// The label of the refresh button.
    pub fn refresh_label(&self) -> (l: &'static str)
        ensures
            l@ == match self.load_state {
                LoadState::FetchingList => "\u{27f3} Fetching\u{2026}"@,
                LoadState::CheckingServers { .. } => "\u{27f3} Checking\u{2026}"@,
                _ => "\u{27f3} Refresh"@,
            },
    {
        match self.load_state {
            LoadState::FetchingList => "\u{27f3} Fetching\u{2026}",
            LoadState::CheckingServers { .. } => "\u{27f3} Checking\u{2026}",
            _ => "\u{27f3} Refresh",
        }
    }

    /// What the list shows when no relay is listed.
    pub fn empty_message(&self) -> (m: String)
        ensures
            m@ == match self.load_state {
                LoadState::Idle => "Click Refresh to load servers."@,
                LoadState::FetchingList => "Fetching server list\u{2026}"@,
                LoadState::CheckingServers { .. } => "Checking servers\u{2026}"@,
                LoadState::Error(e) => e@,
                LoadState::Done => "No servers found."@,
            },
    {
        match &self.load_state {
            LoadState::Idle => String::from_str("Click Refresh to load servers."),
            LoadState::FetchingList => String::from_str("Fetching server list\u{2026}"),
            LoadState::CheckingServers { .. } => String::from_str("Checking servers\u{2026}"),
            LoadState::Error(e) => e.clone(),
            LoadState::Done => String::from_str("No servers found."),
        }
    }

    /// How many relays answered, of how many.
    pub fn online_summary(&self) -> (m: String)
        ensures
            m@ == decimal(spec_count_reachable(self.servers@)) + " online / "@ + decimal(
                self.servers@.len(),
            ) + " total"@,
    {
        let online = count_reachable(&self.servers);
        let mut m = decimal_string(online as u128);
        m.append(" online / ");
        let t = decimal_string(self.servers.len() as u128);
        m.append(t.as_str());
        m.append(" total");
        m
    }

    /// The positions of the relays listed, in the order they are shown.
    pub fn listing(&self) -> (order: Vec<usize>)
        ensures
            is_listing_order(self.servers@, self.hide_offline, order@),
    {
        listing_order(&self.servers, self.hide_offline)
    }

    /// Quick connect to `addr` begins: the relay is being detected, and no
    /// relay found by an earlier quick connect is kept.
    pub fn begin_quick_connect(&mut self, addr: &str)
        ensures
            final(self).status_msg@ == "Checking "@ + addr@ + "\u{2026}"@,
            final(self).qc_server is None,
            final(self).servers == old(self).servers,
            final(self).selected == old(self).selected,
            final(self).load_state == old(self).load_state,
            final(self).hide_offline == old(self).hide_offline,
            final(self).dl_state == old(self).dl_state,
    {
        let mut msg = String::from_str("Checking ");
        msg.append(addr);
        msg.append("\u{2026}");
        self.status_msg = msg;
        self.qc_server = None;
    }

    /// Takes the verdict of detection at `addr`, or the error that kept
    /// detection from running, and says where to connect. Only a detected
    /// relay is connected to, and it is kept as the quick-connect relay; a
    /// verdict of no relay, or an error, is shown and nothing is connected.
    pub fn finish_quick_connect(&mut self, addr: &str, verdict: Result<DetectStep, String>) -> (target:
        Option<String>)
        ensures
            final(self).servers == old(self).servers,
            final(self).selected == old(self).selected,
            final(self).load_state == old(self).load_state,
            final(self).hide_offline == old(self).hide_offline,
            final(self).dl_state == old(self).dl_state,
            match verdict {
                Ok(DetectStep::Found { backend, elapsed_ms, status }) => {
                    &&& target matches Some(t) && t@ == addr@
                    &&& final(self).qc_server matches Some(s) && is_detected(
                        s,
                        addr@,
                        backend,
                        elapsed_ms,
                        status,
                    )
                    &&& final(self).status_msg == old(self).status_msg
                },
                Ok(_) => {
                    &&& target is None
                    &&& final(self).qc_server is None
                    &&& final(self).status_msg@ == "Not a lan-play server: "@ + addr@
                },
                Err(e) => {
                    &&& target is None
                    &&& final(self).qc_server is None
                    &&& final(self).status_msg@ == "Error: "@ + e@
                },
            },
    {
        match verdict {
            Ok(DetectStep::Found { backend, elapsed_ms, status }) => {
                self.qc_server = Some(Server::detected(addr, backend, elapsed_ms, status));
                Some(String::from_str(addr))
            },
            Ok(_) => {
                let mut msg = String::from_str("Not a lan-play server: ");
                msg.append(addr);
                self.status_msg = msg;
                self.qc_server = None;
                None
            },
            Err(e) => {
                let mut msg = String::from_str("Error: ");
                msg.append(e.as_str());
                self.status_msg = msg;
                self.qc_server = None;
                None
            },
        }
    }

    /// The relays to ping: none during a refresh; otherwise every listed
    /// relay, then the quick-connect relay if there is one.
    pub fn ping_targets(&self) -> (t: Vec<PingTarget>)
        ensures
            (self.load_state is FetchingList || self.load_state is CheckingServers) ==> t@.len()
                == 0,
            !(self.load_state is FetchingList || self.load_state is CheckingServers) ==> {
                &&& t@.len() == self.servers@.len() + if self.qc_server is Some {
                    1int
                } else {
                    0int
                }
                &&& forall|k: int|
                    0 <= k < self.servers@.len() ==> {
                        &&& (#[trigger] t@[k]).addr@ == entry_addr(self.servers@[k].entry)
                        &&& t@[k].url@ == status_url_for(
                            entry_addr(self.servers@[k].entry),
                            entry_type(self.servers@[k].entry),
                        )
                        &&& !t@[k].is_qc
                    }
                &&& self.qc_server matches Some(q) ==> {
                    let l = t@.last();
                    &&& l.addr@ == entry_addr(q.entry)
                    &&& l.url@ == status_url_for(entry_addr(q.entry), entry_type(q.entry))
                    &&& l.is_qc
                }
            },
    {
        let mut t: Vec<PingTarget> = Vec::new();
        if self.is_refreshing() {
            return t;
        }
        let n = self.servers.len();
        let mut i: usize = 0;
        while i < n
            invariant
                n == self.servers@.len(),
                i <= n,
                t@.len() == i,
                forall|k: int|
                    0 <= k < i ==> {
                        &&& (#[trigger] t@[k]).addr@ == entry_addr(self.servers@[k].entry)
                        &&& t@[k].url@ == status_url_for(
                            entry_addr(self.servers@[k].entry),
                            entry_type(self.servers@[k].entry),
                        )
                        &&& !t@[k].is_qc
                    },
            decreases n - i,
        {
            let e = &self.servers[i].entry;
            t.push(PingTarget { addr: e.addr(), url: e.status_url(), is_qc: false });
            i = i + 1;
        }
        if let Some(q) = &self.qc_server {
            t.push(PingTarget { addr: q.entry.addr(), url: q.entry.status_url(), is_qc: true });
        }
        t
    }

    /// Takes a ping answer: ignored during a refresh; otherwise it goes to
    /// the quick-connect relay or to the first listed relay with its
    /// address.
    pub fn apply_ping(&mut self, result: PingResult)
        ensures
            final(self).selected == old(self).selected,
            final(self).load_state == old(self).load_state,
            final(self).status_msg == old(self).status_msg,
            final(self).hide_offline == old(self).hide_offline,
            final(self).dl_state == old(self).dl_state,
            (old(self).load_state is FetchingList || old(self).load_state is CheckingServers)
                ==> *final(self) == *old(self),
            !(old(self).load_state is FetchingList || old(self).load_state is CheckingServers)
                && result.is_qc ==> {
                &&& final(self).servers == old(self).servers
                &&& final(self).qc_server == match old(self).qc_server {
                    Some(q) => Some(spec_server_ping(q, result.reply)),
                    None => None,
                }
            },
            !(old(self).load_state is FetchingList || old(self).load_state is CheckingServers)
                && !result.is_qc ==> {
                &&& is_server_ping_update(
                    old(self).servers@,
                    final(self).servers@,
                    result.addr@,
                    result.reply,
                )
                &&& final(self).qc_server == old(self).qc_server
            },
    {
        if self.is_refreshing() {
            return ;
        }
        if result.is_qc {
            match &mut self.qc_server {
                Some(q) => {
                    q.record_ping(result.reply);
                },
                None => {},
            }
        } else {
            ping_first_with_addr(&mut self.servers, result.addr.as_str(), result.reply);
        }
    }

    /// The download of the client begins.
    pub fn start_download(&mut self)
        ensures
            final(self).dl_state is Downloading,
            final(self).servers == old(self).servers,
            final(self).selected == old(self).selected,
            final(self).hide_offline == old(self).hide_offline,
            final(self).load_state == old(self).load_state,
            final(self).status_msg == old(self).status_msg,
            final(self).qc_server == old(self).qc_server,
    {
        self.dl_state = DownloadState::Downloading;
    }

    /// The download of the client has ended with `result`.
    pub fn finish_download(&mut self, result: Result<(), String>)
        ensures
            final(self).servers == old(self).servers,
            final(self).selected == old(self).selected,
            final(self).hide_offline == old(self).hide_offline,
            final(self).load_state == old(self).load_state,
            final(self).qc_server == old(self).qc_server,
            match result {
                Ok(()) => {
                    &&& final(self).dl_state is Done
                    &&& final(self).status_msg@ == "Download complete."@
                },
                Err(e) => {
                    &&& final(self).dl_state == DownloadState::Error(e)
                    &&& final(self).status_msg@ == "Download failed: "@ + e@
                },
            },
    {
        match result {
            Ok(()) => {
                self.dl_state = DownloadState::Done;
                self.status_msg = String::from_str("Download complete.");
            },
            Err(e) => {
                let mut msg = String::from_str("Download failed: ");
                msg.append(e.as_str());
                self.dl_state = DownloadState::Error(e);
                self.status_msg = msg;
            },
        }
    }

    /// Whether a download may be started: not while one runs.
    pub fn can_download(&self) -> (b: bool)
        ensures
            b == !(self.dl_state is Downloading),
    {
        match self.dl_state {
            DownloadState::Downloading => false,
            _ => true,
        }
    }

    /// The label of the download button.
    pub fn download_label(&self) -> (l: &'static str)
        ensures
            l@ == match self.dl_state {
                DownloadState::Idle => "\u{2b07}  Download lan-play"@,
                DownloadState::Downloading => "\u{27f3}  Downloading\u{2026}"@,
                DownloadState::Done => "\u{2713}  Downloaded"@,
                DownloadState::Error(_) => "\u{2717}  Download failed"@,
            },
    {
        match self.dl_state {
            DownloadState::Idle => "\u{2b07}  Download lan-play",
            DownloadState::Downloading => "\u{27f3}  Downloading\u{2026}",
            DownloadState::Done => "\u{2713}  Downloaded",
            DownloadState::Error(_) => "\u{2717}  Download failed",
        }
    }
}

} // verus!
