//! Relay list entries, relay status replies and the launcher settings.

use vstd::prelude::*;
use vstd::string::*;

use crate::platform::{join_path, join_path_str, Os};
use crate::text::{decimal, decimal_string, views, words, split_words};

verus! {

/// The `port` of a relay list entry: a number, a string, or some other
/// JSON value.
#[derive(Clone, Debug)]
pub enum PortValue {
    Number(u64),
    Text(String),
    Other,
}

/// One relay of the public relay list.
#[derive(Clone, Debug)]
pub struct ServerEntry {
    pub ip: Option<String>,
    pub port: Option<PortValue>,
    pub server_type: Option<String>,
    pub flag: Option<String>,
    pub hidden: Option<bool>,
}

/// The port as it appears in an address; 11451, the lan-play default,
/// where the entry gives none.
pub open spec fn port_text(port: Option<PortValue>) -> Seq<char> {
    match port {
        Some(PortValue::Number(n)) => decimal(n as nat),
        Some(PortValue::Text(t)) => t@,
        _ => "11451"@,
    }
}

/// `host:port` of an entry; the host is empty where the entry gives none.
pub open spec fn entry_addr(e: ServerEntry) -> Seq<char> {
    let host = match e.ip {
        Some(ip) => ip@,
        None => Seq::<char>::empty(),
    };
    host + ":"@ + port_text(e.port)
}

/// The backend type of an entry; `unknown` where the entry gives none.
pub open spec fn entry_type(e: ServerEntry) -> Seq<char> {
    match e.server_type {
        Some(t) => t@,
        None => "unknown"@,
    }
}

/// The status endpoint of a relay at `addr` with backend type `ty`: `/` for
/// dotnet relays, `/info` for the others.
pub open spec fn status_url_for(addr: Seq<char>, ty: Seq<char>) -> Seq<char> {
    if ty == "dotnet"@ {
        "http://"@ + addr + "/"@
    } else {
        "http://"@ + addr + "/info"@
    }
}

/// Builds the status URL of a relay at `addr` with backend type `ty`.
pub fn status_url_of(addr: &str, ty: &str) -> (url: String)
    ensures
        url@ == status_url_for(addr@, ty@),
{
    let ty = String::from_str(ty);
    let dotnet = String::from_str("dotnet");
    let mut url = String::from_str("http://");
    url.append(addr);
    if ty == dotnet {
        url.append("/");
    } else {
        url.append("/info");
    }
    url
}

impl ServerEntry {
    /// The address `host:port` of the relay.
    pub fn addr(&self) -> (a: String)
        ensures
            a@ == entry_addr(*self),
    {
        let mut a = match &self.ip {
            Some(ip) => ip.clone(),
            None => String::new(),
        };
        a.append(":");
        match &self.port {
            Some(PortValue::Number(n)) => {
                let p = decimal_string(*n as u128);
                a.append(p.as_str());
            },
            Some(PortValue::Text(t)) => {
                a.append(t.as_str());
            },
            _ => {
                a.append("11451");
            },
        }
        a
    }

    /// The backend type of the relay.
    pub fn type_str(&self) -> (t: String)
        ensures
            t@ == entry_type(*self),
    {
        match &self.server_type {
            Some(t) => t.clone(),
            None => String::from_str("unknown"),
        }
    }

    /// Whether the list marks the relay as hidden.
    pub fn is_hidden(&self) -> (b: bool)
        ensures
            b == (self.hidden == Some(true)),
    {
        match self.hidden {
            Some(h) => h,
            None => false,
        }
    }

    /// The URL at which the relay reports its status.
    pub fn status_url(&self) -> (url: String)
        ensures
            url@ == status_url_for(entry_addr(*self), entry_type(*self)),
    {
        let addr = self.addr();
        let ty = self.type_str();
        status_url_of(addr.as_str(), ty.as_str())
    }
}

/// What a relay reports about itself: rust and node relays give `online`,
/// `idle` and `version`, dotnet relays give `clientCount`.
#[derive(Clone, Debug)]
pub struct ServerStatus {
    pub online: Option<u32>,
    pub idle: Option<u32>,
    pub version: Option<String>,
    pub client_count: Option<u32>,
}

impl ServerStatus {
    /// A status that reports nothing.
    pub fn empty() -> (s: ServerStatus)
        ensures
            s.online is None,
            s.idle is None,
            s.version is None,
            s.client_count is None,
    {
        ServerStatus { online: None, idle: None, version: None, client_count: None }
    }
}

/// How the lan-play client is started: with no extra parameters, with the
/// parameters for Animal Crossing, or with the user's own.
#[derive(Clone, Copy, Debug, PartialEq, Eq, Structural)]
pub enum ParamMode {
    Default,
    Acnh,
    Custom,
}

/// The launcher settings.
#[derive(Clone, Debug)]
pub struct AppSettings {
    pub http_timeout_ms: u64,
    pub server_list_url: String,
    pub client_dir: String,
    pub param_mode: ParamMode,
    pub custom_params: String,
    pub privileged: bool,
    pub use_netif: bool,
    pub netif: String,
}

/// The public relay list that the settings start from.
pub open spec fn default_server_list_url() -> Seq<char> {
    "https://raw.githubusercontent.com/GreatWizard/lan-play-status/master/src/data/servers.json"@
}

/// The extra client parameters of the settings: none by default, the
/// path MTU of 500 for Animal Crossing, the user's own otherwise.
pub open spec fn spec_build_params(s: AppSettings) -> Seq<char> {
    match s.param_mode {
        ParamMode::Default => Seq::<char>::empty(),
        ParamMode::Acnh => "--pmtu 500"@,
        ParamMode::Custom => s.custom_params@,
    }
}

/// The file name of the lan-play client on `os`.
pub open spec fn binary_name(os: Os) -> Seq<char> {
    if os == Os::Windows {
        "lan-play.exe"@
    } else {
        "lan-play"@
    }
}

/// The arguments of the lan-play client for the relay at `addr`: the
/// words of the extra parameters, the relay address, the network interface
/// where it is asked for and chosen, and unbuffered output.
pub open spec fn spec_relay_args(s: AppSettings, addr: Seq<char>, include_netif: bool) -> Seq<
    Seq<char>,
> {
    let netif = if include_netif && s.use_netif && s.netif@.len() > 0 {
        seq!["--netif"@, s.netif@]
    } else {
        Seq::<Seq<char>>::empty()
    };
    words(spec_build_params(s)) + seq!["--relay-server-addr"@, addr] + netif + seq![
        "--set-ionbf"@,
    ]
}

impl AppSettings {
    /// The settings a first start has: a 500 ms timeout, the public relay
    /// list, the given client directory, default launch parameters, no
    /// privileges and no network interface.
    pub fn defaults(client_dir: String) -> (s: AppSettings)
        ensures
            s.http_timeout_ms == 500,
            s.server_list_url@ == default_server_list_url(),
            s.client_dir == client_dir,
            s.param_mode == ParamMode::Default,
            s.custom_params@ == Seq::<char>::empty(),
            !s.privileged,
            !s.use_netif,
            s.netif@ == Seq::<char>::empty(),
    {
        AppSettings {
            http_timeout_ms: 500,
            server_list_url: String::from_str(
                "https://raw.githubusercontent.com/GreatWizard/lan-play-status/master/src/data/servers.json",
            ),
            client_dir,
            param_mode: ParamMode::Default,
            custom_params: String::new(),
            privileged: false,
            use_netif: false,
            netif: String::new(),
        }
    }

    /// The extra parameters for the lan-play client.
    pub fn build_params(&self) -> (p: String)
        ensures
            p@ == spec_build_params(*self),
    {
        match self.param_mode {
            ParamMode::Default => String::new(),
            ParamMode::Acnh => String::from_str("--pmtu 500"),
            ParamMode::Custom => self.custom_params.clone(),
        }
    }

    /// The path of the lan-play client in the client directory.
    pub fn client_binary(&self, os: Os) -> (path: String)
        ensures
            path@ == join_path(self.client_dir@, binary_name(os), os),
    {
        let name = match os {
            Os::Windows => "lan-play.exe",
            _ => "lan-play",
        };
        join_path_str(self.client_dir.as_str(), name, os)
    }

    /// The lan-play arguments for connecting to the relay at `addr`.
    pub fn relay_args(&self, addr: &str, include_netif: bool) -> (args: Vec<String>)
        ensures
            views(args@) == spec_relay_args(*self, addr@, include_netif),
    {
        let extra = self.build_params();
        let mut args = split_words(extra.as_str());
        let ghost w = views(args@);
        args.push(String::from_str("--relay-server-addr"));
        args.push(String::from_str(addr));
        if include_netif && self.use_netif && self.netif.as_str().unicode_len() > 0 {
            args.push(String::from_str("--netif"));
            args.push(self.netif.clone());
        }
        args.push(String::from_str("--set-ionbf"));
        assert(views(args@) =~= spec_relay_args(*self, addr@, include_netif));
        args
    }
}


/// The settings in use: those read from the configuration file, or the
/// first-start settings where none could be read.
pub fn settings_or_defaults(loaded: Option<AppSettings>, client_dir: String) -> (s: AppSettings)
    ensures
        loaded matches Some(l) ==> s == l,
        loaded is None ==> {
            &&& s.http_timeout_ms == 500
            &&& s.server_list_url@ == default_server_list_url()
            &&& s.client_dir == client_dir
            &&& s.param_mode == ParamMode::Default
            &&& s.custom_params@ == Seq::<char>::empty()
            &&& !s.privileged
            &&& !s.use_netif
            &&& s.netif@ == Seq::<char>::empty()
        },
{
    match loaded {
        Some(l) => l,
        None => AppSettings::defaults(client_dir),
    }
}

} // verus!
