//! Replies to status requests, and the detection of a relay's backend by
//! asking `/info` first and `/` second.

use vstd::prelude::*;
use vstd::string::*;

use crate::models::ServerStatus;

verus! {

/// How a status request to a relay ended: no answer; an answer whose body
/// could not be read; or a body, with the status it decoded to, if any.
/// The elapsed time is in milliseconds.
#[derive(Clone, Debug)]
pub enum StatusReply {
    Unreachable,
    Unreadable { elapsed_ms: u128 },
    Received { elapsed_ms: u128, status: Option<ServerStatus> },
}

/// The backend families a relay can run: rust and node relays answer at
/// `/info`, dotnet relays at `/`.
#[derive(Clone, Copy, Debug, PartialEq, Eq, Structural)]
pub enum Backend {
    Rust,
    Dotnet,
}

/// The type name under which a backend is listed.
pub open spec fn backend_name(b: Backend) -> Seq<char> {
    match b {
        Backend::Rust => "rust"@,
        Backend::Dotnet => "dotnet"@,
    }
}

/// The type name under which `b` is listed.
pub fn backend_str(b: Backend) -> (s: &'static str)
    ensures
        s@ == backend_name(b),
{
    match b {
        Backend::Rust => "rust",
        Backend::Dotnet => "dotnet",
    }
}

/// Where detection stands: `/info` asked, `/` asked, or done.
#[derive(Clone, Copy, Debug, PartialEq, Eq, Structural)]
pub enum DetectStage {
    Info,
    Root,
    Finished,
}

/// What detection asks for next: a request to a URL, or its verdict.
#[derive(Clone, Debug)]
pub enum DetectStep {
    Probe(String),
    Found { backend: Backend, elapsed_ms: u128, status: ServerStatus },
    NotFound,
}

/// The detection of the backend of the relay at `addr`.
pub struct Detection {
    pub addr: String,
    pub stage: DetectStage,
}

/// The `/info` endpoint of the relay at `addr`.
pub open spec fn info_url(addr: Seq<char>) -> Seq<char> {
    "http://"@ + addr + "/info"@
}

/// The `/` endpoint of the relay at `addr`.
pub open spec fn root_url(addr: Seq<char>) -> Seq<char> {
    "http://"@ + addr + "/"@
}

/// An `/info` reply shows a rust or node relay when it decodes to a status
/// with an online or idle count.
pub open spec fn info_accepts(r: StatusReply) -> bool {
    &&& r matches StatusReply::Received { status: Some(st), .. }
    &&& (st.online is Some || st.idle is Some)
}

/// A `/` reply shows a dotnet relay when it decodes to a status with a
/// client count.
pub open spec fn root_accepts(r: StatusReply) -> bool {
    &&& r matches StatusReply::Received { status: Some(st), .. }
    &&& st.client_count is Some
}

/// The verdict for an accepted reply.
pub open spec fn found(b: Backend, r: StatusReply) -> DetectStep {
    match r {
        StatusReply::Received { elapsed_ms, status: Some(st) } => DetectStep::Found {
            backend: b,
            elapsed_ms,
            status: st,
        },
        _ => DetectStep::NotFound,
    }
}

/// Whether `step` is a request to `url`.
pub open spec fn probes(step: DetectStep, url: Seq<char>) -> bool {
    step matches DetectStep::Probe(u) && u@ == url
}

/// The step that follows a reply at stage `stage`, with the stage after it.
pub open spec fn spec_detect_step(stage: DetectStage, addr: Seq<char>, r: StatusReply) -> (
    DetectStage,
    Option<DetectStep>,
) {
    match stage {
        DetectStage::Info => if info_accepts(r) {
            (DetectStage::Finished, Some(found(Backend::Rust, r)))
        } else {
            (DetectStage::Root, None)
        },
        _ => if root_accepts(r) {
            (DetectStage::Finished, Some(found(Backend::Dotnet, r)))
        } else {
            (DetectStage::Finished, Some(DetectStep::NotFound))
        },
    }
}

fn endpoint(addr: &str, path: &str) -> (url: String)
    ensures
        url@ == "http://"@ + addr@ + path@,
{
    let mut url = String::from_str("http://");
    url.append(addr);
    url.append(path);
    url
}

impl Detection {
    /// Starts detection at `addr` with a request to `/info`.
    pub fn start(addr: &str) -> (res: (Detection, DetectStep))
        ensures
            res.0.addr@ == addr@,
            res.0.stage == DetectStage::Info,
            probes(res.1, info_url(addr@)),
    {
        let url = endpoint(addr, "/info");
        (Detection { addr: String::from_str(addr), stage: DetectStage::Info }, DetectStep::Probe(url))
    }

    /// Takes the reply to the last request and says what comes next: after
    /// `/info`, a rust verdict or a request to `/`; after `/`, a dotnet
    /// verdict or none.
    pub fn on_reply(&mut self, reply: StatusReply) -> (step: DetectStep)
        requires
            old(self).stage != DetectStage::Finished,
        ensures
            final(self).addr == old(self).addr,
            final(self).stage == spec_detect_step(old(self).stage, old(self).addr@, reply).0,
            match spec_detect_step(old(self).stage, old(self).addr@, reply).1 {
                Some(s) => step == s,
                None => probes(step, root_url(old(self).addr@)),
            },
    {
        let accepted = match &reply {
            StatusReply::Received { status: Some(st), .. } => match self.stage {
                DetectStage::Info => st.online.is_some() || st.idle.is_some(),
                _ => st.client_count.is_some(),
            },
            _ => false,
        };
        let backend = match self.stage {
            DetectStage::Info => Backend::Rust,
            _ => Backend::Dotnet,
        };
        if accepted {
            self.stage = DetectStage::Finished;
            match reply {
                StatusReply::Received { elapsed_ms, status: Some(st) } => DetectStep::Found {
                    backend,
                    elapsed_ms,
                    status: st,
                },
                _ => DetectStep::NotFound,
            }
        } else {
            match self.stage {
                DetectStage::Info => {
                    self.stage = DetectStage::Root;
                    DetectStep::Probe(endpoint(self.addr.as_str(), "/"))
                },
                _ => {
                    self.stage = DetectStage::Finished;
                    DetectStep::NotFound
                },
            }
        }
    }
}

/// The message given when neither endpoint answers like a relay.
pub fn not_a_relay_message() -> (m: String)
    ensures
        m@ == "Not a lan-play server"@,
{
    String::from_str("Not a lan-play server")
}

} // verus!
