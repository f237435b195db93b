//! The public relay list: which part of a downloaded document is the list,
//! which entries are kept, and the request timeouts.

use vstd::prelude::*;
use vstd::string::*;

use crate::json::{find_member, member, parse_json, spec_json, spec_json_error, Json};
use crate::models::{PortValue, ServerEntry};
use crate::server::Server;
use crate::text::{parse_unsigned, parse_unsigned_str};

verus! {

/// The readings of a relay list document, each present where that part of
/// the document exists and decodes to a list of entries: the `servers` of
/// the first element of a top-level array, the top-level array itself, and
/// the `servers` of a top-level object.
pub struct ListCandidates {
    pub wrapped: Option<Vec<ServerEntry>>,
    pub flat: Option<Vec<ServerEntry>>,
    pub top: Option<Vec<ServerEntry>>,
}

/// The list of a document: the wrapped reading first, then the flat one,
/// then the object one; none of them is an unrecognized format.
pub open spec fn spec_select(c: ListCandidates) -> Result<Seq<ServerEntry>, Seq<char>> {
    match c.wrapped {
        Some(w) => Ok(w@),
        None => match c.flat {
            Some(f) => Ok(f@),
            None => match c.top {
                Some(t) => Ok(t@),
                None => Err("Unrecognized server list format"@),
            },
        },
    }
}

/// Picks the relay list out of the readings of a document.
pub fn select_server_list(c: ListCandidates) -> (res: Result<Vec<ServerEntry>, String>)
    ensures
        match (res, spec_select(c)) {
            (Ok(v), Ok(s)) => v@ == s,
            (Err(e), Err(m)) => e@ == m,
            _ => false,
        },
{
    match c.wrapped {
        Some(w) => Ok(w),
        None => match c.flat {
            Some(f) => Ok(f),
            None => match c.top {
                Some(t) => Ok(t),
                None => Err(String::from_str("Unrecognized server list format")),
            },
        },
    }
}

/// The value of an optional field: `None` inside where the field is absent.
pub open spec fn deref_field(f: Option<&Json>) -> Option<Json> {
    match f {
        Some(j) => Some(*j),
        None => None,
    }
}

/// An optional text field: absent or null gives none, a string gives the
/// string; any other value makes the entry unreadable (outer `None`).
pub open spec fn text_field(f: Option<Json>) -> Option<Option<String>> {
    match f {
        None => Some(None),
        Some(Json::Null) => Some(None),
        Some(Json::Text(s)) => Some(Some(s)),
        _ => None,
    }
}

/// An optional boolean field, read like `text_field`.
pub open spec fn bool_field(f: Option<Json>) -> Option<Option<bool>> {
    match f {
        None => Some(None),
        Some(Json::Null) => Some(None),
        Some(Json::Bool(b)) => Some(Some(b)),
        _ => None,
    }
}

/// The `port` field: absent or null gives none; a number that is an
/// unsigned integer gives that number, another number its text; a string
/// gives the string; any other value is kept as some other value.
pub open spec fn port_field(f: Option<Json>) -> Option<PortValue> {
    match f {
        None => None,
        Some(Json::Null) => None,
        Some(Json::Number(t)) => Some(
            match parse_unsigned(t@, u64::MAX as nat) {
                Some(v) => PortValue::Number(v as u64),
                None => PortValue::Text(t),
            },
        ),
        Some(Json::Text(s)) => Some(PortValue::Text(s)),
        _ => Some(PortValue::Other),
    }
}

/// The relay list entry a JSON value stands for: an object whose `ip`,
/// `type` and `flag` are strings or null where present, whose `hidden` is
/// a boolean or null where present, and whose `port` may be anything;
/// other members are ignored. Any other value is no entry.
pub open spec fn spec_entry(j: Json) -> Option<ServerEntry> {
    match j {
        Json::Object(m) => {
            let ip = text_field(member(m@, "ip"@));
            let ty = text_field(member(m@, "type"@));
            let flag = text_field(member(m@, "flag"@));
            let hidden = bool_field(member(m@, "hidden"@));
            if ip is Some && ty is Some && flag is Some && hidden is Some {
                Some(
                    ServerEntry {
                        ip: ip->Some_0,
                        port: port_field(member(m@, "port"@)),
                        server_type: ty->Some_0,
                        flag: flag->Some_0,
                        hidden: hidden->Some_0,
                    },
                )
            } else {
                None
            }
        },
        _ => None,
    }
}

/// The list of entries a JSON value stands for: an array all of whose
/// elements are entries. Anything else is no list.
pub open spec fn spec_entries(j: Json) -> Option<Seq<ServerEntry>> {
    match j {
        Json::Array(a) => if forall|k: int| 0 <= k < a@.len() ==> (#[trigger] spec_entry(a@[k])) is Some {
            Some(Seq::new(a@.len(), |k: int| spec_entry(a@[k])->Some_0))
        } else {
            None
        },
        _ => None,
    }
}

/// The list under the `servers` member of an object.
pub open spec fn servers_of(j: Json) -> Option<Seq<ServerEntry>> {
    match j {
        Json::Object(m) => match member(m@, "servers"@) {
            Some(s) => spec_entries(s),
            None => None,
        },
        _ => None,
    }
}

/// The wrapped reading: the `servers` of the first element of a top-level
/// array.
pub open spec fn wrapped_reading(doc: Json) -> Option<Seq<ServerEntry>> {
    match doc {
        Json::Array(a) => if a@.len() > 0 {
            servers_of(a@[0])
        } else {
            None
        },
        _ => None,
    }
}

/// The relay list of a document: its wrapped reading, else the top-level
/// array itself, else the `servers` of a top-level object; without any of
/// them the format is not recognized.
pub open spec fn spec_list_of(doc: Json) -> Result<Seq<ServerEntry>, Seq<char>> {
    match wrapped_reading(doc) {
        Some(w) => Ok(w),
        None => match spec_entries(doc) {
            Some(f) => Ok(f),
            None => match servers_of(doc) {
                Some(t) => Ok(t),
                None => Err("Unrecognized server list format"@),
            },
        },
    }
}

/// The relay list in a downloaded `body`: the error of the JSON parser
/// where it is not JSON, otherwise the list of the document.
pub open spec fn spec_parse_server_list(body: Seq<char>) -> Result<Seq<ServerEntry>, Seq<char>> {
    match spec_json(body) {
        None => Err("JSON parse error: "@ + spec_json_error(body)),
        Some(doc) => spec_list_of(doc),
    }
}

fn read_text_field(f: Option<&Json>) -> (r: Option<Option<String>>)
    ensures
        r == text_field(deref_field(f)),
{
    match f {
        None => Some(None),
        Some(Json::Null) => Some(None),
        Some(Json::Text(s)) => Some(Some(s.clone())),
        _ => None,
    }
}

fn read_bool_field(f: Option<&Json>) -> (r: Option<Option<bool>>)
    ensures
        r == bool_field(deref_field(f)),
{
    match f {
        None => Some(None),
        Some(Json::Null) => Some(None),
        Some(Json::Bool(b)) => Some(Some(*b)),
        _ => None,
    }
}

fn read_port_field(f: Option<&Json>) -> (r: Option<PortValue>)
    ensures
        r == port_field(deref_field(f)),
{
    match f {
        None => None,
        Some(Json::Null) => None,
        Some(Json::Number(t)) => Some(
            match parse_unsigned_str(t.as_str(), u64::MAX) {
                Some(v) => PortValue::Number(v),
                None => PortValue::Text(t.clone()),
            },
        ),
        Some(Json::Text(s)) => Some(PortValue::Text(s.clone())),
        _ => Some(PortValue::Other),
    }
}

/// Reads one relay list entry.
pub fn decode_entry(j: &Json) -> (r: Option<ServerEntry>)
    ensures
        r == spec_entry(*j),
{
    match j {
        Json::Object(m) => {
            let ip = read_text_field(find_member(m, "ip"));
            let ty = read_text_field(find_member(m, "type"));
            let flag = read_text_field(find_member(m, "flag"));
            let hidden = read_bool_field(find_member(m, "hidden"));
            let port = read_port_field(find_member(m, "port"));
            match (ip, ty, flag, hidden) {
                (Some(ip), Some(server_type), Some(flag), Some(hidden)) => Some(
                    ServerEntry { ip, port, server_type, flag, hidden },
                ),
                _ => None,
            }
        },
        _ => None,
    }
}

/// Reads a list of relay list entries.
pub fn decode_entries(j: &Json) -> (r: Option<Vec<ServerEntry>>)
    ensures
        match (r, spec_entries(*j)) {
            (Some(v), Some(s)) => v@ == s,
            (None, None) => true,
            _ => false,
        },
{
    match j {
        Json::Array(a) => {
            let n = a.len();
            let mut out: Vec<ServerEntry> = Vec::new();
            let mut i: usize = 0;
            while i < n
                invariant
                    n == a@.len(),
                    *j == Json::Array(*a),
                    i <= n,
                    out@.len() == i,
                    forall|k: int| 0 <= k < i ==> (#[trigger] spec_entry(a@[k])) is Some,
                    forall|k: int| 0 <= k < i ==> out@[k] == spec_entry(a@[k])->Some_0,
                decreases n - i,
            {
                match decode_entry(&a[i]) {
                    Some(e) => {
                        out.push(e);
                    },
                    None => {
                        assert(spec_entry(a@[i as int]) is None);
                        assert(!(forall|k: int|
                            0 <= k < a@.len() ==> (#[trigger] spec_entry(a@[k])) is Some));
                        assert(spec_entries(*j) is None);
                        return None;
                    },
                }
                i = i + 1;
            }
            assert(out@ =~= Seq::new(a@.len(), |k: int| spec_entry(a@[k])->Some_0));
            Some(out)
        },
        _ => None,
    }
}

fn decode_servers_of(j: &Json) -> (r: Option<Vec<ServerEntry>>)
    ensures
        match (r, servers_of(*j)) {
            (Some(v), Some(s)) => v@ == s,
            (None, None) => true,
            _ => false,
        },
{
    match j {
        Json::Object(m) => match find_member(m, "servers") {
            Some(s) => decode_entries(s),
            None => None,
        },
        _ => None,
    }
}

/// Reads the relay list out of a downloaded body. Three layouts are
/// recognized: `[{"servers": [...]}]`, `[{ip, port, ...}, ...]` and
/// `{"servers": [...]}`, tried in that order.
pub fn parse_server_list(body: &str) -> (r: Result<Vec<ServerEntry>, String>)
    ensures
        match (r, spec_parse_server_list(body@)) {
            (Ok(v), Ok(s)) => v@ == s,
            (Err(e), Err(m)) => e@ == m,
            _ => false,
        },
{
    match parse_json(body) {
        Ok(doc) => list_of(&doc),
        Err(e) => Err(json_error_message(e.as_str())),
    }
}

/// Reads the relay list out of a JSON document.
pub fn list_of(doc: &Json) -> (r: Result<Vec<ServerEntry>, String>)
    ensures
        match (r, spec_list_of(*doc)) {
            (Ok(v), Ok(s)) => v@ == s,
            (Err(e), Err(m)) => e@ == m,
            _ => false,
        },
{
    let wrapped = match doc {
        Json::Array(a) => if a.len() > 0 {
            decode_servers_of(&a[0])
        } else {
            None
        },
        _ => None,
    };
    let flat = decode_entries(doc);
    let top = decode_servers_of(doc);
    select_server_list(ListCandidates { wrapped, flat, top })
}

/// The error given for a document that is not JSON.
pub fn json_error_message(detail: &str) -> (m: String)
    ensures
        m@ == "JSON parse error: "@ + detail@,
{
    let mut m = String::from_str("JSON parse error: ");
    m.append(detail);
    m
}

/// The timeout of the list download: three status timeouts, at most 15 s.
pub fn list_timeout_ms(http_timeout_ms: u64) -> (t: u64)
    ensures
        t == if http_timeout_ms * 3 <= 15_000 {
            (http_timeout_ms * 3) as u64
        } else {
            15_000
        },
{
    if http_timeout_ms <= 5_000 {
        http_timeout_ms * 3
    } else {
        15_000
    }
}

/// The timeout of first contact with a typed-in relay: the status timeout,
/// at least 3 s.
pub fn detect_timeout_ms(http_timeout_ms: u64) -> (t: u64)
    ensures
        t == if http_timeout_ms >= 3_000 {
            http_timeout_ms
        } else {
            3_000
        },
{
    if http_timeout_ms >= 3_000 {
        http_timeout_ms
    } else {
        3_000
    }
}

/// The relays of the list that give an address, each not yet asked.
pub fn servers_from_entries(entries: Vec<ServerEntry>) -> (servers: Vec<Server>)
    ensures
        servers@.len() == entries@.filter(|e: ServerEntry| e.ip is Some).len(),
        forall|k: int|
            0 <= k < servers@.len() ==> {
                &&& (#[trigger] servers@[k]).entry == entries@.filter(
                    |e: ServerEntry| e.ip is Some,
                )[k]
                &&& servers@[k].status.online is None
                &&& servers@[k].status.idle is None
                &&& servers@[k].status.version is None
                &&& servers@[k].status.client_count is None
                &&& servers@[k].ping_ms is None
                &&& !servers@[k].reachable
            },
{
    let ghost all = entries@;
    let n = entries.len();
    let mut rest = entries;
    let mut servers: Vec<Server> = Vec::new();
    let mut i: usize = 0;
    while i < n
        invariant
            n == all.len(),
            i <= n,
            rest@ == all.skip(i as int),
            servers@.len() == all.take(i as int).filter(|e: ServerEntry| e.ip is Some).len(),
            forall|k: int|
                0 <= k < servers@.len() ==> {
                    &&& (#[trigger] servers@[k]).entry == all.take(i as int).filter(
                        |e: ServerEntry| e.ip is Some,
                    )[k]
                    &&& servers@[k].status.online is None
                    &&& servers@[k].status.idle is None
                    &&& servers@[k].status.version is None
                    &&& servers@[k].status.client_count is None
                    &&& servers@[k].ping_ms is None
                    &&& !servers@[k].reachable
                },
        decreases n - i,
    {
        let ghost t = all.take(i + 1);
        assert(t.drop_last() =~= all.take(i as int));
        assert(t.last() == all[i as int]);
        proof {
            reveal_with_fuel(Seq::<ServerEntry>::filter, 1);
        }
        let e = rest.remove(0);
        assert(rest@ =~= all.skip(i + 1));
        if e.ip.is_some() {
            servers.push(Server::from_entry(e));
        }
        i = i + 1;
    }
    assert(all.take(n as int) =~= all);
    servers
}

/// The entries of the list that are not hidden, in list order.
pub fn shown_entries(entries: Vec<ServerEntry>) -> (shown: Vec<ServerEntry>)
    ensures
        shown@ == entries@.filter(|e: ServerEntry| e.hidden != Some(true)),
{
    let ghost all = entries@;
    let n = entries.len();
    let mut rest = entries;
    let mut shown: Vec<ServerEntry> = Vec::new();
    let mut i: usize = 0;
    while i < n
        invariant
            n == all.len(),
            i <= n,
            rest@ == all.skip(i as int),
            shown@ == all.take(i as int).filter(|e: ServerEntry| e.hidden != Some(true)),
        decreases n - i,
    {
        let ghost t = all.take(i + 1);
        assert(t.drop_last() =~= all.take(i as int));
        assert(t.last() == all[i as int]);
        proof {
            reveal_with_fuel(Seq::<ServerEntry>::filter, 1);
        }
        let e = rest.remove(0);
        assert(rest@ =~= all.skip(i + 1));
        if !e.is_hidden() {
            shown.push(e);
        }
        i = i + 1;
    }
    assert(all.take(n as int) =~= all);
    shown
}

} // verus!
