//! Properties that hold across the library's operations.

use vstd::prelude::*;

use crate::models::{entry_addr, PortValue, ServerEntry, ServerStatus};
use crate::platform::{join_path, spec_config_dir, Os};
use crate::probe::{
    found, info_accepts, root_accepts, spec_detect_step, Backend, DetectStage, DetectStep,
    StatusReply,
};
use crate::ordering::{is_listing_order, ping_le};
use crate::server::{qc_host, qc_port, spec_active, spec_idle, Server, spec_online};
use crate::text::{
    decimal, digit_char, digits_value, first_index, is_digit, is_whitespace, lemma_first_index,
    parse_unsigned, words,
};
use crate::json::{member, Json};
use crate::launch::{
    spec_connected_message, spec_elevated_params, spec_elevation_failure, spec_kill_args,
    spec_listen_port, spec_sudo_args, spec_sudo_line,
};
use crate::models::{binary_name, entry_type, spec_build_params, spec_relay_args, status_url_for, ParamMode, AppSettings};
use crate::json::{spec_json, spec_json_error};
use crate::relay_list::{spec_list_of, spec_parse_server_list};
use crate::server::spec_ping_label;
use crate::text::join;
use crate::platform::{spec_download_url, Arch, Platform};
use crate::relay_list::spec_entry;
use crate::server::spec_server_ping;
use crate::view::{spec_record_ping, spec_record_reply, ServerView};
use crate::web::apply_checks;

verus! {

/// Active players never outnumber online ones, and with no more idle than
/// online players, active and idle players make up those online.
pub proof fn law_active_players(st: ServerStatus)
    ensures
        spec_active(st) <= spec_online(st),
        spec_idle(st) <= spec_online(st) ==> spec_active(st) + spec_idle(st) == spec_online(st),
{
}

/// A typed-in relay keeps the address that was typed: with a `:` in it,
/// the entry's address is the typed text; without one, the default port
/// 11451 is added.
pub proof fn law_typed_address_kept(addr: Seq<char>, e: ServerEntry)
    requires
        e.ip matches Some(ip) && ip@ == qc_host(addr),
        e.port matches Some(PortValue::Text(p)) && p@ == qc_port(addr),
    ensures
        (exists|i: int| 0 <= i < addr.len() && addr[i] == ':') ==> entry_addr(e) == addr,
        (forall|i: int| 0 <= i < addr.len() ==> addr[i] != ':') ==> entry_addr(e) == addr
            + ":11451"@,
{
    reveal_strlit(":");
    reveal_strlit("11451");
    reveal_strlit(":11451");
    let k = first_index(addr, ':');
    if exists|i: int| 0 <= i < addr.len() && addr[i] == ':' {
        let w = choose|i: int| 0 <= i < addr.len() && addr[i] == ':';
        lemma_first_index_bound(addr, ':');
        if k == addr.len() {
            lemma_first_index_absent(addr, ':', w);
        }
        assert(k < addr.len());
        lemma_first_index_hit(addr, ':');
        assert(addr.take(k as int) + ":"@ + addr.skip(k + 1int) =~= addr);
    } else {
        lemma_first_index(addr, ':', addr.len() as int);
        assert(addr.take(k as int) =~= addr);
        assert(addr + ":"@ + "11451"@ =~= addr + ":11451"@);
    }
}

proof fn lemma_first_index_bound(s: Seq<char>, c: char)
    ensures
        first_index(s, c) <= s.len(),
    decreases s.len(),
{
    if s.len() > 0 && s[0] != c {
        lemma_first_index_bound(s.drop_first(), c);
    }
}

proof fn lemma_first_index_hit(s: Seq<char>, c: char)
    ensures
        first_index(s, c) < s.len() ==> s[first_index(s, c) as int] == c,
    decreases s.len(),
{
    if s.len() > 0 && s[0] != c {
        let d = s.drop_first();
        lemma_first_index_hit(d, c);
        if first_index(d, c) < d.len() {
            assert(s[first_index(s, c) as int] == d[first_index(d, c) as int]);
        }
    }
}

proof fn lemma_first_index_absent(s: Seq<char>, c: char, w: int)
    requires
        0 <= w < s.len(),
        s[w] == c,
    ensures
        first_index(s, c) <= w,
    decreases s.len(),
{
    if s[0] != c {
        let d = s.drop_first();
        assert(d[w - 1] == s[w]);
        lemma_first_index_absent(d, c, w - 1);
    }
}

/// The verdict of detection at `addr` after the replies `r1` to `/info`
/// and, where it is asked, `r2` to `/`.
pub open spec fn detection_outcome(addr: Seq<char>, r1: StatusReply, r2: StatusReply) -> DetectStep {
    let (stage, step) = spec_detect_step(DetectStage::Info, addr, r1);
    match step {
        Some(s) => s,
        None => spec_detect_step(stage, addr, r2).1->Some_0,
    }
}

/// Detection tries `/info` first, which shows a rust or node relay; it
/// falls back to `/`, which shows a dotnet relay; when neither does, the
/// address is no relay.
pub proof fn law_detection_order(addr: Seq<char>, r1: StatusReply, r2: StatusReply)
    ensures
        info_accepts(r1) ==> detection_outcome(addr, r1, r2) == found(Backend::Rust, r1),
        !info_accepts(r1) ==> spec_detect_step(DetectStage::Info, addr, r1).0 == DetectStage::Root,
        !info_accepts(r1) && root_accepts(r2) ==> detection_outcome(addr, r1, r2) == found(
            Backend::Dotnet,
            r2,
        ),
        !info_accepts(r1) && !root_accepts(r2) ==> detection_outcome(addr, r1, r2)
            == DetectStep::NotFound,
        info_accepts(r1) ==> (found(Backend::Rust, r1) matches DetectStep::Found {
            backend: Backend::Rust,
            ..
        }),
        root_accepts(r2) ==> (found(Backend::Dotnet, r2) matches DetectStep::Found {
            backend: Backend::Dotnet,
            ..
        }),
{
}

/// A ping keeps what identifies a relay, and it is reachable exactly when
/// some answer came, with a ping exactly then.
pub proof fn law_ping_reachability(v: ServerView, r: StatusReply)
    ensures
        spec_record_ping(v, r).addr == v.addr,
        spec_record_ping(v, r).server_type == v.server_type,
        spec_record_ping(v, r).flag == v.flag,
        spec_record_ping(v, r).reachable == !(r is Unreachable),
        spec_record_ping(v, r).ping_ms is Some == !(r is Unreachable),
{
}

/// Every word of a text is non-empty and holds no white space.
pub proof fn law_words_are_clean(s: Seq<char>)
    ensures
        forall|k: int|
            0 <= k < words(s).len() ==> (#[trigger] words(s)[k]).len() > 0 && forall|j: int|
                0 <= j < words(s)[k].len() ==> !is_whitespace(words(s)[k][j]),
    decreases s.len(),
{
    if s.len() > 0 {
        let p = s.drop_last();
        let c = s.last();
        law_words_are_clean(p);
        let w = words(p);
        if is_whitespace(c) {
        } else if p.len() == 0 || is_whitespace(p.last()) {
            assert forall|k: int| 0 <= k < words(s).len() implies (#[trigger] words(s)[k]).len()
                > 0 && forall|j: int| 0 <= j < words(s)[k].len() ==> !is_whitespace(
                words(s)[k][j],
            ) by {
                if k < w.len() {
                    assert(words(s)[k] == w[k]);
                }
            }
        } else {
            lemma_words_nonempty_before_word(s.drop_last());
            assert forall|k: int| 0 <= k < words(s).len() implies (#[trigger] words(s)[k]).len()
                > 0 && forall|j: int| 0 <= j < words(s)[k].len() ==> !is_whitespace(
                words(s)[k][j],
            ) by {
                if k < w.len() - 1 {
                    assert(words(s)[k] == w[k]);
                } else {
                    let last = w.last().push(c);
                    assert(words(s)[k] == last);
                    assert forall|j: int| 0 <= j < last.len() implies !is_whitespace(last[j]) by {
                        if j < last.len() - 1 {
                            assert(last[j] == w[w.len() - 1][j]);
                        }
                    }
                }
            }
        }
    }
}

/// A text that ends in a non-white-space character has at least one word.
proof fn lemma_words_nonempty_before_word(p: Seq<char>)
    requires
        p.len() > 0,
        !is_whitespace(p.last()),
    ensures
        words(p).len() > 0,
    decreases p.len(),
{
    let q = p.drop_last();
    if q.len() > 0 && !is_whitespace(q.last()) {
        lemma_words_nonempty_before_word(q);
    }
}

proof fn lemma_decimal_digits(n: nat)
    ensures
        decimal(n).len() > 0,
        forall|j: int| 0 <= j < decimal(n).len() ==> is_digit(#[trigger] decimal(n)[j]),
        digits_value(decimal(n)) == n,
    decreases n,
{
    if n < 10 {
        let s = decimal(n);
        assert(s.drop_last() =~= Seq::<char>::empty());
        assert(digits_value(s.drop_last()) == 0);
    }
    if n >= 10 {
        lemma_decimal_digits(n / 10);
        let d = decimal(n / 10);
        let s = decimal(n);
        assert(s == d.push(digit_char((n % 10) as int)));
        assert(s.drop_last() =~= d);
        assert(s.last() == digit_char((n % 10) as int));
        assert(digits_value(s) == digits_value(d) * 10 + (n % 10));
        assert((n / 10) * 10 + n % 10 == n);
        assert forall|j: int| 0 <= j < s.len() implies is_digit(#[trigger] s[j]) by {
            if j < d.len() {
                assert(s[j] == d[j]);
            }
        }
    }
}

/// What is written in decimal reads back as the same number.
pub proof fn law_decimal_parses_back(n: nat, max: nat)
    requires
        n <= max,
    ensures
        parse_unsigned(decimal(n), max) == Some(n),
{
    lemma_decimal_digits(n);
    assert(is_digit(decimal(n)[0]));
}

/// Outside Windows, the configuration file lies in `.config/YaSLP-GUI` of
/// the home directory, or in `/opt/YaSLP-GUI` without one.
pub proof fn law_config_location(os: Os, home: Option<Seq<char>>)
    requires
        os != Os::Windows,
    ensures
        home is Some && home->Some_0.len() > 0 && home->Some_0.last() != '/' ==> join_path(
            spec_config_dir(os, home),
            "config.json"@,
            os,
        ) == home->Some_0 + "/.config/YaSLP-GUI/config.json"@,
        home is None ==> join_path(spec_config_dir(os, home), "config.json"@, os)
            == "/opt/YaSLP-GUI/config.json"@,
{
    reveal_strlit("/opt/YaSLP-GUI");
    reveal_strlit("/opt/YaSLP-GUI/config.json");
    reveal_strlit(".config/YaSLP-GUI");
    reveal_strlit("/.config/YaSLP-GUI/config.json");
    reveal_strlit("config.json");
    if let Some(h) = home {
        if h.len() > 0 && h.last() != '/' {
            let d = h.push('/') + ".config/YaSLP-GUI"@;
            assert(d.last() == 'I');
            assert(d.push('/') + "config.json"@ =~= h + "/.config/YaSLP-GUI/config.json"@);
        }
    } else {
        assert("/opt/YaSLP-GUI"@.last() == 'I');
        assert("/opt/YaSLP-GUI"@.push('/') + "config.json"@ =~= "/opt/YaSLP-GUI/config.json"@);
    }
}

/// A listing shows each relay at most once, and shows the relays without a
/// ping after all those with one.
pub proof fn law_listing_once(servers: Seq<Server>, hide_offline: bool, order: Seq<usize>)
    requires
        is_listing_order(servers, hide_offline, order),
    ensures
        forall|k1: int, k2: int|
            0 <= k1 < k2 < order.len() ==> #[trigger] order[k1] != #[trigger] order[k2],
        forall|k1: int, k2: int|
            #![trigger order[k1], order[k2]]
            0 <= k1 < k2 < order.len() && servers[order[k1] as int].ping_ms is None
                ==> servers[order[k2] as int].ping_ms is None,
{
    assert forall|k1: int, k2: int|
        0 <= k1 < k2 < order.len() implies #[trigger] order[k1] != #[trigger] order[k2] by {
        if order[k1] == order[k2] {
            assert(order[k1] < order[k2]);
        }
    }
    assert forall|k1: int, k2: int|
        #![trigger order[k1], order[k2]]
        0 <= k1 < k2 < order.len() && servers[order[k1] as int].ping_ms is None
            implies servers[order[k2] as int].ping_ms is None by {
        assert(ping_le(servers[order[k1] as int].ping_ms, servers[order[k2] as int].ping_ms));
    }
}

/// The checks of a refresh, each at its own position of the listed
/// records, leave every checked position holding its checked record and
/// every other record as it was listed; the list keeps its length.
pub proof fn law_refresh_checks(listed: Seq<ServerView>, checks: Seq<(usize, ServerView)>)
    requires
        forall|k: int| 0 <= k < checks.len() ==> (#[trigger] checks[k]).0 < listed.len(),
        forall|k1: int, k2: int|
            0 <= k1 < k2 < checks.len() ==> (#[trigger] checks[k1]).0 != (#[trigger] checks[k2]).0,
    ensures
        apply_checks(listed, checks).len() == listed.len(),
        forall|k: int|
            0 <= k < checks.len() ==> apply_checks(listed, checks)[(#[trigger] checks[k]).0 as int]
                == checks[k].1,
        forall|j: int|
            0 <= j < listed.len() && (forall|k: int| 0 <= k < checks.len() ==> (#[trigger] checks[k]).0
                != j) ==> #[trigger] apply_checks(listed, checks)[j] == listed[j],
    decreases checks.len(),
{
    if checks.len() > 0 {
        let front = checks.drop_last();
        assert forall|k: int| 0 <= k < front.len() implies (#[trigger] front[k]).0 < listed.len() by {
            assert(front[k] == checks[k]);
        }
        assert forall|k1: int, k2: int| 0 <= k1 < k2 < front.len() implies (#[trigger] front[k1]).0
            != (#[trigger] front[k2]).0 by {
            assert(front[k1] == checks[k1]);
            assert(front[k2] == checks[k2]);
        }
        law_refresh_checks(listed, front);
        let n = checks.len() - 1;
        let (i, v) = checks.last();
        assert(checks[n] == checks.last());
        let prev = apply_checks(listed, front);
        assert(i < prev.len());
        assert forall|k: int| 0 <= k < checks.len() implies apply_checks(listed, checks)[(
        #[trigger] checks[k]).0 as int] == checks[k].1 by {
            if k < n {
                assert(front[k] == checks[k]);
                assert(checks[k].0 != checks[n].0);
            }
        }
        assert forall|j: int|
            0 <= j < listed.len() && (forall|k: int| 0 <= k < checks.len() ==> (#[trigger] checks[
                k]).0 != j) implies #[trigger] apply_checks(listed, checks)[j] == listed[j] by {
            assert forall|k: int| 0 <= k < front.len() implies (#[trigger] front[k]).0 != j by {
                assert(front[k] == checks[k]);
            }
            assert(checks[n].0 != j);
        }
    }
}

/// A reply that decoded to a status `st`, to a ping or to the status
/// request of a refresh, makes the record show exactly `st`'s player
/// counts, version and client count, with the measured ping, reachable;
/// the relay's address, type and region stay. A reply without a decoded
/// status keeps the counts the record had.
pub proof fn law_reply_status_shown(v: ServerView, elapsed_ms: u128, st: ServerStatus)
    ensures
        ({
            let w = spec_record_ping(v, StatusReply::Received { elapsed_ms, status: Some(st) });
            &&& w.online == st.online
            &&& w.idle == st.idle
            &&& w.version == st.version
            &&& w.client_count == st.client_count
            &&& w.ping_ms == Some(elapsed_ms)
            &&& w.reachable
            &&& w.addr == v.addr && w.server_type == v.server_type && w.flag == v.flag
        }),
        ({
            let w = spec_record_reply(v, StatusReply::Received { elapsed_ms, status: Some(st) });
            &&& w.online == st.online
            &&& w.idle == st.idle
            &&& w.version == st.version
            &&& w.client_count == st.client_count
            &&& w.ping_ms == Some(elapsed_ms)
            &&& w.reachable
            &&& w.addr == v.addr && w.server_type == v.server_type && w.flag == v.flag
        }),
        ({
            let w = spec_record_ping(v, StatusReply::Received { elapsed_ms, status: None });
            &&& w.online == v.online && w.idle == v.idle && w.version == v.version
            &&& w.client_count == v.client_count
            &&& w.ping_ms == Some(elapsed_ms) && w.reachable
        }),
{
}

/// A listed relay's ping that decoded to a status `st` makes the relay
/// report exactly `st`, with the measured ping, reachable, and keeps its
/// list entry.
pub proof fn law_server_ping_status(s: Server, elapsed_ms: u128, st: ServerStatus)
    ensures
        spec_server_ping(s, StatusReply::Received { elapsed_ms, status: Some(st) }).status == st,
        spec_server_ping(s, StatusReply::Received { elapsed_ms, status: Some(st) }).ping_ms == Some(
            elapsed_ms,
        ),
        spec_server_ping(s, StatusReply::Received { elapsed_ms, status: Some(st) }).reachable,
        spec_server_ping(s, StatusReply::Received { elapsed_ms, status: Some(st) }).entry == s.entry,
        spec_server_ping(s, StatusReply::Received { elapsed_ms, status: None }).status == s.status,
{
}

/// Detection that accepts a reply reports that reply's own status and
/// elapsed time: an `/info` reply with an online or idle count is a rust
/// relay, a `/` reply with a client count a dotnet relay, each with the
/// decoded status exactly. Other replies are not accepted.
pub proof fn law_detection_keeps_status(addr: Seq<char>, elapsed_ms: u128, st: ServerStatus)
    ensures
        st.online is Some || st.idle is Some ==> spec_detect_step(
            DetectStage::Info,
            addr,
            StatusReply::Received { elapsed_ms, status: Some(st) },
        ) == (
            DetectStage::Finished,
            Some(DetectStep::Found { backend: Backend::Rust, elapsed_ms, status: st }),
        ),
        st.online is None && st.idle is None ==> spec_detect_step(
            DetectStage::Info,
            addr,
            StatusReply::Received { elapsed_ms, status: Some(st) },
        ) == (DetectStage::Root, None::<DetectStep>),
        st.client_count is Some ==> spec_detect_step(
            DetectStage::Root,
            addr,
            StatusReply::Received { elapsed_ms, status: Some(st) },
        ) == (
            DetectStage::Finished,
            Some(DetectStep::Found { backend: Backend::Dotnet, elapsed_ms, status: st }),
        ),
        st.client_count is None ==> spec_detect_step(
            DetectStage::Root,
            addr,
            StatusReply::Received { elapsed_ms, status: Some(st) },
        ) == (DetectStage::Finished, Some(DetectStep::NotFound)),
        spec_detect_step(DetectStage::Info, addr, StatusReply::Unreachable) == (
            DetectStage::Root,
            None::<DetectStep>,
        ),
        spec_detect_step(DetectStage::Root, addr, StatusReply::Unreachable) == (
            DetectStage::Finished,
            Some(DetectStep::NotFound),
        ),
{
}

/// A relay list entry carries its members' values: a string `ip`, `type`
/// or `flag` is that string and an absent or null one is none; a boolean
/// `hidden` is that boolean and an absent or null one is none; a string
/// `port` is that text, a port of plain decimal digits within `u64` is that
/// number, an absent or null one is none. An object whose `ip`, `type`,
/// `flag` and `hidden` have those forms is an entry; a value that is not an
/// object is none.
pub proof fn law_entry_fields(j: Json)
    ensures
        !(j is Object) ==> spec_entry(j) is None,
        j matches Json::Object(m) ==> {
            let ip = member(m@, "ip"@);
            let ty = member(m@, "type"@);
            let flag = member(m@, "flag"@);
            let hidden = member(m@, "hidden"@);
            let port = member(m@, "port"@);
            let text_ok = |f: Option<Json>|
                f is None || f == Some(Json::Null) || (f matches Some(Json::Text(_)));
            &&& (text_ok(ip) && text_ok(ty) && text_ok(flag) && (hidden is None || hidden
                == Some(Json::Null) || (hidden matches Some(Json::Bool(_))))) == spec_entry(
                j,
            ) is Some
            &&& spec_entry(j) matches Some(e) ==> {
                &&& (ip matches Some(Json::Text(s)) ==> e.ip == Some(s))
                &&& (ip is None || ip == Some(Json::Null) ==> e.ip is None)
                &&& (ty matches Some(Json::Text(s)) ==> e.server_type == Some(s))
                &&& (ty is None || ty == Some(Json::Null) ==> e.server_type is None)
                &&& (flag matches Some(Json::Text(s)) ==> e.flag == Some(s))
                &&& (flag is None || flag == Some(Json::Null) ==> e.flag is None)
                &&& (hidden matches Some(Json::Bool(b)) ==> e.hidden == Some(b))
                &&& (hidden is None || hidden == Some(Json::Null) ==> e.hidden is None)
                &&& (port matches Some(Json::Text(s)) ==> e.port == Some(PortValue::Text(s)))
                &&& (port is None || port == Some(Json::Null) ==> e.port is None)
                &&& (port matches Some(Json::Number(t)) ==> (t@.len() > 0 && (forall|k: int|
                    0 <= k < t@.len() ==> is_digit(#[trigger] t@[k])) && digits_value(t@)
                    <= u64::MAX ==> e.port == Some(PortValue::Number(digits_value(t@) as u64))))
            }
        },
{
    if let Json::Object(m) = j {
        let port = member(m@, "port"@);
        if let Some(Json::Number(t)) = port {
            assert(t@.len() == 0 || t@[0] != '+' || !is_digit(t@[0]));
            if t@.len() > 0 && t@[0] == '+' {
                assert(!is_digit(t@[0]));
            }
        }
    }
}

/// The elevated `cmd.exe` parameters run the executable first: `/c "`,
/// then the executable in double quotes when its path holds a space (so
/// that `cmd.exe` does not cut the path there) or bare when it holds none,
/// then a space; they end by sending both output streams to the pipe.
pub proof fn law_elevated_exe_quoted(exe: Seq<char>, args: Seq<Seq<char>>, pipe: Seq<char>)
    ensures
        ({
            let p = spec_elevated_params(exe, args, pipe);
            let head = "/c \"\""@ + exe + "\" "@;
            (exists|i: int| 0 <= i < exe.len() && exe[i] == ' ') ==> p.len() >= head.len() && p.take(
                head.len() as int,
            ) == head
        }),
        ({
            let p = spec_elevated_params(exe, args, pipe);
            let head = "/c \""@ + exe + " "@;
            (forall|i: int| 0 <= i < exe.len() ==> exe[i] != ' ') ==> p.len() >= head.len()
                && p.take(head.len() as int) == head
        }),
        ({
            let p = spec_elevated_params(exe, args, pipe);
            let tail = " > "@ + pipe + " 2>&1\""@;
            p.len() >= tail.len() && p.skip(p.len() - tail.len()) == tail
        }),
{
    reveal_strlit("/c \"");
    reveal_strlit("/c \"\"");
    reveal_strlit("\"");
    reveal_strlit("\" ");
    reveal_strlit(" ");
    reveal_strlit(" > ");
    reveal_strlit(" 2>&1\"");
    let p = spec_elevated_params(exe, args, pipe);
    let mid = crate::text::join(
        args.map_values(|a: Seq<char>| crate::launch::quoted(a)),
        " "@,
    );
    let rest = mid + " > "@ + pipe + " 2>&1\""@;
    if exists|i: int| 0 <= i < exe.len() && exe[i] == ' ' {
        let head = "/c \"\""@ + exe + "\" "@;
        assert(p =~= head + rest);
        assert((head + rest).take(head.len() as int) =~= head);
    }
    if forall|i: int| 0 <= i < exe.len() ==> exe[i] != ' ' {
        let head = "/c \""@ + exe + " "@;
        assert(p =~= head + rest);
        assert((head + rest).take(head.len() as int) =~= head);
    }
    let tail = " > "@ + pipe + " 2>&1\""@;
    let front = "/c \""@ + crate::launch::quoted(exe) + " "@ + mid;
    assert(p =~= front + tail);
    assert((front + tail).skip((front + tail).len() - tail.len()) =~= tail);
}

/// The client release for each platform: Windows gets the win64 build and
/// macOS the macOS build whatever the processor; other systems get the ARM
/// build on ARM processors and the Linux build otherwise.
pub proof fn law_download_urls(p: Platform)
    ensures
        p.os == Os::Windows ==> spec_download_url(p)
            == "https://github.com/spacemeowx2/switch-lan-play/releases/latest/download/lan-play-win64.exe"@,
        p.os == Os::MacOs ==> spec_download_url(p)
            == "https://github.com/spacemeowx2/switch-lan-play/releases/latest/download/lan-play-macos"@,
        p.os == Os::Other && (p.arch == Arch::Aarch64 || p.arch == Arch::Arm) ==> spec_download_url(
            p,
        ) == "https://github.com/metehankaygsz/lan-play-arm/releases/latest/download/lan-play-arm"@,
        p.os == Os::Other && p.arch == Arch::Other ==> spec_download_url(p)
            == "https://github.com/spacemeowx2/switch-lan-play/releases/latest/download/lan-play-linux"@,
{
}

/// The player counts shown for a status: online is the `online` count,
/// else the dotnet `clientCount`, else 0; idle is the `idle` count, else 0;
/// active is online less idle, never below 0.
pub proof fn law_player_counts(st: ServerStatus)
    ensures
        st.online matches Some(n) ==> spec_online(st) == n,
        st.online is None && st.client_count is Some ==> spec_online(st) == st.client_count->Some_0,
        st.online is None && st.client_count is None ==> spec_online(st) == 0,
        st.idle matches Some(n) ==> spec_idle(st) == n,
        st.idle is None ==> spec_idle(st) == 0,
        spec_idle(st) <= spec_online(st) ==> spec_active(st) == spec_online(st) - spec_idle(st),
        spec_idle(st) > spec_online(st) ==> spec_active(st) == 0,
{
}

/// A relay reports its status at `/` when it runs the dotnet backend and
/// at `/info` for every other type, including an entry without a type.
pub proof fn law_status_urls(addr: Seq<char>, ty: Seq<char>, e: ServerEntry)
    ensures
        status_url_for(addr, "dotnet"@) == "http://"@ + addr + "/"@,
        ty != "dotnet"@ ==> status_url_for(addr, ty) == "http://"@ + addr + "/info"@,
        e.server_type is None ==> entry_type(e) == "unknown"@ && status_url_for(
            entry_addr(e),
            entry_type(e),
        ) == "http://"@ + entry_addr(e) + "/info"@,
{
    reveal_strlit("dotnet");
    reveal_strlit("unknown");
}

/// The address of a listed relay is its host, a colon and its port: a
/// numeric port in decimal, a textual one as written, and the lan-play
/// default 11451 where the entry gives no usable port.
pub proof fn law_entry_address(e: ServerEntry, host: String)
    requires
        e.ip == Some(host),
    ensures
        e.port matches Some(PortValue::Number(n)) ==> entry_addr(e) == host@ + ":"@ + decimal(
            n as nat,
        ),
        e.port matches Some(PortValue::Text(t)) ==> entry_addr(e) == host@ + ":"@ + t@,
        e.port is None || e.port == Some(PortValue::Other) ==> entry_addr(e) == host@
            + ":11451"@,
{
    reveal_strlit(":");
    reveal_strlit("11451");
    reveal_strlit(":11451");
    assert(host@ + ":"@ + "11451"@ =~= host@ + ":11451"@);
}

/// The launch modes: the default adds no parameters, ACNH adds
/// `--pmtu 500`, and a custom mode adds the user's parameters.
pub proof fn law_launch_modes(s: AppSettings)
    ensures
        s.param_mode == ParamMode::Default ==> spec_build_params(s).len() == 0,
        s.param_mode == ParamMode::Acnh ==> spec_build_params(s) == "--pmtu 500"@,
        s.param_mode == ParamMode::Custom ==> spec_build_params(s) == s.custom_params@,
{
}

/// The client's arguments: the words of the launch parameters first, then
/// `--relay-server-addr` and the relay's address, then `--netif` and the
/// chosen interface exactly when it is asked for and set, and last
/// `--set-ionbf`.
pub proof fn law_relay_args(s: AppSettings, addr: Seq<char>, include_netif: bool)
    ensures
        ({
            let w = words(spec_build_params(s));
            let a = spec_relay_args(s, addr, include_netif);
            &&& a.take(w.len() as int) == w
            &&& a[w.len() as int] == "--relay-server-addr"@
            &&& a[w.len() + 1int] == addr
            &&& a.last() == "--set-ionbf"@
            &&& (include_netif && s.use_netif && s.netif@.len() > 0) ==> {
                &&& a.len() == w.len() + 5
                &&& a[w.len() + 2int] == "--netif"@
                &&& a[w.len() + 3int] == s.netif@
            }
            &&& !(include_netif && s.use_netif && s.netif@.len() > 0) ==> a.len() == w.len() + 3
        }),
{
    let w = words(spec_build_params(s));
    let a = spec_relay_args(s, addr, include_netif);
    assert(a.take(w.len() as int) =~= w);
}

/// A privileged start runs sudo with `-n` (its credential cache) or `-S`
/// (the password on standard input), then the client and its arguments;
/// the shown line is `sudo`, the flag where the cache is used, and the
/// client's command line.
pub proof fn law_sudo_start(use_cache: bool, binary: Seq<char>, args: Seq<Seq<char>>)
    ensures
        ({
            let a = spec_sudo_args(use_cache, binary, args);
            &&& a.len() == args.len() + 2
            &&& a[0] == (if use_cache {
                "-n"@
            } else {
                "-S"@
            })
            &&& a[1] == binary
            &&& a.skip(2) == args
        }),
        use_cache ==> spec_sudo_line(use_cache, binary, args) == "sudo -n "@ + binary + " "@ + join(
            args,
            " "@,
        ),
        !use_cache ==> spec_sudo_line(use_cache, binary, args) == "sudo "@ + binary + " "@ + join(
            args,
            " "@,
        ),
{
    let a = spec_sudo_args(use_cache, binary, args);
    assert(a.skip(2) =~= args);
    assert("sudo -n "@ + (binary + " "@ + join(args, " "@)) =~= "sudo -n "@ + binary + " "@ + join(
        args,
        " "@,
    ));
    assert("sudo "@ + (binary + " "@ + join(args, " "@)) =~= "sudo "@ + binary + " "@ + join(
        args,
        " "@,
    ));
}

/// Stopping a privileged client runs `sudo -n kill -9` on its process id,
/// or on its process group (the id with a leading `-`).
pub proof fn law_kill_args(pid: u32, group: bool)
    ensures
        spec_kill_args(pid, group) == seq![
            "-n"@,
            "kill"@,
            "-9"@,
            if group {
                "-"@ + decimal(pid as nat)
            } else {
                decimal(pid as nat)
            },
        ],
{
}

/// The status lines of a start: `Connected to` and the last argument,
/// marked for an elevated start; a cancelled elevation prompt (Windows
/// error 1223) and other elevation failures with their error number.
pub proof fn law_start_messages(args: Seq<Seq<char>>, elevated: bool, err: u32)
    ensures
        args.len() > 0 && !elevated ==> spec_connected_message(args, elevated) == "Connected to "@
            + args.last(),
        args.len() > 0 && elevated ==> spec_connected_message(args, elevated) == "Connected to "@
            + args.last() + " (Administrator)"@,
        err == 1223 ==> spec_elevation_failure(err) == "Administrator prompt cancelled."@,
        err != 1223 ==> spec_elevation_failure(err) == "Failed to start as Administrator (error "@
            + decimal(err as nat) + ")."@,
{
}

/// The web interface listens on the port given as its argument, written
/// in decimal, and on 8080 without an argument or with one that is no
/// port number.
pub proof fn law_listen_port(p: u16, other: Seq<char>)
    ensures
        spec_listen_port(Some(decimal(p as nat))) == p,
        spec_listen_port(None) == 8080,
        parse_unsigned(other, u16::MAX as nat) is None ==> spec_listen_port(Some(other)) == 8080,
{
    law_decimal_parses_back(p as nat, u16::MAX as nat);
}

/// The listing never shows a hidden relay, nor an unreachable one while
/// offline relays are hidden; it shows every other relay; and shorter
/// pings come first.
pub proof fn law_listing_contents(servers: Seq<Server>, hide_offline: bool, order: Seq<usize>)
    requires
        is_listing_order(servers, hide_offline, order),
    ensures
        forall|k: int|
            0 <= k < order.len() ==> servers[#[trigger] order[k] as int].entry.hidden != Some(true),
        hide_offline ==> forall|k: int|
            0 <= k < order.len() ==> servers[#[trigger] order[k] as int].reachable,
        forall|j: int|
            0 <= j < servers.len() && servers[j].entry.hidden != Some(true) && (!hide_offline
                || servers[j].reachable) ==> exists|k: int| 0 <= k < order.len() && #[trigger] order[k]
                == j,
        forall|k1: int, k2: int|
            #![trigger order[k1], order[k2]]
            0 <= k1 < k2 < order.len() && servers[order[k1] as int].ping_ms is Some
                && servers[order[k2] as int].ping_ms is Some ==> servers[order[k1] as int].ping_ms->Some_0
                <= servers[order[k2] as int].ping_ms->Some_0,
{
    assert forall|k1: int, k2: int|
        #![trigger order[k1], order[k2]]
        0 <= k1 < k2 < order.len() && servers[order[k1] as int].ping_ms is Some
            && servers[order[k2] as int].ping_ms is Some implies servers[order[k1] as int].ping_ms->Some_0
            <= servers[order[k2] as int].ping_ms->Some_0 by {
        assert(ping_le(servers[order[k1] as int].ping_ms, servers[order[k2] as int].ping_ms));
    }
}

/// The ping shown: the milliseconds followed by ` ms`, or a dash.
pub proof fn law_ping_label(ms: u128)
    ensures
        spec_ping_label(Some(ms)) == decimal(ms as nat) + " ms"@,
        spec_ping_label(None) == "\u{2014}"@,
{
}

/// Replies that say nothing new: during a refresh a body that could not be
/// read leaves the record as it was; no answer at all makes it unreachable
/// with no ping and keeps what it last reported.
pub proof fn law_empty_replies(v: ServerView, elapsed_ms: u128, s: Server)
    ensures
        spec_record_reply(v, StatusReply::Unreadable { elapsed_ms }) == v,
        ({
            let w = spec_record_ping(v, StatusReply::Unreachable);
            &&& !w.reachable && w.ping_ms is None
            &&& w.online == v.online && w.idle == v.idle && w.version == v.version
            &&& w.client_count == v.client_count && w.addr == v.addr
        }),
        ({
            let w = spec_server_ping(s, StatusReply::Unreachable);
            !w.reachable && w.ping_ms is None && w.status == s.status && w.entry == s.entry
        }),
{
}

/// The client's file name and the configuration on Windows: `lan-play.exe`
/// there and `lan-play` elsewhere; the configuration file is
/// `C:\YaSLP-GUI\config.json`.
pub proof fn law_windows_paths(os: Os, home: Option<Seq<char>>)
    ensures
        binary_name(Os::Windows) == "lan-play.exe"@,
        os != Os::Windows ==> binary_name(os) == "lan-play"@,
        join_path(spec_config_dir(Os::Windows, home), "config.json"@, Os::Windows)
            == "C:\\YaSLP-GUI\\config.json"@,
{
    reveal_strlit("C:\\YaSLP-GUI");
    reveal_strlit("C:\\YaSLP-GUI\\config.json");
    reveal_strlit("config.json");
    assert("C:\\YaSLP-GUI"@.last() == 'I');
    assert("C:\\YaSLP-GUI"@.push('\\') + "config.json"@ =~= "C:\\YaSLP-GUI\\config.json"@);
}

/// The layouts of a relay list: `[{"servers": [...]}]` gives the inner
/// list; an array whose first element has no `servers` gives the array's
/// own entries; `{"servers": [...]}` gives that list; a document that is
/// neither an array nor an object is of no recognized format; and a body
/// that is not JSON gives the parser's error.
pub proof fn law_list_layouts(doc: Json, body: Seq<char>)
    ensures
        doc matches Json::Array(a) ==> (a@.len() > 0 ==> (a@[0] matches Json::Object(m)
            ==> (member(m@, "servers"@) matches Some(Json::Array(l)) ==> ((forall|k: int|
            0 <= k < l@.len() ==> spec_entry(#[trigger] l@[k]) is Some) ==> spec_list_of(doc)
            == Ok::<Seq<ServerEntry>, Seq<char>>(
            Seq::new(l@.len(), |k: int| spec_entry(l@[k])->Some_0),
        ))))),
        doc matches Json::Array(a) ==> ((a@.len() == 0 || !(a@[0] is Object) || member(
            a@[0]->Object_0@,
            "servers"@,
        ) is None)
            ==> ((forall|k: int| 0 <= k < a@.len() ==> spec_entry(#[trigger] a@[k]) is Some)
            ==> spec_list_of(doc) == Ok::<Seq<ServerEntry>, Seq<char>>(
            Seq::new(a@.len(), |k: int| spec_entry(a@[k])->Some_0),
        ))),
        doc matches Json::Object(m) ==> (member(m@, "servers"@) matches Some(Json::Array(l))
            ==> ((forall|k: int| 0 <= k < l@.len() ==> spec_entry(#[trigger] l@[k]) is Some)
            ==> spec_list_of(doc) == Ok::<Seq<ServerEntry>, Seq<char>>(
            Seq::new(l@.len(), |k: int| spec_entry(l@[k])->Some_0),
        ))),
        !(doc is Array) && !(doc is Object) ==> spec_list_of(doc) == Err::<Seq<ServerEntry>, Seq<
            char,
        >>("Unrecognized server list format"@),
        spec_json(body) is None ==> spec_parse_server_list(body) == Err::<Seq<ServerEntry>, Seq<
            char,
        >>("JSON parse error: "@ + spec_json_error(body)),
{
}

} // verus!
