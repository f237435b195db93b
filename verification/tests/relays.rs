use yaslp::json::Json;
use yaslp::browser::{connect_hint, quick_connect_target, Browser, ConnectHint, DownloadState, LoadState, RefreshProgress};
use yaslp::models::{settings_or_defaults, AppSettings, ParamMode, PortValue, ServerEntry, ServerStatus};
use yaslp::ordering::{listing_order, reg_key_leaf, reg_sz_line, select_nics, sort_by_ping, sort_nics, windows_nic, Nic};
use yaslp::platform::Os;
use yaslp::probe::{Backend, DetectStep, Detection, StatusReply};
use yaslp::relay_list::{
    detect_timeout_ms, json_error_message, list_of, list_timeout_ms, parse_server_list, select_server_list,
    servers_from_entries, shown_entries, ListCandidates,
};
use yaslp::server::{make_qc_entry, ping_level, PingLevel, Server};
use yaslp::view::{record_ping_for, ServerView};
use yaslp::web::{DownloadStatus, PingResult, WebRelays, WebSession};

fn entry(ip: &str, port: Option<PortValue>, ty: Option<&str>) -> ServerEntry {
    ServerEntry {
        ip: Some(ip.to_string()),
        port,
        server_type: ty.map(String::from),
        flag: Some("fr".into()),
        hidden: None,
    }
}

fn status(online: Option<u32>, idle: Option<u32>, clients: Option<u32>) -> ServerStatus {
    ServerStatus { online, idle, version: Some("1.2".into()), client_count: clients }
}

fn server_with(ping: Option<u128>, reachable: bool, hidden: Option<bool>) -> Server {
    let mut e = entry("h", Some(PortValue::Number(1)), None);
    e.hidden = hidden;
    let mut s = Server::from_entry(e);
    s.ping_ms = ping;
    s.reachable = reachable;
    s
}

#[test]
fn entry_address_type_and_url() {
    let e = entry("relay.example", Some(PortValue::Number(11451)), Some("rust"));
    assert_eq!(e.addr(), "relay.example:11451");
    assert_eq!(e.type_str(), "rust");
    assert_eq!(e.status_url(), "http://relay.example:11451/info");
    let d = entry("1.2.3.4", Some(PortValue::Text("8000".into())), Some("dotnet"));
    assert_eq!(d.status_url(), "http://1.2.3.4:8000/");
    let n = ServerEntry { ip: None, port: None, server_type: None, flag: None, hidden: Some(true) };
    assert_eq!(n.addr(), ":11451");
    assert_eq!(n.type_str(), "unknown");
    assert!(n.is_hidden());
    assert!(!e.is_hidden());
}

#[test]
fn settings_parameters() {
    let mut s = AppSettings::defaults("/opt/yaslp".into());
    assert_eq!(s.http_timeout_ms, 500);
    assert_eq!(s.build_params(), "");
    assert_eq!(s.client_binary(Os::Other), "/opt/yaslp/lan-play");
    assert_eq!(s.client_binary(Os::Windows), "/opt/yaslp\\lan-play.exe");
    s.param_mode = ParamMode::Acnh;
    assert_eq!(s.build_params(), "--pmtu 500");
    assert_eq!(
        s.relay_args("1.2.3.4:11451", false),
        vec!["--pmtu", "500", "--relay-server-addr", "1.2.3.4:11451", "--set-ionbf"]
    );
    s.param_mode = ParamMode::Custom;
    s.custom_params = "  --fake-internet   --broadcast ".into();
    s.use_netif = true;
    s.netif = "eth0".into();
    assert_eq!(
        s.relay_args("a:1", true),
        vec!["--fake-internet", "--broadcast", "--relay-server-addr", "a:1", "--netif", "eth0", "--set-ionbf"]
    );
    assert_eq!(
        s.relay_args("a:1", false),
        vec!["--fake-internet", "--broadcast", "--relay-server-addr", "a:1", "--set-ionbf"]
    );
    s.netif = String::new();
    assert_eq!(s.relay_args("a:1", true).len(), 5);
    let kept = settings_or_defaults(Some(s.clone()), "/x".into());
    assert_eq!(kept.custom_params, s.custom_params);
    assert_eq!(settings_or_defaults(None, "/x".into()).client_dir, "/x");
}

#[test]
fn player_counts_and_labels() {
    let mut s = Server::from_entry(entry("h", None, None));
    assert_eq!(s.online_count(), 0);
    assert_eq!(s.version(), "N/A");
    assert_eq!(s.ping_label(), "\u{2014}");
    s.status = status(Some(10), Some(3), None);
    s.ping_ms = Some(42);
    assert_eq!((s.online_count(), s.idle_count(), s.active_count()), (10, 3, 7));
    assert_eq!(s.version(), "1.2");
    assert_eq!(s.ping_label(), "42 ms");
    s.status = status(None, Some(9), Some(4));
    assert_eq!((s.online_count(), s.idle_count(), s.active_count()), (4, 9, 0));
    assert_eq!(ping_level(99), PingLevel::Good);
    assert_eq!(ping_level(100), PingLevel::Fair);
    assert_eq!(ping_level(249), PingLevel::Fair);
    assert_eq!(ping_level(250), PingLevel::Poor);
}

#[test]
fn status_replies_update_a_server() {
    let s = server_with(Some(5), true, None);
    let s = s.record_reply(StatusReply::Unreachable);
    assert!(!s.reachable);
    assert_eq!(s.ping_ms, None);
    let s = s.record_reply(StatusReply::Received { elapsed_ms: 17, status: Some(status(Some(2), None, None)) });
    assert!(s.reachable);
    assert_eq!(s.ping_ms, Some(17));
    assert_eq!(s.online_count(), 2);
    let s = s.record_reply(StatusReply::Unreadable { elapsed_ms: 3 });
    assert_eq!(s.ping_ms, Some(17));
    let s = s.record_reply(StatusReply::Received { elapsed_ms: 9, status: None });
    assert_eq!((s.ping_ms, s.reachable, s.online_count()), (Some(9), true, 2));
}

#[test]
fn quick_connect_entries() {
    let e = make_qc_entry("1.2.3.4:8000", "dotnet");
    assert_eq!(e.ip.as_deref(), Some("1.2.3.4"));
    assert_eq!(e.addr(), "1.2.3.4:8000");
    assert_eq!(e.status_url(), "http://1.2.3.4:8000/");
    let e = make_qc_entry("relay.example", "rust");
    assert_eq!(e.addr(), "relay.example:11451");
    let e = make_qc_entry("h:1:2", "rust");
    assert_eq!(e.ip.as_deref(), Some("h"));
    assert_eq!(e.addr(), "h:1:2");
}

#[test]
fn detection_tries_info_then_root() {
    let (mut d, step) = Detection::start("r:1");
    assert!(matches!(&step, DetectStep::Probe(u) if u == "http://r:1/info"));
    let step = d.on_reply(StatusReply::Received { elapsed_ms: 5, status: Some(status(None, None, Some(3))) });
    assert!(matches!(&step, DetectStep::Probe(u) if u == "http://r:1/"));
    let step = d.on_reply(StatusReply::Received { elapsed_ms: 6, status: Some(status(None, None, Some(3))) });
    assert!(matches!(step, DetectStep::Found { backend: Backend::Dotnet, elapsed_ms: 6, .. }));

    let (mut d, _) = Detection::start("r:1");
    let step = d.on_reply(StatusReply::Received { elapsed_ms: 4, status: Some(status(Some(1), None, None)) });
    assert!(matches!(step, DetectStep::Found { backend: Backend::Rust, elapsed_ms: 4, .. }));

    let (mut d, _) = Detection::start("r:1");
    let _ = d.on_reply(StatusReply::Unreachable);
    let step = d.on_reply(StatusReply::Received { elapsed_ms: 6, status: None });
    assert!(matches!(step, DetectStep::NotFound));

    let s = Server::detected("r:1", Backend::Dotnet, 6, status(None, None, Some(3)));
    assert_eq!(s.entry.type_str(), "dotnet");
    assert_eq!(s.online_count(), 3);
    let v = ServerView::detected("r:1", Backend::Rust, 4, status(Some(1), Some(0), None));
    assert_eq!((v.server_type.as_str(), v.online, v.ping_ms, v.reachable), ("rust", Some(1), Some(4), true));
}

#[test]
fn server_views() {
    let e = entry("1.2.3.4", Some(PortValue::Number(11451)), Some("node"));
    let mut v = ServerView::from_entry(&e);
    assert_eq!(v.addr, "1.2.3.4:11451");
    assert_eq!(v.flag.as_deref(), Some("fr"));
    assert_eq!(v.status_url(), "http://1.2.3.4:11451/info");
    v.apply_status(status(Some(4), Some(1), None), 33);
    assert_eq!((v.online, v.idle, v.ping_ms, v.reachable), (Some(4), Some(1), Some(33), true));
    v.record_ping(StatusReply::Unreachable);
    assert_eq!((v.ping_ms, v.reachable, v.online), (None, false, Some(4)));
    v.record_ping(StatusReply::Unreadable { elapsed_ms: 8 });
    assert_eq!((v.ping_ms, v.reachable), (Some(8), true));
    let v = v.record_reply(StatusReply::Unreadable { elapsed_ms: 99 });
    assert_eq!(v.ping_ms, Some(8));
    let mut list = vec![v.clone(), ServerView::from_entry(&entry("b", None, None)), v.clone()];
    assert_eq!(record_ping_for(&mut list, "1.2.3.4:11451", StatusReply::Unreachable), Some(0));
    assert!(!list[0].reachable);
    assert!(list[2].reachable);
    assert_eq!(record_ping_for(&mut list, "nope", StatusReply::Unreachable), None);
}

#[test]
fn relay_list_selection() {
    let one = vec![entry("a", None, None)];
    let two = vec![entry("b", None, None), entry("c", None, None)];
    let r = select_server_list(ListCandidates { wrapped: Some(one.clone()), flat: Some(two.clone()), top: None });
    assert_eq!(r.unwrap().len(), 1);
    let r = select_server_list(ListCandidates { wrapped: None, flat: Some(two.clone()), top: Some(one.clone()) });
    assert_eq!(r.unwrap().len(), 2);
    let r = select_server_list(ListCandidates { wrapped: None, flat: None, top: Some(one) });
    assert_eq!(r.unwrap().len(), 1);
    let r = select_server_list(ListCandidates { wrapped: None, flat: None, top: None });
    assert_eq!(r.unwrap_err(), "Unrecognized server list format");
    assert_eq!(json_error_message("EOF"), "JSON parse error: EOF");
    assert_eq!(list_timeout_ms(500), 1500);
    assert_eq!(list_timeout_ms(5000), 15000);
    assert_eq!(list_timeout_ms(u64::MAX), 15000);
    assert_eq!(detect_timeout_ms(500), 3000);
    assert_eq!(detect_timeout_ms(4000), 4000);
}

#[test]
fn kept_entries() {
    let mut hidden = entry("x", None, None);
    hidden.hidden = Some(true);
    let no_ip = ServerEntry { ip: None, port: None, server_type: None, flag: None, hidden: None };
    let list = vec![entry("a", None, None), hidden.clone(), no_ip.clone(), entry("b", None, None)];
    let servers = servers_from_entries(list.clone());
    assert_eq!(servers.len(), 3);
    assert!(servers.iter().all(|s| !s.reachable && s.ping_ms.is_none()));
    let shown = shown_entries(list);
    assert_eq!(shown.len(), 3);
    assert_eq!(shown[1].ip, None);
}

#[test]
fn listing_by_ping() {
    let servers = vec![
        server_with(None, true, None),
        server_with(Some(50), true, None),
        server_with(Some(10), false, None),
        server_with(Some(50), true, None),
        server_with(Some(5), true, Some(true)),
        server_with(Some(20), true, None),
    ];
    assert_eq!(listing_order(&servers, true), vec![5, 1, 3, 0]);
    assert_eq!(listing_order(&servers, false), vec![2, 5, 1, 3, 0]);
    let views: Vec<ServerView> = [Some(30u128), None, Some(10), Some(30)]
        .iter()
        .enumerate()
        .map(|(i, p)| {
            let mut v = ServerView::from_entry(&entry(&i.to_string(), None, None));
            v.ping_ms = *p;
            v
        })
        .collect();
    let sorted: Vec<String> = sort_by_ping(views).into_iter().map(|v| v.addr).collect();
    assert_eq!(sorted, vec!["2:11451", "0:11451", "3:11451", "1:11451"]);
}

#[test]
fn interface_names() {
    let names: Vec<String> = ["wlan0", "lo", "eth0", "Eth1", "docker0"].iter().map(|s| s.to_string()).collect();
    assert_eq!(select_nics(names), vec!["Eth1", "docker0", "eth0", "wlan0"]);
    assert!(select_nics(vec!["lo".to_string()]).is_empty());
}

#[test]
fn browser_refresh_cycle() {
    let mut b = Browser::new();
    assert_eq!(b.status_msg, "Ready \u{2014} click Refresh to load servers.");
    assert_eq!(b.refresh_label(), "\u{27f3} Refresh");
    assert_eq!(b.empty_message(), "Click Refresh to load servers.");
    b.start_refresh();
    assert!(b.is_refreshing());
    assert_eq!(b.refresh_label(), "\u{27f3} Fetching\u{2026}");
    let mut p = RefreshProgress::new();
    p.total = 2;
    p.record(1, server_with(Some(3), true, None));
    assert!(!b.take_progress(p));
    assert!(matches!(b.load_state, LoadState::CheckingServers { done: 1, total: 2 }));
    assert_eq!(b.status_msg, "Checking servers\u{2026} 1/2");
    assert_eq!(b.online_summary(), "1 online / 1 total");
    let mut p = RefreshProgress::new();
    p.finish(None, vec![server_with(Some(3), true, None), server_with(None, false, None)]);
    assert!(b.take_progress(p));
    assert!(matches!(b.load_state, LoadState::Done));
    assert_eq!(b.status_msg, "Loaded 2 servers \u{2014} 1 online.");
    assert_eq!(b.listing(), vec![0]);
    let mut p = RefreshProgress::new();
    p.finish(Some("Request failed: timeout".into()), vec![]);
    assert!(b.take_progress(p));
    assert_eq!(b.servers.len(), 2);
    assert_eq!(b.status_msg, "Error: Request failed: timeout");
    assert_eq!(b.empty_message(), "Request failed: timeout");
}

#[test]
fn browser_download_and_hints() {
    let mut b = Browser::new();
    assert!(b.can_download());
    b.start_download();
    assert!(!b.can_download());
    assert_eq!(b.download_label(), "\u{27f3}  Downloading\u{2026}");
    b.finish_download(Err("HTTP 404 Not Found".into()));
    assert!(matches!(&b.dl_state, DownloadState::Error(e) if e == "HTTP 404 Not Found"));
    assert_eq!(b.status_msg, "Download failed: HTTP 404 Not Found");
    b.finish_download(Ok(()));
    assert_eq!(b.status_msg, "Download complete.");
    assert_eq!(b.download_label(), "\u{2713}  Downloaded");
    assert_eq!(connect_hint(true, true, true), (true, None));
    assert_eq!(connect_hint(false, false, false), (false, Some(ConnectHint::PcapMissing)));
    assert_eq!(connect_hint(false, false, true), (false, Some(ConnectHint::ClientMissing)));
    assert_eq!(connect_hint(false, true, true), (false, Some(ConnectHint::Offline)));
    assert_eq!(quick_connect_target("  r:1 ", true, true).as_deref(), Some("r:1"));
    assert_eq!(quick_connect_target("   ", true, true), None);
    assert_eq!(quick_connect_target("r:1", false, true), None);
}

#[test]
fn web_refresh_and_pings() {
    let mut w = WebRelays::new();
    assert!(w.begin_refresh());
    assert!(!w.begin_refresh());
    let mut a = ServerView::from_entry(&entry("a", None, None));
    a.ping_ms = Some(90);
    let b = ServerView::from_entry(&entry("b", None, None));
    w.set_listed(vec![a, b]);
    assert_eq!(w.total, 2);
    assert!(w.ping_targets().is_empty());
    let checked = w.servers[1].clone().record_reply(StatusReply::Received { elapsed_ms: 12, status: None });
    w.record_checked(1, checked);
    w.record_checked(7, ServerView::from_entry(&entry("z", None, None)));
    assert_eq!(w.done, 2);
    w.finish_refresh();
    assert!(!w.refreshing);
    assert_eq!(w.servers[0].addr, "b:11451");
    w.qc_server = Some(ServerView::detected("q:1", Backend::Rust, 1, status(Some(1), None, None)));
    let t = w.ping_targets();
    assert_eq!(t.len(), 3);
    assert_eq!(t[0].url, "http://b:11451/info");
    assert!(t[2].is_qc && t[2].url == "http://q:1/info");
    w.apply_ping(PingResult { addr: "a:11451".into(), is_qc: false, reply: StatusReply::Unreachable });
    assert!(!w.servers[1].reachable);
    w.apply_ping(PingResult { addr: "q:1".into(), is_qc: true, reply: StatusReply::Unreachable });
    assert!(!w.qc_server.as_ref().unwrap().reachable);
    w.fail_refresh("boom".into());
    assert_eq!(w.error.as_deref(), Some("boom"));
}

#[test]
fn web_download_status() {
    let mut d = DownloadStatus::Idle;
    assert_eq!(d.text(), "idle");
    assert!(d.begin());
    assert_eq!(d.text(), "downloading");
    assert!(!d.begin());
    d.end(Err("HTTP 500".into()));
    assert_eq!(d.text(), "error: HTTP 500");
    assert!(d.begin());
    d.end(Ok(()));
    assert_eq!(d.text(), "done");
}

#[test]
fn listing_shows_each_relay_once() {
    let servers = vec![
        server_with(None, true, None),
        server_with(Some(7), true, None),
        server_with(None, true, None),
        server_with(Some(7), true, None),
        server_with(Some(7), true, None),
    ];
    let order = listing_order(&servers, false);
    assert_eq!(order, vec![1, 3, 4, 0, 2]);
    let mut seen = order.clone();
    seen.sort();
    seen.dedup();
    assert_eq!(seen.len(), order.len());
    let first_without_ping = order.iter().position(|&i| servers[i].ping_ms.is_none()).unwrap();
    assert!(order[first_without_ping..].iter().all(|&i| servers[i].ping_ms.is_none()));
}

#[test]
fn windows_adapter_keys() {
    assert!(windows_nic("Descriptions", Some("x".into())).is_none());
    assert!(windows_nic("", None).is_none());
    let n = windows_nic("{ABC-1}", Some("Ethernet 2".into())).unwrap();
    assert_eq!(n.display, "Ethernet 2");
    assert_eq!(n.pcap, "\\Device\\NPF_{ABC-1}");
    let n = windows_nic("{ABC-2}", None).unwrap();
    assert_eq!(n.display, "{ABC-2}");
    let sorted = sort_nics(vec![
        Nic { display: "Wi-Fi".into(), pcap: "a".into() },
        Nic { display: "Ethernet".into(), pcap: "b".into() },
        Nic { display: "Ethernet".into(), pcap: "c".into() },
    ]);
    let pcaps: Vec<&str> = sorted.iter().map(|n| n.pcap.as_str()).collect();
    assert_eq!(pcaps, vec!["b", "c", "a"]);
}

#[test]
fn desktop_start_up_fetches_the_list() {
    let b = Browser::at_start_up();
    assert!(matches!(b.load_state, LoadState::FetchingList));
    assert_eq!(b.status_msg, "Fetching server list\u{2026}");
    assert!(b.servers.is_empty() && b.selected.is_none() && b.hide_offline && b.qc_server.is_none());
    assert!(b.is_refreshing());
}

#[test]
fn desktop_quick_connect_needs_a_relay() {
    let mut b = Browser::new();
    b.begin_quick_connect("1.2.3.4:11451");
    assert_eq!(b.status_msg, "Checking 1.2.3.4:11451\u{2026}");
    assert_eq!(b.finish_quick_connect("1.2.3.4:11451", Ok(DetectStep::NotFound)), None);
    assert_eq!(b.status_msg, "Not a lan-play server: 1.2.3.4:11451");
    assert!(b.qc_server.is_none());
    assert_eq!(b.finish_quick_connect("1.2.3.4", Err("no client".into())), None);
    assert_eq!(b.status_msg, "Error: no client");
    let found = DetectStep::Found { backend: Backend::Dotnet, elapsed_ms: 33, status: status(None, None, Some(4)) };
    assert_eq!(b.finish_quick_connect("relay.example", Ok(found)), Some("relay.example".to_string()));
    let s = b.qc_server.as_ref().unwrap();
    assert_eq!(s.entry.addr(), "relay.example:11451");
    assert_eq!(s.entry.type_str(), "dotnet");
    assert_eq!(s.online_count(), 4);
    assert_eq!(s.ping_ms, Some(33));
    assert!(s.reachable);
}

#[test]
fn web_refresh_checks_every_record() {
    let mut w = WebRelays::new();
    assert!(w.begin_refresh());
    let listed: Vec<ServerView> = ["a", "b", "c"].iter().map(|h| ServerView::from_entry(&entry(h, None, None))).collect();
    w.set_listed(listed);
    for (i, ms) in [(2usize, 30u128), (0, 10), (1, 20)] {
        let checked = w.servers[i].clone().record_reply(StatusReply::Received { elapsed_ms: ms, status: None });
        w.record_checked(i, checked);
    }
    assert_eq!(w.done, w.total);
    assert!(w.servers.iter().all(|v| v.reachable));
    assert_eq!(w.servers[2].ping_ms, Some(30));
    w.finish_refresh();
    let order: Vec<&str> = w.servers.iter().map(|v| v.addr.as_str()).collect();
    assert_eq!(order, vec!["a:11451", "b:11451", "c:11451"]);
}

fn addrs(list: &[ServerEntry]) -> Vec<String> {
    list.iter().map(|e| e.addr()).collect()
}

#[test]
fn relay_list_layouts() {
    let wrapped = r#"[{"servers":[{"ip":"a","port":11451,"type":"rust","flag":"fr"}]}, 7]"#;
    let list = parse_server_list(wrapped).unwrap();
    assert_eq!(addrs(&list), vec!["a:11451"]);
    assert!(matches!(list[0].port, Some(PortValue::Number(11451))));
    assert_eq!(list[0].type_str(), "rust");
    assert_eq!(list[0].flag.as_deref(), Some("fr"));

    let flat = r#"[{"ip":"b","port":"7000"},{"ip":"c","port":-1},{"ip":"d","port":1.5},{"ip":"e","port":true},{"ip":"f","port":null,"extra":[1]}]"#;
    let list = parse_server_list(flat).unwrap();
    assert_eq!(addrs(&list), vec!["b:7000", "c:-1", "d:1.5", "e:11451", "f:11451"]);
    assert!(matches!(list[3].port, Some(PortValue::Other)));
    assert!(list[4].port.is_none());

    let top = r#"{"servers":[{"ip":"x","hidden":true},{"ip":"y","hidden":null}]}"#;
    let list = parse_server_list(top).unwrap();
    assert_eq!(addrs(&list), vec!["x:11451", "y:11451"]);
    assert!(list[0].is_hidden() && !list[1].is_hidden());

    // a wrapped list that is unreadable falls back to the array itself
    let list = parse_server_list(r#"[{"servers":5,"ip":"z"}]"#).unwrap();
    assert_eq!(addrs(&list), vec!["z:11451"]);
    assert_eq!(parse_server_list("[]").unwrap().len(), 0);
}

#[test]
fn relay_list_errors() {
    let unrecognized = "Unrecognized server list format";
    assert_eq!(parse_server_list(r#"{"list":[]}"#).unwrap_err(), unrecognized);
    assert_eq!(parse_server_list("[1, 2]").unwrap_err(), unrecognized);
    assert_eq!(parse_server_list(r#"{"servers":[{"ip":5}]}"#).unwrap_err(), unrecognized);
    assert_eq!(parse_server_list(r#"{"servers":[{"hidden":"yes"}]}"#).unwrap_err(), unrecognized);
    assert_eq!(
        parse_server_list("").unwrap_err(),
        "JSON parse error: EOF while parsing a value at line 1 column 0"
    );
    assert!(parse_server_list("[1,").unwrap_err().starts_with("JSON parse error: "));
}

#[test]
fn desktop_live_pings() {
    let mut b = Browser::new();
    let mut s1 = Server::from_entry(entry("p", Some(PortValue::Number(1)), Some("dotnet")));
    s1.reachable = true;
    let s2 = Server::from_entry(entry("q", None, None));
    b.servers = vec![s1, s2];
    let t = b.ping_targets();
    assert_eq!(t.len(), 2);
    assert_eq!(t[0].url, "http://p:1/");
    assert_eq!(t[1].url, "http://q:11451/info");
    b.apply_ping(PingResult {
        addr: "q:11451".into(),
        is_qc: false,
        reply: StatusReply::Received { elapsed_ms: 8, status: Some(status(Some(3), Some(1), None)) },
    });
    assert!(b.servers[1].reachable);
    assert_eq!(b.servers[1].ping_ms, Some(8));
    assert_eq!(b.servers[1].active_count(), 2);
    b.apply_ping(PingResult { addr: "p:1".into(), is_qc: false, reply: StatusReply::Unreachable });
    assert!(!b.servers[0].reachable && b.servers[0].ping_ms.is_none());
    b.apply_ping(PingResult { addr: "nowhere:1".into(), is_qc: false, reply: StatusReply::Unreachable });
    assert!(b.servers[1].reachable);
    b.start_refresh();
    assert!(b.ping_targets().is_empty());
}

#[test]
fn web_session_lifecycle() {
    let mut relays = WebRelays::new();
    let mut s = WebSession::new();
    assert_eq!(s.connect_refusal(), None);
    assert!(!s.stop(&mut relays));
    s.started("r:1".into(), "lan-play --relay-server-addr r:1".into());
    assert_eq!(s.connect_refusal(), Some("already connected".to_string()));
    relays.qc_server = Some(ServerView::detected("q:1", Backend::Rust, 1, status(Some(1), None, None)));
    assert!(s.stop(&mut relays));
    assert!(!s.running && s.addr.is_none() && s.console_cmd.is_empty() && relays.qc_server.is_none());
    s.started("r:2".into(), "cmd".into());
    s.exited();
    assert!(!s.running && s.addr.is_none());
    assert_eq!(s.console_cmd, "cmd");
}

#[test]
fn registry_output_lines() {
    let key = "HKEY_LOCAL_MACHINE\\SYSTEM\\Net\\{4D36-AB}  ";
    assert_eq!(reg_key_leaf(key), "{4D36-AB}");
    assert_eq!(reg_key_leaf("  plain  "), "plain");
    assert_eq!(reg_sz_line("    Name    REG_SZ    Ethernet 2  ", "Name"), Some("Ethernet 2".to_string()));
    assert_eq!(reg_sz_line("    PnPInstanceId    REG_SZ    PCI", "Name"), None);
    assert_eq!(reg_sz_line("    Name    REG_DWORD    0x1", "Name"), None);
}

#[test]
fn relay_list_of_a_document() {
    let entry_doc = |ip: &str| Json::Object(vec![
        ("ip".to_string(), Json::Text(ip.to_string())),
        ("port".to_string(), Json::Number("18446744073709551615".to_string())),
    ]);
    let doc = Json::Array(vec![Json::Object(vec![(
        "servers".to_string(),
        Json::Array(vec![entry_doc("w")]),
    )])]);
    let list = list_of(&doc).unwrap();
    assert_eq!(addrs(&list), vec!["w:18446744073709551615"]);
    assert!(matches!(list[0].port, Some(PortValue::Number(u64::MAX))));
    let big = Json::Array(vec![Json::Object(vec![
        ("ip".to_string(), Json::Text("v".to_string())),
        ("port".to_string(), Json::Number("18446744073709551616".to_string())),
    ])]);
    assert!(matches!(list_of(&big).unwrap()[0].port, Some(PortValue::Text(_))));
    let top = Json::Object(vec![("servers".to_string(), Json::Array(vec![entry_doc("t")]))]);
    assert_eq!(addrs(&list_of(&top).unwrap()), vec!["t:18446744073709551615"]);
    assert_eq!(list_of(&Json::Null).unwrap_err(), "Unrecognized server list format");
}
