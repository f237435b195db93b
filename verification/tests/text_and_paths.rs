use yaslp::launch::{
    command_line, elevated_params, elevation_failure_message, first_pid, kill_args, listen_port,
    needs_credential_refresh, pipe_name, quote_spaced, sudo_launch, sudo_start, connected_message, SudoStart,
};
use yaslp::platform::{config_dir, config_path, download_url, exe_config_path, join_path_str, Arch, Os, Platform};
use yaslp::text::{decimal_string, is_whitespace_char, join_strings, parse_unsigned_str, split_words, trim_string};

fn strings(v: &[&str]) -> Vec<String> {
    v.iter().map(|s| s.to_string()).collect()
}

#[test]
fn decimal_rendering() {
    assert_eq!(decimal_string(0), "0");
    assert_eq!(decimal_string(7), "7");
    assert_eq!(decimal_string(10), "10");
    assert_eq!(decimal_string(11451), "11451");
    assert_eq!(decimal_string(u128::MAX), u128::MAX.to_string());
}

#[test]
fn whitespace_matches_std() {
    for c in ['\t', '\n', ' ', '\u{85}', '\u{a0}', '\u{2003}', '\u{3000}', 'a', '0', '\u{200b}', '-'] {
        assert_eq!(is_whitespace_char(c), c.is_whitespace(), "{c:?}");
    }
}

#[test]
fn words_like_split_whitespace() {
    for s in ["", "   ", "--pmtu 500", "  a  b\tc\n", "x", "a\u{3000}b"] {
        let expected: Vec<String> = s.split_whitespace().map(String::from).collect();
        assert_eq!(split_words(s), expected);
    }
}

#[test]
fn joining_and_trimming() {
    assert_eq!(join_strings(&strings(&["a", "b", "c"]), " "), "a b c");
    assert_eq!(join_strings(&strings(&[]), " "), "");
    assert_eq!(join_strings(&strings(&["only"]), ", "), "only");
    assert_eq!(trim_string("  1.2.3.4:11451 \n"), "1.2.3.4:11451");
    assert_eq!(trim_string("   "), "");
    assert_eq!(trim_string("x"), "x");
}

#[test]
fn unsigned_parsing_like_std() {
    for s in ["0", "42", "+7", "+", "", "-1", "12a", "4294967295", "4294967296", " 5", "007"] {
        let ours = parse_unsigned_str(s, u32::MAX as u64).map(|v| v as u32);
        assert_eq!(ours, s.parse::<u32>().ok(), "{s:?}");
    }
    assert_eq!(parse_unsigned_str("65535", 0xffff), Some(65535));
    assert_eq!(parse_unsigned_str("65536", 0xffff), None);
    assert_eq!(parse_unsigned_str("18446744073709551615", u64::MAX), Some(u64::MAX));
    assert_eq!(parse_unsigned_str("18446744073709551616", u64::MAX), None);
}

#[test]
fn decimal_parses_back() {
    for n in [0u64, 9, 10, 500, 15000, u64::MAX] {
        assert_eq!(parse_unsigned_str(&decimal_string(n as u128), u64::MAX), Some(n));
    }
}

#[test]
fn download_urls() {
    let url = |os, arch| download_url(Platform { os, arch });
    assert_eq!(
        url(Os::Windows, Arch::Other),
        "https://github.com/spacemeowx2/switch-lan-play/releases/latest/download/lan-play-win64.exe"
    );
    assert_eq!(
        url(Os::MacOs, Arch::Aarch64),
        "https://github.com/spacemeowx2/switch-lan-play/releases/latest/download/lan-play-macos"
    );
    assert_eq!(
        url(Os::Other, Arch::Arm),
        "https://github.com/metehankaygsz/lan-play-arm/releases/latest/download/lan-play-arm"
    );
    assert_eq!(
        url(Os::Other, Arch::Aarch64),
        "https://github.com/metehankaygsz/lan-play-arm/releases/latest/download/lan-play-arm"
    );
    assert_eq!(
        url(Os::Other, Arch::Other),
        "https://github.com/spacemeowx2/switch-lan-play/releases/latest/download/lan-play-linux"
    );
}

#[test]
fn configuration_paths() {
    assert_eq!(config_dir(Os::Windows, Some("/home/u".into())), "C:\\YaSLP-GUI");
    assert_eq!(config_path(Os::Windows, None), "C:\\YaSLP-GUI\\config.json");
    assert_eq!(config_dir(Os::Other, Some("/home/u".into())), "/home/u/.config/YaSLP-GUI");
    assert_eq!(config_path(Os::Other, Some("/home/u".into())), "/home/u/.config/YaSLP-GUI/config.json");
    assert_eq!(config_path(Os::Other, Some("/home/u/".into())), "/home/u/.config/YaSLP-GUI/config.json");
    assert_eq!(config_path(Os::MacOs, None), "/opt/YaSLP-GUI/config.json");
    assert_eq!(exe_config_path(Os::Other, Some("/opt/yaslp".into())), "/opt/yaslp/config.json");
    assert_eq!(exe_config_path(Os::Other, None), "./config.json");
    assert_eq!(exe_config_path(Os::Windows, Some("C:\\Apps".into())), "C:\\Apps\\config.json");
    assert_eq!(join_path_str("", "a", Os::Other), "a");
    assert_eq!(join_path_str("C:\\x/", "a", Os::Windows), "C:\\x/a");
}

#[test]
fn command_lines() {
    let args = strings(&["--relay-server-addr", "1.2.3.4:11451", "--set-ionbf"]);
    assert_eq!(
        command_line("/opt/lan-play", &args),
        "/opt/lan-play --relay-server-addr 1.2.3.4:11451 --set-ionbf"
    );
    let (sargs, line) = sudo_launch("/opt/lan-play", &args, false);
    assert_eq!(sargs, strings(&["-S", "/opt/lan-play", "--relay-server-addr", "1.2.3.4:11451", "--set-ionbf"]));
    assert_eq!(line, "sudo /opt/lan-play --relay-server-addr 1.2.3.4:11451 --set-ionbf");
    let (sargs, line) = sudo_launch("/opt/lan-play", &args, true);
    assert_eq!(sargs[0], "-n");
    assert_eq!(line, "sudo -n /opt/lan-play --relay-server-addr 1.2.3.4:11451 --set-ionbf");
    assert_eq!(kill_args(4242, true), strings(&["-n", "kill", "-9", "-4242"]));
    assert_eq!(kill_args(4242, false), strings(&["-n", "kill", "-9", "4242"]));
    assert_eq!(connected_message(&args, false), "Connected to --set-ionbf");
    assert_eq!(connected_message(&strings(&[]), true), "Connected to  (Administrator)");
}

#[test]
fn windows_elevation_text() {
    assert_eq!(quote_spaced("C:\\Program Files\\lan-play.exe"), "\"C:\\Program Files\\lan-play.exe\"");
    assert_eq!(quote_spaced("plain"), "plain");
    let args = strings(&["--netif", "My Adapter", "--set-ionbf"]);
    assert_eq!(
        elevated_params("C:\\lp\\lan-play.exe", &args, "\\\\.\\pipe\\yaslp_1_0"),
        "/c \"C:\\lp\\lan-play.exe --netif \"My Adapter\" --set-ionbf > \\\\.\\pipe\\yaslp_1_0 2>&1\""
    );
    assert_eq!(pipe_name(1234, 5), "\\\\.\\pipe\\yaslp_1234_5");
    assert_eq!(elevation_failure_message(1223), "Administrator prompt cancelled.");
    assert_eq!(elevation_failure_message(5), "Failed to start as Administrator (error 5).");
}

#[test]
fn small_decisions() {
    assert_eq!(first_pid("4321 4322\n"), Some(4321));
    assert_eq!(first_pid("   \n"), None);
    assert_eq!(first_pid("abc"), None);
    assert_eq!(listen_port(Some("9000".into())), 9000);
    assert_eq!(listen_port(Some("70000".into())), 8080);
    assert_eq!(listen_port(None), 8080);
    assert!(needs_credential_refresh(&Some("pw".into())));
    assert!(!needs_credential_refresh(&Some(String::new())));
    assert!(!needs_credential_refresh(&None));
}

#[test]
fn privileged_start_uses_the_sudo_cache() {
    let args = strings(&["--relay-server-addr", "r:1", "--set-ionbf"]);
    match sudo_start("/opt/lan-play", &args, true) {
        SudoStart::Cached { args: a, line } => {
            assert_eq!(a, strings(&["-n", "/opt/lan-play", "--relay-server-addr", "r:1", "--set-ionbf"]));
            assert_eq!(line, "sudo -n /opt/lan-play --relay-server-addr r:1 --set-ionbf");
        }
        SudoStart::AskPassword => panic!("a valid cache needs no password"),
    }
    assert!(matches!(sudo_start("/opt/lan-play", &args, false), SudoStart::AskPassword));
}
