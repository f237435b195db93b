//! Command lines for starting and stopping the lan-play client, plainly,
//! through sudo, or elevated through `cmd.exe`.

use vstd::prelude::*;
use vstd::string::*;

use crate::text::{lemma_views_push, decimal, decimal_string, join, join_strings, parse_unsigned, parse_unsigned_str, split_words, views, words};

verus! {

/// The command line shown for running `exe` with `args`.
pub open spec fn spec_command_line(exe: Seq<char>, args: Seq<Seq<char>>) -> Seq<char> {
    exe + " "@ + join(args, " "@)
}

/// The command line shown for running `exe` with `args`.
pub fn command_line(exe: &str, args: &Vec<String>) -> (line: String)
    ensures
        line@ == spec_command_line(exe@, views(args@)),
{
    let mut line = String::from_str(exe);
    line.append(" ");
    let rest = join_strings(args, " ");
    line.append(rest.as_str());
    line
}

/// How sudo is asked to authenticate: from its credential cache without
/// prompting (`-n`), or with the password on standard input (`-S`).
pub open spec fn sudo_flag(use_cache: bool) -> Seq<char> {
    if use_cache {
        "-n"@
    } else {
        "-S"@
    }
}

/// The arguments of sudo for running `binary` with `args`.
pub open spec fn spec_sudo_args(use_cache: bool, binary: Seq<char>, args: Seq<Seq<char>>) -> Seq<
    Seq<char>,
> {
    seq![sudo_flag(use_cache), binary] + args
}

/// The command line shown for running `binary` with `args` through sudo.
pub open spec fn spec_sudo_line(use_cache: bool, binary: Seq<char>, args: Seq<Seq<char>>) -> Seq<
    char,
> {
    if use_cache {
        "sudo -n "@ + spec_command_line(binary, args)
    } else {
        "sudo "@ + spec_command_line(binary, args)
    }
}

/// The sudo arguments and the shown command line for running `binary` with
/// `args` as root.
pub fn sudo_launch(binary: &str, args: &Vec<String>, use_cache: bool) -> (res: (Vec<String>, String))
    ensures
        views(res.0@) == spec_sudo_args(use_cache, binary@, views(args@)),
        res.1@ == spec_sudo_line(use_cache, binary@, views(args@)),
{
    let mut sudo_args: Vec<String> = Vec::new();
    if use_cache {
        sudo_args.push(String::from_str("-n"));
    } else {
        sudo_args.push(String::from_str("-S"));
    }
    sudo_args.push(String::from_str(binary));
    let n = args.len();
    let mut i: usize = 0;
    while i < n
        invariant
            n == args@.len(),
            i <= n,
            views(sudo_args@) == seq![sudo_flag(use_cache), binary@] + views(args@).take(i as int),
        decreases n - i,
    {
        let a = args[i].clone();
        proof {
            lemma_views_push(sudo_args@, a);
        }
        sudo_args.push(a);
        assert(views(args@).take(i + 1) =~= views(args@).take(i as int).push(args@[i as int]@));
        assert(views(sudo_args@) =~= seq![sudo_flag(use_cache), binary@] + views(args@).take(i + 1));
        i = i + 1;
    }
    assert(views(args@).take(n as int) =~= views(args@));
    let mut line = if use_cache {
        String::from_str("sudo -n ")
    } else {
        String::from_str("sudo ")
    };
    let cmd = command_line(binary, args);
    line.append(cmd.as_str());
    (sudo_args, line)
}

/// How a privileged start goes on: through sudo with its cached
/// credentials, with these sudo arguments and this shown command line; or,
/// where the cache has expired, by asking for the password first.
pub enum SudoStart {
    Cached { args: Vec<String>, line: String },
    AskPassword,
}

/// Decides a privileged start of `binary` with `args`: the sudo credential
/// cache is used where it is still valid, and the password is asked for
/// only where it is not.
pub fn sudo_start(binary: &str, args: &Vec<String>, cache_valid: bool) -> (s: SudoStart)
    ensures
        cache_valid ==> (s matches SudoStart::Cached { args: a, line } && views(a@)
            == spec_sudo_args(true, binary@, views(args@)) && line@ == spec_sudo_line(
            true,
            binary@,
            views(args@),
        )),
        !cache_valid ==> s is AskPassword,
{
    if cache_valid {
        let (a, line) = sudo_launch(binary, args, true);
        SudoStart::Cached { args: a, line }
    } else {
        SudoStart::AskPassword
    }
}

/// The arguments of `sudo` that kill process `pid`, or process group `pid`
/// where `group` holds, without prompting.
pub open spec fn spec_kill_args(pid: u32, group: bool) -> Seq<Seq<char>> {
    let target = if group {
        "-"@ + decimal(pid as nat)
    } else {
        decimal(pid as nat)
    };
    seq!["-n"@, "kill"@, "-9"@, target]
}

/// The sudo arguments for killing `pid`, or its process group.
pub fn kill_args(pid: u32, group: bool) -> (args: Vec<String>)
    ensures
        views(args@) == spec_kill_args(pid, group),
{
    let mut target = if group {
        String::from_str("-")
    } else {
        String::new()
    };
    let digits = decimal_string(pid as u128);
    target.append(digits.as_str());
    let mut args: Vec<String> = Vec::new();
    args.push(String::from_str("-n"));
    args.push(String::from_str("kill"));
    args.push(String::from_str("-9"));
    args.push(target);
    assert(views(args@) =~= spec_kill_args(pid, group));
    args
}

/// The process id in a `/proc/<pid>/task/<pid>/children` listing: its first
/// word, where that is a number that fits a `u32`.
pub open spec fn spec_first_pid(children: Seq<char>) -> Option<nat> {
    let w = words(children);
    if w.len() > 0 {
        parse_unsigned(w[0], u32::MAX as nat)
    } else {
        None
    }
}

/// Reads the first child process id from a `children` listing.
pub fn first_pid(children: &str) -> (pid: Option<u32>)
    ensures
        pid matches Some(p) ==> spec_first_pid(children@) == Some(p as nat),
        pid is None ==> spec_first_pid(children@) is None,
{
    let w = split_words(children);
    if w.len() == 0 {
        return None;
    }
    assert(views(w@)[0] == w@[0]@);
    match parse_unsigned_str(w[0].as_str(), 0xffff_ffff) {
        Some(v) => Some(v as u32),
        None => None,
    }
}

/// Whether `s` holds a space.
pub open spec fn has_space(s: Seq<char>) -> bool {
    exists|i: int| 0 <= i < s.len() && s[i] == ' '
}

/// `s` in double quotes where it holds a space, as it is given to
/// `cmd.exe`.
pub open spec fn quoted(s: Seq<char>) -> Seq<char> {
    if has_space(s) {
        "\""@ + s + "\""@
    } else {
        s
    }
}

/// Quotes `s` where it holds a space.
pub fn quote_spaced(s: &str) -> (q: String)
    ensures
        q@ == quoted(s@),
{
    let n = s.unicode_len();
    let mut i: usize = 0;
    while i < n && s.get_char(i) != ' '
        invariant
            n == s@.len(),
            i <= n,
            forall|j: int| 0 <= j < i ==> s@[j] != ' ',
        decreases n - i,
    {
        i = i + 1;
    }
    if i < n {
        assert(s@[i as int] == ' ');
        let mut q = String::from_str("\"");
        q.append(s);
        q.append("\"");
        q
    } else {
        String::from_str(s)
    }
}

/// The parameters of `cmd.exe` that run `exe` with `args` and send both of
/// its output streams to the named pipe `pipe`.
pub open spec fn spec_elevated_params(exe: Seq<char>, args: Seq<Seq<char>>, pipe: Seq<char>) -> Seq<
    char,
> {
    "/c \""@ + quoted(exe) + " "@ + join(args.map_values(|a: Seq<char>| quoted(a)), " "@) + " > "@
        + pipe + " 2>&1\""@
}

/// Builds the `cmd.exe` parameters for an elevated start.
pub fn elevated_params(exe: &str, args: &Vec<String>, pipe: &str) -> (params: String)
    ensures
        params@ == spec_elevated_params(exe@, views(args@), pipe@),
{
    let mut quoted_args: Vec<String> = Vec::new();
    let n = args.len();
    let mut i: usize = 0;
    while i < n
        invariant
            n == args@.len(),
            i <= n,
            views(quoted_args@) == views(args@).take(i as int).map_values(
                |a: Seq<char>| quoted(a),
            ),
        decreases n - i,
    {
        let q = quote_spaced(args[i].as_str());
        proof {
            lemma_views_push(quoted_args@, q);
        }
        quoted_args.push(q);
        assert(views(quoted_args@) =~= views(args@).take(i + 1).map_values(
            |a: Seq<char>| quoted(a),
        ));
        i = i + 1;
    }
    assert(views(args@).take(n as int) =~= views(args@));
    let mut params = String::from_str("/c \"");
    let qe = quote_spaced(exe);
    params.append(qe.as_str());
    params.append(" ");
    let joined = join_strings(&quoted_args, " ");
    params.append(joined.as_str());
    params.append(" > ");
    params.append(pipe);
    params.append(" 2>&1\"");
    params
}

/// The name of the pipe for the `id`-th elevated start of process `pid`.
pub open spec fn spec_pipe_name(pid: u32, id: u32) -> Seq<char> {
    "\\\\.\\pipe\\yaslp_"@ + decimal(pid as nat) + "_"@ + decimal(id as nat)
}

/// Names the pipe for the `id`-th elevated start of process `pid`.
pub fn pipe_name(pid: u32, id: u32) -> (name: String)
    ensures
        name@ == spec_pipe_name(pid, id),
{
    let mut name = String::from_str("\\\\.\\pipe\\yaslp_");
    let p = decimal_string(pid as u128);
    name.append(p.as_str());
    name.append("_");
    let d = decimal_string(id as u128);
    name.append(d.as_str());
    name
}

/// The status line after a start with `args`: `Connected to` followed by
/// the last argument (nothing where there is none), and a mark for an
/// elevated start. With the arguments of `relay_args` the last argument is
/// the output flag, and that is what the line names.
pub open spec fn spec_connected_message(args: Seq<Seq<char>>, elevated: bool) -> Seq<char> {
    let addr = if args.len() > 0 {
        args.last()
    } else {
        Seq::<char>::empty()
    };
    if elevated {
        "Connected to "@ + addr + " (Administrator)"@
    } else {
        "Connected to "@ + addr
    }
}

/// The status line after a successful start with `args`.
pub fn connected_message(args: &Vec<String>, elevated: bool) -> (m: String)
    ensures
        m@ == spec_connected_message(views(args@), elevated),
{
    let mut m = String::from_str("Connected to ");
    let n = args.len();
    if n > 0 {
        assert(views(args@).last() == args@[n - 1]@);
        m.append(args[n - 1].as_str());
    }
    if elevated {
        m.append(" (Administrator)");
    }
    m
}

/// The port the web interface listens on: the first argument where it is a
/// valid port number, 8080 otherwise.
pub open spec fn spec_listen_port(arg: Option<Seq<char>>) -> nat {
    match arg {
        Some(a) => match parse_unsigned(a, u16::MAX as nat) {
            Some(p) => p,
            None => 8080,
        },
        None => 8080,
    }
}

/// Chooses the port of the web interface.
pub fn listen_port(arg: Option<String>) -> (port: u16)
    ensures
        port as nat == spec_listen_port(crate::platform::opt_view(arg)),
{
    match arg {
        Some(a) => match parse_unsigned_str(a.as_str(), 0xffff) {
            Some(p) => p as u16,
            None => 8080,
        },
        None => 8080,
    }
}


/// The status line after an elevated start failed with Windows error
/// `err`: the user cancelled the prompt (error 1223), or something else.
pub open spec fn spec_elevation_failure(err: u32) -> Seq<char> {
    if err == 1223 {
        "Administrator prompt cancelled."@
    } else {
        "Failed to start as Administrator (error "@ + decimal(err as nat) + ")."@
    }
}

/// The status line after an elevated start failed with error `err`.
pub fn elevation_failure_message(err: u32) -> (m: String)
    ensures
        m@ == spec_elevation_failure(err),
{
    if err == 1223 {
        String::from_str("Administrator prompt cancelled.")
    } else {
        let mut m = String::from_str("Failed to start as Administrator (error ");
        let d = decimal_string(err as u128);
        m.append(d.as_str());
        m.append(").");
        m
    }
}

/// Whether the sudo credentials are refreshed before killing the client:
/// only with a stored, non-empty password.
pub fn needs_credential_refresh(password: &Option<String>) -> (b: bool)
    ensures
        b == (password matches Some(pw) && pw@.len() > 0),
{
    match password {
        Some(pw) => pw.as_str().unicode_len() > 0,
        None => false,
    }
}

} // verus!
