//! Target platforms, the client download address for each, and the paths
//! of the configuration file.

use vstd::prelude::*;
use vstd::string::*;

verus! {

/// Operating system families that the launcher tells apart.
#[derive(Clone, Copy, Debug, PartialEq, Eq, Structural)]
pub enum Os {
    Windows,
    MacOs,
    Other,
}

/// Processor architectures that the launcher tells apart.
#[derive(Clone, Copy, Debug, PartialEq, Eq, Structural)]
pub enum Arch {
    Aarch64,
    Arm,
    Other,
}

/// The platform the launcher runs on.
#[derive(Clone, Copy, Debug, PartialEq, Eq, Structural)]
pub struct Platform {
    pub os: Os,
    pub arch: Arch,
}

/// The lan-play client release for a platform: Windows and macOS have
/// their own builds; other systems take the ARM build on ARM processors
/// and the Linux build otherwise.
pub open spec fn spec_download_url(p: Platform) -> Seq<char> {
    match p.os {
        Os::Windows =>
            "https://github.com/spacemeowx2/switch-lan-play/releases/latest/download/lan-play-win64.exe"@,
        Os::MacOs =>
            "https://github.com/spacemeowx2/switch-lan-play/releases/latest/download/lan-play-macos"@,
        Os::Other => match p.arch {
            Arch::Aarch64 | Arch::Arm =>
                "https://github.com/metehankaygsz/lan-play-arm/releases/latest/download/lan-play-arm"@,
            Arch::Other =>
                "https://github.com/spacemeowx2/switch-lan-play/releases/latest/download/lan-play-linux"@,
        },
    }
}

/// The lan-play download URL for `platform`.
pub fn download_url(platform: Platform) -> (url: &'static str)
    ensures
        url@ == spec_download_url(platform),
{
    match platform.os {
        Os::Windows =>
            "https://github.com/spacemeowx2/switch-lan-play/releases/latest/download/lan-play-win64.exe",
        Os::MacOs =>
            "https://github.com/spacemeowx2/switch-lan-play/releases/latest/download/lan-play-macos",
        Os::Other => match platform.arch {
            Arch::Aarch64 | Arch::Arm =>
                "https://github.com/metehankaygsz/lan-play-arm/releases/latest/download/lan-play-arm",
            Arch::Other =>
                "https://github.com/spacemeowx2/switch-lan-play/releases/latest/download/lan-play-linux",
        },
    }
}

/// Whether `c` separates path components on `os`.
pub open spec fn is_separator(os: Os, c: char) -> bool {
    c == '/' || (os == Os::Windows && c == '\\')
}

/// The separator that `os` puts between path components.
pub open spec fn separator(os: Os) -> char {
    if os == Os::Windows {
        '\\'
    } else {
        '/'
    }
}

/// `base` with the relative path `rel` adjoined, as `Path::join` does: a
/// separator goes between them unless `base` is empty or already ends in
/// one.
pub open spec fn join_path(base: Seq<char>, rel: Seq<char>, os: Os) -> Seq<char> {
    if base.len() == 0 || is_separator(os, base.last()) {
        base + rel
    } else {
        base.push(separator(os)) + rel
    }
}

fn separator_str(os: Os) -> (s: &'static str)
    ensures
        s@ == seq![separator(os)],
{
    proof {
        reveal_strlit("\\");
        reveal_strlit("/");
    }
    match os {
        Os::Windows => "\\",
        _ => "/",
    }
}

/// Adjoins the relative path `rel` to `base`.
pub fn join_path_str(base: &str, rel: &str, os: Os) -> (res: String)
    ensures
        res@ == join_path(base@, rel@, os),
{
    let n = base.unicode_len();
    let mut res = String::from_str(base);
    if n > 0 {
        let c = base.get_char(n - 1);
        let sep = c == '/' || (os == Os::Windows && c == '\\');
        assert(base@.last() == c);
        if !sep {
            res.append(separator_str(os));
            assert(res@ =~= base@.push(separator(os)));
        }
    }
    res.append(rel);
    res
}

/// The directory that holds the configuration: `C:\YaSLP-GUI` on Windows,
/// otherwise `.config/YaSLP-GUI` in the home directory, or `/opt/YaSLP-GUI`
/// where there is no home directory.
pub open spec fn spec_config_dir(os: Os, home: Option<Seq<char>>) -> Seq<char> {
    if os == Os::Windows {
        "C:\\YaSLP-GUI"@
    } else {
        match home {
            Some(h) => join_path(h, ".config/YaSLP-GUI"@, os),
            None => "/opt/YaSLP-GUI"@,
        }
    }
}

/// The view of an optional string.
pub open spec fn opt_view(o: Option<String>) -> Option<Seq<char>> {
    match o {
        Some(s) => Some(s@),
        None => None,
    }
}

/// The configuration directory for `os`, given the user's home directory.
pub fn config_dir(os: Os, home: Option<String>) -> (dir: String)
    ensures
        dir@ == spec_config_dir(os, opt_view(home)),
{
    match os {
        Os::Windows => String::from_str("C:\\YaSLP-GUI"),
        _ => match home {
            Some(h) => join_path_str(h.as_str(), ".config/YaSLP-GUI", os),
            None => String::from_str("/opt/YaSLP-GUI"),
        },
    }
}

/// The configuration file `config.json` in the configuration directory.
pub fn config_path(os: Os, home: Option<String>) -> (path: String)
    ensures
        path@ == join_path(spec_config_dir(os, opt_view(home)), "config.json"@, os),
{
    let dir = config_dir(os, home);
    join_path_str(dir.as_str(), "config.json", os)
}

/// The configuration file `config.json` beside the executable, given the
/// executable's directory; in the working directory when that is unknown.
pub fn exe_config_path(os: Os, exe_dir: Option<String>) -> (path: String)
    ensures
        path@ == join_path(
            match opt_view(exe_dir) {
                Some(d) => d,
                None => "."@,
            },
            "config.json"@,
            os,
        ),
{
    match exe_dir {
        Some(d) => join_path_str(d.as_str(), "config.json", os),
        None => join_path_str(".", "config.json", os),
    }
}

} // verus!
