//! Scan configuration: the denylists that the ignore policy consults and the
//! path-separator string used when building child paths.
//!
//! The lists are platform-specific, so they are resolved once, by the caller,
//! through one of the two constructors below, and then passed by value into
//! every scan.

use vstd::prelude::*;
use vstd::string::StringExecFns;

verus! {

pub struct ScanConfig {
    /// Absolute path prefixes of system or noise trees that are never entered.
    pub ignored_dirs: Vec<String>,
    /// Directory names (dependency caches, build output, editor metadata)
    /// that are never entered, except at the scan root itself.
    pub ignored_names: Vec<String>,
    /// The platform's path separator, as a one-character string.
    pub separator: String,
}

impl ScanConfig {
    /// A configuration is well formed when its separator is one character.
    pub open spec fn wf(self) -> bool {
        self.separator@.len() == 1
    }
}

/// The directory names pruned on every platform.
pub open spec fn noise_names() -> Seq<Seq<char>> {
    seq![
        "node_modules"@,
        ".git"@,
        "venv"@,
        "__pycache__"@,
        "dist"@,
        "build"@,
        "out"@,
        "bin"@,
        "obj"@,
        "pkgs"@,
        "pkg"@,
        "src"@,
        ".cache"@,
        ".vscode"@,
        "ports"@,
    ]
}

/// The absolute system paths pruned on Unix-like platforms.
pub open spec fn unix_system_dirs() -> Seq<Seq<char>> {
    seq![
        "/proc"@,
        "/sys"@,
        "/dev"@,
        "/run"@,
        "/tmp"@,
        "/var/tmp"@,
        "/var/cache"@,
        "/var/log"@,
        "/snap"@,
        "/mnt"@,
        "/media"@,
        "/lost+found"@,
    ]
}

/// The absolute system paths pruned on Windows.
pub open spec fn windows_system_dirs() -> Seq<Seq<char>> {
    seq![
        "C:\\Windows"@,
        "C:\\Program Files"@,
        "C:\\Program Files (x86)"@,
        "C:\\$Recycle.Bin"@,
        "C:\\Users\\All Users"@,
        "C:\\ProgramData"@,
        "C:\\System Volume Information"@,
        "C:\\Recovery"@,
        "C:\\PerfLogs"@,
        "C:\\MSOCache"@,
        "C:\\Documents and Settings"@,
        "C:\\msys64"@,
        "C:\\vcpkg"@,
    ]
}

fn noise_name_vec() -> (r: Vec<String>)
    ensures
        r.deep_view() == noise_names(),
{
    let r: Vec<String> = vec![
        String::from_str("node_modules"),
        String::from_str(".git"),
        String::from_str("venv"),
        String::from_str("__pycache__"),
        String::from_str("dist"),
        String::from_str("build"),
        String::from_str("out"),
        String::from_str("bin"),
        String::from_str("obj"),
        String::from_str("pkgs"),
        String::from_str("pkg"),
        String::from_str("src"),
        String::from_str(".cache"),
        String::from_str(".vscode"),
        String::from_str("ports"),
    ];
    proof {
        assert(r.deep_view() =~= noise_names());
    }
    r
}

/// The configuration for Unix-like platforms: `/`-separated paths.
pub fn unix_config() -> (r: ScanConfig)
    ensures
        r.wf(),
        r.ignored_dirs.deep_view() == unix_system_dirs(),
        r.ignored_names.deep_view() == noise_names(),
        r.separator@ == "/"@,
{
    let dirs: Vec<String> = vec![
        String::from_str("/proc"),
        String::from_str("/sys"),
        String::from_str("/dev"),
        String::from_str("/run"),
        String::from_str("/tmp"),
        String::from_str("/var/tmp"),
        String::from_str("/var/cache"),
        String::from_str("/var/log"),
        String::from_str("/snap"),
        String::from_str("/mnt"),
        String::from_str("/media"),
        String::from_str("/lost+found"),
    ];
    proof {
        assert(dirs.deep_view() =~= unix_system_dirs());
        reveal_strlit("/");
    }
    ScanConfig {
        ignored_dirs: dirs,
        ignored_names: noise_name_vec(),
        separator: String::from_str("/"),
    }
}

/// The configuration for Windows: `\`-separated paths.
pub fn windows_config() -> (r: ScanConfig)
    ensures
        r.wf(),
        r.ignored_dirs.deep_view() == windows_system_dirs(),
        r.ignored_names.deep_view() == noise_names(),
        r.separator@ == "\\"@,
{
    let dirs: Vec<String> = vec![
        String::from_str("C:\\Windows"),
        String::from_str("C:\\Program Files"),
        String::from_str("C:\\Program Files (x86)"),
        String::from_str("C:\\$Recycle.Bin"),
        String::from_str("C:\\Users\\All Users"),
        String::from_str("C:\\ProgramData"),
        String::from_str("C:\\System Volume Information"),
        String::from_str("C:\\Recovery"),
        String::from_str("C:\\PerfLogs"),
        String::from_str("C:\\MSOCache"),
        String::from_str("C:\\Documents and Settings"),
        String::from_str("C:\\msys64"),
        String::from_str("C:\\vcpkg"),
    ];
    proof {
        assert(dirs.deep_view() =~= windows_system_dirs());
        reveal_strlit("\\");
    }
    ScanConfig {
        ignored_dirs: dirs,
        ignored_names: noise_name_vec(),
        separator: String::from_str("\\"),
    }
}

} // verus!
