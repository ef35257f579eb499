//! What the system is: its id and name (from `/etc/os-release` on Linux),
//! its package manager and package list, and its display server.
use vstd::prelude::*;

use crate::config::opt_view;
use crate::text::{chars_of, has_prefix, lines, lines_of, push_str, slice_chars, starts_with, str_eq, string_of, trim, trim_chars};

verus! {

/// The platform the program was built for.
#[derive(Clone, Copy, Debug, PartialEq, Eq, Structural)]
pub enum Platform {
    MacOs,
    Windows,
    Linux,
    Other,
}

/// `s` without leading double quotes.
pub open spec fn strip_quotes_start(s: Seq<char>) -> Seq<char>
    decreases s.len(),
{
    if s.len() > 0 && s[0] == '"' {
        strip_quotes_start(s.drop_first())
    } else {
        s
    }
}

/// `s` without trailing double quotes.
pub open spec fn strip_quotes_end(s: Seq<char>) -> Seq<char>
    decreases s.len(),
{
    if s.len() > 0 && s.last() == '"' {
        strip_quotes_end(s.drop_last())
    } else {
        s
    }
}

/// The value of the first line that begins with `key` (such as `ID=`):
/// the rest of the line without surrounding double quotes, then trimmed.
pub open spec fn field_of(ls: Seq<Seq<char>>, key: Seq<char>) -> Option<Seq<char>>
    decreases ls.len(),
{
    if ls.len() == 0 {
        None
    } else if starts_with(ls[0], key) {
        Some(trim(strip_quotes_end(strip_quotes_start(ls[0].skip(key.len() as int)))))
    } else {
        field_of(ls.drop_first(), key)
    }
}

/// `v[from..]` without leading and trailing double quotes.
fn strip_quotes(v: &[char], from: usize) -> (r: Vec<char>)
    requires
        from <= v@.len(),
    ensures
        r@ == strip_quotes_end(strip_quotes_start(v@.skip(from as int))),
{
    let mut a = from;
    while a < v.len() && v[a] == '"'
        invariant
            from <= a <= v@.len(),
            strip_quotes_start(v@.skip(from as int)) == strip_quotes_start(v@.skip(a as int)),
        decreases v.len() - a,
    {
        assert(v@.skip(a as int).drop_first() =~= v@.skip(a + 1));
        a = a + 1;
    }
    let ghost rest = v@.skip(a as int);
    assert(strip_quotes_start(rest) == rest) by {
        if rest.len() > 0 {
            assert(rest[0] == v@[a as int]);
        }
    }
    let mut b = v.len();
    assert(rest.take(rest.len() as int) =~= rest);
    while b > a && v[b - 1] == '"'
        invariant
            a <= b <= v@.len(),
            rest == v@.skip(a as int),
            strip_quotes_end(rest) == strip_quotes_end(rest.take(b - a)),
        decreases b,
    {
        assert(rest.take(b - a).drop_last() =~= rest.take(b - a - 1));
        assert(rest.take(b - a).last() == v@[b - 1]);
        b = b - 1;
    }
    assert(strip_quotes_end(rest.take(b - a)) == rest.take(b - a)) by {
        let q = rest.take(b - a);
        if q.len() > 0 {
            assert(q.last() == v@[b - 1]);
        }
    }
    assert(rest.take(b - a) =~= v@.subrange(a as int, b as int));
    slice_chars(v, a, b)
}

/// The value of the field `key` (such as `ID=`) in the text of an
/// os-release file.
pub fn os_release_field(content: &str, key: &str) -> (r: Option<String>)
    ensures
        match r {
            Some(s) => field_of(lines(content@), key@) == Some(s@),
            None => field_of(lines(content@), key@) is None,
        },
{
    let c = chars_of(content);
    let k = chars_of(key);
    let ls = lines_of(&c);
    let ghost all = ls@.map_values(|l: Vec<char>| l@);
    let mut i: usize = 0;
    assert(all.skip(0) =~= all);
    while i < ls.len()
        invariant
            i <= ls@.len(),
            all == ls@.map_values(|l: Vec<char>| l@),
            all == lines(content@),
            k@ == key@,
            field_of(all, key@) == field_of(all.skip(i as int), key@),
        decreases ls.len() - i,
    {
        let ghost rest = all.skip(i as int);
        assert(rest[0] == ls@[i as int]@);
        assert(rest.drop_first() =~= all.skip(i + 1));
        if has_prefix(&ls[i], &k) {
            let q = strip_quotes(&ls[i], k.len());
            let t = trim_chars(&q);
            return Some(string_of(&t));
        }
        i = i + 1;
    }
    None
}

/// The system's id: fixed on macOS and Windows, the `ID=` field of
/// os-release on Linux, otherwise `unknown`.
pub open spec fn os_id_of(platform: Platform, os_release: Option<Seq<char>>) -> Seq<char> {
    match platform {
        Platform::MacOs => "macos"@,
        Platform::Windows => "windows"@,
        _ => if platform == Platform::Linux && os_release is Some && field_of(
            lines(os_release->0),
            "ID="@,
        ) is Some {
            field_of(lines(os_release->0), "ID="@)->0
        } else {
            "unknown"@
        },
    }
}

/// The system's name: fixed on macOS and Windows, the `NAME=` field of
/// os-release on Linux, otherwise `Unknown`.
pub open spec fn os_name_of(platform: Platform, os_release: Option<Seq<char>>) -> Seq<char> {
    match platform {
        Platform::MacOs => "macOS"@,
        Platform::Windows => "Windows"@,
        _ => if platform == Platform::Linux && os_release is Some && field_of(
            lines(os_release->0),
            "NAME="@,
        ) is Some {
            field_of(lines(os_release->0), "NAME="@)->0
        } else {
            "Unknown"@
        },
    }
}

/// The system's id, from the platform and the text of `/etc/os-release`
/// when it could be read.
pub fn os_id_from(platform: Platform, os_release: Option<&str>) -> (r: String)
    ensures
        r@ == os_id_of(platform, opt_view(os_release)),
{
    match platform {
        Platform::MacOs => "macos".to_owned(),
        Platform::Windows => "windows".to_owned(),
        Platform::Linux => match os_release {
            Some(content) => match os_release_field(content, "ID=") {
                Some(id) => id,
                None => "unknown".to_owned(),
            },
            None => "unknown".to_owned(),
        },
        Platform::Other => "unknown".to_owned(),
    }
}

/// The system's name, from the platform and the text of `/etc/os-release`
/// when it could be read.
pub fn os_name_from(platform: Platform, os_release: Option<&str>) -> (r: String)
    ensures
        r@ == os_name_of(platform, opt_view(os_release)),
{
    match platform {
        Platform::MacOs => "macOS".to_owned(),
        Platform::Windows => "Windows".to_owned(),
        Platform::Linux => match os_release {
            Some(content) => match os_release_field(content, "NAME=") {
                Some(name) => name,
                None => "Unknown".to_owned(),
            },
            None => "Unknown".to_owned(),
        },
        Platform::Other => "Unknown".to_owned(),
    }
}

/// The package manager of a system id.
pub open spec fn pkg_manager_of(id: Seq<char>) -> Seq<char> {
    if id == "ubuntu"@ || id == "debian"@ || id == "linuxmint"@ || id == "pop"@ {
        "apt"@
    } else if id == "fedora"@ || id == "rhel"@ || id == "centos"@ || id == "rocky"@ || id
        == "alma"@ {
        "dnf"@
    } else if id == "arch"@ || id == "manjaro"@ || id == "endeavouros"@ {
        "pacman"@
    } else if id == "macos"@ {
        "brew"@
    } else {
        "unknown"@
    }
}

/// The package manager of the system with id `os_id`.
pub fn pkg_manager(os_id: &str) -> (r: &'static str)
    ensures
        r@ == pkg_manager_of(os_id@),
{
    if str_eq(os_id, "ubuntu") || str_eq(os_id, "debian") || str_eq(os_id, "linuxmint") || str_eq(
        os_id,
        "pop",
    ) {
        "apt"
    } else if str_eq(os_id, "fedora") || str_eq(os_id, "rhel") || str_eq(os_id, "centos")
        || str_eq(os_id, "rocky") || str_eq(os_id, "alma") {
        "dnf"
    } else if str_eq(os_id, "arch") || str_eq(os_id, "manjaro") || str_eq(os_id, "endeavouros") {
        "pacman"
    } else if str_eq(os_id, "macos") {
        "brew"
    } else {
        "unknown"
    }
}

/// The package list of a system id, relative to the configuration directory,
/// as the supported distributions share them: `ubuntu.txt` for Ubuntu,
/// Debian and Linux Mint, `fedora.txt` for Fedora, RHEL and CentOS,
/// `arch.txt` for Arch and Manjaro; `brew.txt` on macOS, `choco.txt` on
/// Windows, and `<id>.txt` for any other system.
pub open spec fn packages_file_of(id: Seq<char>) -> Seq<char> {
    if id == "ubuntu"@ || id == "debian"@ || id == "linuxmint"@ {
        "packages/ubuntu.txt"@
    } else if id == "fedora"@ || id == "rhel"@ || id == "centos"@ {
        "packages/fedora.txt"@
    } else if id == "arch"@ || id == "manjaro"@ {
        "packages/arch.txt"@
    } else if id == "macos"@ {
        "packages/brew.txt"@
    } else if id == "windows"@ {
        "packages/choco.txt"@
    } else {
        "packages/"@ + id + ".txt"@
    }
}

/// The package list of the system with id `os_id`.
pub fn packages_file(os_id: &str) -> (r: String)
    ensures
        r@ == packages_file_of(os_id@),
{
    if str_eq(os_id, "ubuntu") || str_eq(os_id, "debian") || str_eq(os_id, "linuxmint") {
        "packages/ubuntu.txt".to_owned()
    } else if str_eq(os_id, "fedora") || str_eq(os_id, "rhel") || str_eq(os_id, "centos") {
        "packages/fedora.txt".to_owned()
    } else if str_eq(os_id, "arch") || str_eq(os_id, "manjaro") {
        "packages/arch.txt".to_owned()
    } else if str_eq(os_id, "macos") {
        "packages/brew.txt".to_owned()
    } else if str_eq(os_id, "windows") {
        "packages/choco.txt".to_owned()
    } else {
        let mut r = "packages/".to_owned();
        push_str(&mut r, os_id);
        push_str(&mut r, ".txt");
        r
    }
}

/// The display server: an explicit session type `wayland` or `x11` decides;
/// otherwise a non-empty `WAYLAND_DISPLAY` means Wayland and a non-empty
/// `DISPLAY` means X11; otherwise unknown.
pub open spec fn display_server_of(
    session_type: Option<Seq<char>>,
    wayland_display: Option<Seq<char>>,
    display: Option<Seq<char>>,
) -> Seq<char> {
    if session_type == Some("wayland"@) {
        "wayland"@
    } else if session_type == Some("x11"@) {
        "x11"@
    } else if wayland_display is Some && wayland_display->0.len() > 0 {
        "wayland"@
    } else if display is Some && display->0.len() > 0 {
        "x11"@
    } else {
        "unknown"@
    }
}

/// Decides the display server from `XDG_SESSION_TYPE`, `WAYLAND_DISPLAY` and
/// `DISPLAY`.
pub fn detect_display_server(
    session_type: Option<&str>,
    wayland_display: Option<&str>,
    display: Option<&str>,
) -> (r: &'static str)
    ensures
        r@ == display_server_of(opt_view(session_type), opt_view(wayland_display), opt_view(display)),
{
    match session_type {
        Some(s) => {
            if str_eq(s, "wayland") {
                return "wayland";
            }
            if str_eq(s, "x11") {
                return "x11";
            }
        },
        None => {},
    }
    match wayland_display {
        Some(w) => {
            if !w.is_empty() {
                return "wayland";
            }
        },
        None => {},
    }
    match display {
        Some(d) => {
            if !d.is_empty() {
                return "x11";
            }
        },
        None => {},
    }
    "unknown"
}

} // verus!
