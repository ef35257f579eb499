//! Package lists: the `[core]` / `[extras]` list format and the package
//! manager commands that install what a list names.
use vstd::prelude::*;

use crate::text::{
    chars_eq, chars_of, join_strings, join_with, lines, lines_of, owned_strings, push_str, str_eq,
    string_of, trim, trim_chars, views,
};

verus! {

/// The section of a package list that a line belongs to.
#[derive(Clone, Copy, Debug, PartialEq, Eq, Structural)]
pub enum PackageSection {
    /// Lines before any section header (older lists have none).
    Legacy,
    /// Packages installed by default.
    Core,
    /// Packages installed only on request.
    Extras,
}

/// The packages named by `lines`, read from the section `section` on.
///
/// Each line is trimmed; blank lines and lines starting with `#` are skipped;
/// `[core]` and `[extras]` switch the section; a package in `[extras]` counts
/// only when `include_extras` holds.
pub open spec fn packages_of_lines(
    lines: Seq<Seq<char>>,
    section: PackageSection,
    include_extras: bool,
) -> Seq<Seq<char>>
    decreases lines.len(),
{
    if lines.len() == 0 {
        seq![]
    } else {
        let line = trim(lines[0]);
        let rest = lines.drop_first();
        if line.len() == 0 || line[0] == '#' {
            packages_of_lines(rest, section, include_extras)
        } else if line == seq!['[', 'c', 'o', 'r', 'e', ']'] {
            packages_of_lines(rest, PackageSection::Core, include_extras)
        } else if line == seq!['[', 'e', 'x', 't', 'r', 'a', 's', ']'] {
            packages_of_lines(rest, PackageSection::Extras, include_extras)
        } else if section == PackageSection::Extras && !include_extras {
            packages_of_lines(rest, section, include_extras)
        } else {
            seq![line] + packages_of_lines(rest, section, include_extras)
        }
    }
}

/// The packages that a package list names.
pub open spec fn packages_of(content: Seq<char>, include_extras: bool) -> Seq<Seq<char>> {
    packages_of_lines(lines(content), PackageSection::Legacy, include_extras)
}

/// Reads a package list: one package per line, `#` comments, and optional
/// `[core]` and `[extras]` sections; extras are kept only when
/// `include_extras` holds.
pub fn parse_packages(content: &str, include_extras: bool) -> (r: Vec<String>)
    ensures
        views(r@) == packages_of(content@, include_extras),
{
    let chars = chars_of(content);
    let ls = lines_of(&chars);
    let ghost all = ls@.map_values(|l: Vec<char>| l@);
    let core_header = chars_of("[core]");
    let extras_header = chars_of("[extras]");
    proof {
        reveal_strlit("[core]");
        reveal_strlit("[extras]");
        assert(core_header@ =~= seq!['[', 'c', 'o', 'r', 'e', ']']);
        assert(extras_header@ =~= seq!['[', 'e', 'x', 't', 'r', 'a', 's', ']']);
        assert(all.skip(0) =~= all);
    }
    let mut packages: Vec<String> = Vec::new();
    let mut section = PackageSection::Legacy;
    let mut i: usize = 0;
    while i < ls.len()
        invariant
            i <= ls@.len(),
            all == ls@.map_values(|l: Vec<char>| l@),
            all == lines(content@),
            core_header@ == seq!['[', 'c', 'o', 'r', 'e', ']'],
            extras_header@ == seq!['[', 'e', 'x', 't', 'r', 'a', 's', ']'],
            packages_of(content@, include_extras) == views(packages@) + packages_of_lines(
                all.skip(i as int),
                section,
                include_extras,
            ),
        decreases ls.len() - i,
    {
        let line = trim_chars(&ls[i]);
        let ghost rest = all.skip(i as int);
        assert(rest[0] == ls@[i as int]@);
        assert(rest.drop_first() =~= all.skip(i + 1));
        if line.len() == 0 || line[0] == '#' {
        } else if chars_eq(&line, &core_header) {
            section = PackageSection::Core;
        } else if chars_eq(&line, &extras_header) {
            section = PackageSection::Extras;
        } else if section == PackageSection::Extras && !include_extras {
        } else {
            let ghost old_packages = packages@;
            packages.push(string_of(&line));
            assert(views(packages@) =~= views(old_packages) + seq![line@]);
        }
        i = i + 1;
    }
    assert(all.skip(i as int) =~= Seq::<Seq<char>>::empty());
    assert(views(packages@) + Seq::<Seq<char>>::empty() =~= views(packages@));
    packages
}


/// A program to run with its arguments.
pub struct Invocation {
    pub program: String,
    pub args: Vec<String>,
}

/// An invocation for specifications: the program and the arguments.
pub open spec fn invocation_view(i: Invocation) -> (Seq<char>, Seq<Seq<char>>) {
    (i.program@, views(i.args@))
}

/// How to ask a package manager whether a package is installed.
pub enum InstalledCheck {
    /// Run this; the package is installed when it succeeds.
    Run(Invocation),
    /// Look the package up as a program on the search path.
    OnPath(String),
    /// The package manager is not known: nothing counts as installed.
    Unknown,
}

/// The query that tells whether `pkg` is installed: `dpkg -s` for apt,
/// `rpm -q` for dnf, `pacman -Q` for pacman, a program lookup for brew.
pub open spec fn installed_check_of(mgr: Seq<char>, pkg: Seq<char>) -> Option<(Seq<char>, Seq<Seq<char>>)> {
    if mgr == "apt"@ {
        Some(("dpkg"@, seq!["-s"@, pkg]))
    } else if mgr == "dnf"@ {
        Some(("rpm"@, seq!["-q"@, pkg]))
    } else if mgr == "pacman"@ {
        Some(("pacman"@, seq!["-Q"@, pkg]))
    } else {
        None
    }
}

fn invocation(program: &str, fixed: &[&str], rest: &Vec<String>) -> (r: Invocation)
    ensures
        r.program@ == program@,
        views(r.args@) == fixed@.map_values(|p: &str| p@) + views(rest@),
{
    let mut args = owned_strings(fixed);
    let ghost head = views(args@);
    let mut i: usize = 0;
    while i < rest.len()
        invariant
            i <= rest@.len(),
            views(args@) == head + views(rest@).take(i as int),
        decreases rest@.len() - i,
    {
        let ghost before = args@;
        args.push(rest[i].clone());
        assert(views(args@) =~= views(before).push(rest@[i as int]@));
        assert(views(rest@).take(i + 1) =~= views(rest@).take(i as int).push(rest@[i as int]@));
        i = i + 1;
    }
    assert(views(rest@).take(rest@.len() as int) =~= views(rest@));
    Invocation { program: program.to_owned(), args }
}

/// How the package manager `mgr` is asked whether `pkg` is installed.
pub fn installed_check(mgr: &str, pkg: &str) -> (r: InstalledCheck)
    ensures
        match r {
            InstalledCheck::Run(i) => installed_check_of(mgr@, pkg@) == Some(invocation_view(i)),
            InstalledCheck::OnPath(p) => mgr@ == "brew"@ && p@ == pkg@,
            InstalledCheck::Unknown => installed_check_of(mgr@, pkg@) is None && mgr@ != "brew"@,
        },
{
    let one = vec![pkg.to_owned()];
    assert(views(one@) =~= seq![pkg@]);
    if str_eq(mgr, "apt") {
        let i = invocation("dpkg", &["-s"], &one);
        assert(views(i.args@) =~= seq!["-s"@, pkg@]);
        InstalledCheck::Run(i)
    } else if str_eq(mgr, "dnf") {
        let i = invocation("rpm", &["-q"], &one);
        assert(views(i.args@) =~= seq!["-q"@, pkg@]);
        InstalledCheck::Run(i)
    } else if str_eq(mgr, "pacman") {
        let i = invocation("pacman", &["-Q"], &one);
        assert(views(i.args@) =~= seq!["-Q"@, pkg@]);
        InstalledCheck::Run(i)
    } else if str_eq(mgr, "brew") {
        InstalledCheck::OnPath(pkg.to_owned())
    } else {
        InstalledCheck::Unknown
    }
}

/// The commands that install `pkgs` with the package manager `mgr`, in
/// order; `None` for a manager that is not supported.
pub open spec fn install_commands_of(mgr: Seq<char>, pkgs: Seq<Seq<char>>) -> Option<
    Seq<(Seq<char>, Seq<Seq<char>>)>,
> {
    if mgr == "apt"@ {
        Some(
            seq![
                ("sudo"@, seq!["apt"@, "update"@, "-qq"@]),
                ("sudo"@, seq!["apt"@, "install"@, "-y"@, "-qq"@] + pkgs),
            ],
        )
    } else if mgr == "dnf"@ {
        Some(seq![("sudo"@, seq!["dnf"@, "install"@, "-y"@] + pkgs)])
    } else if mgr == "pacman"@ {
        Some(seq![("sudo"@, seq!["pacman"@, "-S"@, "--noconfirm"@, "--needed"@] + pkgs)])
    } else if mgr == "brew"@ {
        Some(seq![("brew"@, seq!["install"@] + pkgs)])
    } else {
        None
    }
}

/// The commands that install `pkgs` with the package manager `mgr` (see
/// `install_commands_of`).
pub fn install_commands(mgr: &str, pkgs: &Vec<String>) -> (r: Option<Vec<Invocation>>)
    ensures
        match r {
            Some(v) => install_commands_of(mgr@, views(pkgs@)) == Some(
                v@.map_values(|i: Invocation| invocation_view(i)),
            ),
            None => install_commands_of(mgr@, views(pkgs@)) is None,
        },
{
    let none: Vec<String> = Vec::new();
    let ghost p = views(pkgs@);
    if str_eq(mgr, "apt") {
        let a = invocation("sudo", &["apt", "update", "-qq"], &none);
        let b = invocation("sudo", &["apt", "install", "-y", "-qq"], pkgs);
        assert(views(a.args@) =~= seq!["apt"@, "update"@, "-qq"@]);
        assert(views(b.args@) =~= seq!["apt"@, "install"@, "-y"@, "-qq"@] + p);
        let v = vec![a, b];
        assert(v@.map_values(|i: Invocation| invocation_view(i)) =~= install_commands_of(mgr@, p)->0);
        Some(v)
    } else if str_eq(mgr, "dnf") {
        let a = invocation("sudo", &["dnf", "install", "-y"], pkgs);
        assert(views(a.args@) =~= seq!["dnf"@, "install"@, "-y"@] + p);
        let v = vec![a];
        assert(v@.map_values(|i: Invocation| invocation_view(i)) =~= install_commands_of(mgr@, p)->0);
        Some(v)
    } else if str_eq(mgr, "pacman") {
        let a = invocation("sudo", &["pacman", "-S", "--noconfirm", "--needed"], pkgs);
        assert(views(a.args@) =~= seq!["pacman"@, "-S"@, "--noconfirm"@, "--needed"@] + p);
        let v = vec![a];
        assert(v@.map_values(|i: Invocation| invocation_view(i)) =~= install_commands_of(mgr@, p)->0);
        Some(v)
    } else if str_eq(mgr, "brew") {
        let a = invocation("brew", &["install"], pkgs);
        assert(views(a.args@) =~= seq!["install"@] + p);
        let v = vec![a];
        assert(v@.map_values(|i: Invocation| invocation_view(i)) =~= install_commands_of(mgr@, p)->0);
        Some(v)
    } else {
        None
    }
}

/// The packages of `wanted` that are not installed, in order; `installed`
/// says of each whether it is.
pub fn missing_packages(wanted: &Vec<String>, installed: &Vec<bool>) -> (r: Vec<String>)
    requires
        installed@.len() == wanted@.len(),
    ensures
        views(r@) == views(wanted@).zip_with(installed@).filter(|p: (Seq<char>, bool)| !p.1).map_values(
            |p: (Seq<char>, bool)| p.0,
        ),
{
    let ghost z = views(wanted@).zip_with(installed@);
    let ghost pred = |p: (Seq<char>, bool)| !p.1;
    let mut r: Vec<String> = Vec::new();
    let mut i: usize = 0;
    assert(z.take(0) =~= Seq::<(Seq<char>, bool)>::empty());
    while i < wanted.len()
        invariant
            i <= wanted@.len(),
            installed@.len() == wanted@.len(),
            z == views(wanted@).zip_with(installed@),
            pred == (|p: (Seq<char>, bool)| !p.1),
            views(r@) == z.take(i as int).filter(pred).map_values(|p: (Seq<char>, bool)| p.0),
        decreases wanted@.len() - i,
    {
        proof {
            reveal(Seq::filter);
            assert(z.take(i + 1).drop_last() =~= z.take(i as int));
            assert(z[i as int] == (wanted@[i as int]@, installed@[i as int]));
        }
        if !installed[i] {
            let ghost before = r@;
            r.push(wanted[i].clone());
            assert(views(r@) =~= views(before).push(wanted@[i as int]@));
            assert(z.take(i + 1).filter(pred) == z.take(i as int).filter(pred).push(z[i as int]));
            assert(z.take(i + 1).filter(pred).map_values(|p: (Seq<char>, bool)| p.0) =~= z.take(
                i as int,
            ).filter(pred).map_values(|p: (Seq<char>, bool)| p.0).push(wanted@[i as int]@));
        }
        i = i + 1;
    }
    assert(z.take(wanted@.len() as int) =~= z);
    r
}

/// The line printed before new packages are installed: the sections read
/// and the packages, comma-separated.
pub open spec fn new_packages_line(pkgs: Seq<Seq<char>>, include_extras: bool) -> Seq<char> {
    "  📥 新增包 ("@ + (if include_extras {
        "core + extras"@
    } else {
        "core"@
    }) + "): "@ + join_with(pkgs, ", "@) + "\n"@
}

/// The line printed before new packages are installed.
pub fn new_packages_message(pkgs: &Vec<String>, include_extras: bool) -> (r: String)
    ensures
        r@ == new_packages_line(views(pkgs@), include_extras),
{
    let mut out = "  📥 新增包 (".to_owned();
    if include_extras {
        push_str(&mut out, "core + extras");
    } else {
        push_str(&mut out, "core");
    }
    push_str(&mut out, "): ");
    let j = join_strings(pkgs, ", ");
    push_str(&mut out, j.as_str());
    push_str(&mut out, "\n");
    out
}


/// The package list written for a system that has no list of its own.
pub open spec fn generic_package_list_text() -> Seq<char> {
    "[core]\n# Git for plugin and repo operations\ngit\n# curl for downloads and installer scripts\ncurl\n# zsh as the default managed shell\nzsh\n# unzip for Nerd Font archives\nunzip\n# fontconfig provides fc-list and fc-cache\nfontconfig\n\n[extras]\n# jq for JSON filtering in scripts\njq\n# fzf for fuzzy search and pickers\nfzf\n# wget as an additional download tool\nwget\n# tree for directory tree display\ntree\n# htop for interactive process monitoring\nhtop\n# ripgrep for fast text search\nripgrep\n# bat for syntax-highlighted file viewing\nbat\n# tmux for terminal multiplexing\ntmux\n"@
}

/// The package list written for a system that has no list of its own: the
/// core tools the setup needs, and a few extras.
pub fn generic_package_list() -> (r: &'static str)
    ensures
        r@ == generic_package_list_text(),
{
    "[core]\n# Git for plugin and repo operations\ngit\n# curl for downloads and installer scripts\ncurl\n# zsh as the default managed shell\nzsh\n# unzip for Nerd Font archives\nunzip\n# fontconfig provides fc-list and fc-cache\nfontconfig\n\n[extras]\n# jq for JSON filtering in scripts\njq\n# fzf for fuzzy search and pickers\nfzf\n# wget as an additional download tool\nwget\n# tree for directory tree display\ntree\n# htop for interactive process monitoring\nhtop\n# ripgrep for fast text search\nripgrep\n# bat for syntax-highlighted file viewing\nbat\n# tmux for terminal multiplexing\ntmux\n"
}

} // verus!
