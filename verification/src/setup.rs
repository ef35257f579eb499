//! Setting up the shell and its tools: zsh, its plugins, the default shell,
//! fzf, starship and the Nerd Font, as the commands that do each step.
use vstd::prelude::*;

use crate::packages::{invocation_view, Invocation};
use crate::paths::{expand_home, expand_home_with, join, path_join};
use crate::text::{contains, owned_strings, str_contains, str_eq, views};

verus! {

/// Where zsh plugins are kept.
pub open spec fn plugin_dir_of(home: Option<Seq<char>>) -> Seq<char> {
    expand_home("~/.zsh/plugins"@, home)
}

/// Where zsh plugins are kept: `~/.zsh/plugins`, with `~` expanded to `home`.
pub fn plugin_dir(home: Option<&str>) -> (r: String)
    ensures
        r@ == plugin_dir_of(crate::config::opt_view(home)),
{
    expand_home_with("~/.zsh/plugins", home)
}

fn invoke(program: &str, fixed: &[&str]) -> (r: Invocation)
    ensures
        r.program@ == program@,
        views(r.args@) == fixed@.map_values(|p: &str| p@),
{
    Invocation { program: program.to_owned(), args: owned_strings(fixed) }
}

/// The command that installs zsh with the package manager `mgr`; none for
/// a manager that is not supported.
pub open spec fn zsh_install_of(mgr: Seq<char>) -> Option<(Seq<char>, Seq<Seq<char>>)> {
    if mgr == "apt"@ {
        Some(("sudo"@, seq!["apt"@, "install"@, "-y"@, "-qq"@, "zsh"@]))
    } else if mgr == "dnf"@ {
        Some(("sudo"@, seq!["dnf"@, "install"@, "-y"@, "zsh"@]))
    } else if mgr == "pacman"@ {
        Some(("sudo"@, seq!["pacman"@, "-S"@, "--noconfirm"@, "zsh"@]))
    } else if mgr == "brew"@ {
        Some(("brew"@, seq!["install"@, "zsh"@]))
    } else {
        None
    }
}

/// The command that installs zsh with the package manager `mgr` (see
/// `zsh_install_of`).
pub fn zsh_install_command(mgr: &str) -> (r: Option<Invocation>)
    ensures
        match r {
            Some(i) => zsh_install_of(mgr@) == Some(invocation_view(i)),
            None => zsh_install_of(mgr@) is None,
        },
{
    if str_eq(mgr, "apt") {
        let i = invoke("sudo", &["apt", "install", "-y", "-qq", "zsh"]);
        assert(views(i.args@) =~= seq!["apt"@, "install"@, "-y"@, "-qq"@, "zsh"@]);
        Some(i)
    } else if str_eq(mgr, "dnf") {
        let i = invoke("sudo", &["dnf", "install", "-y", "zsh"]);
        assert(views(i.args@) =~= seq!["dnf"@, "install"@, "-y"@, "zsh"@]);
        Some(i)
    } else if str_eq(mgr, "pacman") {
        let i = invoke("sudo", &["pacman", "-S", "--noconfirm", "zsh"]);
        assert(views(i.args@) =~= seq!["pacman"@, "-S"@, "--noconfirm"@, "zsh"@]);
        Some(i)
    } else if str_eq(mgr, "brew") {
        let i = invoke("brew", &["install", "zsh"]);
        assert(views(i.args@) =~= seq!["install"@, "zsh"@]);
        Some(i)
    } else {
        None
    }
}

/// The shell to make the default: the zsh found on the search path, or
/// `/usr/bin/zsh`.
pub open spec fn zsh_path_of(found: Option<Seq<char>>) -> Seq<char> {
    match found {
        Some(p) => p,
        None => "/usr/bin/zsh"@,
    }
}

/// `chsh -s` to zsh, unless `SHELL` already names it.
pub open spec fn chsh_of(shell_env: Option<Seq<char>>, found: Option<Seq<char>>) -> Option<(Seq<char>, Seq<Seq<char>>)> {
    if shell_env == Some(zsh_path_of(found)) {
        None
    } else {
        Some(("chsh"@, seq!["-s"@, zsh_path_of(found)]))
    }
}

/// The command that makes zsh the default shell, or none when `SHELL`
/// already names it (see `chsh_of`).
pub fn default_shell_command(shell_env: Option<&str>, found: Option<&str>) -> (r: Option<Invocation>)
    ensures
        match r {
            Some(i) => chsh_of(crate::config::opt_view(shell_env), crate::config::opt_view(found)) == Some(
                invocation_view(i),
            ),
            None => chsh_of(crate::config::opt_view(shell_env), crate::config::opt_view(found)) is None,
        },
{
    let zsh: &str = match found {
        Some(p) => p,
        None => "/usr/bin/zsh",
    };
    let same = match shell_env {
        Some(s) => str_eq(s, zsh),
        None => false,
    };
    if same {
        None
    } else {
        let mut i = invoke("chsh", &["-s"]);
        let ghost a0 = i.args@;
        i.args.push(zsh.to_owned());
        assert(views(i.args@) =~= views(a0).push(zsh@));
        assert(views(i.args@) =~= seq!["-s"@, zsh@]);
        Some(i)
    }
}

/// What is done for a plugin: `git pull --quiet` inside it when it is there
/// and plugins are being updated, nothing when it is there otherwise, and a
/// shallow clone of its URL when it is missing.
pub open spec fn plugin_step_of(url: Seq<char>, path: Seq<char>, exists: bool, update: bool) -> Option<
    (Seq<char>, Seq<Seq<char>>),
> {
    if exists {
        if update {
            Some(("git"@, seq!["pull"@, "--quiet"@]))
        } else {
            None
        }
    } else {
        Some(("git"@, seq!["clone"@, "--depth"@, "1"@, url, path]))
    }
}

/// The git command for a plugin at `path` (see `plugin_step_of`); a pull
/// runs inside `path`.
pub fn plugin_step(url: &str, path: &str, exists: bool, update: bool) -> (r: Option<Invocation>)
    ensures
        match r {
            Some(i) => plugin_step_of(url@, path@, exists, update) == Some(invocation_view(i)),
            None => plugin_step_of(url@, path@, exists, update) is None,
        },
{
    if exists {
        if update {
            let i = invoke("git", &["pull", "--quiet"]);
            assert(views(i.args@) =~= seq!["pull"@, "--quiet"@]);
            Some(i)
        } else {
            None
        }
    } else {
        let mut i = invoke("git", &["clone", "--depth", "1"]);
        let ghost a0 = i.args@;
        i.args.push(url.to_owned());
        let ghost a1 = i.args@;
        i.args.push(path.to_owned());
        assert(views(a1) =~= views(a0).push(url@));
        assert(views(i.args@) =~= views(a1).push(path@));
        assert(views(i.args@) =~= seq!["clone"@, "--depth"@, "1"@, url@, path@]);
        Some(i)
    }
}

/// The Nerd Font is installed when `fc-list` names JetBrains Mono.
pub fn font_installed(fc_list_output: &str) -> (r: bool)
    ensures
        r == contains(fc_list_output@, "JetBrains Mono"@),
{
    str_contains(fc_list_output, "JetBrains Mono")
}

/// The commands that install fzf into `~/.fzf`: a shallow clone of its
/// repository, then its install script.
pub open spec fn fzf_install_of(fzf_dir: Seq<char>) -> Seq<(Seq<char>, Seq<Seq<char>>)> {
    seq![
        ("git"@, seq!["clone"@, "--depth"@, "1"@, "https://github.com/junegunn/fzf.git"@, fzf_dir]),
        ("sh"@, seq![path_join(fzf_dir, "install"@), "--key-bindings"@, "--completion"@, "--no-update-rc"@]),
    ]
}

/// The commands that install fzf into `fzf_dir` (see `fzf_install_of`).
pub fn fzf_install_commands(fzf_dir: &str) -> (r: Vec<Invocation>)
    ensures
        r@.map_values(|i: Invocation| invocation_view(i)) == fzf_install_of(fzf_dir@),
{
    let mut a = invoke("git", &["clone", "--depth", "1", "https://github.com/junegunn/fzf.git"]);
    let ghost a0 = a.args@;
    a.args.push(fzf_dir.to_owned());
    assert(views(a.args@) =~= views(a0).push(fzf_dir@));
    let mut b = Invocation { program: "sh".to_owned(), args: Vec::new() };
    b.args.push(join(fzf_dir, "install"));
    let rest = owned_strings(&["--key-bindings", "--completion", "--no-update-rc"]);
    let mut k: usize = 0;
    while k < rest.len()
        invariant
            b.program@ == "sh"@,
            k <= rest@.len(),
            views(rest@) == seq!["--key-bindings"@, "--completion"@, "--no-update-rc"@],
            views(b.args@) == seq![path_join(fzf_dir@, "install"@)] + views(rest@).take(k as int),
        decreases rest@.len() - k,
    {
        let ghost before = b.args@;
        b.args.push(rest[k].clone());
        assert(views(b.args@) =~= views(before).push(rest@[k as int]@));
        assert(views(rest@).take(k + 1) =~= views(rest@).take(k as int).push(rest@[k as int]@));
        k = k + 1;
    }
    assert(views(rest@).take(3) =~= views(rest@));
    assert(views(a.args@) =~= seq!["clone"@, "--depth"@, "1"@, "https://github.com/junegunn/fzf.git"@, fzf_dir@]);
    assert(views(b.args@) =~= seq![path_join(fzf_dir@, "install"@), "--key-bindings"@, "--completion"@, "--no-update-rc"@]);
    let v = vec![a, b];
    assert(v@.map_values(|i: Invocation| invocation_view(i)) =~= fzf_install_of(fzf_dir@));
    v
}

/// The command that installs starship with its install script.
pub open spec fn starship_install_of() -> (Seq<char>, Seq<Seq<char>>) {
    ("sh"@, seq!["-c"@, "curl -sS https://starship.rs/install.sh | sh -s -- -y"@])
}

/// The command that installs starship.
pub fn starship_install_command() -> (r: Invocation)
    ensures
        invocation_view(r) == starship_install_of(),
{
    let i = invoke("sh", &["-c", "curl -sS https://starship.rs/install.sh | sh -s -- -y"]);
    assert(views(i.args@) =~= seq!["-c"@, "curl -sS https://starship.rs/install.sh | sh -s -- -y"@]);
    i
}

/// The commands that install the JetBrains Mono Nerd Font into `font_dir`
/// through the archive file `archive`: download, unpack, refresh the font
/// cache. The archive is removed between the last two.
pub open spec fn font_install_of(archive: Seq<char>, font_dir: Seq<char>) -> Seq<(Seq<char>, Seq<Seq<char>>)> {
    seq![
        (
            "curl"@,
            seq![
                "-fLo"@,
                archive,
                "https://github.com/ryanoasis/nerd-fonts/releases/download/v3.1.1/JetBrainsMono.zip"@,
            ],
        ),
        ("unzip"@, seq!["-qo"@, archive, "-d"@, font_dir]),
        ("fc-cache"@, seq!["-fv"@]),
    ]
}

/// The commands that install the Nerd Font (see `font_install_of`).
pub fn font_install_commands(archive: &str, font_dir: &str) -> (r: Vec<Invocation>)
    ensures
        r@.map_values(|i: Invocation| invocation_view(i)) == font_install_of(archive@, font_dir@),
{
    let mut a = invoke("curl", &["-fLo"]);
    let ghost a0 = a.args@;
    a.args.push(archive.to_owned());
    let ghost a1 = a.args@;
    a.args.push(
        "https://github.com/ryanoasis/nerd-fonts/releases/download/v3.1.1/JetBrainsMono.zip".to_owned(),
    );
    assert(views(a1) =~= views(a0).push(archive@));
    assert(views(a.args@) =~= views(a1).push(
        "https://github.com/ryanoasis/nerd-fonts/releases/download/v3.1.1/JetBrainsMono.zip"@,
    ));
    let mut b = invoke("unzip", &["-qo"]);
    let ghost b0 = b.args@;
    b.args.push(archive.to_owned());
    let ghost b1 = b.args@;
    b.args.push("-d".to_owned());
    let ghost b2 = b.args@;
    b.args.push(font_dir.to_owned());
    assert(views(b1) =~= views(b0).push(archive@));
    assert(views(b2) =~= views(b1).push("-d"@));
    assert(views(b.args@) =~= views(b2).push(font_dir@));
    let c = invoke("fc-cache", &["-fv"]);
    assert(views(a.args@) =~= seq![
        "-fLo"@,
        archive@,
        "https://github.com/ryanoasis/nerd-fonts/releases/download/v3.1.1/JetBrainsMono.zip"@,
    ]);
    assert(views(b.args@) =~= seq!["-qo"@, archive@, "-d"@, font_dir@]);
    assert(views(c.args@) =~= seq!["-fv"@]);
    let v = vec![a, b, c];
    assert(v@.map_values(|i: Invocation| invocation_view(i)) =~= font_install_of(archive@, font_dir@));
    v
}


/// What is printed for a plugin: installing skips one that is there,
/// updating reports it updated, and a missing one is reported installed.
pub open spec fn plugin_report_of(name: Seq<char>, exists: bool, update: bool) -> Seq<char> {
    if exists {
        if update {
            "  ✅ "@ + name + " 已更新\n"@
        } else {
            "  ⏭️  "@ + name + " 已存在\n"@
        }
    } else if update {
        "  ✅ "@ + name + " 已安装\n"@
    } else {
        "  ✅ "@ + name + "\n"@
    }
}

/// The line printed for a plugin (see `plugin_report_of`).
pub fn plugin_report(name: &str, exists: bool, update: bool) -> (r: String)
    ensures
        r@ == plugin_report_of(name@, exists, update),
{
    let mut r = if exists && !update {
        "  ⏭️  ".to_owned()
    } else {
        "  ✅ ".to_owned()
    };
    crate::text::push_str(&mut r, name);
    if exists {
        if update {
            crate::text::push_str(&mut r, " 已更新\n");
        } else {
            crate::text::push_str(&mut r, " 已存在\n");
        }
    } else if update {
        crate::text::push_str(&mut r, " 已安装\n");
    } else {
        crate::text::push_str(&mut r, "\n");
    }
    r
}

/// `ax config init` goes ahead unless the configuration directory already
/// exists and `--force` was not given.
pub fn init_proceeds(dir_exists: bool, force: bool) -> (r: bool)
    ensures
        r == (!dir_exists || force),
{
    !dir_exists || force
}

/// What `ax config init` does with one of its files.
#[derive(Clone, Copy, Debug, PartialEq, Eq, Structural)]
pub enum InitFile {
    /// Write it.
    Write,
    /// Leave the existing file as it is.
    Keep,
}

/// A file that `init` writes is written when it does not exist yet, or when
/// `overwrite` allows replacing it (`--force` for the template files; the
/// package list is never replaced).
pub fn init_file_action(present: bool, overwrite: bool) -> (r: InitFile)
    ensures
        r == (if !present || overwrite {
            InitFile::Write
        } else {
            InitFile::Keep
        }),
{
    if !present || overwrite {
        InitFile::Write
    } else {
        InitFile::Keep
    }
}

/// The directories `init` creates in the configuration directory.
pub open spec fn init_dirs_spec() -> Seq<Seq<char>> {
    seq!["config.d"@, "bash"@, "wezterm"@, "packages"@, "git"@]
}

/// The directories `init` creates in the configuration directory.
pub fn init_dirs() -> (r: Vec<&'static str>)
    ensures
        r@.map_values(|p: &str| p@) == init_dirs_spec(),
{
    let r = vec!["config.d", "bash", "wezterm", "packages", "git"];
    assert(r@.map_values(|p: &str| p@) =~= init_dirs_spec());
    r
}

/// The template files `init` writes, relative to the configuration directory.
pub open spec fn init_templates_spec() -> Seq<Seq<char>> {
    seq!["config.yaml"@, "bash/.bashrc"@, "bash/.zshrc"@, "wezterm/wezterm.lua"@]
}

/// The template files `init` writes, relative to the configuration directory.
pub fn init_templates() -> (r: Vec<&'static str>)
    ensures
        r@.map_values(|p: &str| p@) == init_templates_spec(),
{
    let r = vec!["config.yaml", "bash/.bashrc", "bash/.zshrc", "wezterm/wezterm.lua"];
    assert(r@.map_values(|p: &str| p@) =~= init_templates_spec());
    r
}

} // verus!
