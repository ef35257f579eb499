//! Shell completion: where completion scripts are installed, and how the
//! generated zsh script is adjusted to prompt for free-form values.
use vstd::prelude::*;

use crate::paths::{join, path_join};
use crate::text::{replace, replace_all, str_eq};

verus! {

/// The views of a list of replacement pairs.
pub open spec fn pair_views(v: Seq<(&str, &str)>) -> Seq<(Seq<char>, Seq<char>)> {
    v.map_values(|p: (&str, &str)| (p.0@, p.1@))
}

/// The adjustments made to the generated zsh script: a value argument that
/// zsh would complete as a file (`_default`) is made to show a prompt
/// (`_message`) instead, and the shell argument of `completion` offers the
/// shell names.
pub open spec fn zsh_replacements() -> Seq<(Seq<char>, Seq<char>)> {
    seq![
        (":name -- 变量名:_default"@, ":name -- 变量名:_message -r \"变量名\""@),
        (":value -- 变量值:_default"@, ":value -- 变量值:_message -r \"变量值\""@),
        ("-d+[变量描述]:DESC:_default"@, "-d+[变量描述]:DESC:_message -r \"变量描述\""@),
        ("--desc=[变量描述]:DESC:_default"@, "--desc=[变量描述]:DESC:_message -r \"变量描述\""@),
        ("-t+[标签，使用逗号分隔]:TAGS:_default"@, "-t+[标签，使用逗号分隔]:TAGS:_message -r \"标签，使用逗号分隔\""@),
        ("--tags=[标签，使用逗号分隔]:TAGS:_default"@, "--tags=[标签，使用逗号分隔]:TAGS:_message -r \"标签，使用逗号分隔\""@),
        (":name -- 仅显示指定变量:_default"@, ":name -- 仅显示指定变量:_message -r \"变量名\""@),
        ("-t+[按标签筛选]:TAG:_default"@, "-t+[按标签筛选]:TAG:_message -r \"标签\""@),
        ("--tag=[按标签筛选]:TAG:_default"@, "--tag=[按标签筛选]:TAG:_message -r \"标签\""@),
        ("(-a --all)-t+[暂停指定标签下的全部变量]:TAG:_default"@, "(-a --all)-t+[暂停指定标签下的全部变量]:TAG:_message -r \"标签\""@),
        ("(-a --all)--tag=[暂停指定标签下的全部变量]:TAG:_default"@, "(-a --all)--tag=[暂停指定标签下的全部变量]:TAG:_message -r \"标签\""@),
        ("(-a --all)-t+[恢复指定标签下的全部变量]:TAG:_default"@, "(-a --all)-t+[恢复指定标签下的全部变量]:TAG:_message -r \"标签\""@),
        ("(-a --all)--tag=[恢复指定标签下的全部变量]:TAG:_default"@, "(-a --all)--tag=[恢复指定标签下的全部变量]:TAG:_message -r \"标签\""@),
        ("*::names -- 一个或多个变量名:_default"@, "*::names -- 一个或多个变量名:_message -r \"变量名\""@),
        ("-v+[新值]:VALUE:_default"@, "-v+[新值]:VALUE:_message -r \"新值\""@),
        ("--value=[新值]:VALUE:_default"@, "--value=[新值]:VALUE:_message -r \"新值\""@),
        ("-d+[新描述]:DESC:_default"@, "-d+[新描述]:DESC:_message -r \"新描述\""@),
        ("--desc=[新描述]:DESC:_default"@, "--desc=[新描述]:DESC:_message -r \"新描述\""@),
        ("-t+[新标签，使用逗号分隔]:TAGS:_default"@, "-t+[新标签，使用逗号分隔]:TAGS:_message -r \"新标签，使用逗号分隔\""@),
        ("--tags=[新标签，使用逗号分隔]:TAGS:_default"@, "--tags=[新标签，使用逗号分隔]:TAGS:_message -r \"新标签，使用逗号分隔\""@),
        (":name -- 命令名称:_default"@, ":name -- 命令名称:_message -r \"命令名称\""@),
        (":cmd -- 要执行的命令内容:_default"@, ":cmd -- 要执行的命令内容:_message -r \"命令内容\""@),
        ("::desc -- 命令描述:_default"@, "::desc -- 命令描述:_message -r \"命令描述\""@),
        ("::name -- 命令名称，留空则进入交互选择:_default"@, "::name -- 命令名称，留空则进入交互选择:_message -r \"命令名称\""@),
        ("::addr -- 代理地址，留空则使用配置中的地址:_default"@, "::addr -- 代理地址，留空则使用配置中的地址:_message -r \"代理地址\""@),
        (":shell -- 目标 shell：bash、zsh、powershell:_default"@, ":shell -- 目标 shell：bash、zsh、powershell:(bash zsh powershell)"@),
        (":name -- Variable name:_default"@, ":name -- Variable name:_message -r \"Variable name\""@),
        (":value -- Variable value:_default"@, ":value -- Variable value:_message -r \"Variable value\""@),
        ("-d+[Variable description]:DESC:_default"@, "-d+[Variable description]:DESC:_message -r \"Variable description\""@),
        ("--desc=[Variable description]:DESC:_default"@, "--desc=[Variable description]:DESC:_message -r \"Variable description\""@),
        ("-t+[Comma-separated tags]:TAGS:_default"@, "-t+[Comma-separated tags]:TAGS:_message -r \"Comma-separated tags\""@),
        ("--tags=[Comma-separated tags]:TAGS:_default"@, "--tags=[Comma-separated tags]:TAGS:_message -r \"Comma-separated tags\""@),
        (":name -- Show only the specified variable:_default"@, ":name -- Show only the specified variable:_message -r \"Variable name\""@),
        ("-t+[Filter by tag]:TAG:_default"@, "-t+[Filter by tag]:TAG:_message -r \"Tag\""@),
        ("--tag=[Filter by tag]:TAG:_default"@, "--tag=[Filter by tag]:TAG:_message -r \"Tag\""@),
        ("(-a --all)-t+[Pause all variables with the tag]:TAG:_default"@, "(-a --all)-t+[Pause all variables with the tag]:TAG:_message -r \"Tag\""@),
        ("(-a --all)--tag=[Pause all variables with the tag]:TAG:_default"@, "(-a --all)--tag=[Pause all variables with the tag]:TAG:_message -r \"Tag\""@),
        ("(-a --all)-t+[Resume all variables with the tag]:TAG:_default"@, "(-a --all)-t+[Resume all variables with the tag]:TAG:_message -r \"Tag\""@),
        ("(-a --all)--tag=[Resume all variables with the tag]:TAG:_default"@, "(-a --all)--tag=[Resume all variables with the tag]:TAG:_message -r \"Tag\""@),
        ("*::names -- One or more variable names:_default"@, "*::names -- One or more variable names:_message -r \"Variable name\""@),
        ("-v+[New value]:VALUE:_default"@, "-v+[New value]:VALUE:_message -r \"New value\""@),
        ("--value=[New value]:VALUE:_default"@, "--value=[New value]:VALUE:_message -r \"New value\""@),
        ("-d+[New description]:DESC:_default"@, "-d+[New description]:DESC:_message -r \"New description\""@),
        ("--desc=[New description]:DESC:_default"@, "--desc=[New description]:DESC:_message -r \"New description\""@),
        ("-t+[New comma-separated tags]:TAGS:_default"@, "-t+[New comma-separated tags]:TAGS:_message -r \"New comma-separated tags\""@),
        ("--tags=[New comma-separated tags]:TAGS:_default"@, "--tags=[New comma-separated tags]:TAGS:_message -r \"New comma-separated tags\""@),
        (":name -- Command name:_default"@, ":name -- Command name:_message -r \"Command name\""@),
        (":cmd -- Command body to execute:_default"@, ":cmd -- Command body to execute:_message -r \"Command body\""@),
        ("::desc -- Command description:_default"@, "::desc -- Command description:_message -r \"Command description\""@),
        ("::name -- Command name; omit to use interactive selection:_default"@, "::name -- Command name; omit to use interactive selection:_message -r \"Command name\""@),
        ("::addr -- Proxy address; defaults to configured value:_default"@, "::addr -- Proxy address; defaults to configured value:_message -r \"Proxy address\""@),
        (":shell -- Target shell: bash, zsh, powershell:_default"@, ":shell -- Target shell: bash, zsh, powershell:(bash zsh powershell)"@)
    ]
}

/// Applies the replacements in order, each to the result of the one before.
pub open spec fn apply_replacements(s: Seq<char>, table: Seq<(Seq<char>, Seq<char>)>) -> Seq<char>
    decreases table.len(),
{
    if table.len() == 0 {
        s
    } else {
        apply_replacements(replace(s, table[0].0, table[0].1), table.drop_first())
    }
}

/// The adjustments made to the generated zsh script (see `zsh_replacements`).
#[verifier::rlimit(50)]
pub fn zsh_replacement_table() -> (r: Vec<(&'static str, &'static str)>)
    ensures
        pair_views(r@) == zsh_replacements(),
{
    let mut t: Vec<(&'static str, &'static str)> = Vec::new();
    t.push((":name -- 变量名:_default", ":name -- 变量名:_message -r \"变量名\""));
    t.push((":value -- 变量值:_default", ":value -- 变量值:_message -r \"变量值\""));
    t.push(("-d+[变量描述]:DESC:_default", "-d+[变量描述]:DESC:_message -r \"变量描述\""));
    t.push(("--desc=[变量描述]:DESC:_default", "--desc=[变量描述]:DESC:_message -r \"变量描述\""));
    t.push(("-t+[标签，使用逗号分隔]:TAGS:_default", "-t+[标签，使用逗号分隔]:TAGS:_message -r \"标签，使用逗号分隔\""));
    t.push(("--tags=[标签，使用逗号分隔]:TAGS:_default", "--tags=[标签，使用逗号分隔]:TAGS:_message -r \"标签，使用逗号分隔\""));
    t.push((":name -- 仅显示指定变量:_default", ":name -- 仅显示指定变量:_message -r \"变量名\""));
    t.push(("-t+[按标签筛选]:TAG:_default", "-t+[按标签筛选]:TAG:_message -r \"标签\""));
    t.push(("--tag=[按标签筛选]:TAG:_default", "--tag=[按标签筛选]:TAG:_message -r \"标签\""));
    t.push(("(-a --all)-t+[暂停指定标签下的全部变量]:TAG:_default", "(-a --all)-t+[暂停指定标签下的全部变量]:TAG:_message -r \"标签\""));
    t.push(("(-a --all)--tag=[暂停指定标签下的全部变量]:TAG:_default", "(-a --all)--tag=[暂停指定标签下的全部变量]:TAG:_message -r \"标签\""));
    t.push(("(-a --all)-t+[恢复指定标签下的全部变量]:TAG:_default", "(-a --all)-t+[恢复指定标签下的全部变量]:TAG:_message -r \"标签\""));
    t.push(("(-a --all)--tag=[恢复指定标签下的全部变量]:TAG:_default", "(-a --all)--tag=[恢复指定标签下的全部变量]:TAG:_message -r \"标签\""));
    t.push(("*::names -- 一个或多个变量名:_default", "*::names -- 一个或多个变量名:_message -r \"变量名\""));
    t.push(("-v+[新值]:VALUE:_default", "-v+[新值]:VALUE:_message -r \"新值\""));
    t.push(("--value=[新值]:VALUE:_default", "--value=[新值]:VALUE:_message -r \"新值\""));
    t.push(("-d+[新描述]:DESC:_default", "-d+[新描述]:DESC:_message -r \"新描述\""));
    t.push(("--desc=[新描述]:DESC:_default", "--desc=[新描述]:DESC:_message -r \"新描述\""));
    t.push(("-t+[新标签，使用逗号分隔]:TAGS:_default", "-t+[新标签，使用逗号分隔]:TAGS:_message -r \"新标签，使用逗号分隔\""));
    t.push(("--tags=[新标签，使用逗号分隔]:TAGS:_default", "--tags=[新标签，使用逗号分隔]:TAGS:_message -r \"新标签，使用逗号分隔\""));
    t.push((":name -- 命令名称:_default", ":name -- 命令名称:_message -r \"命令名称\""));
    t.push((":cmd -- 要执行的命令内容:_default", ":cmd -- 要执行的命令内容:_message -r \"命令内容\""));
    t.push(("::desc -- 命令描述:_default", "::desc -- 命令描述:_message -r \"命令描述\""));
    t.push(("::name -- 命令名称，留空则进入交互选择:_default", "::name -- 命令名称，留空则进入交互选择:_message -r \"命令名称\""));
    t.push(("::addr -- 代理地址，留空则使用配置中的地址:_default", "::addr -- 代理地址，留空则使用配置中的地址:_message -r \"代理地址\""));
    t.push((":shell -- 目标 shell：bash、zsh、powershell:_default", ":shell -- 目标 shell：bash、zsh、powershell:(bash zsh powershell)"));
    t.push((":name -- Variable name:_default", ":name -- Variable name:_message -r \"Variable name\""));
    t.push((":value -- Variable value:_default", ":value -- Variable value:_message -r \"Variable value\""));
    t.push(("-d+[Variable description]:DESC:_default", "-d+[Variable description]:DESC:_message -r \"Variable description\""));
    t.push(("--desc=[Variable description]:DESC:_default", "--desc=[Variable description]:DESC:_message -r \"Variable description\""));
    t.push(("-t+[Comma-separated tags]:TAGS:_default", "-t+[Comma-separated tags]:TAGS:_message -r \"Comma-separated tags\""));
    t.push(("--tags=[Comma-separated tags]:TAGS:_default", "--tags=[Comma-separated tags]:TAGS:_message -r \"Comma-separated tags\""));
    t.push((":name -- Show only the specified variable:_default", ":name -- Show only the specified variable:_message -r \"Variable name\""));
    t.push(("-t+[Filter by tag]:TAG:_default", "-t+[Filter by tag]:TAG:_message -r \"Tag\""));
    t.push(("--tag=[Filter by tag]:TAG:_default", "--tag=[Filter by tag]:TAG:_message -r \"Tag\""));
    t.push(("(-a --all)-t+[Pause all variables with the tag]:TAG:_default", "(-a --all)-t+[Pause all variables with the tag]:TAG:_message -r \"Tag\""));
    t.push(("(-a --all)--tag=[Pause all variables with the tag]:TAG:_default", "(-a --all)--tag=[Pause all variables with the tag]:TAG:_message -r \"Tag\""));
    t.push(("(-a --all)-t+[Resume all variables with the tag]:TAG:_default", "(-a --all)-t+[Resume all variables with the tag]:TAG:_message -r \"Tag\""));
    t.push(("(-a --all)--tag=[Resume all variables with the tag]:TAG:_default", "(-a --all)--tag=[Resume all variables with the tag]:TAG:_message -r \"Tag\""));
    t.push(("*::names -- One or more variable names:_default", "*::names -- One or more variable names:_message -r \"Variable name\""));
    t.push(("-v+[New value]:VALUE:_default", "-v+[New value]:VALUE:_message -r \"New value\""));
    t.push(("--value=[New value]:VALUE:_default", "--value=[New value]:VALUE:_message -r \"New value\""));
    t.push(("-d+[New description]:DESC:_default", "-d+[New description]:DESC:_message -r \"New description\""));
    t.push(("--desc=[New description]:DESC:_default", "--desc=[New description]:DESC:_message -r \"New description\""));
    t.push(("-t+[New comma-separated tags]:TAGS:_default", "-t+[New comma-separated tags]:TAGS:_message -r \"New comma-separated tags\""));
    t.push(("--tags=[New comma-separated tags]:TAGS:_default", "--tags=[New comma-separated tags]:TAGS:_message -r \"New comma-separated tags\""));
    t.push((":name -- Command name:_default", ":name -- Command name:_message -r \"Command name\""));
    t.push((":cmd -- Command body to execute:_default", ":cmd -- Command body to execute:_message -r \"Command body\""));
    t.push(("::desc -- Command description:_default", "::desc -- Command description:_message -r \"Command description\""));
    t.push(("::name -- Command name; omit to use interactive selection:_default", "::name -- Command name; omit to use interactive selection:_message -r \"Command name\""));
    t.push(("::addr -- Proxy address; defaults to configured value:_default", "::addr -- Proxy address; defaults to configured value:_message -r \"Proxy address\""));
    t.push((":shell -- Target shell: bash, zsh, powershell:_default", ":shell -- Target shell: bash, zsh, powershell:(bash zsh powershell)"));
    assert(pair_views(t@) =~= zsh_replacements());
    t
}

/// Applies the replacements of `table` in order, each to the result of the
/// one before.
pub fn replace_each(s: &str, table: &Vec<(&'static str, &'static str)>) -> (r: String)
    ensures
        r@ == apply_replacements(s@, pair_views(table@)),
{
    let ghost all = pair_views(table@);
    let mut out = s.to_owned();
    let mut i: usize = 0;
    assert(all.skip(0) =~= all);
    while i < table.len()
        invariant
            i <= table@.len(),
            all == pair_views(table@),
            apply_replacements(s@, all) == apply_replacements(out@, all.skip(i as int)),
        decreases table.len() - i,
    {
        let ghost rest = all.skip(i as int);
        assert(rest[0] == (table@[i as int].0@, table@[i as int].1@));
        assert(rest.drop_first() =~= all.skip(i + 1));
        let (from, to) = table[i];
        out = replace_all(out.as_str(), from, to);
        i = i + 1;
    }
    assert(all.skip(i as int) =~= Seq::<(Seq<char>, Seq<char>)>::empty());
    out
}

/// The generated zsh completion script with the adjustments applied.
pub fn post_process_zsh_script(script: &str) -> (r: String)
    ensures
        r@ == apply_replacements(script@, zsh_replacements()),
{
    let table = zsh_replacement_table();
    replace_each(script, &table)
}

/// A shell name as `ax completion` takes it.
pub open spec fn is_powershell_name(shell: Seq<char>) -> bool {
    shell == "powershell"@ || shell == "pwsh"@ || shell == "p"@
}

/// The PowerShell profiles that completion is added to, in the documents
/// directory: Windows PowerShell's for `powershell` and `p`, and PowerShell
/// 7's for `powershell`, `pwsh` and `p`.
pub open spec fn profile_targets(documents_dir: Seq<char>, shell: Seq<char>) -> Seq<Seq<char>> {
    (if shell == "powershell"@ || shell == "p"@ {
        seq![path_join(path_join(documents_dir, "WindowsPowerShell"@), "Microsoft.PowerShell_profile.ps1"@)]
    } else {
        Seq::<Seq<char>>::empty()
    }) + (if is_powershell_name(shell) {
        seq![path_join(path_join(documents_dir, "PowerShell"@), "Microsoft.PowerShell_profile.ps1"@)]
    } else {
        Seq::<Seq<char>>::empty()
    })
}

/// The PowerShell profiles in `documents_dir` that completion for `shell`
/// is added to.
pub fn powershell_profile_targets_in(documents_dir: &str, shell: &str) -> (r: Vec<String>)
    ensures
        crate::text::views(r@) == profile_targets(documents_dir@, shell@),
{
    let mut targets: Vec<String> = Vec::new();
    if str_eq(shell, "powershell") || str_eq(shell, "p") {
        let d = join(documents_dir, "WindowsPowerShell");
        targets.push(join(d.as_str(), "Microsoft.PowerShell_profile.ps1"));
    }
    if str_eq(shell, "powershell") || str_eq(shell, "pwsh") || str_eq(shell, "p") {
        let d = join(documents_dir, "PowerShell");
        targets.push(join(d.as_str(), "Microsoft.PowerShell_profile.ps1"));
    }
    assert(crate::text::views(targets@) =~= profile_targets(documents_dir@, shell@));
    targets
}

/// The file a bash or zsh completion script is written to: `ax` for bash,
/// `_ax` for zsh.
pub open spec fn completion_file_name_of(shell: Seq<char>) -> Seq<char> {
    if shell == "bash"@ || shell == "b"@ {
        "ax"@
    } else {
        "_ax"@
    }
}

/// The file name of the completion script for `shell`.
pub fn completion_file_name(shell: &str) -> (r: &'static str)
    ensures
        r@ == completion_file_name_of(shell@),
{
    if str_eq(shell, "bash") || str_eq(shell, "b") {
        "ax"
    } else {
        "_ax"
    }
}

/// The name of a shell as messages write it.
pub open spec fn shell_display_name_of(shell: Seq<char>) -> Seq<char> {
    if shell == "bash"@ || shell == "b"@ {
        "bash"@
    } else if shell == "zsh"@ || shell == "z"@ {
        "zsh"@
    } else if is_powershell_name(shell) {
        "PowerShell"@
    } else {
        shell
    }
}

/// The name of `shell` as messages write it.
pub fn shell_display_name(shell: &str) -> (r: String)
    ensures
        r@ == shell_display_name_of(shell@),
{
    if str_eq(shell, "bash") || str_eq(shell, "b") {
        "bash".to_owned()
    } else if str_eq(shell, "zsh") || str_eq(shell, "z") {
        "zsh".to_owned()
    } else if str_eq(shell, "powershell") || str_eq(shell, "pwsh") || str_eq(shell, "p") {
        "PowerShell".to_owned()
    } else {
        shell.to_owned()
    }
}

/// Where bash completion goes: `bash-completion/completions` in the data
/// directory (or `/usr/local/share`) when that `bash-completion` directory
/// exists, otherwise in `~/.local/share`.
pub open spec fn bash_completion_dir_of(
    data_dir: Option<Seq<char>>,
    parent_exists: bool,
    home: Seq<char>,
) -> Seq<char> {
    if parent_exists {
        path_join(
            path_join(
                if data_dir is Some {
                    data_dir->0
                } else {
                    "/usr/local/share"@
                },
                "bash-completion"@,
            ),
            "completions"@,
        )
    } else {
        path_join(path_join(path_join(path_join(home, ".local"@), "share"@), "bash-completion"@), "completions"@)
    }
}

/// The `bash-completion` directory whose existence decides where bash
/// completion goes.
pub fn bash_completion_parent(data_dir: Option<&str>) -> (r: String)
    ensures
        r@ == path_join(
            if data_dir is Some {
                data_dir->0@
            } else {
                "/usr/local/share"@
            },
            "bash-completion"@,
        ),
{
    match data_dir {
        Some(d) => join(d, "bash-completion"),
        None => join("/usr/local/share", "bash-completion"),
    }
}

/// Where bash completion goes, given whether the `bash-completion` directory
/// of the data directory exists.
pub fn bash_completion_dir(data_dir: Option<&str>, parent_exists: bool, home: &str) -> (r: String)
    ensures
        r@ == bash_completion_dir_of(crate::config::opt_view(data_dir), parent_exists, home@),
{
    if parent_exists {
        let p = bash_completion_parent(data_dir);
        join(p.as_str(), "completions")
    } else {
        let a = join(home, ".local");
        let b = join(a.as_str(), "share");
        let c = join(b.as_str(), "bash-completion");
        join(c.as_str(), "completions")
    }
}

/// The directories tried for zsh completion, in order: `~/.zsh/completions`,
/// then `zsh/site-functions` in the local data directory; each is used when
/// its parent exists. The first is also the fallback.
pub fn zsh_completion_candidates(home: Option<&str>, data_local_dir: Option<&str>) -> (r: Vec<String>)
    ensures
        crate::text::views(r@) == (if home is Some {
            seq![path_join(path_join(home->0@, ".zsh"@), "completions"@)]
        } else {
            Seq::<Seq<char>>::empty()
        }) + (if data_local_dir is Some {
            seq![path_join(path_join(data_local_dir->0@, "zsh"@), "site-functions"@)]
        } else {
            Seq::<Seq<char>>::empty()
        }),
{
    let mut r: Vec<String> = Vec::new();
    if let Some(h) = home {
        let z = join(h, ".zsh");
        r.push(join(z.as_str(), "completions"));
    }
    if let Some(d) = data_local_dir {
        let z = join(d, "zsh");
        r.push(join(z.as_str(), "site-functions"));
    }
    assert(crate::text::views(r@) =~= (if home is Some {
        seq![path_join(path_join(home->0@, ".zsh"@), "completions"@)]
    } else {
        Seq::<Seq<char>>::empty()
    }) + (if data_local_dir is Some {
        seq![path_join(path_join(data_local_dir->0@, "zsh"@), "site-functions"@)]
    } else {
        Seq::<Seq<char>>::empty()
    }));
    r
}


/// The kind of completion script a shell name asks for.
#[derive(Clone, Copy, Debug, PartialEq, Eq, Structural)]
pub enum CompletionShell {
    Bash,
    Zsh,
    PowerShell,
}

/// The kind of script for a shell name: `bash`/`b`, `zsh`/`z`, or
/// `powershell`/`pwsh`/`p`; none for another name.
pub open spec fn completion_shell_of(shell: Seq<char>) -> Option<CompletionShell> {
    if shell == "bash"@ || shell == "b"@ {
        Some(CompletionShell::Bash)
    } else if shell == "zsh"@ || shell == "z"@ {
        Some(CompletionShell::Zsh)
    } else if is_powershell_name(shell) {
        Some(CompletionShell::PowerShell)
    } else {
        None
    }
}

/// The kind of completion script for `shell`; the error message for a
/// shell that is not supported.
pub fn completion_shell(shell: &str) -> (r: Result<CompletionShell, String>)
    ensures
        match completion_shell_of(shell@) {
            Some(k) => r == Ok::<CompletionShell, String>(k),
            None => r matches Err(m) && m@ == "不支持的 shell: "@ + shell@ + "\n支持: bash, zsh, powershell, pwsh"@,
        },
{
    if str_eq(shell, "bash") || str_eq(shell, "b") {
        Ok(CompletionShell::Bash)
    } else if str_eq(shell, "zsh") || str_eq(shell, "z") {
        Ok(CompletionShell::Zsh)
    } else if str_eq(shell, "powershell") || str_eq(shell, "pwsh") || str_eq(shell, "p") {
        Ok(CompletionShell::PowerShell)
    } else {
        let mut m = "不支持的 shell: ".to_owned();
        crate::text::push_str(&mut m, shell);
        crate::text::push_str(&mut m, "\n支持: bash, zsh, powershell, pwsh");
        Err(m)
    }
}

/// A PowerShell profile gets the completion script unless it already holds
/// it (it has the script's marker line).
pub open spec fn profile_needs_script_of(content: Option<Seq<char>>) -> bool {
    match content {
        Some(c) => !crate::text::contains(c, "# powershell completion for ax"@),
        None => true,
    }
}

/// Whether a PowerShell profile, with the given content if it exists, gets
/// the completion script (see `profile_needs_script_of`).
pub fn profile_needs_script(content: Option<&str>) -> (r: bool)
    ensures
        r == profile_needs_script_of(crate::config::opt_view(content)),
{
    match content {
        Some(c) => !crate::text::str_contains(c, "# powershell completion for ax"),
        None => true,
    }
}

/// What is appended to a PowerShell profile: a blank line, a comment, and
/// the script.
pub fn profile_addition(script: &str) -> (r: String)
    ensures
        r@ == "\n\n# ax completion\n"@ + script@,
{
    let mut r = "\n\n# ax completion\n".to_owned();
    crate::text::push_str(&mut r, script);
    r
}

/// What is printed once a bash or zsh script is written to `path`.
pub fn installed_message(shell: &str, path: &str) -> (r: String)
    ensures
        r@ == "✅ "@ + shell_display_name_of(shell@) + " 补全已安装到: "@ + path@ + "\n   重启终端或运行: source "@
            + path@ + "\n"@,
{
    let mut r = "✅ ".to_owned();
    let n = shell_display_name(shell);
    crate::text::push_str(&mut r, n.as_str());
    crate::text::push_str(&mut r, " 补全已安装到: ");
    crate::text::push_str(&mut r, path);
    crate::text::push_str(&mut r, "\n   重启终端或运行: source ");
    crate::text::push_str(&mut r, path);
    crate::text::push_str(&mut r, "\n");
    r
}



/// `s` has no character `c` from position `i` on.
pub open spec fn lacks_char_from(s: Seq<char>, c: char, i: int) -> bool
    decreases s.len() - i,
{
    i >= s.len() || (s[i] != c && lacks_char_from(s, c, i + 1))
}

/// `s` has no character `c`.
pub open spec fn lacks_char(s: Seq<char>, c: char) -> bool {
    lacks_char_from(s, c, 0)
}

#[verifier::spinoff_prover]
proof fn lemma_zsh_patterns_part0()
    ensures
        lacks_char(":name -- 变量名:_default"@, '\n'),
        lacks_char(":value -- 变量值:_default"@, '\n'),
        lacks_char("-d+[变量描述]:DESC:_default"@, '\n'),
        lacks_char("--desc=[变量描述]:DESC:_default"@, '\n'),
        lacks_char("-t+[标签，使用逗号分隔]:TAGS:_default"@, '\n'),
        lacks_char("--tags=[标签，使用逗号分隔]:TAGS:_default"@, '\n'),
        lacks_char(":name -- 仅显示指定变量:_default"@, '\n'),
        lacks_char("-t+[按标签筛选]:TAG:_default"@, '\n'),
        lacks_char("--tag=[按标签筛选]:TAG:_default"@, '\n'),
        lacks_char("(-a --all)-t+[暂停指定标签下的全部变量]:TAG:_default"@, '\n'),
        lacks_char("(-a --all)--tag=[暂停指定标签下的全部变量]:TAG:_default"@, '\n'),
        lacks_char("(-a --all)-t+[恢复指定标签下的全部变量]:TAG:_default"@, '\n'),
        lacks_char("(-a --all)--tag=[恢复指定标签下的全部变量]:TAG:_default"@, '\n'),
{
    assert(lacks_char(":name -- 变量名:_default"@, '\n')) by {
        reveal_strlit(":name -- 变量名:_default");
        reveal_with_fuel(lacks_char_from, 70);
    }
    assert(lacks_char(":value -- 变量值:_default"@, '\n')) by {
        reveal_strlit(":value -- 变量值:_default");
        reveal_with_fuel(lacks_char_from, 70);
    }
    assert(lacks_char("-d+[变量描述]:DESC:_default"@, '\n')) by {
        reveal_strlit("-d+[变量描述]:DESC:_default");
        reveal_with_fuel(lacks_char_from, 70);
    }
    assert(lacks_char("--desc=[变量描述]:DESC:_default"@, '\n')) by {
        reveal_strlit("--desc=[变量描述]:DESC:_default");
        reveal_with_fuel(lacks_char_from, 70);
    }
    assert(lacks_char("-t+[标签，使用逗号分隔]:TAGS:_default"@, '\n')) by {
        reveal_strlit("-t+[标签，使用逗号分隔]:TAGS:_default");
        reveal_with_fuel(lacks_char_from, 70);
    }
    assert(lacks_char("--tags=[标签，使用逗号分隔]:TAGS:_default"@, '\n')) by {
        reveal_strlit("--tags=[标签，使用逗号分隔]:TAGS:_default");
        reveal_with_fuel(lacks_char_from, 70);
    }
    assert(lacks_char(":name -- 仅显示指定变量:_default"@, '\n')) by {
        reveal_strlit(":name -- 仅显示指定变量:_default");
        reveal_with_fuel(lacks_char_from, 70);
    }
    assert(lacks_char("-t+[按标签筛选]:TAG:_default"@, '\n')) by {
        reveal_strlit("-t+[按标签筛选]:TAG:_default");
        reveal_with_fuel(lacks_char_from, 70);
    }
    assert(lacks_char("--tag=[按标签筛选]:TAG:_default"@, '\n')) by {
        reveal_strlit("--tag=[按标签筛选]:TAG:_default");
        reveal_with_fuel(lacks_char_from, 70);
    }
    assert(lacks_char("(-a --all)-t+[暂停指定标签下的全部变量]:TAG:_default"@, '\n')) by {
        reveal_strlit("(-a --all)-t+[暂停指定标签下的全部变量]:TAG:_default");
        reveal_with_fuel(lacks_char_from, 70);
    }
    assert(lacks_char("(-a --all)--tag=[暂停指定标签下的全部变量]:TAG:_default"@, '\n')) by {
        reveal_strlit("(-a --all)--tag=[暂停指定标签下的全部变量]:TAG:_default");
        reveal_with_fuel(lacks_char_from, 70);
    }
    assert(lacks_char("(-a --all)-t+[恢复指定标签下的全部变量]:TAG:_default"@, '\n')) by {
        reveal_strlit("(-a --all)-t+[恢复指定标签下的全部变量]:TAG:_default");
        reveal_with_fuel(lacks_char_from, 70);
    }
    assert(lacks_char("(-a --all)--tag=[恢复指定标签下的全部变量]:TAG:_default"@, '\n')) by {
        reveal_strlit("(-a --all)--tag=[恢复指定标签下的全部变量]:TAG:_default");
        reveal_with_fuel(lacks_char_from, 70);
    }
}

#[verifier::spinoff_prover]
proof fn lemma_zsh_patterns_part1()
    ensures
        lacks_char("*::names -- 一个或多个变量名:_default"@, '\n'),
        lacks_char("-v+[新值]:VALUE:_default"@, '\n'),
        lacks_char("--value=[新值]:VALUE:_default"@, '\n'),
        lacks_char("-d+[新描述]:DESC:_default"@, '\n'),
        lacks_char("--desc=[新描述]:DESC:_default"@, '\n'),
        lacks_char("-t+[新标签，使用逗号分隔]:TAGS:_default"@, '\n'),
        lacks_char("--tags=[新标签，使用逗号分隔]:TAGS:_default"@, '\n'),
        lacks_char(":name -- 命令名称:_default"@, '\n'),
        lacks_char(":cmd -- 要执行的命令内容:_default"@, '\n'),
        lacks_char("::desc -- 命令描述:_default"@, '\n'),
        lacks_char("::name -- 命令名称，留空则进入交互选择:_default"@, '\n'),
        lacks_char("::addr -- 代理地址，留空则使用配置中的地址:_default"@, '\n'),
        lacks_char(":shell -- 目标 shell：bash、zsh、powershell:_default"@, '\n'),
{
    assert(lacks_char("*::names -- 一个或多个变量名:_default"@, '\n')) by {
        reveal_strlit("*::names -- 一个或多个变量名:_default");
        reveal_with_fuel(lacks_char_from, 70);
    }
    assert(lacks_char("-v+[新值]:VALUE:_default"@, '\n')) by {
        reveal_strlit("-v+[新值]:VALUE:_default");
        reveal_with_fuel(lacks_char_from, 70);
    }
    assert(lacks_char("--value=[新值]:VALUE:_default"@, '\n')) by {
        reveal_strlit("--value=[新值]:VALUE:_default");
        reveal_with_fuel(lacks_char_from, 70);
    }
    assert(lacks_char("-d+[新描述]:DESC:_default"@, '\n')) by {
        reveal_strlit("-d+[新描述]:DESC:_default");
        reveal_with_fuel(lacks_char_from, 70);
    }
    assert(lacks_char("--desc=[新描述]:DESC:_default"@, '\n')) by {
        reveal_strlit("--desc=[新描述]:DESC:_default");
        reveal_with_fuel(lacks_char_from, 70);
    }
    assert(lacks_char("-t+[新标签，使用逗号分隔]:TAGS:_default"@, '\n')) by {
        reveal_strlit("-t+[新标签，使用逗号分隔]:TAGS:_default");
        reveal_with_fuel(lacks_char_from, 70);
    }
    assert(lacks_char("--tags=[新标签，使用逗号分隔]:TAGS:_default"@, '\n')) by {
        reveal_strlit("--tags=[新标签，使用逗号分隔]:TAGS:_default");
        reveal_with_fuel(lacks_char_from, 70);
    }
    assert(lacks_char(":name -- 命令名称:_default"@, '\n')) by {
        reveal_strlit(":name -- 命令名称:_default");
        reveal_with_fuel(lacks_char_from, 70);
    }
    assert(lacks_char(":cmd -- 要执行的命令内容:_default"@, '\n')) by {
        reveal_strlit(":cmd -- 要执行的命令内容:_default");
        reveal_with_fuel(lacks_char_from, 70);
    }
    assert(lacks_char("::desc -- 命令描述:_default"@, '\n')) by {
        reveal_strlit("::desc -- 命令描述:_default");
        reveal_with_fuel(lacks_char_from, 70);
    }
    assert(lacks_char("::name -- 命令名称，留空则进入交互选择:_default"@, '\n')) by {
        reveal_strlit("::name -- 命令名称，留空则进入交互选择:_default");
        reveal_with_fuel(lacks_char_from, 70);
    }
    assert(lacks_char("::addr -- 代理地址，留空则使用配置中的地址:_default"@, '\n')) by {
        reveal_strlit("::addr -- 代理地址，留空则使用配置中的地址:_default");
        reveal_with_fuel(lacks_char_from, 70);
    }
    assert(lacks_char(":shell -- 目标 shell：bash、zsh、powershell:_default"@, '\n')) by {
        reveal_strlit(":shell -- 目标 shell：bash、zsh、powershell:_default");
        reveal_with_fuel(lacks_char_from, 70);
    }
}

#[verifier::spinoff_prover]
proof fn lemma_zsh_patterns_part2()
    ensures
        lacks_char(":name -- Variable name:_default"@, '\n'),
        lacks_char(":value -- Variable value:_default"@, '\n'),
        lacks_char("-d+[Variable description]:DESC:_default"@, '\n'),
        lacks_char("--desc=[Variable description]:DESC:_default"@, '\n'),
        lacks_char("-t+[Comma-separated tags]:TAGS:_default"@, '\n'),
        lacks_char("--tags=[Comma-separated tags]:TAGS:_default"@, '\n'),
        lacks_char(":name -- Show only the specified variable:_default"@, '\n'),
        lacks_char("-t+[Filter by tag]:TAG:_default"@, '\n'),
        lacks_char("--tag=[Filter by tag]:TAG:_default"@, '\n'),
        lacks_char("(-a --all)-t+[Pause all variables with the tag]:TAG:_default"@, '\n'),
        lacks_char("(-a --all)--tag=[Pause all variables with the tag]:TAG:_default"@, '\n'),
        lacks_char("(-a --all)-t+[Resume all variables with the tag]:TAG:_default"@, '\n'),
        lacks_char("(-a --all)--tag=[Resume all variables with the tag]:TAG:_default"@, '\n'),
{
    assert(lacks_char(":name -- Variable name:_default"@, '\n')) by {
        reveal_strlit(":name -- Variable name:_default");
        reveal_with_fuel(lacks_char_from, 70);
    }
    assert(lacks_char(":value -- Variable value:_default"@, '\n')) by {
        reveal_strlit(":value -- Variable value:_default");
        reveal_with_fuel(lacks_char_from, 70);
    }
    assert(lacks_char("-d+[Variable description]:DESC:_default"@, '\n')) by {
        reveal_strlit("-d+[Variable description]:DESC:_default");
        reveal_with_fuel(lacks_char_from, 70);
    }
    assert(lacks_char("--desc=[Variable description]:DESC:_default"@, '\n')) by {
        reveal_strlit("--desc=[Variable description]:DESC:_default");
        reveal_with_fuel(lacks_char_from, 70);
    }
    assert(lacks_char("-t+[Comma-separated tags]:TAGS:_default"@, '\n')) by {
        reveal_strlit("-t+[Comma-separated tags]:TAGS:_default");
        reveal_with_fuel(lacks_char_from, 70);
    }
    assert(lacks_char("--tags=[Comma-separated tags]:TAGS:_default"@, '\n')) by {
        reveal_strlit("--tags=[Comma-separated tags]:TAGS:_default");
        reveal_with_fuel(lacks_char_from, 70);
    }
    assert(lacks_char(":name -- Show only the specified variable:_default"@, '\n')) by {
        reveal_strlit(":name -- Show only the specified variable:_default");
        reveal_with_fuel(lacks_char_from, 70);
    }
    assert(lacks_char("-t+[Filter by tag]:TAG:_default"@, '\n')) by {
        reveal_strlit("-t+[Filter by tag]:TAG:_default");
        reveal_with_fuel(lacks_char_from, 70);
    }
    assert(lacks_char("--tag=[Filter by tag]:TAG:_default"@, '\n')) by {
        reveal_strlit("--tag=[Filter by tag]:TAG:_default");
        reveal_with_fuel(lacks_char_from, 70);
    }
    assert(lacks_char("(-a --all)-t+[Pause all variables with the tag]:TAG:_default"@, '\n')) by {
        reveal_strlit("(-a --all)-t+[Pause all variables with the tag]:TAG:_default");
        reveal_with_fuel(lacks_char_from, 70);
    }
    assert(lacks_char("(-a --all)--tag=[Pause all variables with the tag]:TAG:_default"@, '\n')) by {
        reveal_strlit("(-a --all)--tag=[Pause all variables with the tag]:TAG:_default");
        reveal_with_fuel(lacks_char_from, 70);
    }
    assert(lacks_char("(-a --all)-t+[Resume all variables with the tag]:TAG:_default"@, '\n')) by {
        reveal_strlit("(-a --all)-t+[Resume all variables with the tag]:TAG:_default");
        reveal_with_fuel(lacks_char_from, 70);
    }
    assert(lacks_char("(-a --all)--tag=[Resume all variables with the tag]:TAG:_default"@, '\n')) by {
        reveal_strlit("(-a --all)--tag=[Resume all variables with the tag]:TAG:_default");
        reveal_with_fuel(lacks_char_from, 70);
    }
}

#[verifier::spinoff_prover]
proof fn lemma_zsh_patterns_part3()
    ensures
        lacks_char("*::names -- One or more variable names:_default"@, '\n'),
        lacks_char("-v+[New value]:VALUE:_default"@, '\n'),
        lacks_char("--value=[New value]:VALUE:_default"@, '\n'),
        lacks_char("-d+[New description]:DESC:_default"@, '\n'),
        lacks_char("--desc=[New description]:DESC:_default"@, '\n'),
        lacks_char("-t+[New comma-separated tags]:TAGS:_default"@, '\n'),
        lacks_char("--tags=[New comma-separated tags]:TAGS:_default"@, '\n'),
        lacks_char(":name -- Command name:_default"@, '\n'),
        lacks_char(":cmd -- Command body to execute:_default"@, '\n'),
        lacks_char("::desc -- Command description:_default"@, '\n'),
        lacks_char("::name -- Command name; omit to use interactive selection:_default"@, '\n'),
        lacks_char("::addr -- Proxy address; defaults to configured value:_default"@, '\n'),
        lacks_char(":shell -- Target shell: bash, zsh, powershell:_default"@, '\n'),
{
    assert(lacks_char("*::names -- One or more variable names:_default"@, '\n')) by {
        reveal_strlit("*::names -- One or more variable names:_default");
        reveal_with_fuel(lacks_char_from, 70);
    }
    assert(lacks_char("-v+[New value]:VALUE:_default"@, '\n')) by {
        reveal_strlit("-v+[New value]:VALUE:_default");
        reveal_with_fuel(lacks_char_from, 70);
    }
    assert(lacks_char("--value=[New value]:VALUE:_default"@, '\n')) by {
        reveal_strlit("--value=[New value]:VALUE:_default");
        reveal_with_fuel(lacks_char_from, 70);
    }
    assert(lacks_char("-d+[New description]:DESC:_default"@, '\n')) by {
        reveal_strlit("-d+[New description]:DESC:_default");
        reveal_with_fuel(lacks_char_from, 70);
    }
    assert(lacks_char("--desc=[New description]:DESC:_default"@, '\n')) by {
        reveal_strlit("--desc=[New description]:DESC:_default");
        reveal_with_fuel(lacks_char_from, 70);
    }
    assert(lacks_char("-t+[New comma-separated tags]:TAGS:_default"@, '\n')) by {
        reveal_strlit("-t+[New comma-separated tags]:TAGS:_default");
        reveal_with_fuel(lacks_char_from, 70);
    }
    assert(lacks_char("--tags=[New comma-separated tags]:TAGS:_default"@, '\n')) by {
        reveal_strlit("--tags=[New comma-separated tags]:TAGS:_default");
        reveal_with_fuel(lacks_char_from, 70);
    }
    assert(lacks_char(":name -- Command name:_default"@, '\n')) by {
        reveal_strlit(":name -- Command name:_default");
        reveal_with_fuel(lacks_char_from, 70);
    }
    assert(lacks_char(":cmd -- Command body to execute:_default"@, '\n')) by {
        reveal_strlit(":cmd -- Command body to execute:_default");
        reveal_with_fuel(lacks_char_from, 70);
    }
    assert(lacks_char("::desc -- Command description:_default"@, '\n')) by {
        reveal_strlit("::desc -- Command description:_default");
        reveal_with_fuel(lacks_char_from, 70);
    }
    assert(lacks_char("::name -- Command name; omit to use interactive selection:_default"@, '\n')) by {
        reveal_strlit("::name -- Command name; omit to use interactive selection:_default");
        reveal_with_fuel(lacks_char_from, 70);
    }
    assert(lacks_char("::addr -- Proxy address; defaults to configured value:_default"@, '\n')) by {
        reveal_strlit("::addr -- Proxy address; defaults to configured value:_default");
        reveal_with_fuel(lacks_char_from, 70);
    }
    assert(lacks_char(":shell -- Target shell: bash, zsh, powershell:_default"@, '\n')) by {
        reveal_strlit(":shell -- Target shell: bash, zsh, powershell:_default");
        reveal_with_fuel(lacks_char_from, 70);
    }
}

/// No pattern of the zsh adjustments holds a line feed.
pub proof fn lemma_zsh_patterns_lack_newline()
    ensures
        forall|i: int| 0 <= i < zsh_replacements().len() ==> lacks_char(#[trigger] zsh_replacements()[i].0, '\n'),
{
    lemma_zsh_patterns_part0();
    lemma_zsh_patterns_part1();
    lemma_zsh_patterns_part2();
    lemma_zsh_patterns_part3();
    assert forall|i: int| 0 <= i < zsh_replacements().len() implies lacks_char(#[trigger] zsh_replacements()[i].0, '\n') by {
        if i == 0 {} else if i == 1 {} else if i == 2 {} else if i == 3 {} else if i == 4 {} else if i == 5 {} else if i == 6 {} else if i == 7 {} else if i == 8 {} else if i == 9 {} else if i == 10 {} else if i == 11 {} else if i == 12 {} else if i == 13 {} else if i == 14 {} else if i == 15 {} else if i == 16 {} else if i == 17 {} else if i == 18 {} else if i == 19 {} else if i == 20 {} else if i == 21 {} else if i == 22 {} else if i == 23 {} else if i == 24 {} else if i == 25 {} else if i == 26 {} else if i == 27 {} else if i == 28 {} else if i == 29 {} else if i == 30 {} else if i == 31 {} else if i == 32 {} else if i == 33 {} else if i == 34 {} else if i == 35 {} else if i == 36 {} else if i == 37 {} else if i == 38 {} else if i == 39 {} else if i == 40 {} else if i == 41 {} else if i == 42 {} else if i == 43 {} else if i == 44 {} else if i == 45 {} else if i == 46 {} else if i == 47 {} else if i == 48 {} else if i == 49 {} else if i == 50 {} else if i == 51 {}
    }
}


/// The end that every pattern of the zsh adjustments has: `:_default`.
pub open spec fn default_anchor() -> Seq<char> {
    seq![':', '_', 'd', 'e', 'f', 'a', 'u', 'l', 't']
}

/// No `a` followed by `b` in `s` from position `i` on.
pub open spec fn lacks_pair_from(s: Seq<char>, a: char, b: char, i: int) -> bool
    decreases s.len() - i,
{
    i + 1 >= s.len() || (!(s[i] == a && s[i + 1] == b) && lacks_pair_from(s, a, b, i + 1))
}

/// What the patterns of the zsh adjustments have in common: each ends with
/// `:_default`, holds no `"`, and holds a `)` at most in an opening `(-a --all)`.
pub open spec fn pattern_shape(q: Seq<char>) -> bool {
    &&& q.len() >= 10
    &&& q.subrange(q.len() - 9, q.len() as int) == default_anchor()
    &&& lacks_char(q, '"')
    &&& (lacks_char(q, ')') || (q[0] == '(' && q[9] == ')' && lacks_char(q.take(9), ')')
        && lacks_char_from(q, ')', 10)))
}

/// What the replacement texts have in common: none holds `_d`, none begins
/// with a letter of `default`, and each ends with `"` or with a `)` that no
/// `(` stands ten characters before.
pub open spec fn replacement_shape(t: Seq<char>) -> bool {
    &&& t.len() >= 10
    &&& t[0] != 'd' && t[0] != 'e' && t[0] != 'f' && t[0] != 'a' && t[0] != 'u' && t[0] != 'l'
        && t[0] != 't'
    &&& lacks_pair_from(t, '_', 'd', 0)
    &&& (t.last() == '"' || (t.last() == ')' && t[t.len() - 10] != '('))
}

#[verifier::spinoff_prover]
proof fn lemma_zsh_shapes_part0()
    ensures
        pattern_shape(":name -- 变量名:_default"@),
        replacement_shape(":name -- 变量名:_message -r \"变量名\""@),
        pattern_shape(":value -- 变量值:_default"@),
        replacement_shape(":value -- 变量值:_message -r \"变量值\""@),
        pattern_shape("-d+[变量描述]:DESC:_default"@),
        replacement_shape("-d+[变量描述]:DESC:_message -r \"变量描述\""@),
        pattern_shape("--desc=[变量描述]:DESC:_default"@),
        replacement_shape("--desc=[变量描述]:DESC:_message -r \"变量描述\""@),
        pattern_shape("-t+[标签，使用逗号分隔]:TAGS:_default"@),
        replacement_shape("-t+[标签，使用逗号分隔]:TAGS:_message -r \"标签，使用逗号分隔\""@),
        pattern_shape("--tags=[标签，使用逗号分隔]:TAGS:_default"@),
        replacement_shape("--tags=[标签，使用逗号分隔]:TAGS:_message -r \"标签，使用逗号分隔\""@),
{
    assert(pattern_shape(":name -- 变量名:_default"@)) by {
        reveal_strlit(":name -- 变量名:_default");
        reveal_with_fuel(lacks_char_from, 70);
        assert(":name -- 变量名:_default"@.subrange(":name -- 变量名:_default"@.len() - 9, ":name -- 变量名:_default"@.len() as int) =~= default_anchor());
        assert(":name -- 变量名:_default"@.take(9) =~= ":name -- 变量名:_default"@.subrange(0, 9));
    }
    assert(replacement_shape(":name -- 变量名:_message -r \"变量名\""@)) by {
        reveal_strlit(":name -- 变量名:_message -r \"变量名\"");
        reveal_with_fuel(lacks_pair_from, 90);
    }
    assert(pattern_shape(":value -- 变量值:_default"@)) by {
        reveal_strlit(":value -- 变量值:_default");
        reveal_with_fuel(lacks_char_from, 70);
        assert(":value -- 变量值:_default"@.subrange(":value -- 变量值:_default"@.len() - 9, ":value -- 变量值:_default"@.len() as int) =~= default_anchor());
        assert(":value -- 变量值:_default"@.take(9) =~= ":value -- 变量值:_default"@.subrange(0, 9));
    }
    assert(replacement_shape(":value -- 变量值:_message -r \"变量值\""@)) by {
        reveal_strlit(":value -- 变量值:_message -r \"变量值\"");
        reveal_with_fuel(lacks_pair_from, 90);
    }
    assert(pattern_shape("-d+[变量描述]:DESC:_default"@)) by {
        reveal_strlit("-d+[变量描述]:DESC:_default");
        reveal_with_fuel(lacks_char_from, 70);
        assert("-d+[变量描述]:DESC:_default"@.subrange("-d+[变量描述]:DESC:_default"@.len() - 9, "-d+[变量描述]:DESC:_default"@.len() as int) =~= default_anchor());
        assert("-d+[变量描述]:DESC:_default"@.take(9) =~= "-d+[变量描述]:DESC:_default"@.subrange(0, 9));
    }
    assert(replacement_shape("-d+[变量描述]:DESC:_message -r \"变量描述\""@)) by {
        reveal_strlit("-d+[变量描述]:DESC:_message -r \"变量描述\"");
        reveal_with_fuel(lacks_pair_from, 90);
    }
    assert(pattern_shape("--desc=[变量描述]:DESC:_default"@)) by {
        reveal_strlit("--desc=[变量描述]:DESC:_default");
        reveal_with_fuel(lacks_char_from, 70);
        assert("--desc=[变量描述]:DESC:_default"@.subrange("--desc=[变量描述]:DESC:_default"@.len() - 9, "--desc=[变量描述]:DESC:_default"@.len() as int) =~= default_anchor());
        assert("--desc=[变量描述]:DESC:_default"@.take(9) =~= "--desc=[变量描述]:DESC:_default"@.subrange(0, 9));
    }
    assert(replacement_shape("--desc=[变量描述]:DESC:_message -r \"变量描述\""@)) by {
        reveal_strlit("--desc=[变量描述]:DESC:_message -r \"变量描述\"");
        reveal_with_fuel(lacks_pair_from, 90);
    }
    assert(pattern_shape("-t+[标签，使用逗号分隔]:TAGS:_default"@)) by {
        reveal_strlit("-t+[标签，使用逗号分隔]:TAGS:_default");
        reveal_with_fuel(lacks_char_from, 70);
        assert("-t+[标签，使用逗号分隔]:TAGS:_default"@.subrange("-t+[标签，使用逗号分隔]:TAGS:_default"@.len() - 9, "-t+[标签，使用逗号分隔]:TAGS:_default"@.len() as int) =~= default_anchor());
        assert("-t+[标签，使用逗号分隔]:TAGS:_default"@.take(9) =~= "-t+[标签，使用逗号分隔]:TAGS:_default"@.subrange(0, 9));
    }
    assert(replacement_shape("-t+[标签，使用逗号分隔]:TAGS:_message -r \"标签，使用逗号分隔\""@)) by {
        reveal_strlit("-t+[标签，使用逗号分隔]:TAGS:_message -r \"标签，使用逗号分隔\"");
        reveal_with_fuel(lacks_pair_from, 90);
    }
    assert(pattern_shape("--tags=[标签，使用逗号分隔]:TAGS:_default"@)) by {
        reveal_strlit("--tags=[标签，使用逗号分隔]:TAGS:_default");
        reveal_with_fuel(lacks_char_from, 70);
        assert("--tags=[标签，使用逗号分隔]:TAGS:_default"@.subrange("--tags=[标签，使用逗号分隔]:TAGS:_default"@.len() - 9, "--tags=[标签，使用逗号分隔]:TAGS:_default"@.len() as int) =~= default_anchor());
        assert("--tags=[标签，使用逗号分隔]:TAGS:_default"@.take(9) =~= "--tags=[标签，使用逗号分隔]:TAGS:_default"@.subrange(0, 9));
    }
    assert(replacement_shape("--tags=[标签，使用逗号分隔]:TAGS:_message -r \"标签，使用逗号分隔\""@)) by {
        reveal_strlit("--tags=[标签，使用逗号分隔]:TAGS:_message -r \"标签，使用逗号分隔\"");
        reveal_with_fuel(lacks_pair_from, 90);
    }
}

#[verifier::spinoff_prover]
proof fn lemma_zsh_shapes_part1()
    ensures
        pattern_shape(":name -- 仅显示指定变量:_default"@),
        replacement_shape(":name -- 仅显示指定变量:_message -r \"变量名\""@),
        pattern_shape("-t+[按标签筛选]:TAG:_default"@),
        replacement_shape("-t+[按标签筛选]:TAG:_message -r \"标签\""@),
        pattern_shape("--tag=[按标签筛选]:TAG:_default"@),
        replacement_shape("--tag=[按标签筛选]:TAG:_message -r \"标签\""@),
        pattern_shape("(-a --all)-t+[暂停指定标签下的全部变量]:TAG:_default"@),
        replacement_shape("(-a --all)-t+[暂停指定标签下的全部变量]:TAG:_message -r \"标签\""@),
        pattern_shape("(-a --all)--tag=[暂停指定标签下的全部变量]:TAG:_default"@),
        replacement_shape("(-a --all)--tag=[暂停指定标签下的全部变量]:TAG:_message -r \"标签\""@),
        pattern_shape("(-a --all)-t+[恢复指定标签下的全部变量]:TAG:_default"@),
        replacement_shape("(-a --all)-t+[恢复指定标签下的全部变量]:TAG:_message -r \"标签\""@),
{
    assert(pattern_shape(":name -- 仅显示指定变量:_default"@)) by {
        reveal_strlit(":name -- 仅显示指定变量:_default");
        reveal_with_fuel(lacks_char_from, 70);
        assert(":name -- 仅显示指定变量:_default"@.subrange(":name -- 仅显示指定变量:_default"@.len() - 9, ":name -- 仅显示指定变量:_default"@.len() as int) =~= default_anchor());
        assert(":name -- 仅显示指定变量:_default"@.take(9) =~= ":name -- 仅显示指定变量:_default"@.subrange(0, 9));
    }
    assert(replacement_shape(":name -- 仅显示指定变量:_message -r \"变量名\""@)) by {
        reveal_strlit(":name -- 仅显示指定变量:_message -r \"变量名\"");
        reveal_with_fuel(lacks_pair_from, 90);
    }
    assert(pattern_shape("-t+[按标签筛选]:TAG:_default"@)) by {
        reveal_strlit("-t+[按标签筛选]:TAG:_default");
        reveal_with_fuel(lacks_char_from, 70);
        assert("-t+[按标签筛选]:TAG:_default"@.subrange("-t+[按标签筛选]:TAG:_default"@.len() - 9, "-t+[按标签筛选]:TAG:_default"@.len() as int) =~= default_anchor());
        assert("-t+[按标签筛选]:TAG:_default"@.take(9) =~= "-t+[按标签筛选]:TAG:_default"@.subrange(0, 9));
    }
    assert(replacement_shape("-t+[按标签筛选]:TAG:_message -r \"标签\""@)) by {
        reveal_strlit("-t+[按标签筛选]:TAG:_message -r \"标签\"");
        reveal_with_fuel(lacks_pair_from, 90);
    }
    assert(pattern_shape("--tag=[按标签筛选]:TAG:_default"@)) by {
        reveal_strlit("--tag=[按标签筛选]:TAG:_default");
        reveal_with_fuel(lacks_char_from, 70);
        assert("--tag=[按标签筛选]:TAG:_default"@.subrange("--tag=[按标签筛选]:TAG:_default"@.len() - 9, "--tag=[按标签筛选]:TAG:_default"@.len() as int) =~= default_anchor());
        assert("--tag=[按标签筛选]:TAG:_default"@.take(9) =~= "--tag=[按标签筛选]:TAG:_default"@.subrange(0, 9));
    }
    assert(replacement_shape("--tag=[按标签筛选]:TAG:_message -r \"标签\""@)) by {
        reveal_strlit("--tag=[按标签筛选]:TAG:_message -r \"标签\"");
        reveal_with_fuel(lacks_pair_from, 90);
    }
    assert(pattern_shape("(-a --all)-t+[暂停指定标签下的全部变量]:TAG:_default"@)) by {
        reveal_strlit("(-a --all)-t+[暂停指定标签下的全部变量]:TAG:_default");
        reveal_with_fuel(lacks_char_from, 70);
        assert("(-a --all)-t+[暂停指定标签下的全部变量]:TAG:_default"@.subrange("(-a --all)-t+[暂停指定标签下的全部变量]:TAG:_default"@.len() - 9, "(-a --all)-t+[暂停指定标签下的全部变量]:TAG:_default"@.len() as int) =~= default_anchor());
        assert("(-a --all)-t+[暂停指定标签下的全部变量]:TAG:_default"@.take(9) =~= "(-a --all)-t+[暂停指定标签下的全部变量]:TAG:_default"@.subrange(0, 9));
    }
    assert(replacement_shape("(-a --all)-t+[暂停指定标签下的全部变量]:TAG:_message -r \"标签\""@)) by {
        reveal_strlit("(-a --all)-t+[暂停指定标签下的全部变量]:TAG:_message -r \"标签\"");
        reveal_with_fuel(lacks_pair_from, 90);
    }
    assert(pattern_shape("(-a --all)--tag=[暂停指定标签下的全部变量]:TAG:_default"@)) by {
        reveal_strlit("(-a --all)--tag=[暂停指定标签下的全部变量]:TAG:_default");
        reveal_with_fuel(lacks_char_from, 70);
        assert("(-a --all)--tag=[暂停指定标签下的全部变量]:TAG:_default"@.subrange("(-a --all)--tag=[暂停指定标签下的全部变量]:TAG:_default"@.len() - 9, "(-a --all)--tag=[暂停指定标签下的全部变量]:TAG:_default"@.len() as int) =~= default_anchor());
        assert("(-a --all)--tag=[暂停指定标签下的全部变量]:TAG:_default"@.take(9) =~= "(-a --all)--tag=[暂停指定标签下的全部变量]:TAG:_default"@.subrange(0, 9));
    }
    assert(replacement_shape("(-a --all)--tag=[暂停指定标签下的全部变量]:TAG:_message -r \"标签\""@)) by {
        reveal_strlit("(-a --all)--tag=[暂停指定标签下的全部变量]:TAG:_message -r \"标签\"");
        reveal_with_fuel(lacks_pair_from, 90);
    }
    assert(pattern_shape("(-a --all)-t+[恢复指定标签下的全部变量]:TAG:_default"@)) by {
        reveal_strlit("(-a --all)-t+[恢复指定标签下的全部变量]:TAG:_default");
        reveal_with_fuel(lacks_char_from, 70);
        assert("(-a --all)-t+[恢复指定标签下的全部变量]:TAG:_default"@.subrange("(-a --all)-t+[恢复指定标签下的全部变量]:TAG:_default"@.len() - 9, "(-a --all)-t+[恢复指定标签下的全部变量]:TAG:_default"@.len() as int) =~= default_anchor());
        assert("(-a --all)-t+[恢复指定标签下的全部变量]:TAG:_default"@.take(9) =~= "(-a --all)-t+[恢复指定标签下的全部变量]:TAG:_default"@.subrange(0, 9));
    }
    assert(replacement_shape("(-a --all)-t+[恢复指定标签下的全部变量]:TAG:_message -r \"标签\""@)) by {
        reveal_strlit("(-a --all)-t+[恢复指定标签下的全部变量]:TAG:_message -r \"标签\"");
        reveal_with_fuel(lacks_pair_from, 90);
    }
}

#[verifier::spinoff_prover]
proof fn lemma_zsh_shapes_part2()
    ensures
        pattern_shape("(-a --all)--tag=[恢复指定标签下的全部变量]:TAG:_default"@),
        replacement_shape("(-a --all)--tag=[恢复指定标签下的全部变量]:TAG:_message -r \"标签\""@),
        pattern_shape("*::names -- 一个或多个变量名:_default"@),
        replacement_shape("*::names -- 一个或多个变量名:_message -r \"变量名\""@),
        pattern_shape("-v+[新值]:VALUE:_default"@),
        replacement_shape("-v+[新值]:VALUE:_message -r \"新值\""@),
        pattern_shape("--value=[新值]:VALUE:_default"@),
        replacement_shape("--value=[新值]:VALUE:_message -r \"新值\""@),
        pattern_shape("-d+[新描述]:DESC:_default"@),
        replacement_shape("-d+[新描述]:DESC:_message -r \"新描述\""@),
        pattern_shape("--desc=[新描述]:DESC:_default"@),
        replacement_shape("--desc=[新描述]:DESC:_message -r \"新描述\""@),
{
    assert(pattern_shape("(-a --all)--tag=[恢复指定标签下的全部变量]:TAG:_default"@)) by {
        reveal_strlit("(-a --all)--tag=[恢复指定标签下的全部变量]:TAG:_default");
        reveal_with_fuel(lacks_char_from, 70);
        assert("(-a --all)--tag=[恢复指定标签下的全部变量]:TAG:_default"@.subrange("(-a --all)--tag=[恢复指定标签下的全部变量]:TAG:_default"@.len() - 9, "(-a --all)--tag=[恢复指定标签下的全部变量]:TAG:_default"@.len() as int) =~= default_anchor());
        assert("(-a --all)--tag=[恢复指定标签下的全部变量]:TAG:_default"@.take(9) =~= "(-a --all)--tag=[恢复指定标签下的全部变量]:TAG:_default"@.subrange(0, 9));
    }
    assert(replacement_shape("(-a --all)--tag=[恢复指定标签下的全部变量]:TAG:_message -r \"标签\""@)) by {
        reveal_strlit("(-a --all)--tag=[恢复指定标签下的全部变量]:TAG:_message -r \"标签\"");
        reveal_with_fuel(lacks_pair_from, 90);
    }
    assert(pattern_shape("*::names -- 一个或多个变量名:_default"@)) by {
        reveal_strlit("*::names -- 一个或多个变量名:_default");
        reveal_with_fuel(lacks_char_from, 70);
        assert("*::names -- 一个或多个变量名:_default"@.subrange("*::names -- 一个或多个变量名:_default"@.len() - 9, "*::names -- 一个或多个变量名:_default"@.len() as int) =~= default_anchor());
        assert("*::names -- 一个或多个变量名:_default"@.take(9) =~= "*::names -- 一个或多个变量名:_default"@.subrange(0, 9));
    }
    assert(replacement_shape("*::names -- 一个或多个变量名:_message -r \"变量名\""@)) by {
        reveal_strlit("*::names -- 一个或多个变量名:_message -r \"变量名\"");
        reveal_with_fuel(lacks_pair_from, 90);
    }
    assert(pattern_shape("-v+[新值]:VALUE:_default"@)) by {
        reveal_strlit("-v+[新值]:VALUE:_default");
        reveal_with_fuel(lacks_char_from, 70);
        assert("-v+[新值]:VALUE:_default"@.subrange("-v+[新值]:VALUE:_default"@.len() - 9, "-v+[新值]:VALUE:_default"@.len() as int) =~= default_anchor());
        assert("-v+[新值]:VALUE:_default"@.take(9) =~= "-v+[新值]:VALUE:_default"@.subrange(0, 9));
    }
    assert(replacement_shape("-v+[新值]:VALUE:_message -r \"新值\""@)) by {
        reveal_strlit("-v+[新值]:VALUE:_message -r \"新值\"");
        reveal_with_fuel(lacks_pair_from, 90);
    }
    assert(pattern_shape("--value=[新值]:VALUE:_default"@)) by {
        reveal_strlit("--value=[新值]:VALUE:_default");
        reveal_with_fuel(lacks_char_from, 70);
        assert("--value=[新值]:VALUE:_default"@.subrange("--value=[新值]:VALUE:_default"@.len() - 9, "--value=[新值]:VALUE:_default"@.len() as int) =~= default_anchor());
        assert("--value=[新值]:VALUE:_default"@.take(9) =~= "--value=[新值]:VALUE:_default"@.subrange(0, 9));
    }
    assert(replacement_shape("--value=[新值]:VALUE:_message -r \"新值\""@)) by {
        reveal_strlit("--value=[新值]:VALUE:_message -r \"新值\"");
        reveal_with_fuel(lacks_pair_from, 90);
    }
    assert(pattern_shape("-d+[新描述]:DESC:_default"@)) by {
        reveal_strlit("-d+[新描述]:DESC:_default");
        reveal_with_fuel(lacks_char_from, 70);
        assert("-d+[新描述]:DESC:_default"@.subrange("-d+[新描述]:DESC:_default"@.len() - 9, "-d+[新描述]:DESC:_default"@.len() as int) =~= default_anchor());
        assert("-d+[新描述]:DESC:_default"@.take(9) =~= "-d+[新描述]:DESC:_default"@.subrange(0, 9));
    }
    assert(replacement_shape("-d+[新描述]:DESC:_message -r \"新描述\""@)) by {
        reveal_strlit("-d+[新描述]:DESC:_message -r \"新描述\"");
        reveal_with_fuel(lacks_pair_from, 90);
    }
    assert(pattern_shape("--desc=[新描述]:DESC:_default"@)) by {
        reveal_strlit("--desc=[新描述]:DESC:_default");
        reveal_with_fuel(lacks_char_from, 70);
        assert("--desc=[新描述]:DESC:_default"@.subrange("--desc=[新描述]:DESC:_default"@.len() - 9, "--desc=[新描述]:DESC:_default"@.len() as int) =~= default_anchor());
        assert("--desc=[新描述]:DESC:_default"@.take(9) =~= "--desc=[新描述]:DESC:_default"@.subrange(0, 9));
    }
    assert(replacement_shape("--desc=[新描述]:DESC:_message -r \"新描述\""@)) by {
        reveal_strlit("--desc=[新描述]:DESC:_message -r \"新描述\"");
        reveal_with_fuel(lacks_pair_from, 90);
    }
}

#[verifier::spinoff_prover]
proof fn lemma_zsh_shapes_part3()
    ensures
        pattern_shape("-t+[新标签，使用逗号分隔]:TAGS:_default"@),
        replacement_shape("-t+[新标签，使用逗号分隔]:TAGS:_message -r \"新标签，使用逗号分隔\""@),
        pattern_shape("--tags=[新标签，使用逗号分隔]:TAGS:_default"@),
        replacement_shape("--tags=[新标签，使用逗号分隔]:TAGS:_message -r \"新标签，使用逗号分隔\""@),
        pattern_shape(":name -- 命令名称:_default"@),
        replacement_shape(":name -- 命令名称:_message -r \"命令名称\""@),
        pattern_shape(":cmd -- 要执行的命令内容:_default"@),
        replacement_shape(":cmd -- 要执行的命令内容:_message -r \"命令内容\""@),
        pattern_shape("::desc -- 命令描述:_default"@),
        replacement_shape("::desc -- 命令描述:_message -r \"命令描述\""@),
        pattern_shape("::name -- 命令名称，留空则进入交互选择:_default"@),
        replacement_shape("::name -- 命令名称，留空则进入交互选择:_message -r \"命令名称\""@),
{
    assert(pattern_shape("-t+[新标签，使用逗号分隔]:TAGS:_default"@)) by {
        reveal_strlit("-t+[新标签，使用逗号分隔]:TAGS:_default");
        reveal_with_fuel(lacks_char_from, 70);
        assert("-t+[新标签，使用逗号分隔]:TAGS:_default"@.subrange("-t+[新标签，使用逗号分隔]:TAGS:_default"@.len() - 9, "-t+[新标签，使用逗号分隔]:TAGS:_default"@.len() as int) =~= default_anchor());
        assert("-t+[新标签，使用逗号分隔]:TAGS:_default"@.take(9) =~= "-t+[新标签，使用逗号分隔]:TAGS:_default"@.subrange(0, 9));
    }
    assert(replacement_shape("-t+[新标签，使用逗号分隔]:TAGS:_message -r \"新标签，使用逗号分隔\""@)) by {
        reveal_strlit("-t+[新标签，使用逗号分隔]:TAGS:_message -r \"新标签，使用逗号分隔\"");
        reveal_with_fuel(lacks_pair_from, 90);
    }
    assert(pattern_shape("--tags=[新标签，使用逗号分隔]:TAGS:_default"@)) by {
        reveal_strlit("--tags=[新标签，使用逗号分隔]:TAGS:_default");
        reveal_with_fuel(lacks_char_from, 70);
        assert("--tags=[新标签，使用逗号分隔]:TAGS:_default"@.subrange("--tags=[新标签，使用逗号分隔]:TAGS:_default"@.len() - 9, "--tags=[新标签，使用逗号分隔]:TAGS:_default"@.len() as int) =~= default_anchor());
        assert("--tags=[新标签，使用逗号分隔]:TAGS:_default"@.take(9) =~= "--tags=[新标签，使用逗号分隔]:TAGS:_default"@.subrange(0, 9));
    }
    assert(replacement_shape("--tags=[新标签，使用逗号分隔]:TAGS:_message -r \"新标签，使用逗号分隔\""@)) by {
        reveal_strlit("--tags=[新标签，使用逗号分隔]:TAGS:_message -r \"新标签，使用逗号分隔\"");
        reveal_with_fuel(lacks_pair_from, 90);
    }
    assert(pattern_shape(":name -- 命令名称:_default"@)) by {
        reveal_strlit(":name -- 命令名称:_default");
        reveal_with_fuel(lacks_char_from, 70);
        assert(":name -- 命令名称:_default"@.subrange(":name -- 命令名称:_default"@.len() - 9, ":name -- 命令名称:_default"@.len() as int) =~= default_anchor());
        assert(":name -- 命令名称:_default"@.take(9) =~= ":name -- 命令名称:_default"@.subrange(0, 9));
    }
    assert(replacement_shape(":name -- 命令名称:_message -r \"命令名称\""@)) by {
        reveal_strlit(":name -- 命令名称:_message -r \"命令名称\"");
        reveal_with_fuel(lacks_pair_from, 90);
    }
    assert(pattern_shape(":cmd -- 要执行的命令内容:_default"@)) by {
        reveal_strlit(":cmd -- 要执行的命令内容:_default");
        reveal_with_fuel(lacks_char_from, 70);
        assert(":cmd -- 要执行的命令内容:_default"@.subrange(":cmd -- 要执行的命令内容:_default"@.len() - 9, ":cmd -- 要执行的命令内容:_default"@.len() as int) =~= default_anchor());
        assert(":cmd -- 要执行的命令内容:_default"@.take(9) =~= ":cmd -- 要执行的命令内容:_default"@.subrange(0, 9));
    }
    assert(replacement_shape(":cmd -- 要执行的命令内容:_message -r \"命令内容\""@)) by {
        reveal_strlit(":cmd -- 要执行的命令内容:_message -r \"命令内容\"");
        reveal_with_fuel(lacks_pair_from, 90);
    }
    assert(pattern_shape("::desc -- 命令描述:_default"@)) by {
        reveal_strlit("::desc -- 命令描述:_default");
        reveal_with_fuel(lacks_char_from, 70);
        assert("::desc -- 命令描述:_default"@.subrange("::desc -- 命令描述:_default"@.len() - 9, "::desc -- 命令描述:_default"@.len() as int) =~= default_anchor());
        assert("::desc -- 命令描述:_default"@.take(9) =~= "::desc -- 命令描述:_default"@.subrange(0, 9));
    }
    assert(replacement_shape("::desc -- 命令描述:_message -r \"命令描述\""@)) by {
        reveal_strlit("::desc -- 命令描述:_message -r \"命令描述\"");
        reveal_with_fuel(lacks_pair_from, 90);
    }
    assert(pattern_shape("::name -- 命令名称，留空则进入交互选择:_default"@)) by {
        reveal_strlit("::name -- 命令名称，留空则进入交互选择:_default");
        reveal_with_fuel(lacks_char_from, 70);
        assert("::name -- 命令名称，留空则进入交互选择:_default"@.subrange("::name -- 命令名称，留空则进入交互选择:_default"@.len() - 9, "::name -- 命令名称，留空则进入交互选择:_default"@.len() as int) =~= default_anchor());
        assert("::name -- 命令名称，留空则进入交互选择:_default"@.take(9) =~= "::name -- 命令名称，留空则进入交互选择:_default"@.subrange(0, 9));
    }
    assert(replacement_shape("::name -- 命令名称，留空则进入交互选择:_message -r \"命令名称\""@)) by {
        reveal_strlit("::name -- 命令名称，留空则进入交互选择:_message -r \"命令名称\"");
        reveal_with_fuel(lacks_pair_from, 90);
    }
}

#[verifier::spinoff_prover]
proof fn lemma_zsh_shapes_part4()
    ensures
        pattern_shape("::addr -- 代理地址，留空则使用配置中的地址:_default"@),
        replacement_shape("::addr -- 代理地址，留空则使用配置中的地址:_message -r \"代理地址\""@),
        pattern_shape(":shell -- 目标 shell：bash、zsh、powershell:_default"@),
        replacement_shape(":shell -- 目标 shell：bash、zsh、powershell:(bash zsh powershell)"@),
        pattern_shape(":name -- Variable name:_default"@),
        replacement_shape(":name -- Variable name:_message -r \"Variable name\""@),
        pattern_shape(":value -- Variable value:_default"@),
        replacement_shape(":value -- Variable value:_message -r \"Variable value\""@),
        pattern_shape("-d+[Variable description]:DESC:_default"@),
        replacement_shape("-d+[Variable description]:DESC:_message -r \"Variable description\""@),
        pattern_shape("--desc=[Variable description]:DESC:_default"@),
        replacement_shape("--desc=[Variable description]:DESC:_message -r \"Variable description\""@),
{
    assert(pattern_shape("::addr -- 代理地址，留空则使用配置中的地址:_default"@)) by {
        reveal_strlit("::addr -- 代理地址，留空则使用配置中的地址:_default");
        reveal_with_fuel(lacks_char_from, 70);
        assert("::addr -- 代理地址，留空则使用配置中的地址:_default"@.subrange("::addr -- 代理地址，留空则使用配置中的地址:_default"@.len() - 9, "::addr -- 代理地址，留空则使用配置中的地址:_default"@.len() as int) =~= default_anchor());
        assert("::addr -- 代理地址，留空则使用配置中的地址:_default"@.take(9) =~= "::addr -- 代理地址，留空则使用配置中的地址:_default"@.subrange(0, 9));
    }
    assert(replacement_shape("::addr -- 代理地址，留空则使用配置中的地址:_message -r \"代理地址\""@)) by {
        reveal_strlit("::addr -- 代理地址，留空则使用配置中的地址:_message -r \"代理地址\"");
        reveal_with_fuel(lacks_pair_from, 90);
    }
    assert(pattern_shape(":shell -- 目标 shell：bash、zsh、powershell:_default"@)) by {
        reveal_strlit(":shell -- 目标 shell：bash、zsh、powershell:_default");
        reveal_with_fuel(lacks_char_from, 70);
        assert(":shell -- 目标 shell：bash、zsh、powershell:_default"@.subrange(":shell -- 目标 shell：bash、zsh、powershell:_default"@.len() - 9, ":shell -- 目标 shell：bash、zsh、powershell:_default"@.len() as int) =~= default_anchor());
        assert(":shell -- 目标 shell：bash、zsh、powershell:_default"@.take(9) =~= ":shell -- 目标 shell：bash、zsh、powershell:_default"@.subrange(0, 9));
    }
    assert(replacement_shape(":shell -- 目标 shell：bash、zsh、powershell:(bash zsh powershell)"@)) by {
        reveal_strlit(":shell -- 目标 shell：bash、zsh、powershell:(bash zsh powershell)");
        reveal_with_fuel(lacks_pair_from, 90);
    }
    assert(pattern_shape(":name -- Variable name:_default"@)) by {
        reveal_strlit(":name -- Variable name:_default");
        reveal_with_fuel(lacks_char_from, 70);
        assert(":name -- Variable name:_default"@.subrange(":name -- Variable name:_default"@.len() - 9, ":name -- Variable name:_default"@.len() as int) =~= default_anchor());
        assert(":name -- Variable name:_default"@.take(9) =~= ":name -- Variable name:_default"@.subrange(0, 9));
    }
    assert(replacement_shape(":name -- Variable name:_message -r \"Variable name\""@)) by {
        reveal_strlit(":name -- Variable name:_message -r \"Variable name\"");
        reveal_with_fuel(lacks_pair_from, 90);
    }
    assert(pattern_shape(":value -- Variable value:_default"@)) by {
        reveal_strlit(":value -- Variable value:_default");
        reveal_with_fuel(lacks_char_from, 70);
        assert(":value -- Variable value:_default"@.subrange(":value -- Variable value:_default"@.len() - 9, ":value -- Variable value:_default"@.len() as int) =~= default_anchor());
        assert(":value -- Variable value:_default"@.take(9) =~= ":value -- Variable value:_default"@.subrange(0, 9));
    }
    assert(replacement_shape(":value -- Variable value:_message -r \"Variable value\""@)) by {
        reveal_strlit(":value -- Variable value:_message -r \"Variable value\"");
        reveal_with_fuel(lacks_pair_from, 90);
    }
    assert(pattern_shape("-d+[Variable description]:DESC:_default"@)) by {
        reveal_strlit("-d+[Variable description]:DESC:_default");
        reveal_with_fuel(lacks_char_from, 70);
        assert("-d+[Variable description]:DESC:_default"@.subrange("-d+[Variable description]:DESC:_default"@.len() - 9, "-d+[Variable description]:DESC:_default"@.len() as int) =~= default_anchor());
        assert("-d+[Variable description]:DESC:_default"@.take(9) =~= "-d+[Variable description]:DESC:_default"@.subrange(0, 9));
    }
    assert(replacement_shape("-d+[Variable description]:DESC:_message -r \"Variable description\""@)) by {
        reveal_strlit("-d+[Variable description]:DESC:_message -r \"Variable description\"");
        reveal_with_fuel(lacks_pair_from, 90);
    }
    assert(pattern_shape("--desc=[Variable description]:DESC:_default"@)) by {
        reveal_strlit("--desc=[Variable description]:DESC:_default");
        reveal_with_fuel(lacks_char_from, 70);
        assert("--desc=[Variable description]:DESC:_default"@.subrange("--desc=[Variable description]:DESC:_default"@.len() - 9, "--desc=[Variable description]:DESC:_default"@.len() as int) =~= default_anchor());
        assert("--desc=[Variable description]:DESC:_default"@.take(9) =~= "--desc=[Variable description]:DESC:_default"@.subrange(0, 9));
    }
    assert(replacement_shape("--desc=[Variable description]:DESC:_message -r \"Variable description\""@)) by {
        reveal_strlit("--desc=[Variable description]:DESC:_message -r \"Variable description\"");
        reveal_with_fuel(lacks_pair_from, 90);
    }
}

#[verifier::spinoff_prover]
proof fn lemma_zsh_shapes_part5()
    ensures
        pattern_shape("-t+[Comma-separated tags]:TAGS:_default"@),
        replacement_shape("-t+[Comma-separated tags]:TAGS:_message -r \"Comma-separated tags\""@),
        pattern_shape("--tags=[Comma-separated tags]:TAGS:_default"@),
        replacement_shape("--tags=[Comma-separated tags]:TAGS:_message -r \"Comma-separated tags\""@),
        pattern_shape(":name -- Show only the specified variable:_default"@),
        replacement_shape(":name -- Show only the specified variable:_message -r \"Variable name\""@),
        pattern_shape("-t+[Filter by tag]:TAG:_default"@),
        replacement_shape("-t+[Filter by tag]:TAG:_message -r \"Tag\""@),
        pattern_shape("--tag=[Filter by tag]:TAG:_default"@),
        replacement_shape("--tag=[Filter by tag]:TAG:_message -r \"Tag\""@),
        pattern_shape("(-a --all)-t+[Pause all variables with the tag]:TAG:_default"@),
        replacement_shape("(-a --all)-t+[Pause all variables with the tag]:TAG:_message -r \"Tag\""@),
{
    assert(pattern_shape("-t+[Comma-separated tags]:TAGS:_default"@)) by {
        reveal_strlit("-t+[Comma-separated tags]:TAGS:_default");
        reveal_with_fuel(lacks_char_from, 70);
        assert("-t+[Comma-separated tags]:TAGS:_default"@.subrange("-t+[Comma-separated tags]:TAGS:_default"@.len() - 9, "-t+[Comma-separated tags]:TAGS:_default"@.len() as int) =~= default_anchor());
        assert("-t+[Comma-separated tags]:TAGS:_default"@.take(9) =~= "-t+[Comma-separated tags]:TAGS:_default"@.subrange(0, 9));
    }
    assert(replacement_shape("-t+[Comma-separated tags]:TAGS:_message -r \"Comma-separated tags\""@)) by {
        reveal_strlit("-t+[Comma-separated tags]:TAGS:_message -r \"Comma-separated tags\"");
        reveal_with_fuel(lacks_pair_from, 90);
    }
    assert(pattern_shape("--tags=[Comma-separated tags]:TAGS:_default"@)) by {
        reveal_strlit("--tags=[Comma-separated tags]:TAGS:_default");
        reveal_with_fuel(lacks_char_from, 70);
        assert("--tags=[Comma-separated tags]:TAGS:_default"@.subrange("--tags=[Comma-separated tags]:TAGS:_default"@.len() - 9, "--tags=[Comma-separated tags]:TAGS:_default"@.len() as int) =~= default_anchor());
        assert("--tags=[Comma-separated tags]:TAGS:_default"@.take(9) =~= "--tags=[Comma-separated tags]:TAGS:_default"@.subrange(0, 9));
    }
    assert(replacement_shape("--tags=[Comma-separated tags]:TAGS:_message -r \"Comma-separated tags\""@)) by {
        reveal_strlit("--tags=[Comma-separated tags]:TAGS:_message -r \"Comma-separated tags\"");
        reveal_with_fuel(lacks_pair_from, 90);
    }
    assert(pattern_shape(":name -- Show only the specified variable:_default"@)) by {
        reveal_strlit(":name -- Show only the specified variable:_default");
        reveal_with_fuel(lacks_char_from, 70);
        assert(":name -- Show only the specified variable:_default"@.subrange(":name -- Show only the specified variable:_default"@.len() - 9, ":name -- Show only the specified variable:_default"@.len() as int) =~= default_anchor());
        assert(":name -- Show only the specified variable:_default"@.take(9) =~= ":name -- Show only the specified variable:_default"@.subrange(0, 9));
    }
    assert(replacement_shape(":name -- Show only the specified variable:_message -r \"Variable name\""@)) by {
        reveal_strlit(":name -- Show only the specified variable:_message -r \"Variable name\"");
        reveal_with_fuel(lacks_pair_from, 90);
    }
    assert(pattern_shape("-t+[Filter by tag]:TAG:_default"@)) by {
        reveal_strlit("-t+[Filter by tag]:TAG:_default");
        reveal_with_fuel(lacks_char_from, 70);
        assert("-t+[Filter by tag]:TAG:_default"@.subrange("-t+[Filter by tag]:TAG:_default"@.len() - 9, "-t+[Filter by tag]:TAG:_default"@.len() as int) =~= default_anchor());
        assert("-t+[Filter by tag]:TAG:_default"@.take(9) =~= "-t+[Filter by tag]:TAG:_default"@.subrange(0, 9));
    }
    assert(replacement_shape("-t+[Filter by tag]:TAG:_message -r \"Tag\""@)) by {
        reveal_strlit("-t+[Filter by tag]:TAG:_message -r \"Tag\"");
        reveal_with_fuel(lacks_pair_from, 90);
    }
    assert(pattern_shape("--tag=[Filter by tag]:TAG:_default"@)) by {
        reveal_strlit("--tag=[Filter by tag]:TAG:_default");
        reveal_with_fuel(lacks_char_from, 70);
        assert("--tag=[Filter by tag]:TAG:_default"@.subrange("--tag=[Filter by tag]:TAG:_default"@.len() - 9, "--tag=[Filter by tag]:TAG:_default"@.len() as int) =~= default_anchor());
        assert("--tag=[Filter by tag]:TAG:_default"@.take(9) =~= "--tag=[Filter by tag]:TAG:_default"@.subrange(0, 9));
    }
    assert(replacement_shape("--tag=[Filter by tag]:TAG:_message -r \"Tag\""@)) by {
        reveal_strlit("--tag=[Filter by tag]:TAG:_message -r \"Tag\"");
        reveal_with_fuel(lacks_pair_from, 90);
    }
    assert(pattern_shape("(-a --all)-t+[Pause all variables with the tag]:TAG:_default"@)) by {
        reveal_strlit("(-a --all)-t+[Pause all variables with the tag]:TAG:_default");
        reveal_with_fuel(lacks_char_from, 70);
        assert("(-a --all)-t+[Pause all variables with the tag]:TAG:_default"@.subrange("(-a --all)-t+[Pause all variables with the tag]:TAG:_default"@.len() - 9, "(-a --all)-t+[Pause all variables with the tag]:TAG:_default"@.len() as int) =~= default_anchor());
        assert("(-a --all)-t+[Pause all variables with the tag]:TAG:_default"@.take(9) =~= "(-a --all)-t+[Pause all variables with the tag]:TAG:_default"@.subrange(0, 9));
    }
    assert(replacement_shape("(-a --all)-t+[Pause all variables with the tag]:TAG:_message -r \"Tag\""@)) by {
        reveal_strlit("(-a --all)-t+[Pause all variables with the tag]:TAG:_message -r \"Tag\"");
        reveal_with_fuel(lacks_pair_from, 90);
    }
}

#[verifier::spinoff_prover]
proof fn lemma_zsh_shapes_part6()
    ensures
        pattern_shape("(-a --all)--tag=[Pause all variables with the tag]:TAG:_default"@),
        replacement_shape("(-a --all)--tag=[Pause all variables with the tag]:TAG:_message -r \"Tag\""@),
        pattern_shape("(-a --all)-t+[Resume all variables with the tag]:TAG:_default"@),
        replacement_shape("(-a --all)-t+[Resume all variables with the tag]:TAG:_message -r \"Tag\""@),
        pattern_shape("(-a --all)--tag=[Resume all variables with the tag]:TAG:_default"@),
        replacement_shape("(-a --all)--tag=[Resume all variables with the tag]:TAG:_message -r \"Tag\""@),
        pattern_shape("*::names -- One or more variable names:_default"@),
        replacement_shape("*::names -- One or more variable names:_message -r \"Variable name\""@),
        pattern_shape("-v+[New value]:VALUE:_default"@),
        replacement_shape("-v+[New value]:VALUE:_message -r \"New value\""@),
        pattern_shape("--value=[New value]:VALUE:_default"@),
        replacement_shape("--value=[New value]:VALUE:_message -r \"New value\""@),
{
    assert(pattern_shape("(-a --all)--tag=[Pause all variables with the tag]:TAG:_default"@)) by {
        reveal_strlit("(-a --all)--tag=[Pause all variables with the tag]:TAG:_default");
        reveal_with_fuel(lacks_char_from, 70);
        assert("(-a --all)--tag=[Pause all variables with the tag]:TAG:_default"@.subrange("(-a --all)--tag=[Pause all variables with the tag]:TAG:_default"@.len() - 9, "(-a --all)--tag=[Pause all variables with the tag]:TAG:_default"@.len() as int) =~= default_anchor());
        assert("(-a --all)--tag=[Pause all variables with the tag]:TAG:_default"@.take(9) =~= "(-a --all)--tag=[Pause all variables with the tag]:TAG:_default"@.subrange(0, 9));
    }
    assert(replacement_shape("(-a --all)--tag=[Pause all variables with the tag]:TAG:_message -r \"Tag\""@)) by {
        reveal_strlit("(-a --all)--tag=[Pause all variables with the tag]:TAG:_message -r \"Tag\"");
        reveal_with_fuel(lacks_pair_from, 90);
    }
    assert(pattern_shape("(-a --all)-t+[Resume all variables with the tag]:TAG:_default"@)) by {
        reveal_strlit("(-a --all)-t+[Resume all variables with the tag]:TAG:_default");
        reveal_with_fuel(lacks_char_from, 70);
        assert("(-a --all)-t+[Resume all variables with the tag]:TAG:_default"@.subrange("(-a --all)-t+[Resume all variables with the tag]:TAG:_default"@.len() - 9, "(-a --all)-t+[Resume all variables with the tag]:TAG:_default"@.len() as int) =~= default_anchor());
        assert("(-a --all)-t+[Resume all variables with the tag]:TAG:_default"@.take(9) =~= "(-a --all)-t+[Resume all variables with the tag]:TAG:_default"@.subrange(0, 9));
    }
    assert(replacement_shape("(-a --all)-t+[Resume all variables with the tag]:TAG:_message -r \"Tag\""@)) by {
        reveal_strlit("(-a --all)-t+[Resume all variables with the tag]:TAG:_message -r \"Tag\"");
        reveal_with_fuel(lacks_pair_from, 90);
    }
    assert(pattern_shape("(-a --all)--tag=[Resume all variables with the tag]:TAG:_default"@)) by {
        reveal_strlit("(-a --all)--tag=[Resume all variables with the tag]:TAG:_default");
        reveal_with_fuel(lacks_char_from, 70);
        assert("(-a --all)--tag=[Resume all variables with the tag]:TAG:_default"@.subrange("(-a --all)--tag=[Resume all variables with the tag]:TAG:_default"@.len() - 9, "(-a --all)--tag=[Resume all variables with the tag]:TAG:_default"@.len() as int) =~= default_anchor());
        assert("(-a --all)--tag=[Resume all variables with the tag]:TAG:_default"@.take(9) =~= "(-a --all)--tag=[Resume all variables with the tag]:TAG:_default"@.subrange(0, 9));
    }
    assert(replacement_shape("(-a --all)--tag=[Resume all variables with the tag]:TAG:_message -r \"Tag\""@)) by {
        reveal_strlit("(-a --all)--tag=[Resume all variables with the tag]:TAG:_message -r \"Tag\"");
        reveal_with_fuel(lacks_pair_from, 90);
    }
    assert(pattern_shape("*::names -- One or more variable names:_default"@)) by {
        reveal_strlit("*::names -- One or more variable names:_default");
        reveal_with_fuel(lacks_char_from, 70);
        assert("*::names -- One or more variable names:_default"@.subrange("*::names -- One or more variable names:_default"@.len() - 9, "*::names -- One or more variable names:_default"@.len() as int) =~= default_anchor());
        assert("*::names -- One or more variable names:_default"@.take(9) =~= "*::names -- One or more variable names:_default"@.subrange(0, 9));
    }
    assert(replacement_shape("*::names -- One or more variable names:_message -r \"Variable name\""@)) by {
        reveal_strlit("*::names -- One or more variable names:_message -r \"Variable name\"");
        reveal_with_fuel(lacks_pair_from, 90);
    }
    assert(pattern_shape("-v+[New value]:VALUE:_default"@)) by {
        reveal_strlit("-v+[New value]:VALUE:_default");
        reveal_with_fuel(lacks_char_from, 70);
        assert("-v+[New value]:VALUE:_default"@.subrange("-v+[New value]:VALUE:_default"@.len() - 9, "-v+[New value]:VALUE:_default"@.len() as int) =~= default_anchor());
        assert("-v+[New value]:VALUE:_default"@.take(9) =~= "-v+[New value]:VALUE:_default"@.subrange(0, 9));
    }
    assert(replacement_shape("-v+[New value]:VALUE:_message -r \"New value\""@)) by {
        reveal_strlit("-v+[New value]:VALUE:_message -r \"New value\"");
        reveal_with_fuel(lacks_pair_from, 90);
    }
    assert(pattern_shape("--value=[New value]:VALUE:_default"@)) by {
        reveal_strlit("--value=[New value]:VALUE:_default");
        reveal_with_fuel(lacks_char_from, 70);
        assert("--value=[New value]:VALUE:_default"@.subrange("--value=[New value]:VALUE:_default"@.len() - 9, "--value=[New value]:VALUE:_default"@.len() as int) =~= default_anchor());
        assert("--value=[New value]:VALUE:_default"@.take(9) =~= "--value=[New value]:VALUE:_default"@.subrange(0, 9));
    }
    assert(replacement_shape("--value=[New value]:VALUE:_message -r \"New value\""@)) by {
        reveal_strlit("--value=[New value]:VALUE:_message -r \"New value\"");
        reveal_with_fuel(lacks_pair_from, 90);
    }
}

#[verifier::spinoff_prover]
proof fn lemma_zsh_shapes_part7()
    ensures
        pattern_shape("-d+[New description]:DESC:_default"@),
        replacement_shape("-d+[New description]:DESC:_message -r \"New description\""@),
        pattern_shape("--desc=[New description]:DESC:_default"@),
        replacement_shape("--desc=[New description]:DESC:_message -r \"New description\""@),
        pattern_shape("-t+[New comma-separated tags]:TAGS:_default"@),
        replacement_shape("-t+[New comma-separated tags]:TAGS:_message -r \"New comma-separated tags\""@),
        pattern_shape("--tags=[New comma-separated tags]:TAGS:_default"@),
        replacement_shape("--tags=[New comma-separated tags]:TAGS:_message -r \"New comma-separated tags\""@),
        pattern_shape(":name -- Command name:_default"@),
        replacement_shape(":name -- Command name:_message -r \"Command name\""@),
        pattern_shape(":cmd -- Command body to execute:_default"@),
        replacement_shape(":cmd -- Command body to execute:_message -r \"Command body\""@),
{
    assert(pattern_shape("-d+[New description]:DESC:_default"@)) by {
        reveal_strlit("-d+[New description]:DESC:_default");
        reveal_with_fuel(lacks_char_from, 70);
        assert("-d+[New description]:DESC:_default"@.subrange("-d+[New description]:DESC:_default"@.len() - 9, "-d+[New description]:DESC:_default"@.len() as int) =~= default_anchor());
        assert("-d+[New description]:DESC:_default"@.take(9) =~= "-d+[New description]:DESC:_default"@.subrange(0, 9));
    }
    assert(replacement_shape("-d+[New description]:DESC:_message -r \"New description\""@)) by {
        reveal_strlit("-d+[New description]:DESC:_message -r \"New description\"");
        reveal_with_fuel(lacks_pair_from, 90);
    }
    assert(pattern_shape("--desc=[New description]:DESC:_default"@)) by {
        reveal_strlit("--desc=[New description]:DESC:_default");
        reveal_with_fuel(lacks_char_from, 70);
        assert("--desc=[New description]:DESC:_default"@.subrange("--desc=[New description]:DESC:_default"@.len() - 9, "--desc=[New description]:DESC:_default"@.len() as int) =~= default_anchor());
        assert("--desc=[New description]:DESC:_default"@.take(9) =~= "--desc=[New description]:DESC:_default"@.subrange(0, 9));
    }
    assert(replacement_shape("--desc=[New description]:DESC:_message -r \"New description\""@)) by {
        reveal_strlit("--desc=[New description]:DESC:_message -r \"New description\"");
        reveal_with_fuel(lacks_pair_from, 90);
    }
    assert(pattern_shape("-t+[New comma-separated tags]:TAGS:_default"@)) by {
        reveal_strlit("-t+[New comma-separated tags]:TAGS:_default");
        reveal_with_fuel(lacks_char_from, 70);
        assert("-t+[New comma-separated tags]:TAGS:_default"@.subrange("-t+[New comma-separated tags]:TAGS:_default"@.len() - 9, "-t+[New comma-separated tags]:TAGS:_default"@.len() as int) =~= default_anchor());
        assert("-t+[New comma-separated tags]:TAGS:_default"@.take(9) =~= "-t+[New comma-separated tags]:TAGS:_default"@.subrange(0, 9));
    }
    assert(replacement_shape("-t+[New comma-separated tags]:TAGS:_message -r \"New comma-separated tags\""@)) by {
        reveal_strlit("-t+[New comma-separated tags]:TAGS:_message -r \"New comma-separated tags\"");
        reveal_with_fuel(lacks_pair_from, 90);
    }
    assert(pattern_shape("--tags=[New comma-separated tags]:TAGS:_default"@)) by {
        reveal_strlit("--tags=[New comma-separated tags]:TAGS:_default");
        reveal_with_fuel(lacks_char_from, 70);
        assert("--tags=[New comma-separated tags]:TAGS:_default"@.subrange("--tags=[New comma-separated tags]:TAGS:_default"@.len() - 9, "--tags=[New comma-separated tags]:TAGS:_default"@.len() as int) =~= default_anchor());
        assert("--tags=[New comma-separated tags]:TAGS:_default"@.take(9) =~= "--tags=[New comma-separated tags]:TAGS:_default"@.subrange(0, 9));
    }
    assert(replacement_shape("--tags=[New comma-separated tags]:TAGS:_message -r \"New comma-separated tags\""@)) by {
        reveal_strlit("--tags=[New comma-separated tags]:TAGS:_message -r \"New comma-separated tags\"");
        reveal_with_fuel(lacks_pair_from, 90);
    }
    assert(pattern_shape(":name -- Command name:_default"@)) by {
        reveal_strlit(":name -- Command name:_default");
        reveal_with_fuel(lacks_char_from, 70);
        assert(":name -- Command name:_default"@.subrange(":name -- Command name:_default"@.len() - 9, ":name -- Command name:_default"@.len() as int) =~= default_anchor());
        assert(":name -- Command name:_default"@.take(9) =~= ":name -- Command name:_default"@.subrange(0, 9));
    }
    assert(replacement_shape(":name -- Command name:_message -r \"Command name\""@)) by {
        reveal_strlit(":name -- Command name:_message -r \"Command name\"");
        reveal_with_fuel(lacks_pair_from, 90);
    }
    assert(pattern_shape(":cmd -- Command body to execute:_default"@)) by {
        reveal_strlit(":cmd -- Command body to execute:_default");
        reveal_with_fuel(lacks_char_from, 70);
        assert(":cmd -- Command body to execute:_default"@.subrange(":cmd -- Command body to execute:_default"@.len() - 9, ":cmd -- Command body to execute:_default"@.len() as int) =~= default_anchor());
        assert(":cmd -- Command body to execute:_default"@.take(9) =~= ":cmd -- Command body to execute:_default"@.subrange(0, 9));
    }
    assert(replacement_shape(":cmd -- Command body to execute:_message -r \"Command body\""@)) by {
        reveal_strlit(":cmd -- Command body to execute:_message -r \"Command body\"");
        reveal_with_fuel(lacks_pair_from, 90);
    }
}

#[verifier::spinoff_prover]
proof fn lemma_zsh_shapes_part8()
    ensures
        pattern_shape("::desc -- Command description:_default"@),
        replacement_shape("::desc -- Command description:_message -r \"Command description\""@),
        pattern_shape("::name -- Command name; omit to use interactive selection:_default"@),
        replacement_shape("::name -- Command name; omit to use interactive selection:_message -r \"Command name\""@),
        pattern_shape("::addr -- Proxy address; defaults to configured value:_default"@),
        replacement_shape("::addr -- Proxy address; defaults to configured value:_message -r \"Proxy address\""@),
        pattern_shape(":shell -- Target shell: bash, zsh, powershell:_default"@),
        replacement_shape(":shell -- Target shell: bash, zsh, powershell:(bash zsh powershell)"@),
{
    assert(pattern_shape("::desc -- Command description:_default"@)) by {
        reveal_strlit("::desc -- Command description:_default");
        reveal_with_fuel(lacks_char_from, 70);
        assert("::desc -- Command description:_default"@.subrange("::desc -- Command description:_default"@.len() - 9, "::desc -- Command description:_default"@.len() as int) =~= default_anchor());
        assert("::desc -- Command description:_default"@.take(9) =~= "::desc -- Command description:_default"@.subrange(0, 9));
    }
    assert(replacement_shape("::desc -- Command description:_message -r \"Command description\""@)) by {
        reveal_strlit("::desc -- Command description:_message -r \"Command description\"");
        reveal_with_fuel(lacks_pair_from, 90);
    }
    assert(pattern_shape("::name -- Command name; omit to use interactive selection:_default"@)) by {
        reveal_strlit("::name -- Command name; omit to use interactive selection:_default");
        reveal_with_fuel(lacks_char_from, 70);
        assert("::name -- Command name; omit to use interactive selection:_default"@.subrange("::name -- Command name; omit to use interactive selection:_default"@.len() - 9, "::name -- Command name; omit to use interactive selection:_default"@.len() as int) =~= default_anchor());
        assert("::name -- Command name; omit to use interactive selection:_default"@.take(9) =~= "::name -- Command name; omit to use interactive selection:_default"@.subrange(0, 9));
    }
    assert(replacement_shape("::name -- Command name; omit to use interactive selection:_message -r \"Command name\""@)) by {
        reveal_strlit("::name -- Command name; omit to use interactive selection:_message -r \"Command name\"");
        reveal_with_fuel(lacks_pair_from, 90);
    }
    assert(pattern_shape("::addr -- Proxy address; defaults to configured value:_default"@)) by {
        reveal_strlit("::addr -- Proxy address; defaults to configured value:_default");
        reveal_with_fuel(lacks_char_from, 70);
        assert("::addr -- Proxy address; defaults to configured value:_default"@.subrange("::addr -- Proxy address; defaults to configured value:_default"@.len() - 9, "::addr -- Proxy address; defaults to configured value:_default"@.len() as int) =~= default_anchor());
        assert("::addr -- Proxy address; defaults to configured value:_default"@.take(9) =~= "::addr -- Proxy address; defaults to configured value:_default"@.subrange(0, 9));
    }
    assert(replacement_shape("::addr -- Proxy address; defaults to configured value:_message -r \"Proxy address\""@)) by {
        reveal_strlit("::addr -- Proxy address; defaults to configured value:_message -r \"Proxy address\"");
        reveal_with_fuel(lacks_pair_from, 90);
    }
    assert(pattern_shape(":shell -- Target shell: bash, zsh, powershell:_default"@)) by {
        reveal_strlit(":shell -- Target shell: bash, zsh, powershell:_default");
        reveal_with_fuel(lacks_char_from, 70);
        assert(":shell -- Target shell: bash, zsh, powershell:_default"@.subrange(":shell -- Target shell: bash, zsh, powershell:_default"@.len() - 9, ":shell -- Target shell: bash, zsh, powershell:_default"@.len() as int) =~= default_anchor());
        assert(":shell -- Target shell: bash, zsh, powershell:_default"@.take(9) =~= ":shell -- Target shell: bash, zsh, powershell:_default"@.subrange(0, 9));
    }
    assert(replacement_shape(":shell -- Target shell: bash, zsh, powershell:(bash zsh powershell)"@)) by {
        reveal_strlit(":shell -- Target shell: bash, zsh, powershell:(bash zsh powershell)");
        reveal_with_fuel(lacks_pair_from, 90);
    }
}

/// Every pattern and replacement of the zsh adjustments has the common shape
/// (see `pattern_shape` and `replacement_shape`).
pub proof fn lemma_zsh_shapes()
    ensures
        forall|i: int| 0 <= i < zsh_replacements().len() ==> pattern_shape(#[trigger] zsh_replacements()[i].0)
            && replacement_shape(zsh_replacements()[i].1),
{
    lemma_zsh_shapes_part0();
    lemma_zsh_shapes_part1();
    lemma_zsh_shapes_part2();
    lemma_zsh_shapes_part3();
    lemma_zsh_shapes_part4();
    lemma_zsh_shapes_part5();
    lemma_zsh_shapes_part6();
    lemma_zsh_shapes_part7();
    lemma_zsh_shapes_part8();
    assert forall|i: int| 0 <= i < zsh_replacements().len() implies pattern_shape(#[trigger] zsh_replacements()[i].0)
        && replacement_shape(zsh_replacements()[i].1) by {
        if i == 0 {} else if i == 1 {} else if i == 2 {} else if i == 3 {} else if i == 4 {} else if i == 5 {} else if i == 6 {} else if i == 7 {} else if i == 8 {} else if i == 9 {} else if i == 10 {} else if i == 11 {} else if i == 12 {} else if i == 13 {} else if i == 14 {} else if i == 15 {} else if i == 16 {} else if i == 17 {} else if i == 18 {} else if i == 19 {} else if i == 20 {} else if i == 21 {} else if i == 22 {} else if i == 23 {} else if i == 24 {} else if i == 25 {} else if i == 26 {} else if i == 27 {} else if i == 28 {} else if i == 29 {} else if i == 30 {} else if i == 31 {} else if i == 32 {} else if i == 33 {} else if i == 34 {} else if i == 35 {} else if i == 36 {} else if i == 37 {} else if i == 38 {} else if i == 39 {} else if i == 40 {} else if i == 41 {} else if i == 42 {} else if i == 43 {} else if i == 44 {} else if i == 45 {} else if i == 46 {} else if i == 47 {} else if i == 48 {} else if i == 49 {} else if i == 50 {} else if i == 51 {}
    }
}

} // verus!
