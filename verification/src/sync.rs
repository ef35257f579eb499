//! Keeping the configuration repository in step with its remote: the git
//! commands that `ax push`, `ax pull` and `ax config remote` run, and what
//! each outcome leads to.
//!
//! Running git is left to the caller: these functions say which command to
//! run next and, once it has run, what follows from its outcome.
use vstd::prelude::*;

use crate::text::{contains, owned_strings, str_contains, trim, trim_str};

verus! {

/// Where a push stands: which git command it is waiting on.
pub enum PushState {
    /// `git add -A`
    Adding,
    /// `git diff --cached --quiet`
    CheckingStaged,
    /// `git commit`
    Committing,
    /// `git log @{u}..HEAD --oneline`, after a commit or none.
    CheckingUnpushed { has_changes: bool },
    /// `git branch --show-current`
    ReadingBranch,
    /// `git rev-parse --abbrev-ref @{u}`, with the current branch.
    CheckingUpstream { branch: String },
    /// `git push`
    Pushing,
    /// Nothing more to run.
    Finished,
}

/// A push state for specifications.
pub enum PushStateView {
    Adding,
    CheckingStaged,
    Committing,
    CheckingUnpushed { has_changes: bool },
    ReadingBranch,
    CheckingUpstream { branch: Seq<char> },
    Pushing,
    Finished,
}

impl View for PushState {
    type V = PushStateView;

    open spec fn view(&self) -> PushStateView {
        match self {
            PushState::Adding => PushStateView::Adding,
            PushState::CheckingStaged => PushStateView::CheckingStaged,
            PushState::Committing => PushStateView::Committing,
            PushState::CheckingUnpushed { has_changes } => PushStateView::CheckingUnpushed {
                has_changes: *has_changes,
            },
            PushState::ReadingBranch => PushStateView::ReadingBranch,
            PushState::CheckingUpstream { branch } => PushStateView::CheckingUpstream { branch: branch@ },
            PushState::Pushing => PushStateView::Pushing,
            PushState::Finished => PushStateView::Finished,
        }
    }
}

/// What to do next: run git with these arguments in the configuration
/// directory, or stop with a message to print (`Ok`) or an error (`Err`).
pub enum GitStep {
    Run(Vec<String>),
    Done(Result<String, String>),
}

/// A step for specifications.
pub enum GitStepView {
    Run(Seq<Seq<char>>),
    Done(Result<Seq<char>, Seq<char>>),
}

impl View for GitStep {
    type V = GitStepView;

    open spec fn view(&self) -> GitStepView {
        match self {
            GitStep::Run(args) => GitStepView::Run(crate::text::views(args@)),
            GitStep::Done(Ok(m)) => GitStepView::Done(Ok(m@)),
            GitStep::Done(Err(e)) => GitStepView::Done(Err(e@)),
        }
    }
}

/// The error given when the configuration directory is not a git repository.
pub open spec fn not_initialized() -> Seq<char> {
    "配置目录未初始化，请先运行 ax config init"@
}

/// The arguments of `git log @{u}..HEAD --oneline`.
pub open spec fn log_unpushed_args() -> Seq<Seq<char>> {
    seq!["log"@, "@{u}..HEAD"@, "--oneline"@]
}

/// How a push begins: an error when the configuration directory is not a
/// git repository, otherwise `git add -A`.
pub open spec fn push_begin(git_dir_exists: bool) -> (PushStateView, GitStepView) {
    if !git_dir_exists {
        (PushStateView::Finished, GitStepView::Done(Err(not_initialized())))
    } else {
        (PushStateView::Adding, GitStepView::Run(seq!["add"@, "-A"@]))
    }
}

/// What follows the outcome of the command a push was waiting on. `spawned`
/// says whether git could be run at all; `stderr` holds its error output, or
/// the error that kept it from running.
pub open spec fn push_next(
    state: PushStateView,
    spawned: bool,
    success: bool,
    stdout: Seq<char>,
    stderr: Seq<char>,
) -> (PushStateView, GitStepView) {
    match state {
        PushStateView::Adding => if !spawned {
            (PushStateView::Finished, GitStepView::Done(Err("git add 失败"@)))
        } else if !success {
            (PushStateView::Finished, GitStepView::Done(Err("git add 失败: "@ + stderr)))
        } else {
            (PushStateView::CheckingStaged, GitStepView::Run(seq!["diff"@, "--cached"@, "--quiet"@]))
        },
        PushStateView::CheckingStaged => if spawned && success {
            (PushStateView::CheckingUnpushed { has_changes: false }, GitStepView::Run(log_unpushed_args()))
        } else {
            (
                PushStateView::Committing,
                GitStepView::Run(seq!["commit"@, "-m"@, "sync: ax-cli config"@]),
            )
        },
        PushStateView::Committing => if spawned && success {
            (PushStateView::CheckingUnpushed { has_changes: true }, GitStepView::Run(log_unpushed_args()))
        } else {
            (PushStateView::Finished, GitStepView::Done(Err("提交失败: "@ + stderr)))
        },
        PushStateView::CheckingUnpushed { has_changes } => if !has_changes && !(spawned && trim(stdout).len()
            > 0) {
            (PushStateView::Finished, GitStepView::Done(Ok("⏭️  没有变更需要推送\n"@)))
        } else {
            (PushStateView::ReadingBranch, GitStepView::Run(seq!["branch"@, "--show-current"@]))
        },
        PushStateView::ReadingBranch => if !spawned {
            (PushStateView::Finished, GitStepView::Done(Err("获取当前分支失败"@)))
        } else {
            (
                PushStateView::CheckingUpstream { branch: trim(stdout) },
                GitStepView::Run(seq!["rev-parse"@, "--abbrev-ref"@, "@{u}"@]),
            )
        },
        PushStateView::CheckingUpstream { branch } => if spawned && success {
            (PushStateView::Pushing, GitStepView::Run(seq!["push"@, "origin"@, "HEAD"@]))
        } else {
            (PushStateView::Pushing, GitStepView::Run(seq!["push"@, "-u"@, "origin"@, branch]))
        },
        PushStateView::Pushing => if success {
            (PushStateView::Finished, GitStepView::Done(Ok("☁️  已推送到远程仓库\n"@)))
        } else if contains(stderr, "no remote"@) {
            (
                PushStateView::Finished,
                GitStepView::Done(Ok("⚠️  推送失败，请先设置远程仓库：\n   ax config remote <url>\n"@)),
            )
        } else {
            (PushStateView::Finished, GitStepView::Done(Ok("⚠️  推送失败: "@ + stderr + "\n"@)))
        },
        PushStateView::Finished => (PushStateView::Finished, GitStepView::Done(Ok(Seq::empty()))),
    }
}

fn concat(a: &str, b: &str) -> (r: String)
    ensures
        r@ == a@ + b@,
{
    let mut r = a.to_owned();
    crate::text::push_str(&mut r, b);
    r
}

/// How `ax push` begins (see `push_begin`).
pub fn push_start(git_dir_exists: bool) -> (r: (PushState, GitStep))
    ensures
        (r.0@, r.1@) == push_begin(git_dir_exists),
{
    if !git_dir_exists {
        (PushState::Finished, GitStep::Done(Err("配置目录未初始化，请先运行 ax config init".to_owned())))
    } else {
        let a = owned_strings(&["add", "-A"]);
        assert(crate::text::views(a@) =~= seq!["add"@, "-A"@]);
        (PushState::Adding, GitStep::Run(a))
    }
}

/// What follows the outcome of the git command that a push was waiting on
/// (see `push_next`). A failed `git push` is reported, not returned as an
/// error.
pub fn push_step(state: PushState, spawned: bool, success: bool, stdout: &str, stderr: &str) -> (r: (
    PushState,
    GitStep,
))
    requires
        !(state is Finished),
        state is Pushing ==> spawned,
    ensures
        (r.0@, r.1@) == push_next(state@, spawned, success, stdout@, stderr@),
{
    match state {
        PushState::Adding => {
            if !spawned {
                (PushState::Finished, GitStep::Done(Err("git add 失败".to_owned())))
            } else if !success {
                (PushState::Finished, GitStep::Done(Err(concat("git add 失败: ", stderr))))
            } else {
                let a = owned_strings(&["diff", "--cached", "--quiet"]);
                assert(crate::text::views(a@) =~= seq!["diff"@, "--cached"@, "--quiet"@]);
                (PushState::CheckingStaged, GitStep::Run(a))
            }
        },
        PushState::CheckingStaged => {
            if spawned && success {
                let a = owned_strings(&["log", "@{u}..HEAD", "--oneline"]);
                assert(crate::text::views(a@) =~= log_unpushed_args());
                (PushState::CheckingUnpushed { has_changes: false }, GitStep::Run(a))
            } else {
                let a = owned_strings(&["commit", "-m", "sync: ax-cli config"]);
                assert(crate::text::views(a@) =~= seq!["commit"@, "-m"@, "sync: ax-cli config"@]);
                (PushState::Committing, GitStep::Run(a))
            }
        },
        PushState::Committing => {
            if spawned && success {
                let a = owned_strings(&["log", "@{u}..HEAD", "--oneline"]);
                assert(crate::text::views(a@) =~= log_unpushed_args());
                (PushState::CheckingUnpushed { has_changes: true }, GitStep::Run(a))
            } else {
                (PushState::Finished, GitStep::Done(Err(concat("提交失败: ", stderr))))
            }
        },
        PushState::CheckingUnpushed { has_changes } => {
            let has_unpushed = spawned && !trim_str(stdout).as_str().is_empty();
            if !has_changes && !has_unpushed {
                (PushState::Finished, GitStep::Done(Ok("⏭️  没有变更需要推送\n".to_owned())))
            } else {
                let a = owned_strings(&["branch", "--show-current"]);
                assert(crate::text::views(a@) =~= seq!["branch"@, "--show-current"@]);
                (PushState::ReadingBranch, GitStep::Run(a))
            }
        },
        PushState::ReadingBranch => {
            if !spawned {
                (PushState::Finished, GitStep::Done(Err("获取当前分支失败".to_owned())))
            } else {
                let a = owned_strings(&["rev-parse", "--abbrev-ref", "@{u}"]);
                assert(crate::text::views(a@) =~= seq!["rev-parse"@, "--abbrev-ref"@, "@{u}"@]);
                (PushState::CheckingUpstream { branch: trim_str(stdout) }, GitStep::Run(a))
            }
        },
        PushState::CheckingUpstream { branch } => {
            if spawned && success {
                let a = owned_strings(&["push", "origin", "HEAD"]);
                assert(crate::text::views(a@) =~= seq!["push"@, "origin"@, "HEAD"@]);
                (PushState::Pushing, GitStep::Run(a))
            } else {
                let mut a = owned_strings(&["push", "-u", "origin"]);
                let ghost b = branch@;
                let ghost a0 = a@;
                a.push(branch);
                assert(crate::text::views(a@) =~= crate::text::views(a0).push(b));
                assert(crate::text::views(a@) =~= seq!["push"@, "-u"@, "origin"@, b]);
                (PushState::Pushing, GitStep::Run(a))
            }
        },
        PushState::Pushing => {
            if success {
                (PushState::Finished, GitStep::Done(Ok("☁️  已推送到远程仓库\n".to_owned())))
            } else if str_contains(stderr, "no remote") {
                (
                    PushState::Finished,
                    GitStep::Done(Ok("⚠️  推送失败，请先设置远程仓库：\n   ax config remote <url>\n".to_owned())),
                )
            } else {
                let mut m = concat("⚠️  推送失败: ", stderr);
                crate::text::push_str(&mut m, "\n");
                (PushState::Finished, GitStep::Done(Ok(m)))
            }
        },
        PushState::Finished => (PushState::Finished, GitStep::Done(Ok(String::new()))),
    }
}

/// The arguments of `git pull --rebase --quiet`.
pub open spec fn pull_args() -> Seq<Seq<char>> {
    seq!["pull"@, "--rebase"@, "--quiet"@]
}

/// The git command that `ax pull` runs.
pub fn pull_command() -> (r: Vec<String>)
    ensures
        crate::text::views(r@) == pull_args(),
{
    let a = owned_strings(&["pull", "--rebase", "--quiet"]);
    assert(crate::text::views(a@) =~= pull_args());
    a
}

/// What `ax pull` reports for the outcome of `git pull`: the error that kept
/// git from running, or a message to print.
pub open spec fn pull_report(spawned: bool, success: bool, stderr: Seq<char>) -> Result<Seq<char>, Seq<char>> {
    if !spawned {
        Err(stderr)
    } else if success {
        Ok("📦 配置已更新\n"@)
    } else if contains(stderr, "no remote"@) || contains(stderr, "fatal"@) {
        Ok("⚠️  拉取失败，可能需要先设置远程仓库：\n   ax config remote <url>\n"@)
    } else {
        Ok("📦 已是最新或拉取失败\n"@)
    }
}

/// What `ax pull` reports for the outcome of `git pull` (see `pull_report`).
pub fn pull_outcome(spawned: bool, success: bool, stderr: &str) -> (r: Result<String, String>)
    ensures
        match (r, pull_report(spawned, success, stderr@)) {
            (Ok(m), Ok(n)) => m@ == n,
            (Err(e), Err(f)) => e@ == f,
            _ => false,
        },
{
    if !spawned {
        Err(stderr.to_owned())
    } else if success {
        Ok("📦 配置已更新\n".to_owned())
    } else if str_contains(stderr, "no remote") || str_contains(stderr, "fatal") {
        Ok("⚠️  拉取失败，可能需要先设置远程仓库：\n   ax config remote <url>\n".to_owned())
    } else {
        Ok("📦 已是最新或拉取失败\n".to_owned())
    }
}

/// Setting the remote: `git remote set-url` when `origin` already has a
/// URL (the lookup ran and printed one), `git remote add` otherwise, each
/// with what is printed after it.
pub open spec fn remote_update(url: Seq<char>, lookup_spawned: bool, lookup_stdout: Seq<char>) -> (
    Seq<Seq<char>>,
    Seq<char>,
) {
    if lookup_spawned && lookup_stdout.len() > 0 {
        (seq!["remote"@, "set-url"@, "origin"@, url], "✅ 远程仓库已更新: "@ + url + "\n"@)
    } else {
        (seq!["remote"@, "add"@, "origin"@, url], "✅ 远程仓库已设置: "@ + url + "\n"@)
    }
}

/// The git command that sets the remote to `url`, and what is printed after
/// it (see `remote_update`).
pub fn remote_set_command(url: &str, lookup_spawned: bool, lookup_stdout: &str) -> (r: (Vec<String>, String))
    ensures
        (crate::text::views(r.0@), r.1@) == remote_update(url@, lookup_spawned, lookup_stdout@),
{
    if lookup_spawned && !lookup_stdout.is_empty() {
        let mut a = owned_strings(&["remote", "set-url", "origin"]);
        let ghost a0 = a@;
        a.push(url.to_owned());
        assert(crate::text::views(a@) =~= crate::text::views(a0).push(url@));
        assert(crate::text::views(a@) =~= seq!["remote"@, "set-url"@, "origin"@, url@]);
        let mut m = concat("✅ 远程仓库已更新: ", url);
        crate::text::push_str(&mut m, "\n");
        (a, m)
    } else {
        let mut a = owned_strings(&["remote", "add", "origin"]);
        let ghost a0 = a@;
        a.push(url.to_owned());
        assert(crate::text::views(a@) =~= crate::text::views(a0).push(url@));
        assert(crate::text::views(a@) =~= seq!["remote"@, "add"@, "origin"@, url@]);
        let mut m = concat("✅ 远程仓库已设置: ", url);
        crate::text::push_str(&mut m, "\n");
        (a, m)
    }
}

/// What `ax config remote` prints without a URL, from the output of
/// `git remote get-url origin`.
pub open spec fn remote_show_text(stdout: Seq<char>) -> Seq<char> {
    if stdout.len() == 0 {
        "未设置远程仓库\n"@
    } else {
        trim(stdout) + "\n"@
    }
}

/// What `ax config remote` prints without a URL (see `remote_show_text`).
pub fn remote_show(stdout: &str) -> (r: String)
    ensures
        r@ == remote_show_text(stdout@),
{
    if stdout.is_empty() {
        "未设置远程仓库\n".to_owned()
    } else {
        let mut t = trim_str(stdout);
        crate::text::push_str(&mut t, "\n");
        t
    }
}

// ---------------------------------------------------------------------------
// The older automatic sync: copying the configuration into a separate clone
// of the repository, committing there and pushing in the background.
// ---------------------------------------------------------------------------

/// The files the automatic sync copies into the clone, by their path
/// relative to the configuration directory (the same in the clone).
pub open spec fn auto_sync_files_spec() -> Seq<Seq<char>> {
    seq!["config.yaml"@, "config.d/commands.yaml"@, "bash/.zshrc"@, "wezterm/wezterm.lua"@]
}

/// The files the automatic sync copies into the clone (see
/// `auto_sync_files_spec`); besides them it copies the `packages` directory.
pub fn auto_sync_files() -> (r: Vec<&'static str>)
    ensures
        r@.map_values(|p: &str| p@) == auto_sync_files_spec(),
{
    let r = vec!["config.yaml", "config.d/commands.yaml", "bash/.zshrc", "wezterm/wezterm.lua"];
    assert(r@.map_values(|p: &str| p@) =~= auto_sync_files_spec());
    r
}

/// What the automatic sync does first.
#[derive(Clone, Copy, Debug, PartialEq, Eq, Structural)]
pub enum AutoSyncStart {
    /// `auto_sync` is off: nothing is done.
    Off,
    /// The clone is missing: clone the repository first, then copy.
    CloneThenCopy,
    /// The clone exists: copy.
    Copy,
}

/// The automatic sync runs only with `auto_sync` on, and clones the
/// repository first when the clone has no `.git`.
pub fn auto_sync_start(auto_sync: bool, clone_exists: bool) -> (r: AutoSyncStart)
    ensures
        r == (if !auto_sync {
            AutoSyncStart::Off
        } else if !clone_exists {
            AutoSyncStart::CloneThenCopy
        } else {
            AutoSyncStart::Copy
        }),
{
    if !auto_sync {
        AutoSyncStart::Off
    } else if !clone_exists {
        AutoSyncStart::CloneThenCopy
    } else {
        AutoSyncStart::Copy
    }
}

/// The arguments of the `git` command that clones the repository `remote`
/// into `local_dir`.
pub fn auto_sync_clone_args(remote: &str, local_dir: &str) -> (r: Vec<String>)
    ensures
        crate::text::views(r@) == seq!["clone"@, "--quiet"@, remote@, local_dir@],
{
    let r = vec!["clone".to_owned(), "--quiet".to_owned(), remote.to_owned(), local_dir.to_owned()];
    assert(crate::text::views(r@) =~= seq!["clone"@, "--quiet"@, remote@, local_dir@]);
    r
}

/// Whether the automatic sync commits: only on top of an existing commit,
/// and only when the staged tree differs from it (`changes` is the number of
/// differing entries). A commit is followed by a push in the background.
pub fn auto_sync_commits(has_head_commit: bool, changes: usize) -> (r: bool)
    ensures
        r == (has_head_commit && changes > 0),
{
    has_head_commit && changes > 0
}

/// The message of the automatic sync's commit.
pub fn auto_sync_commit_message() -> (r: &'static str)
    ensures
        r@ == "sync: ax-cli config"@,
{
    "sync: ax-cli config"
}

} // verus!
