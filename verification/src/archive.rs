//! Exporting the configuration as a tar.gz archive and importing one: the
//! archive's name and place, the commands that pack and unpack it, and what
//! happens to each unpacked entry.
use vstd::prelude::*;

use crate::paths::{expand_home, expand_home_with, join, path_join};
use crate::text::{decimal, push_str, starts_with, str_eq, to_decimal, views};

verus! {

/// The archive's file name: the one given, or
/// `ax-cli-config-<seconds since the epoch>.tar.gz`.
pub open spec fn export_name_of(output: Option<Seq<char>>, timestamp: nat) -> Seq<char> {
    match output {
        Some(o) => o,
        None => "ax-cli-config-"@ + decimal(timestamp) + ".tar.gz"@,
    }
}

/// The archive's file name (see `export_name_of`).
pub fn export_file_name(output: Option<&str>, timestamp: u64) -> (r: String)
    ensures
        r@ == export_name_of(crate::config::opt_view(output), timestamp as nat),
{
    match output {
        Some(o) => o.to_owned(),
        None => {
            let mut r = "ax-cli-config-".to_owned();
            let t = to_decimal(timestamp);
            push_str(&mut r, t.as_str());
            push_str(&mut r, ".tar.gz");
            r
        },
    }
}

/// Where the archive is written: a name starting with `/` or `~` is taken
/// as a path (with `~/` expanded), any other name is put in the current
/// directory.
pub open spec fn export_path_of(filename: Seq<char>, home: Option<Seq<char>>, cwd: Seq<char>) -> Seq<char> {
    if starts_with(filename, "/"@) || starts_with(filename, "~"@) {
        expand_home(filename, home)
    } else {
        path_join(cwd, filename)
    }
}

/// Where the archive is written (see `export_path_of`).
pub fn export_path(filename: &str, home: Option<&str>, cwd: &str) -> (r: String)
    ensures
        r@ == export_path_of(filename@, crate::config::opt_view(home), cwd@),
{
    let v = crate::text::chars_of(filename);
    let slash = crate::text::chars_of("/");
    let tilde = crate::text::chars_of("~");
    if crate::text::has_prefix(&v, &slash) || crate::text::has_prefix(&v, &tilde) {
        expand_home_with(filename, home)
    } else {
        join(cwd, filename)
    }
}

/// The shell script that packs a git configuration directory with
/// `git archive`, leaving out the `ax` binary unless it is wanted.
pub open spec fn git_archive_script_of(cdir: Seq<char>, output_file: Seq<char>, with_binary: bool) -> Seq<char> {
    "cd '"@ + cdir + "' && git archive --format=tar.gz HEAD -o '"@ + output_file + "' "@ + (if with_binary {
        Seq::<char>::empty()
    } else {
        " -- . ':!ax'"@
    })
}

/// The shell script that packs the configuration with `git archive` (see
/// `git_archive_script_of`).
pub fn git_archive_script(cdir: &str, output_file: &str, with_binary: bool) -> (r: String)
    ensures
        r@ == git_archive_script_of(cdir@, output_file@, with_binary),
{
    let mut r = "cd '".to_owned();
    push_str(&mut r, cdir);
    push_str(&mut r, "' && git archive --format=tar.gz HEAD -o '");
    push_str(&mut r, output_file);
    push_str(&mut r, "' ");
    if !with_binary {
        push_str(&mut r, " -- . ':!ax'");
    }
    r
}

/// The arguments of `tar` that pack the directory `dir` into `output_file`.
pub open spec fn tar_create_of(output_file: Seq<char>, dir: Seq<char>) -> Seq<Seq<char>> {
    seq!["-czf"@, output_file, "-C"@, dir, "."@]
}

/// The arguments of `tar` that unpack `archive` into the directory `dir`.
pub open spec fn tar_extract_of(archive: Seq<char>, dir: Seq<char>) -> Seq<Seq<char>> {
    seq!["-xzf"@, archive, "-C"@, dir]
}

/// The arguments of `tar` that pack `dir` into `output_file`.
pub fn tar_create_args(output_file: &str, dir: &str) -> (r: Vec<String>)
    ensures
        views(r@) == tar_create_of(output_file@, dir@),
{
    let r = vec!["-czf".to_owned(), output_file.to_owned(), "-C".to_owned(), dir.to_owned(), ".".to_owned()];
    assert(views(r@) =~= tar_create_of(output_file@, dir@));
    r
}

/// The arguments of `tar` that unpack `archive` into `dir`.
pub fn tar_extract_args(archive: &str, dir: &str) -> (r: Vec<String>)
    ensures
        views(r@) == tar_extract_of(archive@, dir@),
{
    let r = vec!["-xzf".to_owned(), archive.to_owned(), "-C".to_owned(), dir.to_owned()];
    assert(views(r@) =~= tar_extract_of(archive@, dir@));
    r
}

/// The file name of the `ax` binary.
pub fn binary_name(windows: bool) -> (r: &'static str)
    ensures
        r@ == (if windows {
            "ax.exe"@
        } else {
            "ax"@
        }),
{
    if windows {
        "ax.exe"
    } else {
        "ax"
    }
}

/// Whether a file of the configuration directory is left out of an archive
/// made without git: the `.git` directory.
pub fn excluded_from_export(name: &str) -> (r: bool)
    ensures
        r == (name@ == ".git"@),
{
    str_eq(name, ".git")
}

/// What happens to an entry of an unpacked archive.
#[derive(Clone, Copy, Debug, PartialEq, Eq, Structural)]
pub enum ImportStep {
    /// The `bin` directory at the top is not imported.
    Skip,
    /// A directory is merged into the one of the same name.
    MergeDir,
    /// A file that the configuration lacks is copied.
    CopyFile,
    /// A file that the configuration has is kept as it is.
    KeepExisting,
}

/// What happens to an unpacked entry: `bin` at the top is skipped,
/// directories are merged, and files are copied only where nothing of that
/// name exists.
pub open spec fn import_step_of(name: Seq<char>, top_level: bool, is_dir: bool, dst_exists: bool) -> ImportStep {
    if top_level && name == "bin"@ {
        ImportStep::Skip
    } else if is_dir {
        ImportStep::MergeDir
    } else if dst_exists {
        ImportStep::KeepExisting
    } else {
        ImportStep::CopyFile
    }
}

/// What happens to an unpacked entry (see `import_step_of`).
pub fn import_step(name: &str, top_level: bool, is_dir: bool, dst_exists: bool) -> (r: ImportStep)
    ensures
        r == import_step_of(name@, top_level, is_dir, dst_exists),
{
    if top_level && str_eq(name, "bin") {
        ImportStep::Skip
    } else if is_dir {
        ImportStep::MergeDir
    } else if dst_exists {
        ImportStep::KeepExisting
    } else {
        ImportStep::CopyFile
    }
}

/// The line that reports how many files were imported.
pub fn imported_count_line(count: u32) -> (r: String)
    ensures
        r@ == "   ✅ 导入了 "@ + decimal(count as nat) + " 个文件\n"@,
{
    let mut r = "   ✅ 导入了 ".to_owned();
    let c = to_decimal(count as u64);
    push_str(&mut r, c.as_str());
    push_str(&mut r, " 个文件\n");
    r
}

} // verus!
