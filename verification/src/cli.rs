//! The command line: its commands and actions, and the language of its help.
use vstd::prelude::*;

use crate::text::{chars_of, has_prefix_ignore_ascii_case, lower_seq, starts_with};

verus! {

/// The language of help texts and completion descriptions.
#[derive(Clone, Copy, Debug, PartialEq, Eq, Structural)]
pub enum Language {
    ZhCn,
    En,
}

/// The parsed command line.
pub struct Cli {
    pub command: Option<Commands>,
}

/// The top-level commands.
#[allow(inconsistent_fields)]
pub enum Commands {
    /// Config repository management (init, remote, push, pull, export, import).
    Config { action: ConfigAction },
    /// Environment variables.
    Env { action: EnvAction },
    /// Add a custom command.
    Add {
        name: String,
        cmd: Option<String>,
        desc: Option<String>,
        file: Option<String>,
        raw: bool,
    },
    /// Edit a custom command.
    Edit { name: String },
    /// List the custom commands.
    List { quiet: bool },
    /// Remove a custom command.
    Rm { name: String },
    /// Run a custom command, or choose one interactively.
    Run { name: Option<String> },
    /// Refresh the shell functions of the custom commands.
    Link,
    /// Push the configuration to its remote.
    Push,
    /// Pull the configuration from its remote.
    Pull,
    /// Install packages and tools and deploy the configuration.
    Install { extras: bool },
    /// Proxy variables.
    Proxy { action: ProxyAction },
    /// Generate and install shell completion.
    Completion { shell: String, print: bool },
    /// Show the configuration and its paths.
    Info,
}

/// The actions of `ax config`.
pub enum ConfigAction {
    Init { force: bool },
    Remote { url: Option<String> },
    Push,
    Pull,
    Export { with_binary: bool, output: Option<String> },
    Import { file: String },
    Path,
}

/// The actions of `ax env`.
#[allow(inconsistent_fields)]
pub enum EnvAction {
    Add { name: String, value: String, desc: Option<String>, tags: Option<String> },
    Edit { name: String, value: Option<String>, desc: Option<String>, tags: Option<String> },
    Rm { names: Vec<String> },
    Show { name: Option<String>, tag: Option<String>, all: bool },
    Pause { names: Vec<String>, tag: Option<String>, all: bool },
    Resume { names: Vec<String>, tag: Option<String>, all: bool },
    Load,
    Tags,
}

/// The actions of `ax proxy`.
pub enum ProxyAction {
    On { addr: Option<String> },
    Off,
    Status,
}

/// The language chosen by locale values in order of precedence (`AX_LANG`,
/// `LC_ALL`, `LC_MESSAGES`, `LANG`): the first value that begins with `en`
/// or `zh`, ignoring ASCII case, decides; without one, Chinese.
pub open spec fn language_of(values: Seq<Seq<char>>) -> Language
    decreases values.len(),
{
    if values.len() == 0 {
        Language::ZhCn
    } else if starts_with(lower_seq(values[0]), "en"@) {
        Language::En
    } else if starts_with(lower_seq(values[0]), "zh"@) {
        Language::ZhCn
    } else {
        language_of(values.drop_first())
    }
}

/// Chooses the help language from the locale values that are set, in order
/// of precedence.
pub fn current_language_from(values: Vec<String>) -> (r: Language)
    ensures
        r == language_of(crate::text::views(values@)),
{
    let en = chars_of("en");
    let zh = chars_of("zh");
    let ghost all = crate::text::views(values@);
    let mut i: usize = 0;
    assert(all.skip(0) =~= all);
    while i < values.len()
        invariant
            i <= values@.len(),
            all == crate::text::views(values@),
            en@ == "en"@,
            zh@ == "zh"@,
            language_of(all) == language_of(all.skip(i as int)),
        decreases values.len() - i,
    {
        let v = chars_of(values[i].as_str());
        let ghost rest = all.skip(i as int);
        assert(rest[0] == v@);
        assert(rest.drop_first() =~= all.skip(i + 1));
        if has_prefix_ignore_ascii_case(&v, &en) {
            return Language::En;
        }
        if has_prefix_ignore_ascii_case(&v, &zh) {
            return Language::ZhCn;
        }
        i = i + 1;
    }
    Language::ZhCn
}

} // verus!
