//! The configuration model: the sections of `config.yaml`, the command,
//! environment and SSH host tables, their defaults, and how the tables and
//! the configuration directory are put together.
use vstd::prelude::*;

use crate::paths::{expand_home, expand_home_with, join, path_join};
use crate::strmap::StrMap;
use crate::text::{char_is_alphanumeric, chars_of, is_alphanumeric, push_str, replace, replace_all};

verus! {

/// A custom command: the shell text it runs and a description.
pub struct CommandEntry {
    pub cmd: String,
    pub desc: String,
}

/// Commands by name.
pub type CommandMap = StrMap<CommandEntry>;

/// An environment variable: its value, a description, tags that group it,
/// and whether it is paused (left out of `ax env load`).
pub struct EnvEntry {
    pub value: String,
    pub desc: String,
    pub tags: Vec<String>,
    pub paused: bool,
}

/// Environment variables by name.
pub type EnvMap = StrMap<EnvEntry>;

/// How an SSH host is logged into.
#[derive(Clone, Copy, Debug, PartialEq, Eq, Structural)]
pub enum SshAuth {
    Key,
    Password,
}

impl SshAuth {
    /// The name of the method as the configuration writes it.
    pub open spec fn spec_name(self) -> Seq<char> {
        match self {
            SshAuth::Key => "key"@,
            SshAuth::Password => "password"@,
        }
    }

    /// The name of the method as the configuration writes it.
    pub fn as_str(&self) -> (r: &'static str)
        ensures
            r@ == self.spec_name(),
    {
        match self {
            SshAuth::Key => "key",
            SshAuth::Password => "password",
        }
    }
}

impl Default for SshAuth {
    fn default() -> (r: Self)
        ensures
            r == SshAuth::Key,
    {
        SshAuth::Key
    }
}

/// A saved SSH connection.
pub struct SshHostEntry {
    pub host: String,
    pub user: String,
    pub port: u16,
    pub auth: SshAuth,
    pub password: String,
    pub key: String,
    pub desc: String,
}

/// SSH connections by name.
pub type SshHostMap = StrMap<SshHostEntry>;

/// The port an SSH host uses when none is given.
pub fn default_ssh_port() -> (r: u16)
    ensures
        r == 22,
{
    22
}

impl Default for SshHostEntry {
    fn default() -> (r: Self)
        ensures
            r.host@.len() == 0,
            r.user@.len() == 0,
            r.port == 22,
            r.auth == SshAuth::Key,
            r.password@.len() == 0,
            r.key@.len() == 0,
            r.desc@.len() == 0,
    {
        SshHostEntry {
            host: String::new(),
            user: String::new(),
            port: default_ssh_port(),
            auth: SshAuth::Key,
            password: String::new(),
            key: String::new(),
            desc: String::new(),
        }
    }
}

/// A zsh plugin and the repository it is cloned from.
pub struct PluginEntry {
    pub name: String,
    pub url: String,
}

/// A file of the configuration directory linked to a place in the home directory.
pub struct LinkEntry {
    pub src: String,
    pub dst: String,
    pub optional: bool,
}

/// The `ax` section: automatic sync and the commands defined in `config.yaml`.
pub struct AxConfig {
    pub auto_sync: bool,
    pub commands: CommandMap,
}

impl Default for AxConfig {
    fn default() -> (r: Self)
        ensures
            r.auto_sync,
            r.commands.wf(),
            r.commands@.len() == 0,
    {
        AxConfig { auto_sync: true, commands: StrMap::new() }
    }
}

/// The `proxy` section.
pub struct ProxyConfig {
    pub address: String,
    pub no_proxy: String,
}

/// The proxy settings used when the configuration gives none.
pub open spec fn default_proxy_config(p: ProxyConfig) -> bool {
    &&& p.address@ == "http://vpn.yushe.ai:7890"@
    &&& p.no_proxy@ == "localhost,127.0.0.1,10.0.0.0/8,172.16.0.0/12,192.168.0.0/16,*.local"@
}

impl Default for ProxyConfig {
    fn default() -> (r: Self)
        ensures
            default_proxy_config(r),
    {
        ProxyConfig {
            address: "http://vpn.yushe.ai:7890".to_owned(),
            no_proxy: "localhost,127.0.0.1,10.0.0.0/8,172.16.0.0/12,192.168.0.0/16,*.local".to_owned(),
        }
    }
}

/// The `shell` section: the default shell and its plugins.
pub struct ShellConfig {
    pub default: String,
    pub plugins: Vec<PluginEntry>,
}

/// The shell settings used when the configuration gives none: zsh with
/// three plugins.
pub open spec fn default_shell_config(s: ShellConfig) -> bool {
    &&& s.default@ == "zsh"@
    &&& s.plugins@.len() == 3
    &&& s.plugins@[0].name@ == "zsh-autosuggestions"@
    &&& s.plugins@[0].url@ == "https://github.com/zsh-users/zsh-autosuggestions"@
    &&& s.plugins@[1].name@ == "zsh-syntax-highlighting"@
    &&& s.plugins@[1].url@ == "https://github.com/zsh-users/zsh-syntax-highlighting"@
    &&& s.plugins@[2].name@ == "zsh-completions"@
    &&& s.plugins@[2].url@ == "https://github.com/zsh-users/zsh-completions"@
}

impl Default for ShellConfig {
    fn default() -> (r: Self)
        ensures
            default_shell_config(r),
    {
        ShellConfig {
            default: "zsh".to_owned(),
            plugins: vec![
                PluginEntry {
                    name: "zsh-autosuggestions".to_owned(),
                    url: "https://github.com/zsh-users/zsh-autosuggestions".to_owned(),
                },
                PluginEntry {
                    name: "zsh-syntax-highlighting".to_owned(),
                    url: "https://github.com/zsh-users/zsh-syntax-highlighting".to_owned(),
                },
                PluginEntry {
                    name: "zsh-completions".to_owned(),
                    url: "https://github.com/zsh-users/zsh-completions".to_owned(),
                },
            ],
        }
    }
}

/// The `packages` section: where package lists live (filled in at load time).
pub struct PackagesConfig {
    pub dir: String,
}

impl Default for PackagesConfig {
    fn default() -> (r: Self)
        ensures
            r.dir@.len() == 0,
    {
        PackagesConfig { dir: String::new() }
    }
}

/// The `deploy` section: where replaced files are backed up (filled in at
/// load time) and which files are linked.
pub struct DeployConfig {
    pub backup_dir: String,
    pub links: Vec<LinkEntry>,
}

/// The deployment settings used when the configuration gives none: no
/// backup directory yet, and three links.
pub open spec fn default_deploy_config(d: DeployConfig) -> bool {
    &&& d.backup_dir@.len() == 0
    &&& d.links@.len() == 3
    &&& d.links@[0].src@ == "wezterm/wezterm.lua"@
    &&& d.links@[0].dst@ == "~/.config/wezterm/wezterm.lua"@
    &&& !d.links@[0].optional
    &&& d.links@[1].src@ == "git/.gitconfig"@
    &&& d.links@[1].dst@ == "~/.gitconfig"@
    &&& d.links@[1].optional
    &&& d.links@[2].src@ == "tmux/tmux.conf"@
    &&& d.links@[2].dst@ == "~/.config/tmux/tmux.conf"@
    &&& d.links@[2].optional
}

impl Default for DeployConfig {
    fn default() -> (r: Self)
        ensures
            default_deploy_config(r),
    {
        DeployConfig {
            backup_dir: String::new(),
            links: vec![
                LinkEntry {
                    src: "wezterm/wezterm.lua".to_owned(),
                    dst: "~/.config/wezterm/wezterm.lua".to_owned(),
                    optional: false,
                },
                LinkEntry {
                    src: "git/.gitconfig".to_owned(),
                    dst: "~/.gitconfig".to_owned(),
                    optional: true,
                },
                LinkEntry {
                    src: "tmux/tmux.conf".to_owned(),
                    dst: "~/.config/tmux/tmux.conf".to_owned(),
                    optional: true,
                },
            ],
        }
    }
}

/// The whole configuration.
pub struct Config {
    pub ax: AxConfig,
    pub proxy: ProxyConfig,
    pub shell: ShellConfig,
    pub packages: PackagesConfig,
    pub deploy: DeployConfig,
    /// Environment variables defined directly in `config.yaml`.
    pub env: EnvMap,
}

impl Config {
    /// The command and environment tables keep their keys in order.
    pub open spec fn wf(&self) -> bool {
        self.ax.commands.wf() && self.env.wf()
    }
}

impl Default for Config {
    fn default() -> (r: Self)
        ensures
            r.wf(),
            r.ax.auto_sync,
            r.ax.commands@.len() == 0,
            r.env@.len() == 0,
            default_proxy_config(r.proxy),
            default_shell_config(r.shell),
            r.packages.dir@.len() == 0,
            default_deploy_config(r.deploy),
    {
        Config {
            ax: AxConfig::default(),
            proxy: ProxyConfig::default(),
            shell: ShellConfig::default(),
            packages: PackagesConfig::default(),
            deploy: DeployConfig::default(),
            env: StrMap::new(),
        }
    }
}

/// The backup directory used when the configuration names none.
pub open spec fn default_backup_dir() -> Seq<char> {
    "~/.ax-backup-$(date +%Y%m%d%H%M%S)"@
}

/// Loads and completes the configuration.
pub struct ConfigLoader;

impl ConfigLoader {
    /// Fills in the paths that the configuration leaves empty: the package
    /// lists live in `packages` under the configuration directory `cdir`, and
    /// backups go to a dated directory in the home directory.
    pub fn fill_defaults(config: Config, cdir: &str) -> (r: Config)
        ensures
            r.packages.dir@ == (if config.packages.dir@.len() == 0 {
                path_join(cdir@, "packages"@)
            } else {
                config.packages.dir@
            }),
            r.deploy.backup_dir@ == (if config.deploy.backup_dir@.len() == 0 {
                default_backup_dir()
            } else {
                config.deploy.backup_dir@
            }),
            r.ax == config.ax,
            r.proxy == config.proxy,
            r.shell == config.shell,
            r.env == config.env,
            r.deploy.links == config.deploy.links,
    {
        let mut config = config;
        if config.packages.dir.as_str().is_empty() {
            config.packages.dir = join(cdir, "packages");
        }
        if config.deploy.backup_dir.as_str().is_empty() {
            config.deploy.backup_dir = "~/.ax-backup-$(date +%Y%m%d%H%M%S)".to_owned();
        }
        config
    }
}

/// The commands of `config.yaml` with those of the command file laid over
/// them: a name in both takes the command file's entry.
pub fn merge_commands(base: CommandMap, extra: CommandMap) -> (r: CommandMap)
    requires
        base.wf(),
    ensures
        r.wf(),
        r.map() == base.map().union_prefer_right(extra.map()),
{
    let mut map = base;
    map.extend(extra);
    map
}

/// The environment variables of `config.yaml` with those of the environment
/// file laid over them: a name in both takes the environment file's entry.
pub fn merge_env(base: EnvMap, extra: EnvMap) -> (r: EnvMap)
    requires
        base.wf(),
    ensures
        r.wf(),
        r.map() == base.map().union_prefer_right(extra.map()),
{
    let mut map = base;
    map.extend(extra);
    map
}

/// The configuration directory: `AX_CONFIG_DIR` (with `~` expanded) when it
/// is set; otherwise `axconfig` in the platform's data directory (Windows) or
/// configuration directory (elsewhere); otherwise `.config/axconfig` in the
/// home directory, or in `.` when there is no home directory.
pub open spec fn config_dir_of(
    ax_config_dir: Option<Seq<char>>,
    windows: bool,
    data_dir: Option<Seq<char>>,
    config_dir: Option<Seq<char>>,
    home: Option<Seq<char>>,
) -> Seq<char> {
    if ax_config_dir is Some {
        expand_home(ax_config_dir->0, home)
    } else if windows && data_dir is Some {
        path_join(data_dir->0, "axconfig"@)
    } else if !windows && config_dir is Some {
        path_join(config_dir->0, "axconfig"@)
    } else {
        path_join(
            path_join(
                if home is Some {
                    home->0
                } else {
                    "."@
                },
                ".config"@,
            ),
            "axconfig"@,
        )
    }
}

/// The view of an optional string.
pub open spec fn opt_view(o: Option<&str>) -> Option<Seq<char>> {
    match o {
        Some(s) => Some(s@),
        None => None,
    }
}

/// Decides the configuration directory from what the environment gives:
/// the value of `AX_CONFIG_DIR`, whether this is Windows, and the platform's
/// data, configuration and home directories.
pub fn config_dir_from(
    ax_config_dir: Option<&str>,
    windows: bool,
    data_dir: Option<&str>,
    config_dir: Option<&str>,
    home: Option<&str>,
) -> (r: String)
    ensures
        r@ == config_dir_of(
            opt_view(ax_config_dir),
            windows,
            opt_view(data_dir),
            opt_view(config_dir),
            opt_view(home),
        ),
{
    if let Some(d) = ax_config_dir {
        return expand_home_with(d, home);
    }
    if windows {
        if let Some(d) = data_dir {
            return join(d, "axconfig");
        }
    } else {
        if let Some(d) = config_dir {
            return join(d, "axconfig");
        }
    }
    let base = match home {
        Some(h) => join(h, ".config"),
        None => join(".", ".config"),
    };
    join(&base, "axconfig")
}

/// A name that may become a shell function: letters, digits, `-` and `_` only.
pub open spec fn valid_command_name(n: Seq<char>) -> bool {
    forall|i: int| 0 <= i < n.len() ==> char_is_alphanumeric(#[trigger] n[i]) || n[i] == '-' || n[i] == '_'
}

/// The shell function for one command: it runs the command through `eval`
/// inside single quotes, each `'` of the command written as `'\''`.
pub open spec fn function_text(name: Seq<char>, cmd: Seq<char>) -> Seq<char> {
    name + "() {\n  eval '"@ + replace(cmd, "'"@, "'\\''"@) + "'\n}\n\n"@
}

/// The functions for the commands with valid names, in the order given.
pub open spec fn functions_of(entries: Seq<(Seq<char>, CommandEntry)>) -> Seq<char>
    decreases entries.len(),
{
    if entries.len() == 0 {
        seq![]
    } else {
        (if valid_command_name(entries[0].0) {
            function_text(entries[0].0, entries[0].1.cmd@)
        } else {
            seq![]
        }) + functions_of(entries.drop_first())
    }
}

/// The names that cannot become shell functions, in the order given.
pub open spec fn invalid_names(entries: Seq<(Seq<char>, CommandEntry)>) -> Seq<Seq<char>>
    decreases entries.len(),
{
    if entries.len() == 0 {
        seq![]
    } else {
        (if valid_command_name(entries[0].0) {
            seq![]
        } else {
            seq![entries[0].0]
        }) + invalid_names(entries.drop_first())
    }
}

/// The first line of the generated functions file.
pub open spec fn functions_header() -> Seq<char> {
    "# ax-cli 自定义命令（自动生成，请勿手动编辑）\n\n"@
}

/// The functions file for a command table: empty for no commands, otherwise
/// the header and one function per validly named command, in name order.
pub open spec fn functions_file(entries: Seq<(Seq<char>, CommandEntry)>) -> Seq<char> {
    if entries.len() == 0 {
        seq![]
    } else {
        functions_header() + functions_of(entries)
    }
}

/// Whether a command name may become a shell function.
pub fn is_valid_command_name(name: &str) -> (r: bool)
    ensures
        r == valid_command_name(name@),
{
    let v = chars_of(name);
    let mut i: usize = 0;
    while i < v.len()
        invariant
            v@ == name@,
            i <= v@.len(),
            forall|j: int| 0 <= j < i ==> char_is_alphanumeric(#[trigger] v@[j]) || v@[j] == '-' || v@[j]
                == '_',
        decreases v.len() - i,
    {
        let c = v[i];
        if !(is_alphanumeric(c) || c == '-' || c == '_') {
            return false;
        }
        i = i + 1;
    }
    true
}

/// The shell functions file for the commands, and the names that were left
/// out because they cannot be function names.
pub fn render_command_functions(map: &CommandMap) -> (r: (String, Vec<String>))
    ensures
        r.0@ == functions_file(map@),
        crate::text::views(r.1@) == invalid_names(map@),
{
    let mut skipped: Vec<String> = Vec::new();
    if map.is_empty() {
        return (String::new(), skipped);
    }
    let mut out = "# ax-cli 自定义命令（自动生成，请勿手动编辑）\n\n".to_owned();
    let ghost all = map@;
    let n = map.len();
    let mut i: usize = 0;
    proof {
        reveal_strlit("'");
        assert(all.skip(0) =~= all);
    }
    while i < n
        invariant
            n == all.len(),
            all == map@,
            i <= n,
            "'"@.len() > 0,
            functions_file(all) == out@ + functions_of(all.skip(i as int)),
            invalid_names(all) == crate::text::views(skipped@) + invalid_names(all.skip(i as int)),
        decreases n - i,
    {
        let name = map.key_at(i);
        let entry = map.value_at(i);
        let ghost rest = all.skip(i as int);
        assert(rest[0] == all[i as int]);
        assert(rest.drop_first() =~= all.skip(i + 1));
        if is_valid_command_name(name.as_str()) {
            let escaped = replace_all(entry.cmd.as_str(), "'", "'\\''");
            push_str(&mut out, name.as_str());
            push_str(&mut out, "() {\n  eval '");
            push_str(&mut out, escaped.as_str());
            push_str(&mut out, "'\n}\n\n");
        } else {
            let ghost old_skipped = skipped@;
            skipped.push(name.clone());
            assert(crate::text::views(skipped@) =~= crate::text::views(old_skipped).push(name@));
        }
        i = i + 1;
    }
    assert(all.skip(n as int) =~= Seq::<(Seq<char>, CommandEntry)>::empty());
    (out, skipped)
}

} // verus!
