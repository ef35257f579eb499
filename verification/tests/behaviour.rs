use ax_cli::cli::{current_language_from, Language, ProxyAction};
use ax_cli::commands::{add_command, cmd_source, existing_command_notice, AddOutcome, command_name, parse_number, AddError, CmdSource, MultilineInput};
use ax_cli::config::{
    merge_commands, render_command_functions, CommandEntry, CommandMap, Config, ConfigLoader, EnvEntry, EnvMap,
    SshAuth, SshHostEntry, SshHostMap,
};
use ax_cli::detect::{os_id_from, os_name_from, os_release_field, packages_file, pkg_manager, Platform};
use ax_cli::env::{env_edit, env_remove, env_shell_type_from, shell_escape, EnvError};
use ax_cli::install::{backup_relative, is_shell_entrypoint, link_action, paths_equal, LinkAction};
use ax_cli::paths::{join, path_file_name, path_with_file_name};
use ax_cli::proxy::{apply_hint, bash_escape, is_powershell_from, proxy_output, ps_escape, shell_from_name, ShellType};
use ax_cli::ssh::{connect_plan, public_key_path, render_ssh_list, ssh_add, ssh_rm, SshError};
use ax_cli::strmap::{key_less, StrMap};
use ax_cli::text::{to_decimal, trim_str};
use ax_cli::yaml::{file_extension, is_yaml_file, yaml_files};

fn env_entry(value: &str) -> EnvEntry {
    EnvEntry { value: value.to_string(), desc: String::new(), tags: Vec::new(), paused: false }
}

#[test]
fn language_comes_from_the_first_decisive_locale() {
    assert_eq!(current_language_from(vec!["C".to_string(), "EN_gb".to_string()]), Language::En);
    assert_eq!(current_language_from(vec!["zh_CN".to_string(), "en_US".to_string()]), Language::ZhCn);
    assert_eq!(current_language_from(vec!["fr_FR".to_string()]), Language::ZhCn);
}

#[test]
fn table_keeps_keys_in_order() {
    let mut m: StrMap<u32> = StrMap::new();
    m.insert("b".to_string(), 2);
    m.insert("a".to_string(), 1);
    m.insert("c".to_string(), 3);
    m.insert("b".to_string(), 20);
    assert_eq!(m.keys(), vec!["a", "b", "c"]);
    assert_eq!(m.get("b"), Some(&20));
    assert_eq!(m.remove("a"), Some(1));
    assert_eq!(m.remove("a"), None);
    assert_eq!(m.len(), 2);
    assert!(key_less("a", "ab") && key_less("B", "a") && !key_less("b", "b"));
}

#[test]
fn adding_commands() {
    let mut m: CommandMap = StrMap::new();
    assert_eq!(command_name("foo", false), "ax-foo");
    assert_eq!(command_name("foo", true), "foo");
    assert!(matches!(add_command(&mut m, "ax-x", "  \n", ""), Err(AddError::EmptyCommand)));
    assert!(m.is_empty());
    assert!(matches!(add_command(&mut m, "ax-x", "ls -la", "list"), Ok(AddOutcome::Added)));
    assert_eq!(m.get("ax-x").unwrap().cmd, "ls -la");
    assert!(existing_command_notice(&m, "ax-y").is_none());
    assert_eq!(
        existing_command_notice(&m, "ax-x"),
        Some("⚠️  命令 'ax-x' 已存在，请先删除或使用 edit".to_string())
    );
    assert!(matches!(add_command(&mut m, "ax-x", "pwd", "other"), Ok(AddOutcome::AlreadyExists)));
    assert_eq!(m.get("ax-x").unwrap().cmd, "ls -la");
    assert_eq!(m.get("ax-x").unwrap().desc, "list");
    assert!(matches!(add_command(&mut m, "ax-x", "  ", ""), Ok(AddOutcome::AlreadyExists)));
    assert_eq!(AddError::EmptyCommand.message(), "命令内容不能为空");
    assert_eq!(AddError::CommandAndFile.message(), "不能同时指定命令内容和 -f 参数");
}

#[test]
fn where_a_command_comes_from() {
    assert!(matches!(cmd_source(None, Some("f.sh")), Ok(CmdSource::File(p)) if p == "f.sh"));
    assert!(matches!(cmd_source(Some("-"), None), Ok(CmdSource::Stdin)));
    assert!(matches!(cmd_source(Some("ls"), None), Ok(CmdSource::Text(t)) if t == "ls"));
    assert!(matches!(cmd_source(None, None), Ok(CmdSource::Interactive)));
    assert!(matches!(cmd_source(Some("ls"), Some("f")), Err(AddError::CommandAndFile)));
}

#[test]
fn typed_lines_end_at_a_blank_line() {
    let mut input = MultilineInput::new();
    assert!(input.push_line("cd /tmp  \n"));
    assert!(input.push_line("ls\n"));
    assert!(!input.push_line("   \n"));
    assert_eq!(input.finish(), "cd /tmp\nls");
}

#[test]
fn numbers_are_read_in_decimal() {
    assert_eq!(parse_number("42"), Some(42));
    assert_eq!(parse_number("007"), Some(7));
    assert_eq!(parse_number("4x"), None);
    assert_eq!(parse_number(""), None);
    assert_eq!(parse_number("99999999999999999999999"), None);
}

#[test]
fn shell_functions_for_commands() {
    let mut m: CommandMap = StrMap::new();
    m.insert("ax-hi".to_string(), CommandEntry { cmd: "echo 'hi'".to_string(), desc: String::new() });
    m.insert("bad name".to_string(), CommandEntry { cmd: "x".to_string(), desc: String::new() });
    let (text, skipped) = render_command_functions(&m);
    assert_eq!(
        text,
        "# ax-cli 自定义命令（自动生成，请勿手动编辑）\n\nax-hi() {\n  eval 'echo '\\''hi'\\'''\n}\n\n"
    );
    assert_eq!(skipped, vec!["bad name"]);
    assert_eq!(render_command_functions(&StrMap::new()).0, "");
}

#[test]
fn later_command_tables_win() {
    let mut a: CommandMap = StrMap::new();
    a.insert("x".to_string(), CommandEntry { cmd: "1".to_string(), desc: String::new() });
    a.insert("y".to_string(), CommandEntry { cmd: "2".to_string(), desc: String::new() });
    let mut b: CommandMap = StrMap::new();
    b.insert("y".to_string(), CommandEntry { cmd: "3".to_string(), desc: String::new() });
    let m = merge_commands(a, b);
    assert_eq!(m.get("x").unwrap().cmd, "1");
    assert_eq!(m.get("y").unwrap().cmd, "3");
}

#[test]
fn defaults_fill_empty_paths() {
    let c = ConfigLoader::fill_defaults(Config::default(), "/cfg");
    assert_eq!(c.packages.dir, "/cfg/packages");
    assert_eq!(c.deploy.backup_dir, "~/.ax-backup-$(date +%Y%m%d%H%M%S)");
    assert_eq!(c.proxy.address, "http://vpn.yushe.ai:7890");
    assert_eq!(c.deploy.links.len(), 3);
}

#[test]
fn editing_and_removing_variables() {
    let mut m: EnvMap = StrMap::new();
    m.insert("A".to_string(), env_entry("1"));
    assert!(matches!(env_edit(&mut m, "B", Some("2"), None, None), Err(EnvError::NotFound(n)) if n == "B"));
    assert_eq!(EnvError::NotFound("B".to_string()).message(), "❌ 未找到: B");
    let tags = vec!["t".to_string()];
    assert!(env_edit(&mut m, "A", None, Some("d"), Some(&tags)).is_ok());
    let e = m.get("A").unwrap();
    assert_eq!((e.value.as_str(), e.desc.as_str(), e.tags.clone()), ("1", "d", vec!["t".to_string()]));
    let found = env_remove(&mut m, &vec!["A".to_string(), "Z".to_string(), "A".to_string()]);
    assert_eq!(found, vec![true, false, false]);
    assert!(m.is_empty());
}

#[test]
fn shells_are_told_apart() {
    assert_eq!(shell_from_name("PWSH"), ShellType::PowerShell);
    assert_eq!(shell_from_name("cmd.exe"), ShellType::Cmd);
    assert_eq!(shell_from_name("fish"), ShellType::Bash);
    assert_eq!(env_shell_type_from(Some("Cmd"), "/bin/bash", false, false, ""), ShellType::Cmd);
    assert_eq!(env_shell_type_from(None, "/usr/bin/pwsh", false, false, ""), ShellType::PowerShell);
    assert_eq!(env_shell_type_from(None, "", true, true, "$P$G"), ShellType::Cmd);
    assert_eq!(env_shell_type_from(None, "", true, true, ""), ShellType::PowerShell);
    assert_eq!(env_shell_type_from(None, "/bin/zsh", false, true, ""), ShellType::Bash);
}

#[test]
fn values_are_quoted_for_each_shell() {
    assert_eq!(bash_escape("plain"), "plain");
    assert_eq!(bash_escape("it's"), "'it'\\''s'");
    assert_eq!(bash_escape("a;b"), "'a;b'");
    assert_eq!(bash_escape("x\ny"), "'x\ny'");
    assert_eq!(bash_escape("*"), "'*'");
    assert_eq!(bash_escape("~/bin"), "'~/bin'");
    assert_eq!(bash_escape("http://u@h:80/p?q=1&r=2"), "'http://u@h:80/p?q=1&r=2'");
    assert_eq!(bash_escape("user,host-1.local"), "user,host-1.local");
    assert_eq!(bash_escape("$HOME"), "'$HOME'");
    assert_eq!(ps_escape("say \"hi\""), "say `\"hi`\"");
    assert_eq!(shell_escape("it's"), "'it'\\''s'");
    assert_eq!(shell_escape("a|b"), "'a|b'");
}

#[test]
fn proxy_output_depends_on_the_terminal() {
    let config = Config::default();
    let on = ProxyAction::On { addr: Some("http://p:1".to_string()) };
    let hint = proxy_output(&on, &config, ShellType::Bash, true, None, None);
    assert_eq!(hint, apply_hint(ShellType::Bash, true, "http://p:1"));
    assert!(hint.contains("请执行: eval \"$(ax proxy on)\"\n目标代理: http://p:1\n"));
    let script = proxy_output(&ProxyAction::On { addr: None }, &config, ShellType::Cmd, false, None, None);
    assert!(script.starts_with("set http_proxy=http://vpn.yushe.ai:7890\n"));
    assert_eq!(
        proxy_output(&ProxyAction::Status, &config, ShellType::Bash, true, Some("x"), None),
        "🟢 Proxy: x\n   no_proxy: \n"
    );
    assert_eq!(proxy_output(&ProxyAction::Status, &config, ShellType::Bash, true, None, Some("y")), "🔴 Proxy: OFF\n");
}

#[test]
fn system_details_from_os_release() {
    let release = "NAME=\"Ubuntu\"\nVERSION_ID=\"24.04\"\nID=ubuntu\n";
    assert_eq!(os_release_field(release, "ID="), Some("ubuntu".to_string()));
    assert_eq!(os_release_field(release, "HOME_URL="), None);
    assert_eq!(os_id_from(Platform::Linux, Some(release)), "ubuntu");
    assert_eq!(os_name_from(Platform::Linux, Some(release)), "Ubuntu");
    assert_eq!(os_id_from(Platform::Linux, None), "unknown");
    assert_eq!(os_id_from(Platform::MacOs, Some(release)), "macos");
    assert_eq!(os_name_from(Platform::Windows, None), "Windows");
    assert_eq!(pkg_manager("pop"), "apt");
    assert_eq!(pkg_manager("rocky"), "dnf");
    assert_eq!(pkg_manager("endeavouros"), "pacman");
    assert_eq!(pkg_manager("macos"), "brew");
    assert_eq!(pkg_manager("gentoo"), "unknown");
    assert_eq!(packages_file("macos"), "packages/brew.txt");
    assert_eq!(packages_file("windows"), "packages/choco.txt");
    assert_eq!(packages_file("fedora"), "packages/fedora.txt");
}

#[test]
fn startup_files_are_never_linked() {
    assert!(is_shell_entrypoint("/home/u/.zshrc", Some("/home/u")));
    assert!(is_shell_entrypoint("/home/u//.bashrc/", Some("/home/u")));
    assert!(!is_shell_entrypoint("/home/u/.profile", Some("/home/u")));
    assert!(paths_equal("/a/./b", "/a/b"));
    assert!(!paths_equal("/a/b", "/a/c"));
    assert_eq!(link_action(true, true, false), LinkAction::SkipEntrypoint);
    assert_eq!(link_action(false, false, true), LinkAction::SkipOptional);
    assert_eq!(link_action(false, false, false), LinkAction::WarnMissing);
    assert_eq!(link_action(false, true, true), LinkAction::Link);
    assert_eq!(backup_relative("~/.config/x"), ".config/x");
    assert_eq!(backup_relative("/etc/x"), "/etc/x");
}

#[test]
fn paths_join_and_rename() {
    assert_eq!(join("/a", "b"), "/a/b");
    assert_eq!(join("/a/", "b"), "/a/b");
    assert_eq!(join("/a", "/b"), "/b");
    assert_eq!(join("", "b"), "b");
    assert_eq!(path_file_name("/tmp/id_ed25519"), Some("id_ed25519".to_string()));
    assert_eq!(path_file_name("/"), None);
    assert_eq!(path_with_file_name("/tmp/a", "b"), "/tmp/b");
}

#[test]
fn saved_ssh_hosts() {
    let mut m: SshHostMap = StrMap::new();
    assert!(matches!(
        ssh_add(&mut m, "box", "h", "me", None, "secret", None, None, None),
        Err(SshError::UnknownAuth)
    ));
    assert!(matches!(
        ssh_add(&mut m, "box", "h", "me", None, "password", Some(" "), None, None),
        Err(SshError::PasswordRequired)
    ));
    assert!(m.is_empty());
    assert!(ssh_add(&mut m, "box", "h", "me", Some(2200), "KEY", None, Some("~/.ssh/k"), Some("dev box")).is_ok());
    let e = m.get("box").unwrap();
    assert_eq!((e.port, e.auth, e.key.as_str()), (2200, SshAuth::Key, "~/.ssh/k"));
    assert_eq!(
        render_ssh_list(&m),
        format!(
            "📋 SSH 连接列表：\n─────────────────────────────────────────────────────────\n  {:<16} me@h:2200 [key]  # dev box\n",
            "box"
        )
    );
    assert!(matches!(ssh_rm(&mut m, "nope"), Err(SshError::NotFound(n)) if n == "nope"));
    assert!(ssh_rm(&mut m, "box").is_ok());
    assert_eq!(render_ssh_list(&m), "📋 暂无 SSH 连接\n");
    assert_eq!(SshError::NotFound("x".to_string()).message(), "❌ 未找到 SSH 连接: x");
    assert!(matches!(public_key_path("/"), Err(SshError::InvalidKeyPath(p)) if p == "/"));
}

#[test]
fn connecting_to_a_saved_host() {
    let e = SshHostEntry {
        host: "h".to_string(),
        user: "me".to_string(),
        port: 22,
        auth: SshAuth::Key,
        password: String::new(),
        key: "~/.ssh/k".to_string(),
        desc: String::new(),
    };
    let plan = connect_plan(&e, false, Some("/home/me"));
    assert_eq!(plan.program, "ssh");
    assert_eq!(plan.args, vec!["-p", "22", "-i", "/home/me/.ssh/k", "me@h"]);
    let p = SshHostEntry { auth: SshAuth::Password, password: "pw".to_string(), key: String::new(), ..e };
    let with = connect_plan(&p, true, None);
    assert_eq!(with.program, "sshpass");
    assert_eq!(with.env, Some(("SSHPASS".to_string(), "pw".to_string())));
    let without = connect_plan(&p, false, None);
    assert_eq!(without.args, vec!["-p", "22", "me@h"]);
    assert_eq!(without.notice, "⚠️  未检测到 sshpass，将切换为手动 SSH\n🔑 密码: pw\n");
}

#[test]
fn yaml_layer_files() {
    assert_eq!(file_extension("a.yaml"), Some("yaml".to_string()));
    assert_eq!(file_extension(".yaml"), None);
    assert_eq!(file_extension("noext"), None);
    assert!(is_yaml_file("x.yml") && !is_yaml_file("x.json"));
    let names = vec!["b.yaml".to_string(), "a.yml".to_string(), "c.txt".to_string(), "b.yaml".to_string()];
    assert_eq!(yaml_files(names), vec!["a.yml", "b.yaml"]);
}

#[test]
fn numbers_and_trimming() {
    assert_eq!(to_decimal(0), "0");
    assert_eq!(to_decimal(18446744073709551615), "18446744073709551615");
    assert_eq!(trim_str("\u{3000}x\n"), "x");
}

#[test]
fn simple_powershell_detection() {
    assert!(is_powershell_from(Some("PWSH"), None, false));
    assert!(!is_powershell_from(Some("bash"), Some("/usr/bin/pwsh"), true));
    assert!(is_powershell_from(None, Some("/usr/bin/zsh"), true));
    assert!(is_powershell_from(None, Some("C:/powershell.exe"), false));
    assert!(!is_powershell_from(None, Some("/usr/bin/zsh"), false));
}

#[test]
fn package_lists_follow_the_distribution_family() {
    assert_eq!(packages_file("ubuntu"), "packages/ubuntu.txt");
    assert_eq!(packages_file("debian"), "packages/ubuntu.txt");
    assert_eq!(packages_file("linuxmint"), "packages/ubuntu.txt");
    assert_eq!(packages_file("rhel"), "packages/fedora.txt");
    assert_eq!(packages_file("centos"), "packages/fedora.txt");
    assert_eq!(packages_file("arch"), "packages/arch.txt");
    assert_eq!(packages_file("manjaro"), "packages/arch.txt");
    assert_eq!(packages_file("gentoo"), "packages/gentoo.txt");
    assert_eq!(packages_file("pop"), "packages/pop.txt");
    assert_eq!(packages_file("rocky"), "packages/rocky.txt");
}
