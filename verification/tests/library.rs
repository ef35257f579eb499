use ax_cli::archive::{
    export_file_name, export_path, git_archive_script, import_step, imported_count_line, tar_create_args,
    ImportStep,
};
use ax_cli::cli::Language;
use ax_cli::commands::{ensure_prefix, resolve_name, select_command, CommandStore, Selection};
use ax_cli::completion::{completion_shell, installed_message, post_process_zsh_script, profile_addition, profile_needs_script, CompletionShell};
use ax_cli::config::{config_dir_from, is_valid_command_name, CommandEntry, CommandMap, Config, EnvEntry, EnvMap, LinkEntry};
use ax_cli::env::{env_set_paused, render_env_load, split_tags};
use ax_cli::help::{about, arg_helps, help_topics, topic_path, HelpTopic};
use ax_cli::install::include_block;
use ax_cli::listing::{render_command_list, render_env_show, render_info, render_run_menu, render_tag_summary, tag_summary};
use ax_cli::packages::{install_commands, installed_check, missing_packages, new_packages_message, InstalledCheck};
use ax_cli::paths::expand_home_with;
use ax_cli::proxy::{detect_shell_type_from, ShellType};
use ax_cli::setup::{default_shell_command, font_installed, init_dirs, init_file_action, init_proceeds, init_templates, InitFile, plugin_dir, plugin_step, zsh_install_command};
use ax_cli::ssh::{key_copy_plan, keygen_args, SshError};
use ax_cli::strmap::StrMap;
use ax_cli::sync::{auto_sync_clone_args, auto_sync_commit_message, auto_sync_commits, auto_sync_files, auto_sync_start, AutoSyncStart, pull_outcome, push_start, push_step, remote_set_command, remote_show, GitStep, PushState};
use ax_cli::text::{byte_len_of, byte_prefix_chars, chars_of, trim_str};
use ax_cli::yaml::{config_layers, merge_into, Layer, YamlValue};

fn entry(value: &str, tags: &[&str], paused: bool) -> EnvEntry {
    EnvEntry {
        value: value.to_string(),
        desc: String::new(),
        tags: tags.iter().map(|t| t.to_string()).collect(),
        paused,
    }
}

fn env_map() -> EnvMap {
    let mut m = StrMap::new();
    m.insert("A".to_string(), entry("1", &["dev"], false));
    m.insert("B".to_string(), entry("two words", &["dev", "docker"], true));
    m
}

fn command_map() -> CommandMap {
    let mut m = StrMap::new();
    m.insert("ax-foo".to_string(), CommandEntry { cmd: "echo foo".to_string(), desc: "say foo".to_string() });
    m.insert("bar".to_string(), CommandEntry { cmd: "ls".to_string(), desc: String::new() });
    m
}

const ENV_RULE: &str = "─────────────────────────────────────────────────────────\n";
const CMD_RULE: &str = "──────────────────────────────────────────\n";

#[test]
fn uses_ax_config_dir_env_override() {
    let dir = config_dir_from(Some("~/custom-axconfig"), false, None, Some("/home/u/.config"), Some("/home/u"));
    assert_eq!(dir, expand_home_with("~/custom-axconfig", Some("/home/u")));
    assert_eq!(dir, "/home/u/custom-axconfig");
    let plain = config_dir_from(None, false, None, Some("/home/u/.config"), Some("/home/u"));
    assert_eq!(plain, "/home/u/.config/axconfig");
}

#[test]
fn prefixing_twice_equals_once() {
    assert_eq!(ensure_prefix("foo"), "ax-foo");
    assert_eq!(ensure_prefix(&ensure_prefix("foo")), "ax-foo");
}

#[test]
fn names_resolve_to_their_prefixed_command() {
    let m = command_map();
    assert_eq!(resolve_name("foo", &m), "ax-foo");
    assert_eq!(resolve_name("bar", &m), "bar");
    assert_eq!(resolve_name("baz", &m), "baz");
}

#[test]
fn store_reads_back_what_was_written() {
    let mut m = command_map();
    assert!(CommandStore::add(&mut m, "new", "pwd", "where"));
    assert_eq!(CommandStore::get(&m, "new").unwrap().cmd, "pwd");
    assert!(!CommandStore::add(&mut m, "new", "other", ""));
    assert_eq!(CommandStore::get(&m, "new").unwrap().cmd, "pwd");
    assert!(CommandStore::remove(&mut m, "new"));
    assert!(CommandStore::get(&m, "new").is_none());
    assert!(!CommandStore::remove(&mut m, "new"));
}

#[test]
fn paused_variables_are_not_loaded() {
    let m = env_map();
    assert_eq!(render_env_load(&m, ShellType::Bash), "export A=1\n");
    assert_eq!(render_env_load(&m, ShellType::Cmd), "set A=1\n");
    assert_eq!(render_env_load(&m, ShellType::PowerShell), "$env:A = \"1\"\n");
}

#[test]
fn pausing_all_then_resuming_all() {
    let mut m = env_map();
    assert_eq!(env_set_paused(&mut m, &Vec::new(), None, true, true), 1);
    assert!(m.get("A").unwrap().paused && m.get("B").unwrap().paused);
    assert_eq!(env_set_paused(&mut m, &Vec::new(), None, true, false), 2);
    assert!(!m.get("A").unwrap().paused && !m.get("B").unwrap().paused);
    assert_eq!(m.get("B").unwrap().value, "two words");
}

#[test]
fn env_show_table_is_exact() {
    let m = env_map();
    let expected = format!("📋 环境变量列表：\n{ENV_RULE}  ✅ A      = 1 [dev]\n{ENV_RULE}  共 1 个变量\n");
    assert_eq!(render_env_show(&m, None, None, false), expected);
    let all = render_env_show(&m, None, None, true);
    assert!(all.contains("  ⏸️ B      = two words [dev,docker]\n"));
    assert!(all.contains("  共 2 个变量"));
    let tagged = render_env_show(&m, None, Some("docker"), false);
    assert!(tagged.contains("B") && !tagged.contains(" A "));
    assert_eq!(render_env_show(&m, Some("C"), None, false), "📋 暂无环境变量\n");
}

#[test]
fn env_show_cuts_long_values() {
    let mut m: EnvMap = StrMap::new();
    m.insert("LONG".to_string(), entry(&"x".repeat(60), &[], false));
    let out = render_env_show(&m, None, None, false);
    assert!(out.contains(&format!("  ✅ LONG   = {}...", "x".repeat(47))));
}

#[test]
fn tag_summary_counts_variables() {
    let m = env_map();
    let rows = tag_summary(&m);
    assert_eq!(rows.len(), 2);
    assert_eq!(rows[0].tag, "dev");
    assert_eq!((rows[0].count, rows[0].paused), (2, 1));
    assert_eq!(rows[1].tag, "docker");
    assert_eq!((rows[1].count, rows[1].paused), (1, 1));
    let text = render_tag_summary(&rows);
    assert_eq!(
        text,
        format!("🏷️  标签列表：\n  {:<20} 2 个变量 (1 个暂停)\n  {:<20} 1 个变量 (1 个暂停)\n", "dev", "docker")
    );
    assert_eq!(render_tag_summary(&Vec::new()), "📋 暂无标签\n");
}

#[test]
fn command_list_is_exact() {
    let m = command_map();
    let expected = format!(
        "📋 自定义命令列表：\n{CMD_RULE}  ax-foo  say foo  → echo foo\n  bar     {:7}  → ls\n{CMD_RULE}",
        ""
    );
    assert_eq!(render_command_list(&m), expected);
    assert!(render_command_list(&StrMap::new()).starts_with("📋 暂无自定义命令\n"));
}

#[test]
fn run_menu_numbers_commands() {
    let m = command_map();
    let expected = format!(
        "📋 可用命令：\n    1) {:<20} say foo\n    2) {:<20} 无描述\n\n输入编号执行 (0 取消): ",
        "ax-foo", "bar"
    );
    assert_eq!(render_run_menu(&m), expected);
}

#[test]
fn menu_selection_stays_in_range() {
    let m = command_map();
    assert_eq!(select_command(" 2 \n", &m), Selection::Index(1));
    assert_eq!(select_command("0", &m), Selection::Cancel);
    assert_eq!(select_command("", &m), Selection::Cancel);
    assert_eq!(select_command("3", &m), Selection::Invalid);
    assert_eq!(select_command("bar", &m), Selection::NotANumber);
}

#[test]
fn info_lists_paths_and_settings() {
    let mut config = Config::default();
    config.deploy.links = vec![LinkEntry { src: "a".to_string(), dst: "~/b".to_string(), optional: true }];
    let out = render_info("/c", &config, 3, Some("git@x:y.git\n"));
    assert!(out.starts_with("ax-cli 配置信息\n"));
    assert!(out.contains("  配置文件:      /c/config.yaml\n"));
    assert!(out.contains("  自动同步:      ✅ 开启\n"));
    assert!(out.contains("  插件数:        3\n"));
    assert!(out.contains("  已注册命令:    3\n"));
    assert!(out.contains("  远程仓库:      git@x:y.git\n"));
    assert!(out.contains("    a → ~/b (可选)\n"));
    assert!(!render_info("/c", &config, 0, Some("  \n")).contains("远程仓库"));
}

#[test]
fn push_without_repository_fails() {
    let (_, step) = push_start(false);
    assert!(matches!(step, GitStep::Done(Err(e)) if e == "配置目录未初始化，请先运行 ax config init"));
}

#[test]
fn push_runs_through_git() {
    let (state, step) = push_start(true);
    assert!(matches!(&step, GitStep::Run(a) if a == &vec!["add".to_string(), "-A".to_string()]));
    let (state, step) = push_step(state, true, true, "", "");
    assert!(matches!(&step, GitStep::Run(a) if a[0] == "diff"));
    let (state, step) = push_step(state, true, false, "", "");
    assert!(matches!(&step, GitStep::Run(a) if a[0] == "commit"));
    let (state, _) = push_step(state, true, true, "", "");
    let (state, _) = push_step(state, true, true, "", "");
    let (state, step) = push_step(state, true, true, " main\n", "");
    assert!(matches!(&state, PushState::CheckingUpstream { branch } if branch == "main"));
    assert!(matches!(&step, GitStep::Run(a) if a[0] == "rev-parse"));
    let (state, step) = push_step(state, true, false, "", "");
    let expected: Vec<String> = ["push", "-u", "origin", "main"].iter().map(|s| s.to_string()).collect();
    assert!(matches!(&step, GitStep::Run(a) if a == &expected));
    let (state, step) = push_step(state, true, false, "", "fatal: no remote configured");
    assert!(matches!(state, PushState::Finished));
    assert!(matches!(step, GitStep::Done(Ok(m)) if m.starts_with("⚠️  推送失败，请先设置远程仓库")));
}

#[test]
fn push_with_nothing_to_send_stops() {
    let (state, _) = push_start(true);
    let (state, _) = push_step(state, true, true, "", "");
    let (state, step) = push_step(state, true, true, "", "");
    assert!(matches!(&step, GitStep::Run(a) if a[0] == "log"));
    let (_, step) = push_step(state, true, true, "  \n", "");
    assert!(matches!(step, GitStep::Done(Ok(m)) if m == "⏭️  没有变更需要推送\n"));
}

#[test]
fn pull_and_remote_reports() {
    assert_eq!(pull_outcome(true, true, "").unwrap(), "📦 配置已更新\n");
    assert!(pull_outcome(true, false, "fatal: x").unwrap().starts_with("⚠️  拉取失败"));
    assert_eq!(pull_outcome(true, false, "meh").unwrap(), "📦 已是最新或拉取失败\n");
    assert_eq!(pull_outcome(false, false, "no git").unwrap_err(), "no git");
    let (args, msg) = remote_set_command("u", true, "old\n");
    assert_eq!(args[1], "set-url");
    assert_eq!(msg, "✅ 远程仓库已更新: u\n");
    let (args, _) = remote_set_command("u", true, "");
    assert_eq!(args[1], "add");
    assert_eq!(remote_show(""), "未设置远程仓库\n");
    assert_eq!(remote_show(" url \n"), "url\n");
}

#[test]
fn export_names_and_places_the_archive() {
    assert_eq!(export_file_name(None, 1700000000), "ax-cli-config-1700000000.tar.gz");
    assert_eq!(export_file_name(Some("x.tgz"), 1), "x.tgz");
    assert_eq!(export_path("x.tgz", Some("/home/u"), "/work"), "/work/x.tgz");
    assert_eq!(export_path("~/x.tgz", Some("/home/u"), "/work"), "/home/u/x.tgz");
    assert_eq!(export_path("/tmp/x.tgz", Some("/home/u"), "/work"), "/tmp/x.tgz");
    assert_eq!(
        git_archive_script("/c", "/o.tgz", false),
        "cd '/c' && git archive --format=tar.gz HEAD -o '/o.tgz'  -- . ':!ax'"
    );
    assert_eq!(tar_create_args("/o", "/d"), vec!["-czf", "/o", "-C", "/d", "."]);
}

#[test]
fn import_never_overwrites() {
    assert_eq!(import_step("bin", true, true, false), ImportStep::Skip);
    assert_eq!(import_step("bin", false, true, false), ImportStep::MergeDir);
    assert_eq!(import_step("a.yaml", true, false, true), ImportStep::KeepExisting);
    assert_eq!(import_step("a.yaml", true, false, false), ImportStep::CopyFile);
    assert_eq!(imported_count_line(3), "   ✅ 导入了 3 个文件\n");
}

#[test]
fn package_manager_commands() {
    let pkgs = vec!["git".to_string(), "jq".to_string()];
    let apt = install_commands("apt", &pkgs).unwrap();
    assert_eq!(apt.len(), 2);
    assert_eq!(apt[0].args, vec!["apt", "update", "-qq"]);
    assert_eq!(apt[1].args, vec!["apt", "install", "-y", "-qq", "git", "jq"]);
    let brew = install_commands("brew", &pkgs).unwrap();
    assert_eq!(brew[0].program, "brew");
    assert!(install_commands("unknown", &pkgs).is_none());
    assert!(matches!(installed_check("dnf", "git"), InstalledCheck::Run(i) if i.program == "rpm" && i.args == vec!["-q", "git"]));
    assert!(matches!(installed_check("brew", "git"), InstalledCheck::OnPath(p) if p == "git"));
    assert_eq!(missing_packages(&pkgs, &vec![true, false]), vec!["jq"]);
    assert_eq!(new_packages_message(&pkgs, true), "  📥 新增包 (core + extras): git, jq\n");
}

#[test]
fn shell_setup_commands() {
    assert_eq!(plugin_dir(Some("/home/u")), "/home/u/.zsh/plugins");
    assert_eq!(zsh_install_command("pacman").unwrap().args, vec!["pacman", "-S", "--noconfirm", "zsh"]);
    assert!(default_shell_command(Some("/bin/zsh"), Some("/bin/zsh")).is_none());
    assert_eq!(default_shell_command(Some("/bin/bash"), None).unwrap().args, vec!["-s", "/usr/bin/zsh"]);
    assert!(plugin_step("u", "/p", true, false).is_none());
    assert_eq!(plugin_step("u", "/p", true, true).unwrap().args, vec!["pull", "--quiet"]);
    assert_eq!(plugin_step("u", "/p", false, true).unwrap().args, vec!["clone", "--depth", "1", "u", "/p"]);
    assert!(font_installed("JetBrains Mono Nerd Font:style=Bold"));
    assert!(!font_installed("DejaVu Sans"));
}

#[test]
fn key_copy_plans() {
    let plan = key_copy_plan("me", "h", 2222, None, false, true, "/k.pub", "").unwrap();
    assert_eq!(plan.program, "ssh-copy-id");
    assert_eq!(plan.args, vec!["-i", "/k.pub", "-p", "2222", "me@h"]);
    let plan = key_copy_plan("me", "h", 22, Some("pw"), true, false, "/k.pub", " ssh-ed25519 AAA \n").unwrap();
    assert_eq!(plan.program, "sshpass");
    assert_eq!(&plan.args[..5], &["-e", "ssh", "-p", "22", "me@h"]);
    assert!(plan.args[5].contains("grep -qxF 'ssh-ed25519 AAA'"));
    assert_eq!(plan.env, Some(("SSHPASS".to_string(), "pw".to_string())));
    assert!(matches!(key_copy_plan("me", "h", 22, Some("pw"), false, true, "/k.pub", ""), Err(SshError::SshpassMissing)));
    match key_copy_plan("me", "h", 22, None, false, false, "/k.pub", "  ") {
        Err(err) => assert_eq!(err.message(), "公钥文件为空: /k.pub"),
        Ok(_) => panic!("a blank public key is refused"),
    }
    assert_eq!(keygen_args("/k"), vec!["-t", "ed25519", "-f", "/k", "-N", ""]);
}

#[test]
fn completion_helpers() {
    assert_eq!(completion_shell("z").unwrap(), CompletionShell::Zsh);
    assert_eq!(completion_shell("fish").unwrap_err(), "不支持的 shell: fish\n支持: bash, zsh, powershell, pwsh");
    assert!(profile_needs_script(None));
    assert!(!profile_needs_script(Some("x\n# powershell completion for ax\n")));
    assert_eq!(profile_addition("S"), "\n\n# ax completion\nS");
    assert_eq!(installed_message("b", "/d/ax"), "✅ bash 补全已安装到: /d/ax\n   重启终端或运行: source /d/ax\n");
    let script = ":name -- 变量名:_default and untouched";
    assert_eq!(post_process_zsh_script(script), ":name -- 变量名:_message -r \"变量名\" and untouched");
    assert_eq!(post_process_zsh_script("nothing to change"), "nothing to change");
}

#[test]
fn tags_are_split_on_commas() {
    assert_eq!(split_tags(" dev, docker,,"), vec!["dev", "docker"]);
    assert!(split_tags("").is_empty());
}

#[test]
fn help_texts_cover_every_topic() {
    assert_eq!(about(Language::ZhCn, HelpTopic::Root), "个人开发环境命令行管理工具");
    assert_eq!(topic_path(HelpTopic::EnvAdd), vec!["env", "add"]);
    assert_eq!(arg_helps(Language::En, HelpTopic::Add).len(), 3);
    assert_eq!(arg_helps(Language::ZhCn, HelpTopic::Add).len(), 5);
    for topic in help_topics() {
        assert!(!about(Language::En, topic).is_empty());
        assert!(!about(Language::ZhCn, topic).is_empty());
    }
}

#[test]
fn layers_in_order_of_precedence() {
    let layers = config_layers("/u", Some("/b"), Some("/e"));
    let seen: Vec<(bool, String)> = layers
        .into_iter()
        .map(|l| match l {
            Layer::Dir(p) => (true, p),
            Layer::File(p) => (false, p),
        })
        .collect();
    assert_eq!(
        seen,
        vec![
            (true, "/u/config.d".to_string()),
            (false, "/u/config.yaml".to_string()),
            (true, "/b/config".to_string()),
            (false, "/b/config.yaml".to_string()),
            (true, "/e".to_string()),
            (false, "/e/config.yaml".to_string()),
        ]
    );
}

#[test]
fn later_layers_win_and_mappings_merge() {
    let mut base: StrMap<YamlValue> = StrMap::new();
    base.insert("proxy".to_string(), YamlValue::Mapping(vec![(1, YamlValue::Other(2)), (3, YamlValue::Other(4))]));
    base.insert("x".to_string(), YamlValue::Other(5));
    let mut overlay: StrMap<YamlValue> = StrMap::new();
    overlay.insert("proxy".to_string(), YamlValue::Mapping(vec![(3, YamlValue::Other(9)), (6, YamlValue::Other(7))]));
    overlay.insert("x".to_string(), YamlValue::Other(8));
    merge_into(&mut base, overlay);
    assert_eq!(
        base.get("proxy"),
        Some(&YamlValue::Mapping(vec![(1, YamlValue::Other(2)), (3, YamlValue::Other(9)), (6, YamlValue::Other(7))]))
    );
    assert_eq!(base.get("x"), Some(&YamlValue::Other(8)));
}

#[test]
fn nested_mappings_merge_at_every_depth() {
    // {a: {b: {x: 1}}} under {a: {b: {y: 2}}} gives {a: {b: {x: 1, y: 2}}}
    let (b, x, y) = (10, 11, 12);
    let mut base: StrMap<YamlValue> = StrMap::new();
    base.insert("a".to_string(), YamlValue::Mapping(vec![(b, YamlValue::Mapping(vec![(x, YamlValue::Other(1))]))]));
    let mut overlay: StrMap<YamlValue> = StrMap::new();
    overlay.insert("a".to_string(), YamlValue::Mapping(vec![(b, YamlValue::Mapping(vec![(y, YamlValue::Other(2))]))]));
    merge_into(&mut base, overlay);
    assert_eq!(
        base.get("a"),
        Some(&YamlValue::Mapping(vec![(
            b,
            YamlValue::Mapping(vec![(x, YamlValue::Other(1)), (y, YamlValue::Other(2))])
        )]))
    );
}

#[test]
fn a_plain_value_replaces_a_nested_mapping() {
    let mut base: StrMap<YamlValue> = StrMap::new();
    base.insert("a".to_string(), YamlValue::Mapping(vec![(1, YamlValue::Mapping(vec![(2, YamlValue::Other(3))]))]));
    let mut overlay: StrMap<YamlValue> = StrMap::new();
    overlay.insert("a".to_string(), YamlValue::Mapping(vec![(1, YamlValue::Other(4))]));
    merge_into(&mut base, overlay);
    assert_eq!(base.get("a"), Some(&YamlValue::Mapping(vec![(1, YamlValue::Other(4))])));
}

#[test]
fn include_block_is_added_once() {
    let block = "# >>> ax-cli >>>\nsource x\n# <<< ax-cli <<<\n";
    let once = include_block("alias a=b", block).unwrap();
    assert_eq!(once, format!("alias a=b\n\n{block}"));
    assert!(include_block(&once, block).is_none());
}

#[test]
fn text_helpers() {
    assert_eq!(byte_len_of("中a"), 4);
    assert_eq!(byte_prefix_chars(&chars_of("中a"), 3), Some(1));
    assert_eq!(byte_prefix_chars(&chars_of("中a"), 2), None);
    assert_eq!(trim_str("  a b \t"), "a b");
    assert!(is_valid_command_name("ax-foo_1"));
    assert!(!is_valid_command_name("ax foo"));
    assert_eq!(detect_shell_type_from(None, "/opt/PowerShell/PWSH", false, false), ShellType::PowerShell);
}

#[test]
fn proxy_off_clears_every_variable_on_sets() {
    assert_eq!(
        ax_cli::proxy::render_off_script(ShellType::Bash),
        "unset http_proxy https_proxy all_proxy HTTP_PROXY HTTPS_PROXY ALL_PROXY no_proxy NO_PROXY\necho \"🔴 Proxy OFF\"\n"
    );
    assert_eq!(
        ax_cli::proxy::render_off_script(ShellType::Cmd),
        "set http_proxy=\nset https_proxy=\nset all_proxy=\nset HTTP_PROXY=\nset HTTPS_PROXY=\nset ALL_PROXY=\nset no_proxy=\nset NO_PROXY=\necho 🔴 Proxy OFF\n"
    );
    assert_eq!(
        ax_cli::proxy::render_off_script(ShellType::PowerShell),
        "Remove-Item Env:http_proxy,Env:https_proxy,Env:all_proxy,Env:HTTP_PROXY,Env:HTTPS_PROXY,Env:ALL_PROXY,Env:no_proxy,Env:NO_PROXY -ErrorAction SilentlyContinue\nWrite-Host \"🔴 Proxy OFF\"\n"
    );
    let on = ax_cli::proxy::render_on_script(ShellType::Bash, "http://p:1", "a b");
    assert_eq!(
        on,
        "export http_proxy=http://p:1\nexport https_proxy=http://p:1\nexport all_proxy=http://p:1\nexport HTTP_PROXY=http://p:1\nexport HTTPS_PROXY=http://p:1\nexport ALL_PROXY=http://p:1\nexport no_proxy='a b'\nexport NO_PROXY='a b'\necho \"🟢 Proxy ON: http://p:1\"\n"
    );
}

#[test]
fn plugin_reports() {
    assert_eq!(ax_cli::setup::plugin_report("p", true, false), "  ⏭️  p 已存在\n");
    assert_eq!(ax_cli::setup::plugin_report("p", true, true), "  ✅ p 已更新\n");
    assert_eq!(ax_cli::setup::plugin_report("p", false, true), "  ✅ p 已安装\n");
    assert_eq!(ax_cli::setup::plugin_report("p", false, false), "  ✅ p\n");
}

#[test]
fn generic_package_list_has_core_and_extras() {
    let list = ax_cli::packages::generic_package_list();
    assert_eq!(ax_cli::packages::parse_packages(list, false), vec!["git", "curl", "zsh", "unzip", "fontconfig"]);
    assert_eq!(ax_cli::packages::parse_packages(list, true).len(), 13);
}

#[test]
fn pausing_by_name_then_resuming_gives_back_the_table() {
    let mut m = env_map();
    let names = vec!["A".to_string()];
    let before: Vec<(String, bool)> = vec![("A".to_string(), m.get("A").unwrap().paused), ("B".to_string(), m.get("B").unwrap().paused)];
    assert_eq!(env_set_paused(&mut m, &names, None, false, true), 1);
    assert!(m.get("A").unwrap().paused);
    assert_eq!(env_set_paused(&mut m, &names, None, false, false), 1);
    for (k, p) in before {
        assert_eq!(m.get(&k).unwrap().paused, p);
    }
    assert_eq!(m.get("A").unwrap().value, "1");
    assert_eq!(m.get("B").unwrap().value, "two words");
}

#[test]
fn zsh_adjustments_work_line_by_line() {
    let a = ":name -- 变量名:_default";
    let b = "x:value -- 变量值:_default y";
    let joined = post_process_zsh_script(&format!("{a}\n{b}"));
    assert_eq!(joined, format!("{}\n{}", post_process_zsh_script(a), post_process_zsh_script(b)));
    assert_eq!(post_process_zsh_script(a), ":name -- 变量名:_message -r \"变量名\"");
}

#[test]
fn zsh_adjustments_are_idempotent() {
    let script = "'(-a --all)-t+[Pause all variables with the tag]:TAG:_default' \\
':shell -- Target shell: bash, zsh, powershell:_default' \\
'::x:_default'";
    let once = post_process_zsh_script(script);
    assert_ne!(once, script);
    assert_eq!(post_process_zsh_script(&once), once);
}

#[test]
fn init_keeps_what_exists_unless_forced() {
    assert!(init_proceeds(false, false));
    assert!(!init_proceeds(true, false));
    assert!(init_proceeds(true, true));
    assert_eq!(init_file_action(false, false), InitFile::Write);
    assert_eq!(init_file_action(true, false), InitFile::Keep);
    assert_eq!(init_file_action(true, true), InitFile::Write);
    assert_eq!(init_dirs(), vec!["config.d", "bash", "wezterm", "packages", "git"]);
    assert_eq!(init_templates(), vec!["config.yaml", "bash/.bashrc", "bash/.zshrc", "wezterm/wezterm.lua"]);
}

#[test]
fn map_length_counts_keys() {
    let mut m: StrMap<u32> = StrMap::new();
    m.insert("b".to_string(), 1);
    m.insert("a".to_string(), 2);
    m.insert("b".to_string(), 3);
    assert_eq!(m.len(), 2);
}

#[test]
fn automatic_sync_decisions() {
    assert_eq!(auto_sync_start(false, true), AutoSyncStart::Off);
    assert_eq!(auto_sync_start(true, false), AutoSyncStart::CloneThenCopy);
    assert_eq!(auto_sync_start(true, true), AutoSyncStart::Copy);
    assert_eq!(auto_sync_files(), vec!["config.yaml", "config.d/commands.yaml", "bash/.zshrc", "wezterm/wezterm.lua"]);
    assert_eq!(auto_sync_clone_args("git@h:r.git", "/tmp/r"), vec!["clone", "--quiet", "git@h:r.git", "/tmp/r"]);
    assert!(!auto_sync_commits(false, 3));
    assert!(!auto_sync_commits(true, 0));
    assert!(auto_sync_commits(true, 2));
    assert_eq!(auto_sync_commit_message(), "sync: ax-cli config");
}
