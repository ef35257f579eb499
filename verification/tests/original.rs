use ax_cli::cli::{current_language_from, Language};
use ax_cli::completion::{bash_completion_dir, powershell_profile_targets_in, zsh_completion_candidates};
use ax_cli::config::SshAuth;
use ax_cli::detect::detect_display_server;
use ax_cli::help::{about, HelpTopic};
use ax_cli::packages::parse_packages;
use ax_cli::proxy::{render_off_script, render_on_script, ShellType};
use ax_cli::ssh::{parse_auth, public_key_path, resolve_key_path, validate_auth};

#[test]
fn chinese_is_default_language() {
    assert_eq!(current_language_from(Vec::<String>::new()), Language::ZhCn);
}

#[test]
fn english_env_selects_english_localization() {
    assert_eq!(
        current_language_from(vec!["en_US.UTF-8".to_string()]),
        Language::En
    );
}

#[test]
fn english_localization_updates_help_text() {
    assert_eq!(
        about(Language::En, HelpTopic::Root),
        "Personal dev environment CLI manager"
    );
    assert_eq!(
        about(Language::En, HelpTopic::Env),
        "Manage environment variables"
    );
}

#[test]
fn completion_paths_keep_shell_specific_directory() {
    let bash_dir = bash_completion_dir(Some("/home/u/.local/share"), true, "/home/u");
    let zsh_dirs = zsh_completion_candidates(Some("/home/u"), Some("/home/u/.local/share"));

    assert!(bash_dir.ends_with("completions"));
    for zsh_dir in &zsh_dirs {
        assert!(zsh_dir.ends_with("completions") || zsh_dir.ends_with("site-functions"));
    }
}

#[test]
fn powershell_installs_to_both_profiles_by_default() {
    let targets = powershell_profile_targets_in("/tmp/Documents", "powershell");

    assert_eq!(targets.len(), 2);
    assert!(targets[0].ends_with("WindowsPowerShell/Microsoft.PowerShell_profile.ps1"));
    assert!(targets[1].ends_with("PowerShell/Microsoft.PowerShell_profile.ps1"));
}

#[test]
fn pwsh_installs_only_to_powershell_7_profile() {
    let targets = powershell_profile_targets_in("/tmp/Documents", "pwsh");

    assert_eq!(targets.len(), 1);
    assert!(targets[0].ends_with("PowerShell/Microsoft.PowerShell_profile.ps1"));
}

#[test]
fn renders_bash_proxy_exports() {
    let script = render_on_script(
        ShellType::Bash,
        "http://127.0.0.1:7890",
        "localhost,127.0.0.1",
    );
    assert!(script.contains("export http_proxy=http://127.0.0.1:7890"));
    assert!(script.contains("export NO_PROXY=localhost,127.0.0.1"));
}

#[test]
fn renders_powershell_proxy_exports() {
    let script = render_on_script(ShellType::PowerShell, "http://127.0.0.1:7890", "localhost");
    assert!(script.contains("$env:http_proxy = \"http://127.0.0.1:7890\""));
    assert!(script.contains("$env:NO_PROXY = \"localhost\""));
}

#[test]
fn renders_cmd_proxy_clear_commands() {
    let script = render_off_script(ShellType::Cmd);
    assert!(script.contains("set http_proxy="));
    assert!(script.contains("echo 🔴 Proxy OFF"));
}

#[test]
fn parses_key_auth() {
    assert!(matches!(parse_auth("key").unwrap(), SshAuth::Key));
}

#[test]
fn rejects_unknown_auth() {
    assert!(parse_auth("token").is_err());
}

#[test]
fn requires_password_for_password_auth() {
    assert!(validate_auth(&SshAuth::Password, None).is_err());
}

#[test]
fn defaults_key_path_to_ed25519() {
    assert!(resolve_key_path(None, Some("/home/u")).ends_with(".ssh/id_ed25519"));
}

#[test]
fn public_key_path_appends_pub_suffix() {
    assert_eq!(
        public_key_path("/tmp/id_ed25519").unwrap(),
        "/tmp/id_ed25519.pub".to_string()
    );
}

#[test]
fn prefers_explicit_session_type() {
    assert_eq!(
        detect_display_server(Some("wayland"), Some(":1"), Some(":0")),
        "wayland"
    );
    assert_eq!(detect_display_server(Some("x11"), Some(":1"), Some(":0")), "x11");
}

#[test]
fn falls_back_when_session_type_is_unknown() {
    assert_eq!(detect_display_server(Some("tty"), Some(":1"), Some(":0")), "wayland");
    assert_eq!(detect_display_server(Some("tty"), None, Some(":0")), "x11");
}

#[test]
fn ignores_empty_display_values() {
    assert_eq!(detect_display_server(Some("tty"), Some(""), Some("")), "unknown");
}

#[test]
fn parses_core_only_when_extras_disabled() {
    let content = "[core]\n# package manager\n git\ncurl\n[extras]\nfzf\nbat\n";
    let pkgs = parse_packages(content, false);
    assert_eq!(pkgs, vec!["git", "curl"]);
}

#[test]
fn parses_core_and_extras_when_enabled() {
    let content = "[core]\ngit\ncurl\n[extras]\nfzf\nbat\n";
    let pkgs = parse_packages(content, true);
    assert_eq!(pkgs, vec!["git", "curl", "fzf", "bat"]);
}
