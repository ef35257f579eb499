//! The help texts of the command line in each language: for every command
//! and action, its description and the help of each of its arguments.
use vstd::prelude::*;

use crate::cli::Language;

verus! {

/// A command or action that has a help text of its own.
#[derive(Clone, Copy, Debug, PartialEq, Eq, Structural)]
pub enum HelpTopic {
    Root,
    Config,
    ConfigInit,
    ConfigRemote,
    ConfigPush,
    ConfigPull,
    ConfigExport,
    ConfigImport,
    ConfigPath,
    Env,
    EnvAdd,
    EnvEdit,
    EnvRm,
    EnvShow,
    EnvPause,
    EnvResume,
    EnvLoad,
    EnvTags,
    Add,
    Edit,
    List,
    Rm,
    Run,
    Link,
    Push,
    Pull,
    Install,
    Proxy,
    ProxyOn,
    ProxyOff,
    ProxyStatus,
    Completion,
    Info,
}

/// Every topic, in the order in which the commands are declared.
pub open spec fn all_topics() -> Seq<HelpTopic> {
    seq![
        HelpTopic::Root,
        HelpTopic::Config,
        HelpTopic::ConfigInit,
        HelpTopic::ConfigRemote,
        HelpTopic::ConfigPush,
        HelpTopic::ConfigPull,
        HelpTopic::ConfigExport,
        HelpTopic::ConfigImport,
        HelpTopic::ConfigPath,
        HelpTopic::Env,
        HelpTopic::EnvAdd,
        HelpTopic::EnvEdit,
        HelpTopic::EnvRm,
        HelpTopic::EnvShow,
        HelpTopic::EnvPause,
        HelpTopic::EnvResume,
        HelpTopic::EnvLoad,
        HelpTopic::EnvTags,
        HelpTopic::Add,
        HelpTopic::Edit,
        HelpTopic::List,
        HelpTopic::Rm,
        HelpTopic::Run,
        HelpTopic::Link,
        HelpTopic::Push,
        HelpTopic::Pull,
        HelpTopic::Install,
        HelpTopic::Proxy,
        HelpTopic::ProxyOn,
        HelpTopic::ProxyOff,
        HelpTopic::ProxyStatus,
        HelpTopic::Completion,
        HelpTopic::Info
    ]
}

/// The names of the subcommands that lead from `ax` to a topic.
pub open spec fn path_of(topic: HelpTopic) -> Seq<Seq<char>> {
    match topic {
        HelpTopic::Root => seq![],
        HelpTopic::Config => seq!["config"@],
        HelpTopic::ConfigInit => seq!["config"@, "init"@],
        HelpTopic::ConfigRemote => seq!["config"@, "remote"@],
        HelpTopic::ConfigPush => seq!["config"@, "push"@],
        HelpTopic::ConfigPull => seq!["config"@, "pull"@],
        HelpTopic::ConfigExport => seq!["config"@, "export"@],
        HelpTopic::ConfigImport => seq!["config"@, "import"@],
        HelpTopic::ConfigPath => seq!["config"@, "path"@],
        HelpTopic::Env => seq!["env"@],
        HelpTopic::EnvAdd => seq!["env"@, "add"@],
        HelpTopic::EnvEdit => seq!["env"@, "edit"@],
        HelpTopic::EnvRm => seq!["env"@, "rm"@],
        HelpTopic::EnvShow => seq!["env"@, "show"@],
        HelpTopic::EnvPause => seq!["env"@, "pause"@],
        HelpTopic::EnvResume => seq!["env"@, "resume"@],
        HelpTopic::EnvLoad => seq!["env"@, "load"@],
        HelpTopic::EnvTags => seq!["env"@, "tags"@],
        HelpTopic::Add => seq!["add"@],
        HelpTopic::Edit => seq!["edit"@],
        HelpTopic::List => seq!["list"@],
        HelpTopic::Rm => seq!["rm"@],
        HelpTopic::Run => seq!["run"@],
        HelpTopic::Link => seq!["link"@],
        HelpTopic::Push => seq!["push"@],
        HelpTopic::Pull => seq!["pull"@],
        HelpTopic::Install => seq!["install"@],
        HelpTopic::Proxy => seq!["proxy"@],
        HelpTopic::ProxyOn => seq!["proxy"@, "on"@],
        HelpTopic::ProxyOff => seq!["proxy"@, "off"@],
        HelpTopic::ProxyStatus => seq!["proxy"@, "status"@],
        HelpTopic::Completion => seq!["completion"@],
        HelpTopic::Info => seq!["info"@],
    }
}

/// The description of a topic in a language.
pub open spec fn about_of(lang: Language, topic: HelpTopic) -> Seq<char> {
    match lang {
        Language::ZhCn => match topic {
            HelpTopic::Root => "个人开发环境命令行管理工具"@,
            HelpTopic::Config => "配置管理"@,
            HelpTopic::ConfigInit => "用默认内容初始化配置目录和 git 仓库"@,
            HelpTopic::ConfigRemote => "设置或显示远程 git 仓库地址"@,
            HelpTopic::ConfigPush => "推送配置到远程仓库"@,
            HelpTopic::ConfigPull => "从远程仓库拉取配置"@,
            HelpTopic::ConfigExport => "导出配置为 tar.gz"@,
            HelpTopic::ConfigImport => "从 tar.gz 导入配置"@,
            HelpTopic::ConfigPath => "显示配置目录路径"@,
            HelpTopic::Env => "环境变量管理"@,
            HelpTopic::EnvAdd => "添加环境变量"@,
            HelpTopic::EnvEdit => "编辑环境变量"@,
            HelpTopic::EnvRm => "删除环境变量"@,
            HelpTopic::EnvShow => "列出环境变量"@,
            HelpTopic::EnvPause => "暂停环境变量"@,
            HelpTopic::EnvResume => "恢复环境变量"@,
            HelpTopic::EnvLoad => "输出 shell 导出命令"@,
            HelpTopic::EnvTags => "列出所有标签"@,
            HelpTopic::Add => "添加自定义命令"@,
            HelpTopic::Edit => "编辑已有命令"@,
            HelpTopic::List => "列出所有命令"@,
            HelpTopic::Rm => "删除命令"@,
            HelpTopic::Run => "执行命令"@,
            HelpTopic::Link => "刷新自定义命令的 shell 函数"@,
            HelpTopic::Push => "推送配置到远程仓库"@,
            HelpTopic::Pull => "从远程仓库拉取配置"@,
            HelpTopic::Install => "完整安装软件包、工具并部署配置"@,
            HelpTopic::Proxy => "代理管理"@,
            HelpTopic::ProxyOn => "开启代理"@,
            HelpTopic::ProxyOff => "关闭代理"@,
            HelpTopic::ProxyStatus => "显示代理状态"@,
            HelpTopic::Completion => "生成并安装 shell 补全"@,
            HelpTopic::Info => "显示当前配置和路径"@,
        },
        Language::En => match topic {
            HelpTopic::Root => "Personal dev environment CLI manager"@,
            HelpTopic::Config => "Manage config"@,
            HelpTopic::ConfigInit => "Initialize the config directory and git repository"@,
            HelpTopic::ConfigRemote => "Set or show the remote git repository URL"@,
            HelpTopic::ConfigPush => "Push config to the remote repository"@,
            HelpTopic::ConfigPull => "Pull config from the remote repository"@,
            HelpTopic::ConfigExport => "Export config as a tar.gz archive"@,
            HelpTopic::ConfigImport => "Import config from a tar.gz archive"@,
            HelpTopic::ConfigPath => "Show the config directory path"@,
            HelpTopic::Env => "Manage environment variables"@,
            HelpTopic::EnvAdd => "Add an environment variable"@,
            HelpTopic::EnvEdit => "Edit an environment variable"@,
            HelpTopic::EnvRm => "Remove environment variables"@,
            HelpTopic::EnvShow => "List environment variables"@,
            HelpTopic::EnvPause => "Pause environment variables"@,
            HelpTopic::EnvResume => "Resume environment variables"@,
            HelpTopic::EnvLoad => "Print shell export commands"@,
            HelpTopic::EnvTags => "List all tags"@,
            HelpTopic::Add => "Add a custom command"@,
            HelpTopic::Edit => "Edit an existing command"@,
            HelpTopic::List => "List all commands"@,
            HelpTopic::Rm => "Remove a command"@,
            HelpTopic::Run => "Run a command"@,
            HelpTopic::Link => "Refresh shell functions for custom commands"@,
            HelpTopic::Push => "Push config to the remote repository"@,
            HelpTopic::Pull => "Pull config from the remote repository"@,
            HelpTopic::Install => "Install packages and tools, then deploy config"@,
            HelpTopic::Proxy => "Manage proxy"@,
            HelpTopic::ProxyOn => "Enable proxy"@,
            HelpTopic::ProxyOff => "Disable proxy"@,
            HelpTopic::ProxyStatus => "Show proxy status"@,
            HelpTopic::Completion => "Generate and install shell completion"@,
            HelpTopic::Info => "Show current config and paths"@,
        },
    }
}

/// The arguments of a topic that get a help text in a language, each with
/// its id and its help, in order.
pub open spec fn arg_helps_of(lang: Language, topic: HelpTopic) -> Seq<(Seq<char>, Seq<char>)> {
    match lang {
        Language::ZhCn => match topic {
            HelpTopic::Root => seq![],
            HelpTopic::Config => seq![],
            HelpTopic::ConfigInit => seq![("force"@, "强制覆盖同名文件"@)],
            HelpTopic::ConfigRemote => seq![("url"@, "远程仓库地址"@)],
            HelpTopic::ConfigPush => seq![],
            HelpTopic::ConfigPull => seq![],
            HelpTopic::ConfigExport => seq![("with_binary"@, "同时打包 ax 二进制"@), ("output"@, "输出文件路径"@)],
            HelpTopic::ConfigImport => seq![("file"@, "要导入的归档文件"@)],
            HelpTopic::ConfigPath => seq![],
            HelpTopic::Env => seq![],
            HelpTopic::EnvAdd => seq![("name"@, "变量名"@), ("value"@, "变量值"@), ("desc"@, "变量描述"@), ("tags"@, "标签，使用逗号分隔"@)],
            HelpTopic::EnvEdit => seq![("name"@, "变量名"@), ("value"@, "新值"@), ("desc"@, "新描述"@), ("tags"@, "新标签，使用逗号分隔"@)],
            HelpTopic::EnvRm => seq![("names"@, "一个或多个变量名"@)],
            HelpTopic::EnvShow => seq![("name"@, "仅显示指定变量"@), ("tag"@, "按标签筛选"@), ("all"@, "显示全部，包括已暂停变量"@)],
            HelpTopic::EnvPause => seq![("names"@, "一个或多个变量名"@), ("tag"@, "暂停指定标签下的全部变量"@), ("all"@, "暂停全部变量"@)],
            HelpTopic::EnvResume => seq![("names"@, "一个或多个变量名"@), ("tag"@, "恢复指定标签下的全部变量"@), ("all"@, "恢复全部变量"@)],
            HelpTopic::EnvLoad => seq![],
            HelpTopic::EnvTags => seq![],
            HelpTopic::Add => seq![("name"@, "命令名称"@), ("cmd"@, "命令内容，传 - 从 stdin 读取，省略则打开编辑器"@), ("desc"@, "命令描述"@), ("file"@, "从文件读取命令内容"@), ("raw"@, "不自动添加 ax- 前缀"@)],
            HelpTopic::Edit => seq![("name"@, "命令名称"@)],
            HelpTopic::List => seq![],
            HelpTopic::Rm => seq![("name"@, "命令名称"@)],
            HelpTopic::Run => seq![("name"@, "命令名称，留空则进入交互选择"@)],
            HelpTopic::Link => seq![],
            HelpTopic::Push => seq![],
            HelpTopic::Pull => seq![],
            HelpTopic::Install => seq![("extras"@, "同时安装额外开发工具"@)],
            HelpTopic::Proxy => seq![],
            HelpTopic::ProxyOn => seq![("addr"@, "代理地址，留空则使用配置中的地址"@)],
            HelpTopic::ProxyOff => seq![],
            HelpTopic::ProxyStatus => seq![],
            HelpTopic::Completion => seq![("shell"@, "目标 shell：bash、zsh、powershell"@), ("print"@, "打印补全脚本而不是安装"@)],
            HelpTopic::Info => seq![],
        },
        Language::En => match topic {
            HelpTopic::Root => seq![],
            HelpTopic::Config => seq![],
            HelpTopic::ConfigInit => seq![("force"@, "Overwrite existing files"@)],
            HelpTopic::ConfigRemote => seq![("url"@, "Remote repository URL"@)],
            HelpTopic::ConfigPush => seq![],
            HelpTopic::ConfigPull => seq![],
            HelpTopic::ConfigExport => seq![("with_binary"@, "Include the ax binary"@), ("output"@, "Output archive path"@)],
            HelpTopic::ConfigImport => seq![("file"@, "Archive file to import"@)],
            HelpTopic::ConfigPath => seq![],
            HelpTopic::Env => seq![],
            HelpTopic::EnvAdd => seq![("name"@, "Variable name"@), ("value"@, "Variable value"@), ("desc"@, "Variable description"@), ("tags"@, "Comma-separated tags"@)],
            HelpTopic::EnvEdit => seq![("name"@, "Variable name"@), ("value"@, "New value"@), ("desc"@, "New description"@), ("tags"@, "New comma-separated tags"@)],
            HelpTopic::EnvRm => seq![("names"@, "One or more variable names"@)],
            HelpTopic::EnvShow => seq![("name"@, "Show only the specified variable"@), ("tag"@, "Filter by tag"@), ("all"@, "Show all variables, including paused ones"@)],
            HelpTopic::EnvPause => seq![("names"@, "One or more variable names"@), ("tag"@, "Pause all variables with the tag"@), ("all"@, "Pause all variables"@)],
            HelpTopic::EnvResume => seq![("names"@, "One or more variable names"@), ("tag"@, "Resume all variables with the tag"@), ("all"@, "Resume all variables"@)],
            HelpTopic::EnvLoad => seq![],
            HelpTopic::EnvTags => seq![],
            HelpTopic::Add => seq![("name"@, "Command name"@), ("cmd"@, "Command body to execute"@), ("desc"@, "Command description"@)],
            HelpTopic::Edit => seq![("name"@, "Command name"@)],
            HelpTopic::List => seq![],
            HelpTopic::Rm => seq![("name"@, "Command name"@)],
            HelpTopic::Run => seq![("name"@, "Command name; omit to use interactive selection"@)],
            HelpTopic::Link => seq![],
            HelpTopic::Push => seq![],
            HelpTopic::Pull => seq![],
            HelpTopic::Install => seq![("extras"@, "Also install extra developer tools"@)],
            HelpTopic::Proxy => seq![],
            HelpTopic::ProxyOn => seq![("addr"@, "Proxy address; defaults to configured value"@)],
            HelpTopic::ProxyOff => seq![],
            HelpTopic::ProxyStatus => seq![],
            HelpTopic::Completion => seq![("shell"@, "Target shell: bash, zsh, powershell"@), ("print"@, "Print the completion script instead of installing it"@)],
            HelpTopic::Info => seq![],
        },
    }
}

/// Every topic, in the order in which the commands are declared.
pub fn help_topics() -> (r: Vec<HelpTopic>)
    ensures
        r@ == all_topics(),
{
    vec![
        HelpTopic::Root,
        HelpTopic::Config,
        HelpTopic::ConfigInit,
        HelpTopic::ConfigRemote,
        HelpTopic::ConfigPush,
        HelpTopic::ConfigPull,
        HelpTopic::ConfigExport,
        HelpTopic::ConfigImport,
        HelpTopic::ConfigPath,
        HelpTopic::Env,
        HelpTopic::EnvAdd,
        HelpTopic::EnvEdit,
        HelpTopic::EnvRm,
        HelpTopic::EnvShow,
        HelpTopic::EnvPause,
        HelpTopic::EnvResume,
        HelpTopic::EnvLoad,
        HelpTopic::EnvTags,
        HelpTopic::Add,
        HelpTopic::Edit,
        HelpTopic::List,
        HelpTopic::Rm,
        HelpTopic::Run,
        HelpTopic::Link,
        HelpTopic::Push,
        HelpTopic::Pull,
        HelpTopic::Install,
        HelpTopic::Proxy,
        HelpTopic::ProxyOn,
        HelpTopic::ProxyOff,
        HelpTopic::ProxyStatus,
        HelpTopic::Completion,
        HelpTopic::Info
    ]
}

/// The names of the subcommands that lead from `ax` to a topic.
pub fn topic_path(topic: HelpTopic) -> (r: Vec<&'static str>)
    ensures
        r@.len() == path_of(topic).len(),
        forall|i: int| 0 <= i < r@.len() ==> #[trigger] r@[i]@ == path_of(topic)[i],
{
    match topic {
        HelpTopic::Root => vec![],
        HelpTopic::Config => vec!["config"],
        HelpTopic::ConfigInit => vec!["config", "init"],
        HelpTopic::ConfigRemote => vec!["config", "remote"],
        HelpTopic::ConfigPush => vec!["config", "push"],
        HelpTopic::ConfigPull => vec!["config", "pull"],
        HelpTopic::ConfigExport => vec!["config", "export"],
        HelpTopic::ConfigImport => vec!["config", "import"],
        HelpTopic::ConfigPath => vec!["config", "path"],
        HelpTopic::Env => vec!["env"],
        HelpTopic::EnvAdd => vec!["env", "add"],
        HelpTopic::EnvEdit => vec!["env", "edit"],
        HelpTopic::EnvRm => vec!["env", "rm"],
        HelpTopic::EnvShow => vec!["env", "show"],
        HelpTopic::EnvPause => vec!["env", "pause"],
        HelpTopic::EnvResume => vec!["env", "resume"],
        HelpTopic::EnvLoad => vec!["env", "load"],
        HelpTopic::EnvTags => vec!["env", "tags"],
        HelpTopic::Add => vec!["add"],
        HelpTopic::Edit => vec!["edit"],
        HelpTopic::List => vec!["list"],
        HelpTopic::Rm => vec!["rm"],
        HelpTopic::Run => vec!["run"],
        HelpTopic::Link => vec!["link"],
        HelpTopic::Push => vec!["push"],
        HelpTopic::Pull => vec!["pull"],
        HelpTopic::Install => vec!["install"],
        HelpTopic::Proxy => vec!["proxy"],
        HelpTopic::ProxyOn => vec!["proxy", "on"],
        HelpTopic::ProxyOff => vec!["proxy", "off"],
        HelpTopic::ProxyStatus => vec!["proxy", "status"],
        HelpTopic::Completion => vec!["completion"],
        HelpTopic::Info => vec!["info"],
    }
}

/// The description of a topic in a language.
pub fn about(lang: Language, topic: HelpTopic) -> (r: &'static str)
    ensures
        r@ == about_of(lang, topic),
{
    match lang {
        Language::ZhCn => match topic {
            HelpTopic::Root => "个人开发环境命令行管理工具",
            HelpTopic::Config => "配置管理",
            HelpTopic::ConfigInit => "用默认内容初始化配置目录和 git 仓库",
            HelpTopic::ConfigRemote => "设置或显示远程 git 仓库地址",
            HelpTopic::ConfigPush => "推送配置到远程仓库",
            HelpTopic::ConfigPull => "从远程仓库拉取配置",
            HelpTopic::ConfigExport => "导出配置为 tar.gz",
            HelpTopic::ConfigImport => "从 tar.gz 导入配置",
            HelpTopic::ConfigPath => "显示配置目录路径",
            HelpTopic::Env => "环境变量管理",
            HelpTopic::EnvAdd => "添加环境变量",
            HelpTopic::EnvEdit => "编辑环境变量",
            HelpTopic::EnvRm => "删除环境变量",
            HelpTopic::EnvShow => "列出环境变量",
            HelpTopic::EnvPause => "暂停环境变量",
            HelpTopic::EnvResume => "恢复环境变量",
            HelpTopic::EnvLoad => "输出 shell 导出命令",
            HelpTopic::EnvTags => "列出所有标签",
            HelpTopic::Add => "添加自定义命令",
            HelpTopic::Edit => "编辑已有命令",
            HelpTopic::List => "列出所有命令",
            HelpTopic::Rm => "删除命令",
            HelpTopic::Run => "执行命令",
            HelpTopic::Link => "刷新自定义命令的 shell 函数",
            HelpTopic::Push => "推送配置到远程仓库",
            HelpTopic::Pull => "从远程仓库拉取配置",
            HelpTopic::Install => "完整安装软件包、工具并部署配置",
            HelpTopic::Proxy => "代理管理",
            HelpTopic::ProxyOn => "开启代理",
            HelpTopic::ProxyOff => "关闭代理",
            HelpTopic::ProxyStatus => "显示代理状态",
            HelpTopic::Completion => "生成并安装 shell 补全",
            HelpTopic::Info => "显示当前配置和路径",
        },
        Language::En => match topic {
            HelpTopic::Root => "Personal dev environment CLI manager",
            HelpTopic::Config => "Manage config",
            HelpTopic::ConfigInit => "Initialize the config directory and git repository",
            HelpTopic::ConfigRemote => "Set or show the remote git repository URL",
            HelpTopic::ConfigPush => "Push config to the remote repository",
            HelpTopic::ConfigPull => "Pull config from the remote repository",
            HelpTopic::ConfigExport => "Export config as a tar.gz archive",
            HelpTopic::ConfigImport => "Import config from a tar.gz archive",
            HelpTopic::ConfigPath => "Show the config directory path",
            HelpTopic::Env => "Manage environment variables",
            HelpTopic::EnvAdd => "Add an environment variable",
            HelpTopic::EnvEdit => "Edit an environment variable",
            HelpTopic::EnvRm => "Remove environment variables",
            HelpTopic::EnvShow => "List environment variables",
            HelpTopic::EnvPause => "Pause environment variables",
            HelpTopic::EnvResume => "Resume environment variables",
            HelpTopic::EnvLoad => "Print shell export commands",
            HelpTopic::EnvTags => "List all tags",
            HelpTopic::Add => "Add a custom command",
            HelpTopic::Edit => "Edit an existing command",
            HelpTopic::List => "List all commands",
            HelpTopic::Rm => "Remove a command",
            HelpTopic::Run => "Run a command",
            HelpTopic::Link => "Refresh shell functions for custom commands",
            HelpTopic::Push => "Push config to the remote repository",
            HelpTopic::Pull => "Pull config from the remote repository",
            HelpTopic::Install => "Install packages and tools, then deploy config",
            HelpTopic::Proxy => "Manage proxy",
            HelpTopic::ProxyOn => "Enable proxy",
            HelpTopic::ProxyOff => "Disable proxy",
            HelpTopic::ProxyStatus => "Show proxy status",
            HelpTopic::Completion => "Generate and install shell completion",
            HelpTopic::Info => "Show current config and paths",
        },
    }
}

/// The arguments of a topic that get a help text in a language, each with
/// its id and its help, in order.
pub fn arg_helps(lang: Language, topic: HelpTopic) -> (r: Vec<(&'static str, &'static str)>)
    ensures
        r@.len() == arg_helps_of(lang, topic).len(),
        forall|i: int|
            0 <= i < r@.len() ==> (#[trigger] r@[i]).0@ == arg_helps_of(lang, topic)[i].0
                && r@[i].1@ == arg_helps_of(lang, topic)[i].1,
{
    match lang {
        Language::ZhCn => match topic {
            HelpTopic::Root => vec![],
            HelpTopic::Config => vec![],
            HelpTopic::ConfigInit => vec![("force", "强制覆盖同名文件")],
            HelpTopic::ConfigRemote => vec![("url", "远程仓库地址")],
            HelpTopic::ConfigPush => vec![],
            HelpTopic::ConfigPull => vec![],
            HelpTopic::ConfigExport => vec![("with_binary", "同时打包 ax 二进制"), ("output", "输出文件路径")],
            HelpTopic::ConfigImport => vec![("file", "要导入的归档文件")],
            HelpTopic::ConfigPath => vec![],
            HelpTopic::Env => vec![],
            HelpTopic::EnvAdd => vec![("name", "变量名"), ("value", "变量值"), ("desc", "变量描述"), ("tags", "标签，使用逗号分隔")],
            HelpTopic::EnvEdit => vec![("name", "变量名"), ("value", "新值"), ("desc", "新描述"), ("tags", "新标签，使用逗号分隔")],
            HelpTopic::EnvRm => vec![("names", "一个或多个变量名")],
            HelpTopic::EnvShow => vec![("name", "仅显示指定变量"), ("tag", "按标签筛选"), ("all", "显示全部，包括已暂停变量")],
            HelpTopic::EnvPause => vec![("names", "一个或多个变量名"), ("tag", "暂停指定标签下的全部变量"), ("all", "暂停全部变量")],
            HelpTopic::EnvResume => vec![("names", "一个或多个变量名"), ("tag", "恢复指定标签下的全部变量"), ("all", "恢复全部变量")],
            HelpTopic::EnvLoad => vec![],
            HelpTopic::EnvTags => vec![],
            HelpTopic::Add => vec![("name", "命令名称"), ("cmd", "命令内容，传 - 从 stdin 读取，省略则打开编辑器"), ("desc", "命令描述"), ("file", "从文件读取命令内容"), ("raw", "不自动添加 ax- 前缀")],
            HelpTopic::Edit => vec![("name", "命令名称")],
            HelpTopic::List => vec![],
            HelpTopic::Rm => vec![("name", "命令名称")],
            HelpTopic::Run => vec![("name", "命令名称，留空则进入交互选择")],
            HelpTopic::Link => vec![],
            HelpTopic::Push => vec![],
            HelpTopic::Pull => vec![],
            HelpTopic::Install => vec![("extras", "同时安装额外开发工具")],
            HelpTopic::Proxy => vec![],
            HelpTopic::ProxyOn => vec![("addr", "代理地址，留空则使用配置中的地址")],
            HelpTopic::ProxyOff => vec![],
            HelpTopic::ProxyStatus => vec![],
            HelpTopic::Completion => vec![("shell", "目标 shell：bash、zsh、powershell"), ("print", "打印补全脚本而不是安装")],
            HelpTopic::Info => vec![],
        },
        Language::En => match topic {
            HelpTopic::Root => vec![],
            HelpTopic::Config => vec![],
            HelpTopic::ConfigInit => vec![("force", "Overwrite existing files")],
            HelpTopic::ConfigRemote => vec![("url", "Remote repository URL")],
            HelpTopic::ConfigPush => vec![],
            HelpTopic::ConfigPull => vec![],
            HelpTopic::ConfigExport => vec![("with_binary", "Include the ax binary"), ("output", "Output archive path")],
            HelpTopic::ConfigImport => vec![("file", "Archive file to import")],
            HelpTopic::ConfigPath => vec![],
            HelpTopic::Env => vec![],
            HelpTopic::EnvAdd => vec![("name", "Variable name"), ("value", "Variable value"), ("desc", "Variable description"), ("tags", "Comma-separated tags")],
            HelpTopic::EnvEdit => vec![("name", "Variable name"), ("value", "New value"), ("desc", "New description"), ("tags", "New comma-separated tags")],
            HelpTopic::EnvRm => vec![("names", "One or more variable names")],
            HelpTopic::EnvShow => vec![("name", "Show only the specified variable"), ("tag", "Filter by tag"), ("all", "Show all variables, including paused ones")],
            HelpTopic::EnvPause => vec![("names", "One or more variable names"), ("tag", "Pause all variables with the tag"), ("all", "Pause all variables")],
            HelpTopic::EnvResume => vec![("names", "One or more variable names"), ("tag", "Resume all variables with the tag"), ("all", "Resume all variables")],
            HelpTopic::EnvLoad => vec![],
            HelpTopic::EnvTags => vec![],
            HelpTopic::Add => vec![("name", "Command name"), ("cmd", "Command body to execute"), ("desc", "Command description")],
            HelpTopic::Edit => vec![("name", "Command name")],
            HelpTopic::List => vec![],
            HelpTopic::Rm => vec![("name", "Command name")],
            HelpTopic::Run => vec![("name", "Command name; omit to use interactive selection")],
            HelpTopic::Link => vec![],
            HelpTopic::Push => vec![],
            HelpTopic::Pull => vec![],
            HelpTopic::Install => vec![("extras", "Also install extra developer tools")],
            HelpTopic::Proxy => vec![],
            HelpTopic::ProxyOn => vec![("addr", "Proxy address; defaults to configured value")],
            HelpTopic::ProxyOff => vec![],
            HelpTopic::ProxyStatus => vec![],
            HelpTopic::Completion => vec![("shell", "Target shell: bash, zsh, powershell"), ("print", "Print the completion script instead of installing it")],
            HelpTopic::Info => vec![],
        },
    }
}

} // verus!
