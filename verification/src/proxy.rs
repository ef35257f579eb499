//! Proxy variables: the scripts that set and clear them in each shell, the
//! quoting they need, and what `ax proxy` prints.
use vstd::prelude::*;

use crate::cli::ProxyAction;
use crate::config::Config;
use crate::text::{
    all_ascii, chars_eq, chars_of, contains, find, lower_seq, push_str,
    push_char, replace, replace_all, str_to_lowercase, to_lowercase,
};

verus! {

/// The shell whose syntax the printed commands use.
#[derive(Clone, Copy, Debug, PartialEq, Eq, Structural)]
pub enum ShellType {
    Bash,
    PowerShell,
    Cmd,
}

/// A character that a POSIX shell takes literally, unquoted, inside an
/// assignment word: ASCII letters and digits and `_ - . / : , = @ % +`.
pub open spec fn is_word_char(c: char) -> bool {
    ('a' <= c && c <= 'z') || ('A' <= c && c <= 'Z') || ('0' <= c && c <= '9') || c == '_'
        || c == '-' || c == '.' || c == '/' || c == ':' || c == ',' || c == '=' || c == '@'
        || c == '%' || c == '+'
}

/// A value needs single quotes in a POSIX shell when it holds any other
/// character.
pub open spec fn needs_quoting(s: Seq<char>) -> bool {
    exists|i: int| 0 <= i < s.len() && !is_word_char(#[trigger] s[i])
}

/// The inside of the single quotes: each `'` is written `'\''` (close the
/// quotes, an escaped quote, open them again); every other character as is.
pub open spec fn single_quote_body(s: Seq<char>) -> Seq<char>
    decreases s.len(),
{
    if s.len() == 0 {
        seq![]
    } else {
        (if s[0] == '\'' {
            seq!['\'', '\\', '\'', '\'']
        } else {
            seq![s[0]]
        }) + single_quote_body(s.drop_first())
    }
}

/// A value as written for a POSIX shell: as is when every character is a
/// word character, otherwise in single quotes.
pub open spec fn bash_quoted(s: Seq<char>) -> Seq<char> {
    if needs_quoting(s) {
        seq!['\''] + single_quote_body(s) + seq!['\'']
    } else {
        s
    }
}

/// The value a POSIX shell reads from the word `w` (the rest of a word
/// after `quoted` tells whether a single quote is open): word characters
/// stand for themselves, single quotes keep everything up to the closing
/// quote, a backslash keeps the next character. `None` when the word holds
/// anything else unquoted (which the shell would treat specially) or leaves
/// a quote open.
pub open spec fn sh_read(w: Seq<char>, quoted: bool) -> Option<Seq<char>>
    decreases w.len(),
{
    if w.len() == 0 {
        if quoted {
            None
        } else {
            Some(seq![])
        }
    } else if quoted {
        if w[0] == '\'' {
            sh_read(w.drop_first(), false)
        } else {
            prepend(w[0], sh_read(w.drop_first(), true))
        }
    } else if w[0] == '\'' {
        sh_read(w.drop_first(), true)
    } else if w[0] == '\\' {
        if w.len() < 2 {
            None
        } else {
            prepend(w[1], sh_read(w.skip(2), false))
        }
    } else if is_word_char(w[0]) {
        prepend(w[0], sh_read(w.drop_first(), false))
    } else {
        None
    }
}

/// `c` in front of a read value.
pub open spec fn prepend(c: char, r: Option<Seq<char>>) -> Option<Seq<char>> {
    match r {
        Some(v) => Some(seq![c] + v),
        None => None,
    }
}

proof fn lemma_read_body(s: Seq<char>, tail: Seq<char>)
    ensures
        sh_read(single_quote_body(s) + seq!['\''] + tail, true) == (match sh_read(tail, false) {
            Some(v) => Some(s + v),
            None => None,
        }),
    decreases s.len(),
{
    let w = single_quote_body(s) + seq!['\''] + tail;
    if s.len() == 0 {
        assert(w =~= seq!['\''] + tail);
        assert(w.drop_first() =~= tail);
        assert(s + seq![] =~= s);
        match sh_read(tail, false) {
            Some(v) => {
                assert(s + v =~= v);
            },
            None => {},
        }
    } else {
        let rest = single_quote_body(s.drop_first()) + seq!['\''] + tail;
        lemma_read_body(s.drop_first(), tail);
        if s[0] == '\'' {
            assert(w =~= seq!['\'', '\\', '\'', '\''] + rest);
            let w1 = w.drop_first();
            assert(w1 =~= seq!['\\', '\'', '\''] + rest);
            assert(w1.skip(2) =~= seq!['\''] + rest);
            assert(w1.skip(2).drop_first() =~= rest);
            assert(sh_read(w1.skip(2), false) == sh_read(rest, true));
            assert(sh_read(w1, false) == prepend('\'', sh_read(rest, true)));
            assert(sh_read(w, true) == sh_read(w1, false));
        } else {
            assert(w =~= seq![s[0]] + rest);
            assert(w.drop_first() =~= rest);
            assert(sh_read(w, true) == prepend(s[0], sh_read(rest, true)));
        }
        match sh_read(tail, false) {
            Some(v) => {
                assert(seq![s[0]] + (s.drop_first() + v) =~= s + v);
            },
            None => {},
        }
    }
}

proof fn lemma_read_plain(s: Seq<char>)
    requires
        !needs_quoting(s),
    ensures
        sh_read(s, false) == Some(s),
    decreases s.len(),
{
    if s.len() > 0 {
        assert(is_word_char(s[0]));
        assert forall|i: int| 0 <= i < s.drop_first().len() implies is_word_char(
            #[trigger] s.drop_first()[i],
        ) by {
            assert(is_word_char(s[i + 1]));
        }
        lemma_read_plain(s.drop_first());
        assert(seq![s[0]] + s.drop_first() =~= s);
    } else {
        assert(s =~= seq![]);
    }
}

/// A quoted value, read back by a POSIX shell, is the value itself, as one
/// word.
pub proof fn lemma_bash_quoted_reads_back(s: Seq<char>)
    ensures
        sh_read(bash_quoted(s), false) == Some(s),
{
    if needs_quoting(s) {
        let w = seq!['\''] + single_quote_body(s) + seq!['\''];
        assert(w.drop_first() =~= single_quote_body(s) + seq!['\''] + Seq::<char>::empty());
        lemma_read_body(s, Seq::<char>::empty());
        assert(s + seq![] =~= s);
    } else {
        lemma_read_plain(s);
    }
}

/// A value as written inside double quotes for PowerShell: each `"` escaped
/// with a backtick.
pub open spec fn ps_quoted(s: Seq<char>) -> Seq<char> {
    replace(s, "\""@, "`\""@)
}

/// Quotes a value for a POSIX shell when it needs it, so that the shell
/// reads back exactly the value.
pub fn bash_escape(s: &str) -> (r: String)
    ensures
        r@ == bash_quoted(s@),
        sh_read(r@, false) == Some(s@),
{
    proof {
        lemma_bash_quoted_reads_back(s@);
    }
    let v = chars_of(s);
    let mut needs = false;
    let mut i: usize = 0;
    while i < v.len()
        invariant
            i <= v@.len(),
            v@ == s@,
            needs == exists|j: int| 0 <= j < i && !is_word_char(#[trigger] v@[j]),
        decreases v.len() - i,
    {
        let c = v[i];
        let word = ('a' <= c && c <= 'z') || ('A' <= c && c <= 'Z') || ('0' <= c && c <= '9')
            || c == '_' || c == '-' || c == '.' || c == '/' || c == ':' || c == ',' || c == '='
            || c == '@' || c == '%' || c == '+';
        if !word {
            needs = true;
        }
        i = i + 1;
    }
    if !needs {
        return s.to_owned();
    }
    let mut out = String::new();
    push_char(&mut out, '\'');
    assert(out@ =~= seq!['\'']);
    assert(s@.skip(0) =~= s@);
    let mut k: usize = 0;
    while k < v.len()
        invariant
            k <= v@.len(),
            v@ == s@,
            seq!['\''] + single_quote_body(s@) == out@ + single_quote_body(s@.skip(k as int)),
        decreases v.len() - k,
    {
        let ghost rest = s@.skip(k as int);
        assert(rest.drop_first() =~= s@.skip(k + 1));
        assert(rest[0] == v@[k as int]);
        if v[k] == '\'' {
            push_char(&mut out, '\'');
            push_char(&mut out, '\\');
            push_char(&mut out, '\'');
            push_char(&mut out, '\'');
        } else {
            push_char(&mut out, v[k]);
        }
        k = k + 1;
    }
    assert(s@.skip(v@.len() as int) =~= Seq::<char>::empty());
    push_char(&mut out, '\'');
    out
}

/// Escapes the double quotes of a value for PowerShell.
pub fn ps_escape(s: &str) -> (r: String)
    ensures
        r@ == ps_quoted(s@),
{
    proof {
        reveal_strlit("\"");
    }
    replace_all(s, "\"", "`\"")
}

/// One assignment line: `prefix NAME mid VALUE suffix`.
pub open spec fn line(
    prefix: Seq<char>,
    name: Seq<char>,
    mid: Seq<char>,
    v: Seq<char>,
    suffix: Seq<char>,
) -> Seq<char> {
    prefix + name + mid + v + suffix
}

/// The variables that the proxy scripts set and clear: the proxy address
/// goes into the first six, the exempted hosts into the last two.
pub open spec fn proxy_vars() -> Seq<Seq<char>> {
    seq![
        "http_proxy"@,
        "https_proxy"@,
        "all_proxy"@,
        "HTTP_PROXY"@,
        "HTTPS_PROXY"@,
        "ALL_PROXY"@,
        "no_proxy"@,
        "NO_PROXY"@,
    ]
}

/// The value the `i`th variable gets: the address `v` or the exempted
/// hosts `n`.
pub open spec fn value_for(i: int, v: Seq<char>, n: Seq<char>) -> Seq<char> {
    if i < 6 {
        v
    } else {
        n
    }
}

/// The assignment lines of the first `k` variables, each
/// `prefix NAME mid VALUE suffix`.
pub open spec fn var_lines(prefix: Seq<char>, mid: Seq<char>, suffix: Seq<char>, v: Seq<char>, n: Seq<char>, k: int) -> Seq<char>
    decreases k,
{
    if k <= 0 {
        Seq::empty()
    } else {
        var_lines(prefix, mid, suffix, v, n, k - 1) + line(prefix, proxy_vars()[k - 1], mid, value_for(k - 1, v, n), suffix)
    }
}

/// The assignments of all the proxy variables.
pub open spec fn assignments(
    prefix: Seq<char>,
    mid: Seq<char>,
    suffix: Seq<char>,
    v: Seq<char>,
    n: Seq<char>,
) -> Seq<char> {
    var_lines(prefix, mid, suffix, v, n, 8)
}

/// The first `k` variable names, each after a space.
pub open spec fn spaced_vars(k: int) -> Seq<char>
    decreases k,
{
    if k <= 0 {
        Seq::empty()
    } else {
        spaced_vars(k - 1) + " "@ + proxy_vars()[k - 1]
    }
}

/// The first `k` variables as PowerShell items (`Env:NAME`), comma-separated.
pub open spec fn env_items(k: int) -> Seq<char>
    decreases k,
{
    if k <= 0 {
        Seq::empty()
    } else if k == 1 {
        "Env:"@ + proxy_vars()[0]
    } else {
        env_items(k - 1) + ","@ + "Env:"@ + proxy_vars()[k - 1]
    }
}

/// The names of the proxy variables, in order.
pub fn proxy_var_names() -> (r: Vec<&'static str>)
    ensures
        r@.map_values(|s: &str| s@) == proxy_vars(),
{
    let r = vec![
        "http_proxy",
        "https_proxy",
        "all_proxy",
        "HTTP_PROXY",
        "HTTPS_PROXY",
        "ALL_PROXY",
        "no_proxy",
        "NO_PROXY",
    ];
    assert(r@.map_values(|s: &str| s@) =~= proxy_vars());
    r
}

/// The script that turns the proxy on in a shell.
pub open spec fn on_script(shell: ShellType, addr: Seq<char>, no_proxy: Seq<char>) -> Seq<char> {
    match shell {
        ShellType::PowerShell => assignments(
            "$env:"@,
            " = \""@,
            "\"\n"@,
            ps_quoted(addr),
            ps_quoted(no_proxy),
        ) + "Write-Host \"🟢 Proxy ON: "@ + ps_quoted(addr) + "\"\n"@,
        ShellType::Cmd => assignments("set "@, "="@, "\n"@, addr, no_proxy) + "echo 🟢 Proxy ON: "@
            + addr + "\n"@,
        ShellType::Bash => assignments(
            "export "@,
            "="@,
            "\n"@,
            bash_quoted(addr),
            bash_quoted(no_proxy),
        ) + "echo \"🟢 Proxy ON: "@ + addr + "\"\n"@,
    }
}

/// The script that turns the proxy off in a shell: every proxy variable is
/// cleared.
pub open spec fn off_script(shell: ShellType) -> Seq<char> {
    match shell {
        ShellType::PowerShell => "Remove-Item "@ + env_items(8)
            + " -ErrorAction SilentlyContinue\nWrite-Host \"🔴 Proxy OFF\"\n"@,
        ShellType::Cmd => var_lines("set "@, "="@, "\n"@, Seq::empty(), Seq::empty(), 8)
            + "echo 🔴 Proxy OFF\n"@,
        ShellType::Bash => "unset"@ + spaced_vars(8) + "\necho \"🔴 Proxy OFF\"\n"@,
    }
}

fn push_line(out: &mut String, prefix: &str, name: &str, mid: &str, v: &str, suffix: &str)
    ensures
        final(out)@ == old(out)@ + line(prefix@, name@, mid@, v@, suffix@),
{
    let ghost start = out@;
    push_str(out, prefix);
    push_str(out, name);
    push_str(out, mid);
    push_str(out, v);
    push_str(out, suffix);
    assert(out@ =~= start + line(prefix@, name@, mid@, v@, suffix@));
}

fn push_assignments(out: &mut String, prefix: &str, mid: &str, suffix: &str, v: &str, n: &str)
    ensures
        final(out)@ == old(out)@ + assignments(prefix@, mid@, suffix@, v@, n@),
{
    let ghost start = out@;
    let names = proxy_var_names();
    let mut k: usize = 0;
    assert(start + var_lines(prefix@, mid@, suffix@, v@, n@, 0) =~= start);
    while k < names.len()
        invariant
            names@.map_values(|s: &str| s@) == proxy_vars(),
            k <= names@.len(),
            out@ == start + var_lines(prefix@, mid@, suffix@, v@, n@, k as int),
        decreases names@.len() - k,
    {
        assert(names@[k as int]@ == proxy_vars()[k as int]);
        if k < 6 {
            push_line(out, prefix, names[k], mid, v, suffix);
        } else {
            push_line(out, prefix, names[k], mid, n, suffix);
        }
        k = k + 1;
        assert(out@ =~= start + var_lines(prefix@, mid@, suffix@, v@, n@, k as int));
    }
    assert(names@.len() == 8) by {
        assert(names@.map_values(|s: &str| s@).len() == proxy_vars().len());
    }
}

/// The script that turns the proxy on, for `shell`, with proxy address
/// `proxy_addr` and the hosts in `no_proxy` exempted.
pub fn render_on_script(shell_type: ShellType, proxy_addr: &str, no_proxy: &str) -> (r: String)
    ensures
        r@ == on_script(shell_type, proxy_addr@, no_proxy@),
{
    let mut out = String::new();
    match shell_type {
        ShellType::PowerShell => {
            let p = ps_escape(proxy_addr);
            let n = ps_escape(no_proxy);
            push_assignments(&mut out, "$env:", " = \"", "\"\n", p.as_str(), n.as_str());
            push_str(&mut out, "Write-Host \"🟢 Proxy ON: ");
            push_str(&mut out, p.as_str());
            push_str(&mut out, "\"\n");
        },
        ShellType::Cmd => {
            push_assignments(&mut out, "set ", "=", "\n", proxy_addr, no_proxy);
            push_str(&mut out, "echo 🟢 Proxy ON: ");
            push_str(&mut out, proxy_addr);
            push_str(&mut out, "\n");
        },
        ShellType::Bash => {
            let p = bash_escape(proxy_addr);
            let n = bash_escape(no_proxy);
            push_assignments(&mut out, "export ", "=", "\n", p.as_str(), n.as_str());
            push_str(&mut out, "echo \"🟢 Proxy ON: ");
            push_str(&mut out, proxy_addr);
            push_str(&mut out, "\"\n");
        },
    }
    assert(out@ =~= on_script(shell_type, proxy_addr@, no_proxy@));
    out
}

/// The script that turns the proxy off, for `shell`.
pub fn render_off_script(shell_type: ShellType) -> (r: String)
    ensures
        r@ == off_script(shell_type),
{
    let names = proxy_var_names();
    let mut out = String::new();
    match shell_type {
        ShellType::PowerShell => {
            push_str(&mut out, "Remove-Item ");
            let ghost start = out@;
            let mut k: usize = 0;
            assert(start + env_items(0) =~= start);
            while k < names.len()
                invariant
                    names@.map_values(|s: &str| s@) == proxy_vars(),
                    k <= names@.len(),
                    out@ == start + env_items(k as int),
                decreases names@.len() - k,
            {
                assert(names@[k as int]@ == proxy_vars()[k as int]);
                if k > 0 {
                    push_str(&mut out, ",");
                }
                push_str(&mut out, "Env:");
                push_str(&mut out, names[k]);
                k = k + 1;
                assert(out@ =~= start + env_items(k as int));
            }
            assert(names@.map_values(|s: &str| s@).len() == 8);
            assert(k == 8);
            push_str(&mut out, " -ErrorAction SilentlyContinue\nWrite-Host \"🔴 Proxy OFF\"\n");
            assert(out@ =~= off_script(shell_type));
        },
        ShellType::Cmd => {
            push_assignments(&mut out, "set ", "=", "\n", "", "");
            proof {
                reveal_strlit("");
            }
            assert(""@ =~= Seq::<char>::empty());
            push_str(&mut out, "echo 🔴 Proxy OFF\n");
            assert(out@ =~= off_script(shell_type));
        },
        ShellType::Bash => {
            push_str(&mut out, "unset");
            let ghost start = out@;
            let mut k: usize = 0;
            assert(start + spaced_vars(0) =~= start);
            while k < names.len()
                invariant
                    names@.map_values(|s: &str| s@) == proxy_vars(),
                    k <= names@.len(),
                    out@ == start + spaced_vars(k as int),
                decreases names@.len() - k,
            {
                assert(names@[k as int]@ == proxy_vars()[k as int]);
                push_str(&mut out, " ");
                push_str(&mut out, names[k]);
                k = k + 1;
                assert(out@ =~= start + spaced_vars(k as int));
            }
            assert(names@.map_values(|s: &str| s@).len() == 8);
            assert(k == 8);
            push_str(&mut out, "\necho \"🔴 Proxy OFF\"\n");
            assert(out@ =~= off_script(shell_type));
        },
    }
    assert(out@ =~= off_script(shell_type));
    out
}

/// The shell named by `AX_SHELL`, lower-cased: PowerShell for `powershell`
/// or `pwsh`, cmd for `cmd` or `cmd.exe`, otherwise a POSIX shell.
pub open spec fn named_shell(lowered: Seq<char>) -> ShellType {
    if lowered == "powershell"@ || lowered == "pwsh"@ {
        ShellType::PowerShell
    } else if lowered == "cmd"@ || lowered == "cmd.exe"@ {
        ShellType::Cmd
    } else {
        ShellType::Bash
    }
}

/// The shell that `ax proxy` writes for: `AX_SHELL` when set; else PowerShell
/// or cmd when `SHELL` (lower-cased) names one; else, on Windows,
/// PowerShell when `PSModulePath` is set and cmd otherwise; else a POSIX shell.
pub open spec fn proxy_shell(
    ax_shell: Option<Seq<char>>,
    shell: Seq<char>,
    windows: bool,
    ps_module_path: bool,
) -> ShellType {
    if ax_shell is Some {
        named_shell(str_to_lowercase(ax_shell->0))
    } else if contains(str_to_lowercase(shell), "pwsh"@) || contains(
        str_to_lowercase(shell),
        "powershell"@,
    ) {
        ShellType::PowerShell
    } else if contains(str_to_lowercase(shell), "cmd.exe"@) {
        ShellType::Cmd
    } else if windows {
        if ps_module_path {
            ShellType::PowerShell
        } else {
            ShellType::Cmd
        }
    } else {
        ShellType::Bash
    }
}

/// The shell named by a value of `AX_SHELL`.
pub fn shell_from_name(name: &str) -> (r: ShellType)
    ensures
        r == named_shell(str_to_lowercase(name@)),
        all_ascii(name@) ==> r == named_shell(lower_seq(name@)),
{
    let lowered = to_lowercase(name);
    let l = chars_of(lowered.as_str());
    if chars_eq(&l, &chars_of("powershell")) || chars_eq(&l, &chars_of("pwsh")) {
        ShellType::PowerShell
    } else if chars_eq(&l, &chars_of("cmd")) || chars_eq(&l, &chars_of("cmd.exe")) {
        ShellType::Cmd
    } else {
        ShellType::Bash
    }
}

/// Decides the shell for `ax proxy` from `AX_SHELL`, `SHELL`, whether this is
/// Windows, and whether `PSModulePath` is set.
pub fn detect_shell_type_from(
    ax_shell: Option<&str>,
    shell: &str,
    windows: bool,
    ps_module_path: bool,
) -> (r: ShellType)
    ensures
        r == proxy_shell(crate::config::opt_view(ax_shell), shell@, windows, ps_module_path),
{
    if let Some(s) = ax_shell {
        return shell_from_name(s);
    }
    let lowered = to_lowercase(shell);
    let l = chars_of(lowered.as_str());
    if find(&l, &chars_of("pwsh")) || find(&l, &chars_of("powershell")) {
        return ShellType::PowerShell;
    }
    if find(&l, &chars_of("cmd.exe")) {
        return ShellType::Cmd;
    }
    if windows {
        if ps_module_path {
            ShellType::PowerShell
        } else {
            ShellType::Cmd
        }
    } else {
        ShellType::Bash
    }
}

/// `on` or `off`.
pub open spec fn action_word(enable: bool) -> Seq<char> {
    if enable {
        "on"@
    } else {
        "off"@
    }
}

/// The command a user runs in `shell` to apply `ax proxy on|off`.
pub open spec fn apply_command(shell: ShellType, enable: bool) -> Seq<char> {
    match shell {
        ShellType::PowerShell => "Invoke-Expression \"$(ax proxy "@ + action_word(enable) + ")\""@,
        ShellType::Cmd => "for /f \"delims=\" %i in ('ax proxy "@ + action_word(enable)
            + "') do %i"@,
        ShellType::Bash => "eval \"$(ax proxy "@ + action_word(enable) + ")\""@,
    }
}

/// What `ax proxy on|off` prints on a terminal: that it only prints commands,
/// the command to run instead, and, when turning on, the target address.
pub open spec fn apply_hint_text(shell: ShellType, enable: bool, addr: Seq<char>) -> Seq<char> {
    "`ax proxy "@ + action_word(enable)
        + "` 只会输出当前 shell 需要执行的命令，不能直接修改父 shell 的环境变量。\n"@ + "请执行: "@
        + apply_command(shell, enable) + "\n"@ + (if enable {
        "目标代理: "@ + addr + "\n"@
    } else {
        Seq::<char>::empty()
    })
}

/// The hint printed when `ax proxy` writes to a terminal.
pub fn apply_hint(shell_type: ShellType, enable: bool, proxy_addr: &str) -> (r: String)
    ensures
        r@ == apply_hint_text(shell_type, enable, proxy_addr@),
{
    let action = if enable {
        "on"
    } else {
        "off"
    };
    let mut out = "`ax proxy ".to_owned();
    push_str(&mut out, action);
    push_str(&mut out, "` 只会输出当前 shell 需要执行的命令，不能直接修改父 shell 的环境变量。\n");
    push_str(&mut out, "请执行: ");
    match shell_type {
        ShellType::PowerShell => {
            push_str(&mut out, "Invoke-Expression \"$(ax proxy ");
            push_str(&mut out, action);
            push_str(&mut out, ")\"");
        },
        ShellType::Cmd => {
            push_str(&mut out, "for /f \"delims=\" %i in ('ax proxy ");
            push_str(&mut out, action);
            push_str(&mut out, "') do %i");
        },
        ShellType::Bash => {
            push_str(&mut out, "eval \"$(ax proxy ");
            push_str(&mut out, action);
            push_str(&mut out, ")\"");
        },
    }
    push_str(&mut out, "\n");
    if enable {
        push_str(&mut out, "目标代理: ");
        push_str(&mut out, proxy_addr);
        push_str(&mut out, "\n");
    }
    assert(out@ =~= apply_hint_text(shell_type, enable, proxy_addr@));
    out
}

/// What `ax proxy` prints for `action`, given the configuration, the shell,
/// whether stdout is a terminal, and the current `http_proxy` and `no_proxy`.
pub open spec fn proxy_output_text(
    action: &ProxyAction,
    address: Seq<char>,
    no_proxy: Seq<char>,
    shell: ShellType,
    interactive: bool,
    http_proxy_env: Option<Seq<char>>,
    no_proxy_env: Option<Seq<char>>,
) -> Seq<char> {
    match action {
        ProxyAction::On { addr } => {
            let a = match addr {
                Some(x) => x@,
                None => address,
            };
            if interactive {
                apply_hint_text(shell, true, a)
            } else {
                on_script(shell, a, no_proxy)
            }
        },
        ProxyAction::Off => if interactive {
            apply_hint_text(shell, false, Seq::<char>::empty())
        } else {
            off_script(shell)
        },
        ProxyAction::Status => match http_proxy_env {
            Some(p) => "🟢 Proxy: "@ + p + "\n   no_proxy: "@ + (match no_proxy_env {
                Some(n) => n,
                None => Seq::<char>::empty(),
            }) + "\n"@,
            None => "🔴 Proxy: OFF\n"@,
        },
    }
}

/// The text `ax proxy` prints for `action`.
pub fn proxy_output(
    action: &ProxyAction,
    config: &Config,
    shell_type: ShellType,
    interactive: bool,
    http_proxy_env: Option<&str>,
    no_proxy_env: Option<&str>,
) -> (r: String)
    ensures
        r@ == proxy_output_text(
            action,
            config.proxy.address@,
            config.proxy.no_proxy@,
            shell_type,
            interactive,
            crate::config::opt_view(http_proxy_env),
            crate::config::opt_view(no_proxy_env),
        ),
{
    match action {
        ProxyAction::On { addr } => {
            let a: &str = match addr {
                Some(x) => x.as_str(),
                None => config.proxy.address.as_str(),
            };
            if interactive {
                apply_hint(shell_type, true, a)
            } else {
                render_on_script(shell_type, a, config.proxy.no_proxy.as_str())
            }
        },
        ProxyAction::Off => {
            if interactive {
                apply_hint(shell_type, false, "")
            } else {
                render_off_script(shell_type)
            }
        },
        ProxyAction::Status => match http_proxy_env {
            Some(p) => {
                let mut out = "🟢 Proxy: ".to_owned();
                push_str(&mut out, p);
                push_str(&mut out, "\n   no_proxy: ");
                match no_proxy_env {
                    Some(n) => push_str(&mut out, n),
                    None => {},
                }
                push_str(&mut out, "\n");
                assert(out@ =~= proxy_output_text(
                    action,
                    config.proxy.address@,
                    config.proxy.no_proxy@,
                    shell_type,
                    interactive,
                    crate::config::opt_view(http_proxy_env),
                    crate::config::opt_view(no_proxy_env),
                ));
                out
            },
            None => "🔴 Proxy: OFF\n".to_owned(),
        },
    }
}


/// Whether the proxy commands are written for PowerShell in the simpler
/// detection: `AX_SHELL` (lower-cased) decides when set; otherwise `SHELL`
/// naming `pwsh` or `powershell`, or `PSModulePath` being set.
pub open spec fn powershell_detected(ax_shell: Option<Seq<char>>, shell: Option<Seq<char>>, ps_module_path: bool) -> bool {
    match ax_shell {
        Some(s) => str_to_lowercase(s) == "powershell"@ || str_to_lowercase(s) == "pwsh"@,
        None => (match shell {
            Some(sh) => contains(sh, "pwsh"@) || contains(sh, "powershell"@),
            None => false,
        }) || ps_module_path,
    }
}

/// Whether the proxy commands are written for PowerShell (see
/// `powershell_detected`).
pub fn is_powershell_from(ax_shell: Option<&str>, shell: Option<&str>, ps_module_path: bool) -> (r: bool)
    ensures
        r == powershell_detected(crate::config::opt_view(ax_shell), crate::config::opt_view(shell), ps_module_path),
{
    match ax_shell {
        Some(s) => {
            let l = to_lowercase(s);
            crate::text::str_eq(l.as_str(), "powershell") || crate::text::str_eq(l.as_str(), "pwsh")
        },
        None => {
            let named = match shell {
                Some(sh) => crate::text::str_contains(sh, "pwsh") || crate::text::str_contains(sh, "powershell"),
                None => false,
            };
            named || ps_module_path
        },
    }
}

} // verus!
