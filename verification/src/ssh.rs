//! Saved SSH connections: how they log in, their key files, the table that
//! holds them, and the commands that connect and install keys.
use vstd::prelude::*;

use crate::config::{opt_view, SshAuth, SshHostEntry, SshHostMap};
use crate::paths::{expand_home, expand_home_with, file_name, path_file_name, path_with_file_name, with_file_name};
use crate::text::{
    chars_of, eq_ignore_ascii_case, is_blank, lower_seq, push_padded, push_str, replace, replace_all,
    to_decimal, trim, trim_str, decimal, pad_right,
};

verus! {

/// Why an SSH operation was refused.
#[derive(Debug)]
pub enum SshError {
    /// The login method is neither `key` nor `password`.
    UnknownAuth,
    /// Password login was asked for without a password.
    PasswordRequired,
    /// The key path has no file name.
    InvalidKeyPath(String),
    /// No connection has this name.
    NotFound(String),
    /// A password was given but sshpass, which passes it on, is missing.
    SshpassMissing,
    /// The public key file holds nothing but blanks.
    EmptyPublicKey(String),
}

impl SshError {
    /// The message shown for the error.
    pub open spec fn text(&self) -> Seq<char> {
        match self {
            SshError::UnknownAuth => "认证方式仅支持 key 或 password"@,
            SshError::PasswordRequired => "auth=password 时必须提供 --password"@,
            SshError::InvalidKeyPath(p) => "无效私钥路径: "@ + p@,
            SshError::NotFound(n) => "❌ 未找到 SSH 连接: "@ + n@,
            SshError::SshpassMissing => "提供了密码，但当前环境未安装 sshpass"@,
            SshError::EmptyPublicKey(p) => "公钥文件为空: "@ + p@,
        }
    }

    /// The message shown for the error.
    pub fn message(&self) -> (r: String)
        ensures
            r@ == self.text(),
    {
        match self {
            SshError::UnknownAuth => "认证方式仅支持 key 或 password".to_owned(),
            SshError::PasswordRequired => "auth=password 时必须提供 --password".to_owned(),
            SshError::InvalidKeyPath(p) => {
                let mut m = "无效私钥路径: ".to_owned();
                push_str(&mut m, p.as_str());
                m
            },
            SshError::NotFound(n) => {
                let mut m = "❌ 未找到 SSH 连接: ".to_owned();
                push_str(&mut m, n.as_str());
                m
            },
            SshError::SshpassMissing => "提供了密码，但当前环境未安装 sshpass".to_owned(),
            SshError::EmptyPublicKey(p) => {
                let mut m = "公钥文件为空: ".to_owned();
                push_str(&mut m, p.as_str());
                m
            },
        }
    }
}

/// The login method a name stands for, ignoring ASCII case.
pub open spec fn auth_of(name: Seq<char>) -> Option<SshAuth> {
    if lower_seq(name) == "key"@ {
        Some(SshAuth::Key)
    } else if lower_seq(name) == "password"@ {
        Some(SshAuth::Password)
    } else {
        None
    }
}

/// Reads a login method: `key` or `password`, in any ASCII case.
pub fn parse_auth(auth: &str) -> (r: Result<SshAuth, SshError>)
    ensures
        match auth_of(auth@) {
            Some(a) => r == Ok::<SshAuth, SshError>(a),
            None => r matches Err(SshError::UnknownAuth),
        },
{
    let v = chars_of(auth);
    if eq_ignore_ascii_case(&v, &chars_of("key")) {
        Ok(SshAuth::Key)
    } else if eq_ignore_ascii_case(&v, &chars_of("password")) {
        Ok(SshAuth::Password)
    } else {
        Err(SshError::UnknownAuth)
    }
}

/// Password login needs a password that is not blank.
pub open spec fn auth_ok(auth: SshAuth, password: Option<Seq<char>>) -> bool {
    match auth {
        SshAuth::Key => true,
        SshAuth::Password => password is Some && trim(password->0).len() > 0,
    }
}

/// Checks that password login comes with a password.
pub fn validate_auth(auth: &SshAuth, password: Option<&str>) -> (r: Result<(), SshError>)
    ensures
        r is Ok <==> auth_ok(*auth, opt_view(password)),
        r is Err ==> r matches Err(SshError::PasswordRequired),
{
    match auth {
        SshAuth::Key => Ok(()),
        SshAuth::Password => {
            let blank = match password {
                Some(p) => is_blank(p),
                None => true,
            };
            if blank {
                Err(SshError::PasswordRequired)
            } else {
                Ok(())
            }
        },
    }
}

/// The private key used when none is given.
pub open spec fn default_key() -> Seq<char> {
    "~/.ssh/id_ed25519"@
}

/// The private key file: the one given, or `~/.ssh/id_ed25519`, with `~`
/// expanded to `home`.
pub fn resolve_key_path(key: Option<&str>, home: Option<&str>) -> (r: String)
    ensures
        r@ == expand_home(
            match key {
                Some(k) => k@,
                None => default_key(),
            },
            opt_view(home),
        ),
{
    match key {
        Some(path) => expand_home_with(path, home),
        None => expand_home_with("~/.ssh/id_ed25519", home),
    }
}

/// The public key file beside a private key: its file name with `.pub`.
pub fn public_key_path(key_path: &str) -> (r: Result<String, SshError>)
    ensures
        match file_name(key_path@) {
            Some(n) => r matches Ok(p) && p@ == with_file_name(key_path@, n + ".pub"@),
            None => r matches Err(SshError::InvalidKeyPath(p)) && p@ == key_path@,
        },
{
    match path_file_name(key_path) {
        None => Err(SshError::InvalidKeyPath(key_path.to_owned())),
        Some(name) => {
            let mut pub_name = name;
            push_str(&mut pub_name, ".pub");
            Ok(path_with_file_name(key_path, pub_name.as_str()))
        },
    }
}

/// A connection record: the port defaults to 22 and missing texts are empty.
pub fn host_entry(
    host: &str,
    user: &str,
    port: Option<u16>,
    auth: SshAuth,
    password: Option<&str>,
    key: Option<&str>,
    desc: Option<&str>,
) -> (r: SshHostEntry)
    ensures
        r.host@ == host@,
        r.user@ == user@,
        r.port == (match port {
            Some(p) => p,
            None => 22,
        }),
        r.auth == auth,
        r.password@ == (match password {
            Some(p) => p@,
            None => Seq::<char>::empty(),
        }),
        r.key@ == (match key {
            Some(k) => k@,
            None => Seq::<char>::empty(),
        }),
        r.desc@ == (match desc {
            Some(d) => d@,
            None => Seq::<char>::empty(),
        }),
{
    SshHostEntry {
        host: host.to_owned(),
        user: user.to_owned(),
        port: match port {
            Some(p) => p,
            None => 22,
        },
        auth,
        password: match password {
            Some(p) => p.to_owned(),
            None => String::new(),
        },
        key: match key {
            Some(k) => k.to_owned(),
            None => String::new(),
        },
        desc: match desc {
            Some(d) => d.to_owned(),
            None => String::new(),
        },
    }
}

/// Saves the connection `name` (replacing one of that name) after checking
/// its login method; on a refusal nothing changes.
pub fn ssh_add(
    map: &mut SshHostMap,
    name: &str,
    host: &str,
    user: &str,
    port: Option<u16>,
    auth: &str,
    password: Option<&str>,
    key: Option<&str>,
    desc: Option<&str>,
) -> (r: Result<(), SshError>)
    requires
        old(map).wf(),
    ensures
        final(map).wf(),
        r is Ok <==> (auth_of(auth@) is Some && auth_ok(auth_of(auth@)->0, opt_view(password))),
        r is Err ==> final(map).map() == old(map).map(),
        r is Ok ==> {
            let e = final(map).map()[name@];
            &&& final(map).map() == old(map).map().insert(name@, e)
            &&& e.host@ == host@ && e.user@ == user@
            &&& e.port == (match port {
                Some(p) => p,
                None => 22,
            })
            &&& e.auth == auth_of(auth@)->0
            &&& e.password@ == (match password {
                Some(p) => p@,
                None => Seq::<char>::empty(),
            })
            &&& e.key@ == (match key {
                Some(k) => k@,
                None => Seq::<char>::empty(),
            })
            &&& e.desc@ == (match desc {
                Some(d) => d@,
                None => Seq::<char>::empty(),
            })
        },
        auth_of(auth@) is None ==> r matches Err(SshError::UnknownAuth),
        auth_of(auth@) is Some && !auth_ok(auth_of(auth@)->0, opt_view(password)) ==> r matches Err(
            SshError::PasswordRequired,
        ),
{
    let a = parse_auth(auth)?;
    validate_auth(&a, password)?;
    let e = host_entry(host, user, port, a, password, key, desc);
    map.insert(name.to_owned(), e);
    Ok(())
}

/// Removes the connection `name`; refused, changing nothing, when there is
/// no such connection.
pub fn ssh_rm(map: &mut SshHostMap, name: &str) -> (r: Result<(), SshError>)
    requires
        old(map).wf(),
    ensures
        final(map).wf(),
        final(map).map() == old(map).map().remove(name@),
        r is Ok <==> old(map).map().contains_key(name@),
        r is Err ==> (r matches Err(SshError::NotFound(n)) && n@ == name@),
{
    match map.remove(name) {
        Some(_) => Ok(()),
        None => Err(SshError::NotFound(name.to_owned())),
    }
}

/// One line of the connection list: name padded to 16, `user@host:port`,
/// the method in brackets, and the description after `#` when there is one.
pub open spec fn host_line(name: Seq<char>, e: SshHostEntry) -> Seq<char> {
    "  "@ + pad_right(name, 16) + " "@ + e.user@ + "@"@ + e.host@ + ":"@ + decimal(e.port as nat)
        + " ["@ + e.auth.spec_name() + "]"@ + (if e.desc@.len() == 0 {
        Seq::<char>::empty()
    } else {
        "  # "@ + e.desc@
    }) + "\n"@
}

/// The lines of the connection list, in name order.
pub open spec fn host_lines(s: Seq<(Seq<char>, SshHostEntry)>) -> Seq<char>
    decreases s.len(),
{
    if s.len() == 0 {
        seq![]
    } else {
        host_line(s[0].0, s[0].1) + host_lines(s.drop_first())
    }
}

/// What `ax ssh list` prints.
pub open spec fn host_list_text(s: Seq<(Seq<char>, SshHostEntry)>) -> Seq<char> {
    if s.len() == 0 {
        "📋 暂无 SSH 连接\n"@
    } else {
        "📋 SSH 连接列表：\n─────────────────────────────────────────────────────────\n"@ + host_lines(s)
    }
}

/// The connection list as `ax ssh list` prints it.
pub fn render_ssh_list(map: &SshHostMap) -> (r: String)
    ensures
        r@ == host_list_text(map@),
{
    if map.is_empty() {
        return "📋 暂无 SSH 连接\n".to_owned();
    }
    let mut out = "📋 SSH 连接列表：\n─────────────────────────────────────────────────────────\n".to_owned();
    let ghost s = map@;
    let n = map.len();
    let mut i: usize = 0;
    assert(s.skip(0) =~= s);
    while i < n
        invariant
            n == s.len(),
            s == map@,
            i <= n,
            host_list_text(s) == out@ + host_lines(s.skip(i as int)),
        decreases n - i,
    {
        let ghost rest = s.skip(i as int);
        assert(rest[0] == s[i as int]);
        assert(rest.drop_first() =~= s.skip(i + 1));
        let name = map.key_at(i);
        let e = map.value_at(i);
        let ghost before = out@;
        push_str(&mut out, "  ");
        push_padded(&mut out, name.as_str(), 16);
        push_str(&mut out, " ");
        push_str(&mut out, e.user.as_str());
        push_str(&mut out, "@");
        push_str(&mut out, e.host.as_str());
        push_str(&mut out, ":");
        let port = to_decimal(e.port as u64);
        push_str(&mut out, port.as_str());
        push_str(&mut out, " [");
        push_str(&mut out, e.auth.as_str());
        push_str(&mut out, "]");
        if !e.desc.as_str().is_empty() {
            push_str(&mut out, "  # ");
            push_str(&mut out, e.desc.as_str());
        }
        push_str(&mut out, "\n");
        assert(out@ =~= before + host_line(s[i as int].0, s[i as int].1));
        i = i + 1;
    }
    assert(s.skip(n as int) =~= Seq::<(Seq<char>, SshHostEntry)>::empty());
    out
}

/// A program to run: its name, its arguments, an environment variable to
/// set, and lines to print first.
pub struct CommandPlan {
    pub program: String,
    pub args: Vec<String>,
    pub env: Option<(String, String)>,
    pub notice: String,
}

/// `user@host`.
pub open spec fn target_of(e: SshHostEntry) -> Seq<char> {
    e.user@ + "@"@ + e.host@
}

/// How `ax ssh connect` reaches a host: key login runs `ssh -p PORT`, with
/// `-i KEY` when a key is saved, then `user@host`; password login runs the
/// same through `sshpass -e` with the password in `SSHPASS` when sshpass is
/// there, and otherwise plain ssh after printing the password.
pub open spec fn connect_args(e: SshHostEntry, has_sshpass: bool, home: Option<Seq<char>>) -> Seq<Seq<char>> {
    match e.auth {
        SshAuth::Key => if trim(e.key@).len() > 0 {
            seq!["-p"@, decimal(e.port as nat), "-i"@, expand_home(e.key@, home), target_of(e)]
        } else {
            seq!["-p"@, decimal(e.port as nat), target_of(e)]
        },
        SshAuth::Password => if has_sshpass {
            seq!["-e"@, "ssh"@, "-p"@, decimal(e.port as nat), target_of(e)]
        } else {
            seq!["-p"@, decimal(e.port as nat), target_of(e)]
        },
    }
}

/// The plan for connecting to a saved host.
pub fn connect_plan(e: &SshHostEntry, has_sshpass: bool, home: Option<&str>) -> (r: CommandPlan)
    ensures
        r.program@ == (if e.auth == SshAuth::Password && has_sshpass {
            "sshpass"@
        } else {
            "ssh"@
        }),
        crate::text::views(r.args@) == connect_args(*e, has_sshpass, opt_view(home)),
        match r.env {
            Some((k, v)) => e.auth == SshAuth::Password && has_sshpass && k@ == "SSHPASS"@ && v@
                == e.password@,
            None => !(e.auth == SshAuth::Password && has_sshpass),
        },
        r.notice@ == (if e.auth == SshAuth::Password && !has_sshpass {
            "⚠️  未检测到 sshpass，将切换为手动 SSH\n🔑 密码: "@ + e.password@ + "\n"@
        } else {
            Seq::<char>::empty()
        }),
{
    let mut target = e.user.clone();
    push_str(&mut target, "@");
    push_str(&mut target, e.host.as_str());
    let port = to_decimal(e.port as u64);
    let mut args: Vec<String> = Vec::new();
    match e.auth {
        SshAuth::Key => {
            args.push("-p".to_owned());
            args.push(port);
            if !is_blank(e.key.as_str()) {
                args.push("-i".to_owned());
                args.push(expand_home_with(e.key.as_str(), home));
            }
            args.push(target);
            assert(crate::text::views(args@) =~= connect_args(*e, has_sshpass, opt_view(home)));
            CommandPlan { program: "ssh".to_owned(), args, env: None, notice: String::new() }
        },
        SshAuth::Password => {
            if has_sshpass {
                args.push("-e".to_owned());
                args.push("ssh".to_owned());
                args.push("-p".to_owned());
                args.push(port);
                args.push(target);
                assert(crate::text::views(args@) =~= connect_args(*e, has_sshpass, opt_view(home)));
                CommandPlan {
                    program: "sshpass".to_owned(),
                    args,
                    env: Some(("SSHPASS".to_owned(), e.password.clone())),
                    notice: String::new(),
                }
            } else {
                args.push("-p".to_owned());
                args.push(port);
                args.push(target);
                assert(crate::text::views(args@) =~= connect_args(*e, has_sshpass, opt_view(home)));
                let mut notice = "⚠️  未检测到 sshpass，将切换为手动 SSH\n🔑 密码: ".to_owned();
                push_str(&mut notice, e.password.as_str());
                push_str(&mut notice, "\n");
                CommandPlan { program: "ssh".to_owned(), args, env: None, notice }
            }
        },
    }
}

/// The remote command that adds a public key to `~/.ssh/authorized_keys`
/// unless it is already there; the key is single-quoted, each `'` written as
/// `'\''`.
pub open spec fn authorized_keys_text(pubkey: Seq<char>) -> Seq<char> {
    let q = replace(pubkey, "'"@, "'\\''"@);
    "mkdir -p ~/.ssh && chmod 700 ~/.ssh && touch ~/.ssh/authorized_keys && chmod 600 ~/.ssh/authorized_keys && grep -qxF '"@
        + q + "' ~/.ssh/authorized_keys || printf '%s\\n' '"@ + q + "' >> ~/.ssh/authorized_keys"@
}

/// The remote command that installs a public key (see `authorized_keys_text`).
pub fn authorized_keys_command(pubkey: &str) -> (r: String)
    ensures
        r@ == authorized_keys_text(pubkey@),
{
    proof {
        reveal_strlit("'");
    }
    let q = replace_all(pubkey, "'", "'\\''");
    let mut r = "mkdir -p ~/.ssh && chmod 700 ~/.ssh && touch ~/.ssh/authorized_keys && chmod 600 ~/.ssh/authorized_keys && grep -qxF '".to_owned();
    push_str(&mut r, q.as_str());
    push_str(&mut r, "' ~/.ssh/authorized_keys || printf '%s\\n' '");
    push_str(&mut r, q.as_str());
    push_str(&mut r, "' >> ~/.ssh/authorized_keys");
    r
}


/// The arguments of `ssh-keygen` that make an ed25519 key pair at
/// `key_path` without a passphrase.
pub open spec fn keygen_args_of(key_path: Seq<char>) -> Seq<Seq<char>> {
    seq!["-t"@, "ed25519"@, "-f"@, key_path, "-N"@, ""@]
}

/// The arguments of `ssh-keygen` that make the key pair (see
/// `keygen_args_of`).
pub fn keygen_args(key_path: &str) -> (r: Vec<String>)
    ensures
        crate::text::views(r@) == keygen_args_of(key_path@),
{
    let r = vec![
        "-t".to_owned(),
        "ed25519".to_owned(),
        "-f".to_owned(),
        key_path.to_owned(),
        "-N".to_owned(),
        "".to_owned(),
    ];
    assert(crate::text::views(r@) =~= keygen_args_of(key_path@));
    r
}

/// How a public key is sent to `user@host`: `ssh-copy-id -i PUB -p PORT
/// user@host` when ssh-copy-id is there, otherwise `ssh -p PORT user@host`
/// with the remote command that appends the key (see
/// `authorized_keys_text`); with a password, the same through `sshpass -e`
/// with the password in `SSHPASS`.
pub open spec fn key_copy_args(
    user: Seq<char>,
    host: Seq<char>,
    port: u16,
    with_password: bool,
    copy_id: bool,
    pubkey_path: Seq<char>,
    pubkey: Seq<char>,
) -> Seq<Seq<char>> {
    let target = user + "@"@ + host;
    let tail = if copy_id {
        seq!["ssh-copy-id"@, "-i"@, pubkey_path, "-p"@, decimal(port as nat), target]
    } else {
        seq!["ssh"@, "-p"@, decimal(port as nat), target, authorized_keys_text(trim(pubkey))]
    };
    if with_password {
        seq!["-e"@] + tail
    } else {
        tail.drop_first()
    }
}

/// The plan that sends a public key to a host (see `key_copy_args`). Refused
/// when a password is given without sshpass, or, without ssh-copy-id, when
/// the public key `pubkey` (the text of the file `pubkey_path`) is blank.
pub fn key_copy_plan(
    user: &str,
    host: &str,
    port: u16,
    password: Option<&str>,
    has_sshpass: bool,
    has_copy_id: bool,
    pubkey_path: &str,
    pubkey: &str,
) -> (r: Result<CommandPlan, SshError>)
    ensures
        !has_copy_id && trim(pubkey@).len() == 0 ==> (r matches Err(SshError::EmptyPublicKey(p))
            && p@ == pubkey_path@),
        (has_copy_id || trim(pubkey@).len() > 0) && password is Some && !has_sshpass ==> r matches Err(
            SshError::SshpassMissing,
        ),
        (has_copy_id || trim(pubkey@).len() > 0) && (password is None || has_sshpass) ==> (r matches Ok(
            plan,
        ) && {
            &&& plan.program@ == (if password is Some {
                "sshpass"@
            } else if has_copy_id {
                "ssh-copy-id"@
            } else {
                "ssh"@
            })
            &&& crate::text::views(plan.args@) == key_copy_args(
                user@,
                host@,
                port,
                password is Some,
                has_copy_id,
                pubkey_path@,
                pubkey@,
            )
            &&& match plan.env {
                Some((k, v)) => password is Some && k@ == "SSHPASS"@ && v@ == password->0@,
                None => password is None,
            }
            &&& plan.notice@ == (if has_copy_id {
                "📤 正在分发 SSH 公钥...\n"@
            } else {
                "📤 未检测到 ssh-copy-id，改用 authorized_keys 写入流程...\n"@
            })
        }),
{
    let trimmed = trim_str(pubkey);
    if !has_copy_id && trimmed.as_str().is_empty() {
        return Err(SshError::EmptyPublicKey(pubkey_path.to_owned()));
    }
    if password.is_some() && !has_sshpass {
        return Err(SshError::SshpassMissing);
    }
    let mut target = user.to_owned();
    push_str(&mut target, "@");
    push_str(&mut target, host);
    let port_s = to_decimal(port as u64);
    let mut tail: Vec<String> = Vec::new();
    let notice;
    if has_copy_id {
        tail.push("ssh-copy-id".to_owned());
        tail.push("-i".to_owned());
        tail.push(pubkey_path.to_owned());
        tail.push("-p".to_owned());
        tail.push(port_s);
        tail.push(target);
        notice = "📤 正在分发 SSH 公钥...\n".to_owned();
    } else {
        tail.push("ssh".to_owned());
        tail.push("-p".to_owned());
        tail.push(port_s);
        tail.push(target);
        tail.push(authorized_keys_command(trimmed.as_str()));
        notice = "📤 未检测到 ssh-copy-id，改用 authorized_keys 写入流程...\n".to_owned();
    }
    let ghost t = crate::text::views(tail@);
    match password {
        Some(pw) => {
            let mut args: Vec<String> = vec!["-e".to_owned()];
            let mut i: usize = 0;
            while i < tail.len()
                invariant
                    i <= tail@.len(),
                    t == crate::text::views(tail@),
                    crate::text::views(args@) == seq!["-e"@] + t.take(i as int),
                decreases tail@.len() - i,
            {
                let ghost before = args@;
                args.push(tail[i].clone());
                assert(crate::text::views(args@) =~= crate::text::views(before).push(t[i as int]));
                assert(t.take(i + 1) =~= t.take(i as int).push(t[i as int]));
                i = i + 1;
            }
            assert(t.take(t.len() as int) =~= t);
            Ok(CommandPlan {
                program: "sshpass".to_owned(),
                args,
                env: Some(("SSHPASS".to_owned(), pw.to_owned())),
                notice,
            })
        },
        None => {
            let program = tail.remove(0);
            assert(crate::text::views(tail@) =~= t.drop_first());
            Ok(CommandPlan { program, args: tail, env: None, notice })
        },
    }
}

} // verus!
