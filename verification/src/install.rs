//! Deployment: which configuration files are linked where, how paths are
//! compared, and the block that makes a shell's startup file load the
//! managed configuration.
use vstd::prelude::*;

use crate::config::opt_view;
use crate::paths::{expand_home, expand_home_with};
use crate::text::{chars_of, contains, push_char, push_str, starts_with, str_contains};

verus! {

/// The block added to `~/.zshrc`.
pub open spec fn zsh_block() -> Seq<char> {
    "# >>> ax-cli >>>\n[ -f \"$HOME/.config/axconfig/bash/.zshrc\" ] && source \"$HOME/.config/axconfig/bash/.zshrc\"\n# <<< ax-cli <<<\n"@
}

/// The block added to `~/.bashrc`.
pub open spec fn bash_block() -> Seq<char> {
    "# >>> ax-cli >>>\n[ -f \"$HOME/.config/axconfig/bash/.bashrc\" ] && source \"$HOME/.config/axconfig/bash/.bashrc\"\n# <<< ax-cli <<<\n"@
}

/// The block that makes `~/.zshrc` load the managed zsh configuration.
pub fn ax_zsh_block() -> (r: &'static str)
    ensures
        r@ == zsh_block(),
{
    "# >>> ax-cli >>>\n[ -f \"$HOME/.config/axconfig/bash/.zshrc\" ] && source \"$HOME/.config/axconfig/bash/.zshrc\"\n# <<< ax-cli <<<\n"
}

/// The block that makes `~/.bashrc` load the managed bash configuration.
pub fn ax_bash_block() -> (r: &'static str)
    ensures
        r@ == bash_block(),
{
    "# >>> ax-cli >>>\n[ -f \"$HOME/.config/axconfig/bash/.bashrc\" ] && source \"$HOME/.config/axconfig/bash/.bashrc\"\n# <<< ax-cli <<<\n"
}

/// A startup file with the block appended: nothing to do when it already
/// has the block's opening line; otherwise the block goes after the existing
/// text, separated by an empty line, the text first ended with a line feed.
pub open spec fn with_include(content: Seq<char>, block: Seq<char>) -> Option<Seq<char>> {
    if contains(content, "# >>> ax-cli >>>"@) {
        None
    } else if content.len() == 0 {
        Some(block)
    } else if content.last() == '\n' {
        Some(content + seq!['\n'] + block)
    } else {
        Some(content + seq!['\n', '\n'] + block)
    }
}

/// The new text of a startup file that should load `block`, or nothing when
/// it already does.
pub fn include_block(content: &str, block: &str) -> (r: Option<String>)
    ensures
        match r {
            Some(s) => with_include(content@, block@) == Some(s@),
            None => with_include(content@, block@) is None,
        },
{
    if str_contains(content, "# >>> ax-cli >>>") {
        return None;
    }
    let v = chars_of(content);
    let mut out = content.to_owned();
    if v.len() > 0 && v[v.len() - 1] != '\n' {
        push_char(&mut out, '\n');
    }
    if v.len() > 0 {
        push_char(&mut out, '\n');
    }
    push_str(&mut out, block);
    assert(v.len() > 0 ==> v@.last() == v@[v.len() - 1]);
    Some(out)
}

/// A segment ends: it is kept unless it is empty or `.`.
pub open spec fn flush(acc: Seq<Seq<char>>, cur: Seq<char>) -> Seq<Seq<char>> {
    if cur.len() == 0 || cur == seq!['.'] {
        acc
    } else {
        acc.push(cur)
    }
}

/// The segments of `p` after `cur` and `acc`, split at `/`, without empty
/// and `.` segments.
pub open spec fn scan_segments(p: Seq<char>, cur: Seq<char>, acc: Seq<Seq<char>>) -> Seq<Seq<char>>
    decreases p.len(),
{
    if p.len() == 0 {
        flush(acc, cur)
    } else if p[0] == '/' {
        scan_segments(p.drop_first(), seq![], flush(acc, cur))
    } else {
        scan_segments(p.drop_first(), cur.push(p[0]), acc)
    }
}

/// A path as `Path` compares it: whether it starts at the root, whether it
/// starts with `.`, and its other components.
pub open spec fn normal_form(p: Seq<char>) -> (bool, bool, Seq<Seq<char>>) {
    let root = p.len() > 0 && p[0] == '/';
    let cur_dir = !root && (p == seq!['.'] || starts_with(p, seq!['.', '/']));
    (root, cur_dir, scan_segments(p, seq![], seq![]))
}

/// Two paths are the same path (as `Path`'s `==` sees it).
pub open spec fn same_path(a: Seq<char>, b: Seq<char>) -> bool {
    normal_form(a) == normal_form(b)
}

fn segments(v: &[char]) -> (r: Vec<Vec<char>>)
    ensures
        r@.map_values(|s: Vec<char>| s@) == scan_segments(v@, seq![], seq![]),
{
    let mut acc: Vec<Vec<char>> = Vec::new();
    let mut cur: Vec<char> = Vec::new();
    let mut i: usize = 0;
    assert(v@.skip(0) =~= v@);
    assert(acc@.map_values(|s: Vec<char>| s@) =~= Seq::<Seq<char>>::empty());
    while i < v.len()
        invariant
            i <= v@.len(),
            scan_segments(v@, seq![], seq![]) == scan_segments(
                v@.skip(i as int),
                cur@,
                acc@.map_values(|s: Vec<char>| s@),
            ),
        decreases v.len() - i,
    {
        let ghost rest = v@.skip(i as int);
        assert(rest[0] == v@[i as int]);
        assert(rest.drop_first() =~= v@.skip(i + 1));
        if v[i] == '/' {
            let ghost a = acc@.map_values(|s: Vec<char>| s@);
            if !(cur.len() == 0 || (cur.len() == 1 && cur[0] == '.')) {
                assert(cur@ != seq!['.']) by {
                    if cur@ == seq!['.'] {
                        assert(cur@[0] == '.');
                    }
                }
                let c = cur;
                acc.push(c);
                assert(acc@.map_values(|s: Vec<char>| s@) =~= flush(a, c@));
            } else {
                if cur.len() == 1 {
                    assert(cur@ =~= seq!['.']);
                }
            }
            cur = Vec::new();
            assert(cur@ =~= Seq::<char>::empty());
        } else {
            cur.push(v[i]);
        }
        i = i + 1;
    }
    let ghost a = acc@.map_values(|s: Vec<char>| s@);
    assert(v@.skip(i as int) =~= Seq::<char>::empty());
    if !(cur.len() == 0 || (cur.len() == 1 && cur[0] == '.')) {
        assert(cur@ != seq!['.']) by {
            if cur@ == seq!['.'] {
                assert(cur@[0] == '.');
            }
        }
        acc.push(cur);
        assert(acc@.map_values(|s: Vec<char>| s@) =~= flush(a, cur@));
    } else {
        if cur.len() == 1 {
            assert(cur@ =~= seq!['.']);
        }
    }
    acc
}

fn segments_eq(a: &Vec<Vec<char>>, b: &Vec<Vec<char>>) -> (r: bool)
    ensures
        r == (a@.map_values(|s: Vec<char>| s@) == b@.map_values(|s: Vec<char>| s@)),
{
    let ghost av = a@.map_values(|s: Vec<char>| s@);
    let ghost bv = b@.map_values(|s: Vec<char>| s@);
    if a.len() != b.len() {
        assert(av.len() != bv.len());
        return false;
    }
    let mut i: usize = 0;
    while i < a.len()
        invariant
            a@.len() == b@.len(),
            av == a@.map_values(|s: Vec<char>| s@),
            bv == b@.map_values(|s: Vec<char>| s@),
            i <= a@.len(),
            forall|j: int| 0 <= j < i ==> av[j] == bv[j],
        decreases a.len() - i,
    {
        if !crate::text::chars_eq(&a[i], &b[i]) {
            assert(av[i as int] != bv[i as int]);
            return false;
        }
        i = i + 1;
    }
    assert(av =~= bv);
    true
}

/// Whether two paths are the same path, component by component.
pub fn paths_equal(a: &str, b: &str) -> (r: bool)
    ensures
        r == same_path(a@, b@),
{
    let av = chars_of(a);
    let bv = chars_of(b);
    let a_root = av.len() > 0 && av[0] == '/';
    let b_root = bv.len() > 0 && bv[0] == '/';
    let a_cur = !a_root && ((av.len() == 1 && av[0] == '.') || (av.len() >= 2 && av[0] == '.' && av[1] == '/'));
    let b_cur = !b_root && ((bv.len() == 1 && bv[0] == '.') || (bv.len() >= 2 && bv[0] == '.' && bv[1] == '/'));
    proof {
        let dot: Seq<char> = seq!['.'];
        let dot_slash: Seq<char> = seq!['.', '/'];
        if av@.len() == 1 && av@[0] == '.' {
            assert(av@ =~= dot);
        }
        if av@ == dot {
            assert(av@[0] == '.');
        }
        if av@.len() >= 2 && av@[0] == '.' && av@[1] == '/' {
            assert(av@.subrange(0, 2) =~= dot_slash);
        }
        if starts_with(av@, dot_slash) {
            assert(av@.subrange(0, 2)[0] == '.');
            assert(av@.subrange(0, 2)[1] == '/');
        }
        if bv@.len() == 1 && bv@[0] == '.' {
            assert(bv@ =~= dot);
        }
        if bv@ == dot {
            assert(bv@[0] == '.');
        }
        if bv@.len() >= 2 && bv@[0] == '.' && bv@[1] == '/' {
            assert(bv@.subrange(0, 2) =~= dot_slash);
        }
        if starts_with(bv@, dot_slash) {
            assert(bv@.subrange(0, 2)[0] == '.');
            assert(bv@.subrange(0, 2)[1] == '/');
        }
    }
    if a_root != b_root || a_cur != b_cur {
        return false;
    }
    let sa = segments(&av);
    let sb = segments(&bv);
    segments_eq(&sa, &sb)
}

/// A path is one of the shells' startup files, `~/.zshrc` or `~/.bashrc`,
/// which are never replaced by links.
pub open spec fn is_entrypoint(path: Seq<char>, home: Option<Seq<char>>) -> bool {
    same_path(path, expand_home("~/.zshrc"@, home)) || same_path(path, expand_home("~/.bashrc"@, home))
}

/// Whether `path` is `~/.zshrc` or `~/.bashrc` of the home directory `home`.
pub fn is_shell_entrypoint(path: &str, home: Option<&str>) -> (r: bool)
    ensures
        r == is_entrypoint(path@, opt_view(home)),
{
    let zshrc = expand_home_with("~/.zshrc", home);
    let bashrc = expand_home_with("~/.bashrc", home);
    paths_equal(path, zshrc.as_str()) || paths_equal(path, bashrc.as_str())
}

/// `s` without its leading `~/` prefixes.
pub open spec fn strip_home_prefixes(s: Seq<char>) -> Seq<char>
    decreases s.len(),
{
    if starts_with(s, seq!['~', '/']) {
        strip_home_prefixes(s.skip(2))
    } else {
        s
    }
}

/// The place under the backup directory for a link target written as
/// `~/...`: the target without its leading `~/` prefixes.
pub fn backup_relative(dst: &str) -> (r: String)
    ensures
        r@ == strip_home_prefixes(dst@),
{
    let v = chars_of(dst);
    let mut i: usize = 0;
    assert(v@.skip(0) =~= v@);
    while i < v.len() && v.len() - i >= 2 && v[i] == '~' && v[i + 1] == '/'
        invariant
            i <= v@.len(),
            v@ == dst@,
            strip_home_prefixes(dst@) == strip_home_prefixes(v@.skip(i as int)),
        decreases v.len() - i,
    {
        let ghost rest = v@.skip(i as int);
        assert(rest.subrange(0, 2) =~= seq!['~', '/']);
        assert(rest.skip(2) =~= v@.skip(i + 2));
        i = i + 2;
    }
    proof {
        let rest = v@.skip(i as int);
        if starts_with(rest, seq!['~', '/']) {
            assert(rest.subrange(0, 2)[0] == v@[i as int]);
            assert(rest.subrange(0, 2)[1] == v@[i + 1]);
        }
        assert(rest =~= v@.subrange(i as int, v@.len() as int));
    }
    crate::text::string_of_range(&v, i, v.len())
}

/// What deployment does with one link.
#[derive(Debug, PartialEq, Eq, Structural)]
pub enum LinkAction {
    /// The target is a shell startup file: it is left alone.
    SkipEntrypoint,
    /// The optional source is missing: nothing to do.
    SkipOptional,
    /// The required source is missing: warn and go on.
    WarnMissing,
    /// Back up the target if needed and link it to the source.
    Link,
}

/// Decides what deployment does with a link, from whether its target is a
/// shell startup file, whether its source exists, and whether it is optional.
pub fn link_action(is_entrypoint: bool, src_exists: bool, optional: bool) -> (r: LinkAction)
    ensures
        r == (if is_entrypoint {
            LinkAction::SkipEntrypoint
        } else if !src_exists {
            if optional {
                LinkAction::SkipOptional
            } else {
                LinkAction::WarnMissing
            }
        } else {
            LinkAction::Link
        }),
{
    if is_entrypoint {
        LinkAction::SkipEntrypoint
    } else if !src_exists {
        if optional {
            LinkAction::SkipOptional
        } else {
            LinkAction::WarnMissing
        }
    } else {
        LinkAction::Link
    }
}

} // verus!
