//! Environment variables: adding, editing, removing, pausing and resuming
//! them, and the shell commands that load the active ones.
use vstd::prelude::*;

use crate::config::{opt_view, EnvEntry, EnvMap};
use crate::proxy::{bash_escape, bash_quoted, sh_read, named_shell, ps_escape, ps_quoted, shell_from_name, ShellType};
use crate::text::{chars_of, contains, find, push_str, trim, views};

verus! {

/// Two entries hold the same value, description and tags.
pub open spec fn same_text(a: EnvEntry, b: EnvEntry) -> bool {
    a.value@ == b.value@ && a.desc@ == b.desc@ && views(a.tags@) == views(b.tags@)
}

/// A copy of a list of strings.
pub fn copy_strings(v: &Vec<String>) -> (r: Vec<String>)
    ensures
        views(r@) == views(v@),
{
    let mut r: Vec<String> = Vec::new();
    let mut i: usize = 0;
    while i < v.len()
        invariant
            i <= v@.len(),
            views(r@) == views(v@).take(i as int),
        decreases v.len() - i,
    {
        let ghost old_r = r@;
        let c = v[i].clone();
        r.push(c);
        assert(views(r@) =~= views(old_r).push(v@[i as int]@));
        assert(views(v@).take(i + 1) =~= views(v@).take(i as int).push(v@[i as int]@));
        i = i + 1;
    }
    assert(views(v@).take(v@.len() as int) =~= views(v@));
    r
}

/// Whether `s` is one of `list`.
pub fn list_contains(list: &Vec<String>, s: &str) -> (r: bool)
    ensures
        r == views(list@).contains(s@),
{
    let k = s.to_owned();
    let mut i: usize = 0;
    while i < list.len()
        invariant
            k@ == s@,
            i <= list@.len(),
            forall|j: int| 0 <= j < i ==> list@[j]@ != s@,
        decreases list.len() - i,
    {
        if list[i] == k {
            assert(views(list@)[i as int] == s@);
            return true;
        }
        i = i + 1;
    }
    assert(!views(list@).contains(s@)) by {
        if views(list@).contains(s@) {
            let j = choose|j: int| 0 <= j < views(list@).len() && views(list@)[j] == s@;
            assert(list@[j]@ == s@);
        }
    }
    false
}

/// The same entry with `paused` set as given.
pub fn with_paused(e: &EnvEntry, paused: bool) -> (r: EnvEntry)
    ensures
        same_text(r, *e),
        r.paused == paused,
{
    EnvEntry { value: e.value.clone(), desc: e.desc.clone(), tags: copy_strings(&e.tags), paused }
}

/// Adds (or replaces) the variable `name` with the given value, description
/// and tags, not paused.
pub fn env_add(map: &mut EnvMap, name: &str, value: &str, desc: &str, tags: &Vec<String>)
    requires
        old(map).wf(),
    ensures
        final(map).wf(),
        final(map).map().contains_key(name@),
        final(map).map() == old(map).map().insert(name@, final(map).map()[name@]),
        final(map).map()[name@].value@ == value@,
        final(map).map()[name@].desc@ == desc@,
        views(final(map).map()[name@].tags@) == views(tags@),
        !final(map).map()[name@].paused,
{
    let e = EnvEntry {
        value: value.to_owned(),
        desc: desc.to_owned(),
        tags: copy_strings(tags),
        paused: false,
    };
    map.insert(name.to_owned(), e);
}

/// Why an environment operation was refused.
#[derive(Debug)]
pub enum EnvError {
    /// No variable has this name.
    NotFound(String),
}

impl EnvError {
    /// The message shown for the error.
    pub open spec fn text(&self) -> Seq<char> {
        match self {
            EnvError::NotFound(name) => "❌ 未找到: "@ + name@,
        }
    }

    /// The message shown for the error.
    pub fn message(&self) -> (r: String)
        ensures
            r@ == self.text(),
    {
        match self {
            EnvError::NotFound(name) => {
                let mut m = "❌ 未找到: ".to_owned();
                push_str(&mut m, name.as_str());
                m
            },
        }
    }
}

/// Changes the given fields of the variable `name`; fields not given stay.
/// Fails, changing nothing, when there is no such variable.
pub fn env_edit(
    map: &mut EnvMap,
    name: &str,
    value: Option<&str>,
    desc: Option<&str>,
    tags: Option<&Vec<String>>,
) -> (r: Result<(), EnvError>)
    requires
        old(map).wf(),
    ensures
        final(map).wf(),
        r is Err <==> !old(map).map().contains_key(name@),
        r is Err ==> final(map).map() == old(map).map(),
        r is Err ==> (r matches Err(EnvError::NotFound(n)) && n@ == name@),
        r is Ok ==> {
            let o = old(map).map()[name@];
            let n = final(map).map()[name@];
            &&& final(map).map() == old(map).map().insert(name@, n)
            &&& n.value@ == (match value {
                Some(v) => v@,
                None => o.value@,
            })
            &&& n.desc@ == (match desc {
                Some(d) => d@,
                None => o.desc@,
            })
            &&& views(n.tags@) == (match tags {
                Some(t) => views(t@),
                None => views(o.tags@),
            })
            &&& n.paused == o.paused
        },
{
    match map.position(name) {
        None => {
            proof {
                crate::strmap::lemma_map_of_dom(map@, name@);
            }
            Err(EnvError::NotFound(name.to_owned()))
        },
        Some(i) => {
            proof {
                crate::strmap::lemma_sorted_distinct(map@);
                crate::strmap::lemma_map_of_lookup(map@, i as int);
            }
            let e = map.value_at(i);
            let new_value = match value {
                Some(v) => v.to_owned(),
                None => e.value.clone(),
            };
            let new_desc = match desc {
                Some(d) => d.to_owned(),
                None => e.desc.clone(),
            };
            let new_tags = match tags {
                Some(t) => copy_strings(t),
                None => copy_strings(&e.tags),
            };
            let n = EnvEntry { value: new_value, desc: new_desc, tags: new_tags, paused: e.paused };
            map.set_value_at(i, n);
            Ok(())
        },
    }
}

/// Removes the named variables one after another; for each name, whether a
/// variable was removed (a name given twice is found only the first time).
pub open spec fn removals(m: Map<Seq<char>, EnvEntry>, names: Seq<Seq<char>>) -> (Map<Seq<char>, EnvEntry>, Seq<bool>)
    decreases names.len(),
{
    if names.len() == 0 {
        (m, seq![])
    } else {
        let found = m.contains_key(names[0]);
        let rest = removals(m.remove(names[0]), names.drop_first());
        (rest.0, seq![found] + rest.1)
    }
}

/// Removes the named variables; says for each name whether it was found.
pub fn env_remove(map: &mut EnvMap, names: &Vec<String>) -> (found: Vec<bool>)
    requires
        old(map).wf(),
    ensures
        final(map).wf(),
        final(map).map() == removals(old(map).map(), views(names@)).0,
        found@ == removals(old(map).map(), views(names@)).1,
{
    let ghost all = views(names@);
    let ghost start = map.map();
    let mut found: Vec<bool> = Vec::new();
    let mut i: usize = 0;
    assert(all.skip(0) =~= all);
    while i < names.len()
        invariant
            i <= names@.len(),
            all == views(names@),
            map.wf(),
            removals(start, all).0 == removals(map.map(), all.skip(i as int)).0,
            removals(start, all).1 == found@ + removals(map.map(), all.skip(i as int)).1,
        decreases names.len() - i,
    {
        let ghost rest = all.skip(i as int);
        assert(rest[0] == names@[i as int]@);
        assert(rest.drop_first() =~= all.skip(i + 1));
        let ghost before = map.map();
        let r = map.remove(names[i].as_str());
        let ghost old_found = found@;
        found.push(r.is_some());
        assert(found@ =~= old_found.push(before.contains_key(rest[0])));
        i = i + 1;
    }
    assert(all.skip(i as int) =~= Seq::<Seq<char>>::empty());
    assert(found@ + Seq::<bool>::empty() =~= found@);
    found
}

/// How many of `found` are true.
pub open spec fn count_true(found: Seq<bool>) -> nat
    decreases found.len(),
{
    if found.len() == 0 {
        0
    } else {
        (if found[0] {
            1nat
        } else {
            0nat
        }) + count_true(found.drop_first())
    }
}

/// The variable carries the tag `t`.
pub open spec fn has_tag(e: EnvEntry, t: Seq<char>) -> bool {
    views(e.tags@).contains(t)
}

/// Whether the entry carries the tag `t`.
pub fn entry_has_tag(e: &EnvEntry, t: &str) -> (r: bool)
    ensures
        r == has_tag(*e, t@),
{
    list_contains(&e.tags, t)
}

/// Whether pausing (`pause`) or resuming (`!pause`) selects an entry and
/// counts it: with `all`, every entry not already in the target state; with a
/// tag, the entries of that tag not already in the target state; otherwise
/// the named entries, whatever their state.
pub open spec fn selected(
    name: Seq<char>,
    e: EnvEntry,
    names: Seq<Seq<char>>,
    tag: Option<Seq<char>>,
    all: bool,
    pause: bool,
) -> bool {
    if all {
        e.paused != pause
    } else if tag is Some {
        has_tag(e, tag->0) && e.paused != pause
    } else {
        names.contains(name)
    }
}

/// How many entries pausing or resuming selects.
pub open spec fn selected_count(
    s: Seq<(Seq<char>, EnvEntry)>,
    names: Seq<Seq<char>>,
    tag: Option<Seq<char>>,
    all: bool,
    pause: bool,
) -> nat
    decreases s.len(),
{
    if s.len() == 0 {
        0
    } else {
        (if selected(s[0].0, s[0].1, names, tag, all, pause) {
            1nat
        } else {
            0nat
        }) + selected_count(s.drop_first(), names, tag, all, pause)
    }
}

proof fn lemma_selected_count_bound(
    s: Seq<(Seq<char>, EnvEntry)>,
    names: Seq<Seq<char>>,
    tag: Option<Seq<char>>,
    all: bool,
    pause: bool,
)
    ensures
        selected_count(s, names, tag, all, pause) <= s.len(),
    decreases s.len(),
{
    if s.len() > 0 {
        lemma_selected_count_bound(s.drop_first(), names, tag, all, pause);
    }
}

/// `after` is `before` with `paused` set to `pause` on the entries that the
/// selection picks (see `selected`), and nothing else changed.
pub open spec fn pause_applied(
    before: Seq<(Seq<char>, EnvEntry)>,
    after: Seq<(Seq<char>, EnvEntry)>,
    names: Seq<Seq<char>>,
    tag: Option<Seq<char>>,
    all: bool,
    pause: bool,
) -> bool {
    &&& after.len() == before.len()
    &&& forall|i: int|
        0 <= i < before.len() ==> {
            let (k, o) = #[trigger] before[i];
            let n = after[i].1;
            &&& after[i].0 == k
            &&& same_text(n, o)
            &&& n.paused == (if selected(k, o, names, tag, all, pause) {
                pause
            } else {
                o.paused
            })
        }
}

/// Sets `paused` to `pause` on the entries that the selection picks (see
/// `selected`) and gives how many it picked; nothing else changes.
pub fn env_set_paused(
    map: &mut EnvMap,
    names: &Vec<String>,
    tag: Option<&str>,
    all: bool,
    pause: bool,
) -> (count: u32)
    requires
        old(map).wf(),
        old(map)@.len() <= u32::MAX,
    ensures
        final(map).wf(),
        final(map)@.len() == old(map)@.len(),
        forall|i: int|
            0 <= i < old(map)@.len() ==> {
                let (k, o) = #[trigger] old(map)@[i];
                let n = final(map)@[i].1;
                &&& final(map)@[i].0 == k
                &&& same_text(n, o)
                &&& n.paused == (if selected(k, o, views(names@), opt_view(tag), all, pause) {
                    pause
                } else {
                    o.paused
                })
            },
        pause_applied(old(map)@, final(map)@, views(names@), opt_view(tag), all, pause),
        count == selected_count(old(map)@, views(names@), opt_view(tag), all, pause),
{
    let ghost s = map@;
    let ghost nv = views(names@);
    let ghost tv = opt_view(tag);
    let mut count: u32 = 0;
    let mut i: usize = 0;
    let n = map.len();
    proof {
        assert(s.skip(0) =~= s);
        lemma_selected_count_bound(s, nv, tv, all, pause);
    }
    while i < n
        invariant
            n == s.len(),
            n <= u32::MAX,
            i <= n,
            count <= i,
            map.wf(),
            map@.len() == n,
            nv == views(names@),
            tv == opt_view(tag),
            forall|j: int| i <= j < n ==> #[trigger] map@[j] == s[j],
            forall|j: int|
                0 <= j < i ==> {
                    let (k, o) = #[trigger] s[j];
                    let e = map@[j].1;
                    &&& map@[j].0 == k
                    &&& same_text(e, o)
                    &&& e.paused == (if selected(k, o, nv, tv, all, pause) {
                        pause
                    } else {
                        o.paused
                    })
                },
            selected_count(s, nv, tv, all, pause) == count + selected_count(s.skip(i as int), nv, tv, all, pause),
        decreases n - i,
    {
        let ghost rest = s.skip(i as int);
        assert(rest[0] == s[i as int]);
        assert(rest.drop_first() =~= s.skip(i + 1));
        proof {
            lemma_selected_count_bound(rest.drop_first(), nv, tv, all, pause);
        }
        let e = map.value_at(i);
        let pick = if all {
            e.paused != pause
        } else {
            match tag {
                Some(t) => entry_has_tag(e, t) && e.paused != pause,
                None => list_contains(names, map.key_at(i).as_str()),
            }
        };
        if pick {
            let updated = with_paused(e, pause);
            map.set_value_at(i, updated);
            count = count + 1;
        }
        i = i + 1;
    }
    assert(s.skip(n as int) =~= Seq::<(Seq<char>, EnvEntry)>::empty());
    count
}

/// The export commands for the active variables, in name order, in the
/// syntax of `shell`.
pub open spec fn load_script(s: Seq<(Seq<char>, EnvEntry)>, shell: ShellType) -> Seq<char>
    decreases s.len(),
{
    if s.len() == 0 {
        seq![]
    } else {
        (if s[0].1.paused {
            seq![]
        } else {
            match shell {
                ShellType::PowerShell => "$env:"@ + s[0].0 + " = \""@ + ps_quoted(s[0].1.value@)
                    + "\"\n"@,
                ShellType::Cmd => "set "@ + s[0].0 + "="@ + s[0].1.value@ + "\n"@,
                ShellType::Bash => "export "@ + s[0].0 + "="@ + bash_quoted(s[0].1.value@) + "\n"@,
            }
        }) + load_script(s.drop_first(), shell)
    }
}

/// What `ax env load` prints: one export command per active variable.
pub fn render_env_load(map: &EnvMap, shell_type: ShellType) -> (r: String)
    ensures
        r@ == load_script(map@, shell_type),
{
    let ghost s = map@;
    let mut out = String::new();
    let n = map.len();
    let mut i: usize = 0;
    assert(s.skip(0) =~= s);
    while i < n
        invariant
            n == s.len(),
            s == map@,
            i <= n,
            load_script(s, shell_type) == out@ + load_script(s.skip(i as int), shell_type),
        decreases n - i,
    {
        let ghost rest = s.skip(i as int);
        assert(rest[0] == s[i as int]);
        assert(rest.drop_first() =~= s.skip(i + 1));
        let name = map.key_at(i);
        let e = map.value_at(i);
        if !e.paused {
            match shell_type {
                ShellType::PowerShell => {
                    push_str(&mut out, "$env:");
                    push_str(&mut out, name.as_str());
                    push_str(&mut out, " = \"");
                    let v = ps_escape(e.value.as_str());
                    push_str(&mut out, v.as_str());
                    push_str(&mut out, "\"\n");
                },
                ShellType::Cmd => {
                    push_str(&mut out, "set ");
                    push_str(&mut out, name.as_str());
                    push_str(&mut out, "=");
                    push_str(&mut out, e.value.as_str());
                    push_str(&mut out, "\n");
                },
                ShellType::Bash => {
                    push_str(&mut out, "export ");
                    push_str(&mut out, name.as_str());
                    push_str(&mut out, "=");
                    let v = bash_escape(e.value.as_str());
                    push_str(&mut out, v.as_str());
                    push_str(&mut out, "\n");
                },
            }
        }
        i = i + 1;
    }
    assert(s.skip(n as int) =~= Seq::<(Seq<char>, EnvEntry)>::empty());
    out
}

/// The shell that `ax env load` writes for: `AX_SHELL` when set; else
/// PowerShell when `SHELL` names it; else, on Windows, cmd when `PSModulePath`
/// is set together with a non-empty `PROMPT`, PowerShell when only
/// `PSModulePath` is set, and cmd otherwise; else a POSIX shell.
pub open spec fn env_shell(
    ax_shell: Option<Seq<char>>,
    shell: Seq<char>,
    windows: bool,
    ps_module_path: bool,
    prompt: Seq<char>,
) -> ShellType {
    if ax_shell is Some {
        named_shell(crate::text::str_to_lowercase(ax_shell->0))
    } else if contains(shell, "pwsh"@) || contains(shell, "powershell"@) {
        ShellType::PowerShell
    } else if windows {
        if ps_module_path && prompt.len() > 0 {
            ShellType::Cmd
        } else if ps_module_path {
            ShellType::PowerShell
        } else {
            ShellType::Cmd
        }
    } else {
        ShellType::Bash
    }
}

/// Decides the shell for `ax env load` from `AX_SHELL`, `SHELL`, whether this
/// is Windows, whether `PSModulePath` is set, and `PROMPT`.
pub fn env_shell_type_from(
    ax_shell: Option<&str>,
    shell: &str,
    windows: bool,
    ps_module_path: bool,
    prompt: &str,
) -> (r: ShellType)
    ensures
        r == env_shell(opt_view(ax_shell), shell@, windows, ps_module_path, prompt@),
{
    if let Some(s) = ax_shell {
        return shell_from_name(s);
    }
    let l = chars_of(shell);
    if find(&l, &chars_of("pwsh")) || find(&l, &chars_of("powershell")) {
        return ShellType::PowerShell;
    }
    if windows {
        if ps_module_path {
            if !prompt.is_empty() {
                return ShellType::Cmd;
            }
            return ShellType::PowerShell;
        }
        return ShellType::Cmd;
    }
    ShellType::Bash
}

/// Quotes a value for a POSIX shell, as the older `env load` writes it: the
/// same quoting as the proxy exports, so that the shell reads back exactly
/// the value.
pub fn shell_escape(s: &str) -> (r: String)
    ensures
        r@ == bash_quoted(s@),
        sh_read(r@, false) == Some(s@),
{
    bash_escape(s)
}


/// The pieces of `s` between the occurrences of `c`, in order (one piece,
/// empty, for an empty `s`).
pub open spec fn split_on(s: Seq<char>, c: char) -> Seq<Seq<char>>
    decreases s.len(),
{
    if s.len() == 0 {
        seq![Seq::<char>::empty()]
    } else {
        let p = split_on(s.drop_last(), c);
        if s.last() == c {
            p.push(Seq::<char>::empty())
        } else {
            p.update(p.len() - 1, p.last().push(s.last()))
        }
    }
}

proof fn lemma_split_on_nonempty(s: Seq<char>, c: char)
    ensures
        split_on(s, c).len() >= 1,
    decreases s.len(),
{
    if s.len() > 0 {
        lemma_split_on_nonempty(s.drop_last(), c);
    }
}

/// The tags written in `s`: the comma-separated pieces, trimmed, without the
/// empty ones.
pub open spec fn tags_of(s: Seq<char>) -> Seq<Seq<char>> {
    split_on(s, ',').map_values(|p: Seq<char>| trim(p)).filter(|p: Seq<char>| p.len() > 0)
}

/// Splits `s` at each `c`.
fn split_pieces(s: &str, c: char) -> (r: Vec<String>)
    ensures
        views(r@) == split_on(s@, c),
{
    let v = chars_of(s);
    let mut done: Vec<String> = Vec::new();
    let mut start: usize = 0;
    let mut i: usize = 0;
    assert(v@.take(0) =~= Seq::<char>::empty());
    while i < v.len()
        invariant
            v@ == s@,
            start <= i <= v@.len(),
            views(done@).push(v@.subrange(start as int, i as int)) == split_on(v@.take(i as int), c),
        decreases v@.len() - i,
    {
        let ghost t = v@.take(i + 1);
        assert(t.drop_last() =~= v@.take(i as int));
        assert(t.last() == v@[i as int]);
        proof {
            lemma_split_on_nonempty(v@.take(i as int), c);
        }
        if v[i] == c {
            let piece = crate::text::string_of_range(&v, start, i);
            let ghost before = done@;
            done.push(piece);
            assert(views(done@) =~= views(before).push(v@.subrange(start as int, i as int)));
            start = i + 1;
            assert(v@.subrange(start as int, i + 1) =~= Seq::<char>::empty());
        } else {
            let ghost p = split_on(v@.take(i as int), c);
            assert(v@.subrange(start as int, i + 1) =~= v@.subrange(start as int, i as int).push(v@[i as int]));
            assert(views(done@).push(v@.subrange(start as int, i + 1)) =~= p.update(
                p.len() - 1,
                p.last().push(v@[i as int]),
            ));
        }
        i = i + 1;
    }
    assert(v@.take(v@.len() as int) =~= v@);
    let last = crate::text::string_of_range(&v, start, v.len());
    let ghost before = done@;
    done.push(last);
    assert(views(done@) =~= views(before).push(v@.subrange(start as int, v@.len() as int)));
    done
}

/// The tags written in `s` (see `tags_of`), as `-t dev,docker` gives them.
pub fn split_tags(s: &str) -> (r: Vec<String>)
    ensures
        views(r@) == tags_of(s@),
{
    let pieces = split_pieces(s, ',');
    let ghost m = views(pieces@).map_values(|p: Seq<char>| trim(p));
    let ghost pred = |p: Seq<char>| p.len() > 0;
    let mut r: Vec<String> = Vec::new();
    let mut i: usize = 0;
    assert(m.take(0) =~= Seq::<Seq<char>>::empty());
    while i < pieces.len()
        invariant
            i <= pieces@.len(),
            m == views(pieces@).map_values(|p: Seq<char>| trim(p)),
            pred == (|p: Seq<char>| p.len() > 0),
            views(r@) == m.take(i as int).filter(pred),
        decreases pieces@.len() - i,
    {
        proof {
            reveal(Seq::filter);
            assert(m.take(i + 1).drop_last() =~= m.take(i as int));
            assert(m.take(i + 1).last() == trim(pieces@[i as int]@));
        }
        let t = crate::text::trim_str(pieces[i].as_str());
        if !t.as_str().is_empty() {
            let ghost before = r@;
            r.push(t);
            assert(views(r@) =~= views(before).push(trim(pieces@[i as int]@)));
        }
        i = i + 1;
    }
    assert(m.take(pieces@.len() as int) =~= m);
    r
}

} // verus!
