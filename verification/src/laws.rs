//! Properties that hold of the library as a whole, across calls and inputs.
use vstd::prelude::*;

use crate::archive::{import_step_of, ImportStep};
use crate::commands::{prefixed, resolved_name, selection_of, Selection};
use crate::config::{config_dir_of, CommandEntry, EnvEntry, SshAuth, SshHostEntry};
use crate::packages::{packages_of, packages_of_lines, PackageSection};
use crate::env::{has_tag, load_script, pause_applied, same_text, removals, selected, split_on, tags_of};
use crate::install::with_include;
use crate::listing::{show_selection, tag_used, tagged, tagged_paused};
use crate::proxy::{
    assignments, bash_quoted, env_items, line, off_script, on_script, proxy_vars, ps_quoted, spaced_vars,
    value_for, var_lines, ShellType, sh_read, lemma_bash_quoted_reads_back,
};
use crate::sync::{push_next, GitStepView, PushStateView};
use crate::ssh::connect_args;
use crate::text::{char_is_whitespace, decimal, contains, has_char, occurs_at, replace, starts_with, trim, trim_end, trim_start};
use crate::yaml::{deep_extend, key_index, lemma_key_index, mapping_extend, mapping_insert, merge_value, merged, YamlNode};
use crate::completion::{
    apply_replacements, default_anchor, lacks_char, lacks_char_from, lacks_pair_from, lemma_zsh_patterns_lack_newline,
    lemma_zsh_shapes, pattern_shape, replacement_shape, zsh_replacements,
};

verus! {

/// Prefixing a command name twice is the same as prefixing it once.
pub proof fn law_prefix_idempotent(name: Seq<char>)
    ensures
        prefixed(prefixed(name)) == prefixed(name),
{
    if !starts_with(name, "ax-"@) {
        let p = "ax-"@ + name;
        assert(p.subrange(0, "ax-"@.len() as int) =~= "ax-"@);
        assert(starts_with(p, "ax-"@));
    }
}

/// A name refers to itself when a command has it; otherwise to its `ax-`
/// form when a command has that; and it refers to an existing command
/// exactly when one of the two exists.
pub proof fn law_resolved_name(name: Seq<char>, m: Map<Seq<char>, CommandEntry>)
    ensures
        m.contains_key(name) ==> resolved_name(name, m) == name,
        !m.contains_key(name) && m.contains_key("ax-"@ + name) ==> resolved_name(name, m) == "ax-"@
            + name,
        m.contains_key(resolved_name(name, m)) <==> (m.contains_key(name) || m.contains_key(
            "ax-"@ + name,
        )),
{
}

/// Paused variables contribute nothing to the load script: it is the script
/// of the active variables alone.
pub proof fn law_paused_not_loaded(s: Seq<(Seq<char>, EnvEntry)>, shell: ShellType)
    ensures
        load_script(s, shell) == load_script(
            s.filter(|p: (Seq<char>, EnvEntry)| !p.1.paused),
            shell,
        ),
    decreases s.len(),
{
    let pred = |p: (Seq<char>, EnvEntry)| !p.1.paused;
    if s.len() == 0 {
        reveal(Seq::filter);
    } else {
        let rest = s.drop_first();
        law_paused_not_loaded(rest, shell);
        assert(s =~= seq![s[0]] + rest);
        rest.lemma_filter_prepend(s[0], pred);
        if !s[0].1.paused {
            let f = seq![s[0]] + rest.filter(pred);
            assert(f[0] == s[0]);
            assert(f.drop_first() =~= rest.filter(pred));
        } else {
            assert(Seq::<(Seq<char>, EnvEntry)>::empty() + rest.filter(pred) =~= rest.filter(pred));
            assert(load_script(s, shell) =~= load_script(rest, shell));
        }
    }
}

/// `ax env show --all` lists every variable; without `--all`, a name or a
/// tag it lists the active ones.
pub proof fn law_show_all(s: Seq<(Seq<char>, EnvEntry)>)
    ensures
        show_selection(s, None, None, true) == s,
        show_selection(s, None, None, false) == s.filter(|p: (Seq<char>, EnvEntry)| !p.1.paused),
    decreases s.len(),
{
    reveal(Seq::filter);
    if s.len() > 0 {
        law_show_all(s.drop_last());
        assert(s.drop_last().push(s.last()) =~= s);
        assert(show_selection(s.drop_last(), None, None, false) =~= s.drop_last().filter(
            |p: (Seq<char>, EnvEntry)| !p.1.paused,
        ));
    }
}

/// No tag has more paused variables than variables.
pub proof fn law_tag_paused_within_count(s: Seq<(Seq<char>, EnvEntry)>, t: Seq<char>)
    ensures
        tagged_paused(s, t).len() <= tagged(s, t).len(),
    decreases s.len(),
{
    reveal(Seq::filter);
    if s.len() > 0 {
        law_tag_paused_within_count(s.drop_last(), t);
    }
}

/// Pausing with `--all` leaves every variable paused, and resuming with
/// `--all` leaves every variable active, whatever its state before.
pub proof fn law_all_pause_resume(
    name: Seq<char>,
    e: EnvEntry,
    names: Seq<Seq<char>>,
    tag: Option<Seq<char>>,
)
    ensures
        (if selected(name, e, names, tag, true, true) {
            true
        } else {
            e.paused
        }),
        !(if selected(name, e, names, tag, true, false) {
            false
        } else {
            e.paused
        }),
{
}

/// Resuming by name the variables just paused by name gives back the table
/// as it was, when they were all active before the pause: every variable has
/// its name, its text and its state as before.
pub proof fn law_pause_then_resume(
    s0: Seq<(Seq<char>, EnvEntry)>,
    s1: Seq<(Seq<char>, EnvEntry)>,
    s2: Seq<(Seq<char>, EnvEntry)>,
    names: Seq<Seq<char>>,
)
    requires
        pause_applied(s0, s1, names, None, false, true),
        pause_applied(s1, s2, names, None, false, false),
        forall|i: int| 0 <= i < s0.len() && names.contains(#[trigger] s0[i].0) ==> !s0[i].1.paused,
    ensures
        s2.len() == s0.len(),
        forall|i: int|
            0 <= i < s0.len() ==> #[trigger] s2[i].0 == s0[i].0 && same_text(s2[i].1, s0[i].1)
                && s2[i].1.paused == s0[i].1.paused,
{
    assert forall|i: int| 0 <= i < s0.len() implies #[trigger] s2[i].0 == s0[i].0 && same_text(
        s2[i].1,
        s0[i].1,
    ) && s2[i].1.paused == s0[i].1.paused by {
        let a = s0[i];
        let b = s1[i];
        assert(b.0 == a.0);
        let c = s2[i];
        assert(c.0 == b.0);
    }
}

proof fn lemma_contains_append(a: Seq<char>, b: Seq<char>, p: Seq<char>)
    requires
        contains(b, p),
    ensures
        contains(a + b, p),
{
    let i = choose|i: int| 0 <= i <= b.len() - p.len() && #[trigger] occurs_at(b, p, i);
    assert((a + b).subrange(a.len() + i, a.len() + i + p.len()) =~= b.subrange(i, i + p.len()));
    assert(occurs_at(a + b, p, a.len() + i));
}

/// Adding the include block to a startup file is done once: the file it
/// gives already counts as including it.
pub proof fn law_include_once(content: Seq<char>, block: Seq<char>)
    requires
        contains(block, "# >>> ax-cli >>>"@),
        with_include(content, block) is Some,
    ensures
        with_include(with_include(content, block)->0, block) is None,
{
    let d = with_include(content, block)->0;
    if content.len() == 0 {
    } else if content.last() == '\n' {
        lemma_contains_append(content + seq!['\n'], block, "# >>> ax-cli >>>"@);
    } else {
        lemma_contains_append(content + seq!['\n', '\n'], block, "# >>> ax-cli >>>"@);
    }
}

/// Replacing a pattern that does not occur changes nothing.
pub proof fn law_replace_absent(s: Seq<char>, p: Seq<char>, t: Seq<char>)
    requires
        !contains(s, p),
    ensures
        replace(s, p, t) == s,
    decreases s.len(),
{
    if s.len() > 0 && p.len() > 0 {
        if starts_with(s, p) {
            assert(occurs_at(s, p, 0));
        }
        let r = s.drop_first();
        assert(!contains(r, p)) by {
            if contains(r, p) {
                let i = choose|i: int| 0 <= i <= r.len() - p.len() && #[trigger] occurs_at(r, p, i);
                assert(s.subrange(i + 1, i + 1 + p.len()) =~= r.subrange(i, i + p.len()));
                assert(occurs_at(s, p, i + 1));
            }
        }
        law_replace_absent(r, p, t);
        assert(seq![s[0]] + r =~= s);
    }
}

proof fn lemma_lacks_char(s: Seq<char>, c: char, i: int)
    requires
        0 <= i,
        lacks_char_from(s, c, i),
    ensures
        forall|j: int| i <= j < s.len() ==> s[j] != c,
    decreases s.len() - i,
{
    if i < s.len() {
        lemma_lacks_char(s, c, i + 1);
    }
}

proof fn lemma_replace_split(a: Seq<char>, b: Seq<char>, p: Seq<char>, t: Seq<char>)
    requires
        forall|j: int| 0 <= j < p.len() ==> p[j] != '\n',
    ensures
        replace(a + seq!['\n'] + b, p, t) == replace(a, p, t) + seq!['\n'] + replace(b, p, t),
    decreases a.len(),
{
    let s = a + seq!['\n'] + b;
    if p.len() == 0 {
        assert(replace(s, p, t) == s);
    } else if a.len() == 0 {
        assert(s =~= seq!['\n'] + b);
        if starts_with(s, p) {
            assert(s.subrange(0, p.len() as int)[0] == p[0]);
            assert(p[0] == '\n');
        }
        assert(s.drop_first() =~= b);
        assert(replace(a, p, t) =~= a);
        assert(seq!['\n'] + replace(b, p, t) =~= a + seq!['\n'] + replace(b, p, t));
    } else if starts_with(s, p) {
        if p.len() > a.len() {
            assert(s.subrange(0, p.len() as int)[a.len() as int] == p[a.len() as int]);
            assert(s[a.len() as int] == '\n');
        }
        assert(a.subrange(0, p.len() as int) =~= s.subrange(0, p.len() as int));
        assert(starts_with(a, p));
        let a2 = a.skip(p.len() as int);
        assert(s.skip(p.len() as int) =~= a2 + seq!['\n'] + b);
        lemma_replace_split(a2, b, p, t);
        assert((t + replace(a2, p, t)) + seq!['\n'] + replace(b, p, t) =~= t + (replace(a2, p, t)
            + seq!['\n'] + replace(b, p, t)));
    } else {
        if starts_with(a, p) {
            assert(s.subrange(0, p.len() as int) =~= a.subrange(0, p.len() as int));
            assert(starts_with(s, p));
        }
        let a2 = a.drop_first();
        assert(s.drop_first() =~= a2 + seq!['\n'] + b);
        assert(s[0] == a[0]);
        lemma_replace_split(a2, b, p, t);
        assert((seq![a[0]] + replace(a2, p, t)) + seq!['\n'] + replace(b, p, t) =~= seq![a[0]] + (
        replace(a2, p, t) + seq!['\n'] + replace(b, p, t)));
    }
}

proof fn lemma_apply_split(a: Seq<char>, b: Seq<char>, table: Seq<(Seq<char>, Seq<char>)>)
    requires
        forall|i: int| 0 <= i < table.len() ==> lacks_char(#[trigger] table[i].0, '\n'),
    ensures
        apply_replacements(a + seq!['\n'] + b, table) == apply_replacements(a, table) + seq!['\n']
            + apply_replacements(b, table),
    decreases table.len(),
{
    if table.len() > 0 {
        let p = table[0].0;
        assert(lacks_char(table[0].0, '\n'));
        lemma_lacks_char(p, '\n', 0);
        lemma_replace_split(a, b, p, table[0].1);
        let rest = table.drop_first();
        assert forall|i: int| 0 <= i < rest.len() implies lacks_char(#[trigger] rest[i].0, '\n') by {
            assert(rest[i] == table[i + 1]);
        }
        lemma_apply_split(replace(a, p, table[0].1), replace(b, p, table[0].1), rest);
    }
}

/// The zsh script is adjusted line by line: no adjustment spans a line
/// break, so adjusting two lines joined by a line feed gives the adjusted
/// lines joined by a line feed.
pub proof fn law_zsh_adjusts_line_by_line(a: Seq<char>, b: Seq<char>)
    ensures
        apply_replacements(a + seq!['\n'] + b, zsh_replacements()) == apply_replacements(
            a,
            zsh_replacements(),
        ) + seq!['\n'] + apply_replacements(b, zsh_replacements()),
{
    lemma_zsh_patterns_lack_newline();
    lemma_apply_split(a, b, zsh_replacements());
}

/// How many characters of `t`'s end line up with `q` when that end is at
/// position `m` of `q`.
pub open spec fn overlap_len(t: Seq<char>, m: int) -> int {
    if m + 1 <= t.len() {
        m + 1
    } else {
        t.len() as int
    }
}

/// The end of the text `t`, put at position `m` of `q`, matches `q`: the last
/// `overlap_len(t, m)` characters of `t` are those of `q` that end at `m`.
pub open spec fn end_aligned(t: Seq<char>, q: Seq<char>, m: int) -> bool {
    q.subrange(m + 1 - overlap_len(t, m), m + 1) == t.subrange(
        t.len() - overlap_len(t, m),
        t.len() as int,
    )
}

/// The end of `t` matches `q` at no position.
pub open spec fn end_misaligned(t: Seq<char>, q: Seq<char>) -> bool {
    forall|m: int| 0 <= m < q.len() ==> !#[trigger] end_aligned(t, q, m)
}

proof fn lemma_lacks_pair(s: Seq<char>, a: char, b: char, i: int)
    requires
        0 <= i,
        lacks_pair_from(s, a, b, i),
    ensures
        forall|j: int| i <= j && j + 1 < s.len() ==> !(#[trigger] s[j] == a && s[j + 1] == b),
    decreases s.len() - i,
{
    if i + 1 < s.len() {
        lemma_lacks_pair(s, a, b, i + 1);
    }
}

proof fn lemma_lacks_char_range(s: Seq<char>, c: char)
    requires
        lacks_char(s, c),
    ensures
        forall|j: int| 0 <= j < s.len() ==> #[trigger] s[j] != c,
{
    lemma_lacks_char(s, c, 0);
}

/// The shapes of a pattern and a replacement keep the replacement's end from
/// lining up with the pattern.
proof fn lemma_shapes_misaligned(t: Seq<char>, q: Seq<char>)
    requires
        pattern_shape(q),
        replacement_shape(t),
    ensures
        end_misaligned(t, q),
{
    lemma_lacks_char_range(q, '"');
    if lacks_char(q, ')') {
        lemma_lacks_char_range(q, ')');
    } else {
        lemma_lacks_char_range(q.take(9), ')');
        lemma_lacks_char(q, ')', 10);
    }
    assert forall|m: int| 0 <= m < q.len() implies !#[trigger] end_aligned(t, q, m) by {
        let l = if m + 1 <= t.len() { m + 1 } else { t.len() as int };
        let a = q.subrange(m + 1 - l, m + 1);
        let b = t.subrange(t.len() - l, t.len() as int);
        assert(a[l - 1] == q[m]);
        assert(b[l - 1] == t.last());
        if q[m] == t.last() {
            if t.last() == ')' {
                if m < 9 {
                    assert(q.take(9)[m] == q[m]);
                }
                assert(m == 9);
                assert(l == 10);
                assert(a[0] == q[0]);
                assert(b[0] == t[t.len() - 10]);
            }
        }
    }
}

/// What comes of a pattern's tail: if the replaced text begins with the part
/// of `q` from `k` on, so does the text before the replacement.
proof fn lemma_replaced_prefix(z: Seq<char>, p: Seq<char>, t: Seq<char>, q: Seq<char>, k: int)
    requires
        p.len() > 0,
        pattern_shape(q),
        replacement_shape(t),
        end_misaligned(t, q),
        1 <= k < q.len(),
        occurs_at(replace(z, p, t), q.skip(k), 0),
    ensures
        occurs_at(z, q.skip(k), 0),
    decreases z.len(),
{
    let w = q.skip(k);
    let r = replace(z, p, t);
    assert(q.subrange(q.len() - 9, q.len() as int) == default_anchor());
    if z.len() == 0 {
        assert(r == z);
        assert(w.len() > 0);
    } else if starts_with(z, p) {
        let z1 = z.skip(p.len() as int);
        assert(r == t + replace(z1, p, t));
        if w.len() <= t.len() {
            assert(w =~= r.subrange(0, w.len() as int));
            assert forall|j: int| 0 <= j < w.len() implies w[j] == t[j] by {
                assert(r.subrange(0, w.len() as int)[j] == r[j]);
            }
            if w.len() >= 8 {
                let j = w.len() - 8;
                assert(w[j] == q[q.len() - 8]);
                assert(q[q.len() - 8] == q.subrange(q.len() - 9, q.len() as int)[1]);
                assert(w[j + 1] == q[q.len() - 7]);
                assert(q[q.len() - 7] == q.subrange(q.len() - 9, q.len() as int)[2]);
                lemma_lacks_pair(t, '_', 'd', 0);
                assert(!(t[j] == '_' && t[j + 1] == 'd'));
                assert(false);
            } else {
                assert(w[0] == q[k]);
                assert(q[k] == q.subrange(q.len() - 9, q.len() as int)[k - (q.len() - 9)]);
                assert(false);
            }
        } else {
            let m = k + t.len() - 1;
            assert(q.subrange(m + 1 - t.len(), m + 1) =~= t.subrange(0, t.len() as int)) by {
                assert forall|j: int| 0 <= j < t.len() implies q.subrange(k, k + t.len())[j] == t[j] by {
                    assert(r.subrange(0, w.len() as int)[j] == r[j]);
                    assert(w[j] == q[k + j]);
                }
            }
            assert(!end_aligned(t, q, m));
            assert(q.subrange(k, k + t.len()) =~= t);
            assert(false);
        }
    } else {
        let z1 = z.drop_first();
        assert(r == seq![z[0]] + replace(z1, p, t));
        assert(w[0] == r.subrange(0, w.len() as int)[0]);
        if w.len() == 1 {
            assert(r[0] == z[0]);
            assert(z.subrange(0, 1) =~= w);
        } else {
            let w1 = q.skip(k + 1);
            assert(w1 =~= w.drop_first());
            assert(replace(z1, p, t).subrange(0, w1.len() as int) =~= r.subrange(0, w.len() as int).drop_first());
            lemma_replaced_prefix(z1, p, t, q, k + 1);
            assert(z1.subrange(0, w1.len() as int) == w1);
            assert(r[0] == z[0]);
            assert(w =~= seq![w[0]] + w1);
            assert(z.subrange(0, w.len() as int) =~= seq![z[0]] + z1.subrange(0, w1.len() as int));
        }
    }
}

/// A replacement brings in no occurrence of a pattern: an occurrence of `q`
/// after replacing `p` by `t` was already there before, and `q` is not `p`
/// (every occurrence of `p` has been replaced).
proof fn lemma_replace_brings_none(x: Seq<char>, p: Seq<char>, t: Seq<char>, q: Seq<char>, i: int)
    requires
        p.len() > 0,
        pattern_shape(q),
        replacement_shape(t),
        end_misaligned(t, q),
        occurs_at(replace(x, p, t), q, i),
    ensures
        contains(x, q),
        q != p,
    decreases x.len(),
{
    let r = replace(x, p, t);
    assert(q.subrange(q.len() - 9, q.len() as int) == default_anchor());
    if x.len() == 0 {
    } else if starts_with(x, p) {
        let x1 = x.skip(p.len() as int);
        let r1 = replace(x1, p, t);
        assert(r == t + r1);
        if i >= t.len() {
            assert(r1.subrange(i - t.len(), i - t.len() + q.len()) =~= r.subrange(i, i + q.len()));
            lemma_replace_brings_none(x1, p, t, q, i - t.len());
            let j = choose|j: int| occurs_at(x1, q, j);
            assert(x.subrange(j + p.len(), j + p.len() + q.len()) =~= x1.subrange(j, j + q.len()));
            assert(occurs_at(x, q, j + p.len()));
        } else if i + q.len() <= t.len() {
            let j = i + q.len() - 8;
            assert(r.subrange(i, i + q.len())[q.len() - 8] == t[j]);
            assert(r.subrange(i, i + q.len())[q.len() - 7] == t[j + 1]);
            assert(q[q.len() - 8] == q.subrange(q.len() - 9, q.len() as int)[1]);
            assert(q[q.len() - 7] == q.subrange(q.len() - 9, q.len() as int)[2]);
            lemma_lacks_pair(t, '_', 'd', 0);
            assert(!(t[j] == '_' && t[j + 1] == 'd'));
        } else {
            let m = t.len() - 1 - i;
            assert(q.subrange(0, m + 1) =~= t.subrange(t.len() - (m + 1), t.len() as int)) by {
                assert forall|j: int| 0 <= j < m + 1 implies q[j] == t[i + j] by {
                    assert(r.subrange(i, i + q.len())[j] == r[i + j]);
                }
            }
            assert(!end_aligned(t, q, m));
        }
    } else {
        let x1 = x.drop_first();
        let r1 = replace(x1, p, t);
        assert(r == seq![x[0]] + r1);
        if i >= 1 {
            assert(r1.subrange(i - 1, i - 1 + q.len()) =~= r.subrange(i, i + q.len()));
            lemma_replace_brings_none(x1, p, t, q, i - 1);
            let j = choose|j: int| occurs_at(x1, q, j);
            assert(x.subrange(j + 1, j + 1 + q.len()) =~= x1.subrange(j, j + q.len()));
            assert(occurs_at(x, q, j + 1));
        } else {
            let w = q.skip(1);
            assert(r1.subrange(0, w.len() as int) =~= r.subrange(0, q.len() as int).drop_first());
            lemma_replaced_prefix(x1, p, t, q, 1);
            assert(q[0] == r.subrange(0, q.len() as int)[0]);
            assert(r[0] == x[0]);
            assert(x1.subrange(0, w.len() as int) == w);
            assert(q =~= seq![q[0]] + w);
            assert(x.subrange(0, q.len() as int) =~= seq![x[0]] + x1.subrange(0, w.len() as int));
            assert(occurs_at(x, q, 0));
            if q == p {
                assert(starts_with(x, p));
            }
        }
    }
}

proof fn lemma_apply_removes(
    x: Seq<char>,
    tab: Seq<(Seq<char>, Seq<char>)>,
    qs: Seq<Seq<char>>,
)
    requires
        forall|i: int| 0 <= i < tab.len() ==> pattern_shape(#[trigger] tab[i].0) && replacement_shape(tab[i].1),
        forall|j: int| 0 <= j < qs.len() ==> pattern_shape(#[trigger] qs[j]) && !contains(x, qs[j]),
    ensures
        forall|j: int| 0 <= j < qs.len() ==> !contains(apply_replacements(x, tab), #[trigger] qs[j]),
        forall|i: int| 0 <= i < tab.len() ==> !contains(apply_replacements(x, tab), #[trigger] tab[i].0),
    decreases tab.len(),
{
    if tab.len() > 0 {
        let p = tab[0].0;
        let t = tab[0].1;
        assert(pattern_shape(tab[0].0) && replacement_shape(tab[0].1));
        let y = replace(x, p, t);
        let qs2 = qs.push(p);
        assert forall|j: int| 0 <= j < qs2.len() implies pattern_shape(#[trigger] qs2[j]) && !contains(y, qs2[j]) by {
            let q = qs2[j];
            if j < qs.len() {
                assert(q == qs[j]);
                assert(pattern_shape(qs[j]) && !contains(x, qs[j]));
            } else {
                assert(q == p);
            }
            if contains(y, q) {
                let i = choose|i: int| occurs_at(y, q, i);
                lemma_shapes_misaligned(t, q);
                lemma_replace_brings_none(x, p, t, q, i);
            }
        }
        let rest = tab.drop_first();
        assert forall|i: int| 0 <= i < rest.len() implies pattern_shape(#[trigger] rest[i].0) && replacement_shape(rest[i].1) by {
            assert(rest[i] == tab[i + 1]);
        }
        lemma_apply_removes(y, rest, qs2);
        assert forall|j: int| 0 <= j < qs.len() implies !contains(apply_replacements(x, tab), #[trigger] qs[j]) by {
            assert(qs2[j] == qs[j]);
        }
        assert forall|i: int| 0 <= i < tab.len() implies !contains(apply_replacements(x, tab), #[trigger] tab[i].0) by {
            if i == 0 {
                assert(qs2[qs.len() as int] == p);
            } else {
                assert(rest[i - 1] == tab[i]);
            }
        }
    }
}

proof fn lemma_apply_identity(z: Seq<char>, tab: Seq<(Seq<char>, Seq<char>)>)
    requires
        forall|i: int| 0 <= i < tab.len() ==> !contains(z, #[trigger] tab[i].0),
    ensures
        apply_replacements(z, tab) == z,
    decreases tab.len(),
{
    if tab.len() > 0 {
        assert(!contains(z, tab[0].0));
        law_replace_absent(z, tab[0].0, tab[0].1);
        let rest = tab.drop_first();
        assert forall|i: int| 0 <= i < rest.len() implies !contains(z, #[trigger] rest[i].0) by {
            assert(rest[i] == tab[i + 1]);
        }
        lemma_apply_identity(z, rest);
    }
}

/// After the zsh adjustments, no pattern of them is left in the script.
pub proof fn law_zsh_no_pattern_left(s: Seq<char>, i: int)
    requires
        0 <= i < zsh_replacements().len(),
    ensures
        !contains(apply_replacements(s, zsh_replacements()), zsh_replacements()[i].0),
{
    lemma_zsh_shapes();
    lemma_apply_removes(s, zsh_replacements(), Seq::<Seq<char>>::empty());
}

/// Adjusting an already adjusted zsh script changes nothing: after the
/// adjustments no pattern of them is left, and none is brought in.
pub proof fn law_zsh_adjustment_idempotent(s: Seq<char>)
    ensures
        apply_replacements(apply_replacements(s, zsh_replacements()), zsh_replacements())
            == apply_replacements(s, zsh_replacements()),
{
    lemma_zsh_shapes();
    lemma_apply_removes(s, zsh_replacements(), Seq::<Seq<char>>::empty());
    lemma_apply_identity(apply_replacements(s, zsh_replacements()), zsh_replacements());
}

/// No key occurs twice in a mapping.
pub open spec fn unique_keys<V>(m: Seq<(u64, V)>) -> bool {
    forall|a: int, b: int| 0 <= a < m.len() && 0 <= b < m.len() && a != b ==> #[trigger] m[a].0 != #[trigger] m[b].0
}

proof fn lemma_index_of_unique<V>(m: Seq<(u64, V)>, i: int)
    requires
        unique_keys(m),
        0 <= i < m.len(),
    ensures
        key_index(m, m[i].0) == Some(i),
{
    assert forall|j: int| 0 <= j < i implies m[j].0 != m[i].0 by {
        assert(m[j].0 != m[i].0);
    }
    lemma_key_index_first(m, m[i].0, i);
}

proof fn lemma_key_index_first<V>(m: Seq<(u64, V)>, k: u64, i: int)
    requires
        0 <= i < m.len(),
        m[i].0 == k,
        forall|j: int| 0 <= j < i ==> m[j].0 != k,
    ensures
        key_index(m, k) == Some(i),
    decreases i,
{
    if i > 0 {
        let t = m.drop_first();
        assert(m[0].0 != k);
        assert forall|j: int| 0 <= j < i - 1 implies t[j].0 != k by {
            assert(t[j] == m[j + 1]);
        }
        lemma_key_index_first(t, k, i - 1);
    }
}

proof fn lemma_key_index_absent<V>(m: Seq<(u64, V)>, k: u64)
    requires
        forall|j: int| 0 <= j < m.len() ==> m[j].0 != k,
    ensures
        key_index(m, k) is None,
    decreases m.len(),
{
    if m.len() > 0 {
        let t = m.drop_first();
        assert forall|j: int| 0 <= j < t.len() implies t[j].0 != k by {
            assert(t[j] == m[j + 1]);
        }
        lemma_key_index_absent(t, k);
    }
}

/// Inserting pairs with new, distinct keys appends them.
proof fn lemma_extend_fresh<V>(m: Seq<(u64, V)>, o: Seq<(u64, V)>)
    requires
        unique_keys(o),
        forall|a: int, b: int| 0 <= a < m.len() && 0 <= b < o.len() ==> m[a].0 != o[b].0,
    ensures
        mapping_extend(m, o) == m + o,
    decreases o.len(),
{
    if o.len() == 0 {
        assert(m + o =~= m);
    } else {
        lemma_key_index_absent(m, o[0].0);
        let m1 = m.push(o[0]);
        assert(mapping_insert(m, o[0].0, o[0].1) == m1);
        let o1 = o.drop_first();
        assert forall|a: int, b: int| 0 <= a < m1.len() && 0 <= b < o1.len() implies m1[a].0 != o1[b].0 by {
            assert(o1[b] == o[b + 1]);
            if a == m.len() {
                assert(o[0].0 != o[b + 1].0);
            }
        }
        assert forall|a: int, b: int| 0 <= a < o1.len() && 0 <= b < o1.len() && a != b implies #[trigger] o1[a].0 != #[trigger] o1[b].0 by {
            assert(o[a + 1].0 != o[b + 1].0);
        }
        lemma_extend_fresh(m1, o1);
        assert(m1 + o1 =~= m + o);
    }
}

/// Laying pairs over a mapping keeps each pair whose key they do not hold
/// where it was.
proof fn lemma_deep_extend_keeps(m: Seq<(u64, YamlNode)>, os: Seq<(u64, YamlNode)>, i: int)
    requires
        0 <= i < m.len(),
        forall|j: int| 0 <= j < os.len() ==> os[j].0 != m[i].0,
    ensures
        i < deep_extend(m, os).len(),
        deep_extend(m, os)[i] == m[i],
    decreases os.len(),
{
    if os.len() > 0 {
        let k = os[0].0;
        let v = os[0].1;
        let next = match key_index(m, k) {
            Some(a) => m.update(a, (k, merge_value(m[a].1, v))),
            None => m.push((k, v)),
        };
        lemma_key_index(m, k);
        let rest = os.subrange(1, os.len() as int);
        assert forall|j: int| 0 <= j < rest.len() implies rest[j].0 != next[i].0 by {
            assert(rest[j] == os[j + 1]);
        }
        lemma_deep_extend_keeps(next, rest, i);
    }
}

/// Laying pairs over a mapping merges the value of a key that both hold
/// (first found in `m` at `i`, once in `os` at `j`) with the later value.
proof fn lemma_deep_extend_merges(m: Seq<(u64, YamlNode)>, os: Seq<(u64, YamlNode)>, i: int, j: int)
    requires
        unique_keys(os),
        0 <= j < os.len(),
        key_index(m, os[j].0) == Some(i),
    ensures
        i < deep_extend(m, os).len(),
        deep_extend(m, os)[i] == (os[j].0, merge_value(m[i].1, os[j].1)),
    decreases os.len(),
{
    lemma_key_index(m, os[j].0);
    let k = os[0].0;
    let v = os[0].1;
    let next = match key_index(m, k) {
        Some(a) => m.update(a, (k, merge_value(m[a].1, v))),
        None => m.push((k, v)),
    };
    lemma_key_index(m, k);
    let rest = os.subrange(1, os.len() as int);
    if j == 0 {
        assert(next[i] == (k, merge_value(m[i].1, v)));
        assert forall|b: int| 0 <= b < rest.len() implies rest[b].0 != next[i].0 by {
            assert(rest[b] == os[b + 1]);
            assert(os[b + 1].0 != os[0].0);
        }
        lemma_deep_extend_keeps(next, rest, i);
    } else {
        assert(k != os[j].0);
        assert(rest[j - 1] == os[j]);
        assert(next[i] == m[i]);
        assert forall|b: int| 0 <= b < i implies next[b].0 != os[j].0 by {
            assert(m[b].0 != os[j].0);
        }
        lemma_key_index_first(next, os[j].0, i);
        assert forall|a: int, b: int| 0 <= a < rest.len() && 0 <= b < rest.len() && a != b implies #[trigger] rest[a].0 != #[trigger] rest[b].0 by {
            assert(os[a + 1].0 != os[b + 1].0);
        }
        lemma_deep_extend_merges(next, rest, i, j - 1);
    }
}

/// Configuration layers merge at every depth: laying a mapping over a
/// mapping keeps the earlier's keys in place; a key that only the earlier has
/// keeps its value, and a key that both have takes the merge of the two
/// values (so mappings within are merged in turn, and otherwise the later
/// value wins).
pub proof fn law_mappings_merge_deeply(bs: Seq<(u64, YamlNode)>, os: Seq<(u64, YamlNode)>, i: int)
    requires
        unique_keys(bs),
        unique_keys(os),
        0 <= i < bs.len(),
    ensures
        merge_value(YamlNode::Mapping(bs), YamlNode::Mapping(os)) matches YamlNode::Mapping(r) && i < r.len()
            && r[i].0 == bs[i].0 && ((forall|j: int| 0 <= j < os.len() ==> os[j].0 != bs[i].0) ==> r[i]
            == bs[i]) && (forall|j: int|
            0 <= j < os.len() && os[j].0 == bs[i].0 ==> r[i].1 == merge_value(bs[i].1, os[j].1)),
{
    lemma_extend_fresh(Seq::<(u64, YamlNode)>::empty(), bs);
    assert(Seq::<(u64, YamlNode)>::empty() + bs =~= bs);
    let base = mapping_extend(Seq::<(u64, YamlNode)>::empty(), bs);
    assert(base == bs);
    if forall|j: int| 0 <= j < os.len() ==> os[j].0 != bs[i].0 {
        lemma_deep_extend_keeps(bs, os, i);
    } else {
        let j = choose|j: int| 0 <= j < os.len() && os[j].0 == bs[i].0;
        lemma_index_of_unique(bs, i);
        lemma_deep_extend_merges(bs, os, i, j);
        assert forall|j2: int| 0 <= j2 < os.len() && os[j2].0 == bs[i].0 implies j2 == j by {
            if j2 != j {
                assert(os[j2].0 != os[j].0);
            }
        }
    }
}

/// A number picked from the run menu is always one of the listed entries.
pub proof fn law_menu_index_in_range(input: Seq<char>, count: nat, m: Map<Seq<char>, CommandEntry>)
    ensures
        selection_of(input, count, m) matches Selection::Index(i) ==> i < count,
{
}

/// An import never overwrites a file the configuration already has, and
/// never brings in the `bin` directory at the top.
pub proof fn law_import_keeps_existing(name: Seq<char>, top_level: bool, is_dir: bool, dst_exists: bool)
    ensures
        !is_dir && dst_exists ==> import_step_of(name, top_level, is_dir, dst_exists) != ImportStep::CopyFile,
        top_level && name == "bin"@ ==> import_step_of(name, top_level, is_dir, dst_exists) == ImportStep::Skip,
{
}

/// The order in which a push goes through its states.
pub open spec fn push_rank(s: PushStateView) -> nat {
    match s {
        PushStateView::Adding => 0,
        PushStateView::CheckingStaged => 1,
        PushStateView::Committing => 2,
        PushStateView::CheckingUnpushed { .. } => 3,
        PushStateView::ReadingBranch => 4,
        PushStateView::CheckingUpstream { .. } => 5,
        PushStateView::Pushing => 6,
        PushStateView::Finished => 7,
    }
}

/// Every step of a push moves it forward, so a push runs at most seven git
/// commands; and it stops (`Done`) exactly when it has finished.
pub proof fn law_push_progresses(
    state: PushStateView,
    spawned: bool,
    success: bool,
    stdout: Seq<char>,
    stderr: Seq<char>,
)
    requires
        !(state is Finished),
    ensures
        push_rank(push_next(state, spawned, success, stdout, stderr).0) > push_rank(state),
        push_next(state, spawned, success, stdout, stderr).1 is Done <==> push_next(
            state,
            spawned,
            success,
            stdout,
            stderr,
        ).0 is Finished,
{
}

/// Merging an empty layer changes nothing, and a layer merged over nothing
/// is itself.
pub proof fn law_merge_identity(m: Map<Seq<char>, YamlNode>)
    ensures
        merged(m, Map::empty()) == m,
        merged(Map::empty(), m) == m,
{
    assert(merged(m, Map::empty()) =~= m);
    assert(merged(Map::empty(), m) =~= m);
}

/// A later layer wins: its value for a key replaces the earlier one unless
/// both are mappings, which are merged.
pub proof fn law_later_layer_wins(base: Map<Seq<char>, YamlNode>, overlay: Map<Seq<char>, YamlNode>, k: Seq<char>)
    requires
        overlay.contains_key(k),
        !(overlay[k] is Mapping && base.contains_key(k) && base[k] is Mapping),
    ensures
        merged(base, overlay)[k] == overlay[k],
{
}


proof fn lemma_contains_cons(line: Seq<char>, b: Seq<Seq<char>>, x: Seq<char>)
    ensures
        (seq![line] + b).contains(x) <==> (line == x || b.contains(x)),
{
    if b.contains(x) {
        let j = choose|j: int| 0 <= j < b.len() && b[j] == x;
        assert((seq![line] + b)[j + 1] == x);
    }
    if line == x {
        assert((seq![line] + b)[0] == x);
    }
    if (seq![line] + b).contains(x) {
        let i = choose|i: int| 0 <= i < (seq![line] + b).len() && (seq![line] + b)[i] == x;
        if i > 0 {
            assert(b[i - 1] == x);
        }
    }
}

proof fn lemma_core_within_all(lines: Seq<Seq<char>>, section: PackageSection, x: Seq<char>)
    ensures
        packages_of_lines(lines, section, false).contains(x) ==> packages_of_lines(lines, section, true).contains(x),
    decreases lines.len(),
{
    if lines.len() > 0 {
        let line = trim(lines[0]);
        let rest = lines.drop_first();
        lemma_core_within_all(rest, section, x);
        lemma_core_within_all(rest, PackageSection::Core, x);
        lemma_core_within_all(rest, PackageSection::Extras, x);
        if !(line.len() == 0 || line[0] == '#') && line != seq!['[', 'c', 'o', 'r', 'e', ']'] && line
            != seq!['[', 'e', 'x', 't', 'r', 'a', 's', ']'] {
            lemma_contains_cons(line, packages_of_lines(rest, section, true), x);
            lemma_contains_cons(line, packages_of_lines(rest, section, false), x);
        }
    }
}

/// Every package installed without `--extras` is installed with it too.
pub proof fn law_core_within_extras(content: Seq<char>, x: Seq<char>)
    ensures
        packages_of(content, false).contains(x) ==> packages_of(content, true).contains(x),
{
    lemma_core_within_all(crate::text::lines(content), PackageSection::Legacy, x);
}

/// What is read back of a store is what was written to it: after a new
/// command is added, looking it up gives it; after a command is removed,
/// looking it up gives nothing; other names are not touched.
pub proof fn law_store_read_after_write(
    m: Map<Seq<char>, CommandEntry>,
    name: Seq<char>,
    e: CommandEntry,
    other: Seq<char>,
)
    ensures
        m.insert(name, e).contains_key(name) && m.insert(name, e)[name] == e,
        !m.remove(name).contains_key(name),
        other != name ==> m.insert(name, e).contains_key(other) == m.contains_key(other) && m.remove(
            name,
        ).contains_key(other) == m.contains_key(other),
        other != name && m.contains_key(other) ==> m.insert(name, e)[other] == m[other] && m.remove(
            name,
        )[other] == m[other],
{
}

/// `AX_CONFIG_DIR`, when set, decides the configuration directory whatever
/// the platform gives.
pub proof fn law_config_dir_override(
    dir: Seq<char>,
    windows: bool,
    data_dir: Option<Seq<char>>,
    config_dir: Option<Seq<char>>,
    home: Option<Seq<char>>,
)
    ensures
        config_dir_of(Some(dir), windows, data_dir, config_dir, home) == crate::paths::expand_home(dir, home),
{
}


proof fn lemma_contains_prefix(a: Seq<char>, b: Seq<char>, p: Seq<char>)
    requires
        contains(a, p),
    ensures
        contains(a + b, p),
{
    let i = choose|i: int| occurs_at(a, p, i);
    assert((a + b).subrange(i, i + p.len()) =~= a.subrange(i, i + p.len()));
    assert(occurs_at(a + b, p, i));
}

proof fn lemma_contains_self(p: Seq<char>)
    ensures
        contains(p, p),
{
    assert(p.subrange(0, p.len() as int) =~= p);
    assert(occurs_at(p, p, 0));
}

proof fn lemma_var_lines_contain(
    prefix: Seq<char>,
    mid: Seq<char>,
    suffix: Seq<char>,
    v: Seq<char>,
    n: Seq<char>,
    k: int,
    i: int,
)
    requires
        0 <= i < k,
    ensures
        contains(
            var_lines(prefix, mid, suffix, v, n, k),
            line(prefix, proxy_vars()[i], mid, value_for(i, v, n), suffix),
        ),
    decreases k,
{
    let p = line(prefix, proxy_vars()[i], mid, value_for(i, v, n), suffix);
    if i == k - 1 {
        lemma_contains_self(p);
        lemma_contains_append(var_lines(prefix, mid, suffix, v, n, k - 1), p, p);
    } else {
        lemma_var_lines_contain(prefix, mid, suffix, v, n, k - 1, i);
        lemma_contains_prefix(
            var_lines(prefix, mid, suffix, v, n, k - 1),
            line(prefix, proxy_vars()[k - 1], mid, value_for(k - 1, v, n), suffix),
            p,
        );
    }
}

proof fn lemma_spaced_vars_contain(k: int, i: int)
    requires
        0 <= i < k,
    ensures
        contains(spaced_vars(k), " "@ + proxy_vars()[i]),
    decreases k,
{
    let p = " "@ + proxy_vars()[i];
    if i == k - 1 {
        lemma_contains_self(p);
        lemma_contains_append(spaced_vars(k - 1), p, p);
        assert(spaced_vars(k - 1) + p =~= spaced_vars(k));
    } else {
        lemma_spaced_vars_contain(k - 1, i);
        lemma_contains_prefix(spaced_vars(k - 1), " "@ + proxy_vars()[k - 1], p);
        assert(spaced_vars(k - 1) + (" "@ + proxy_vars()[k - 1]) =~= spaced_vars(k));
    }
}

#[verifier::spinoff_prover]
#[verifier::rlimit(30)]
proof fn lemma_env_items_contain(k: int, i: int)
    requires
        0 <= i < k,
    ensures
        contains(env_items(k), "Env:"@ + proxy_vars()[i]),
    decreases k,
{
    let p = "Env:"@ + proxy_vars()[i];
    lemma_contains_self(p);
    if k == 1 {
    } else if i == k - 1 {
        lemma_contains_append(env_items(k - 1) + ","@, p, p);
        assert((env_items(k - 1) + ","@) + p =~= env_items(k));
    } else {
        lemma_env_items_contain(k - 1, i);
        lemma_contains_prefix(env_items(k - 1), ","@ + ("Env:"@ + proxy_vars()[k - 1]), p);
        assert(env_items(k - 1) + (","@ + ("Env:"@ + proxy_vars()[k - 1])) =~= env_items(k));
    }
}

/// The line that sets a variable in a shell's `on` script.
pub open spec fn set_line(shell: ShellType, name: Seq<char>, value: Seq<char>) -> Seq<char> {
    match shell {
        ShellType::PowerShell => line("$env:"@, name, " = \""@, value, "\"\n"@),
        ShellType::Cmd => line("set "@, name, "="@, value, "\n"@),
        ShellType::Bash => line("export "@, name, "="@, value, "\n"@),
    }
}

/// The value a shell's `on` script gives the `i`th variable: the address or
/// the exempted hosts, quoted as the shell needs.
pub open spec fn on_value(shell: ShellType, i: int, addr: Seq<char>, no_proxy: Seq<char>) -> Seq<char> {
    match shell {
        ShellType::PowerShell => value_for(i, ps_quoted(addr), ps_quoted(no_proxy)),
        ShellType::Cmd => value_for(i, addr, no_proxy),
        ShellType::Bash => value_for(i, bash_quoted(addr), bash_quoted(no_proxy)),
    }
}

/// How a shell's `off` script names a variable it clears.
pub open spec fn clear_mark(shell: ShellType, name: Seq<char>) -> Seq<char> {
    match shell {
        ShellType::PowerShell => "Env:"@ + name,
        ShellType::Cmd => "set "@ + name + "="@ + "\n"@,
        ShellType::Bash => " "@ + name,
    }
}

/// `ax proxy off` clears every variable that `ax proxy on` sets, in every
/// shell.
pub proof fn law_off_clears_what_on_sets(shell: ShellType, addr: Seq<char>, no_proxy: Seq<char>, i: int)
    requires
        0 <= i < 8,
    ensures
        contains(on_script(shell, addr, no_proxy), set_line(shell, proxy_vars()[i], on_value(shell, i, addr, no_proxy))),
        contains(off_script(shell), clear_mark(shell, proxy_vars()[i])),
{
    let name = proxy_vars()[i];
    match shell {
        ShellType::PowerShell => {
            let (a, n) = (ps_quoted(addr), ps_quoted(no_proxy));
            lemma_var_lines_contain("$env:"@, " = \""@, "\"\n"@, a, n, 8, i);
            lemma_contains_prefix(
                assignments("$env:"@, " = \""@, "\"\n"@, a, n),
                "Write-Host \"🟢 Proxy ON: "@ + a + "\"\n"@,
                set_line(shell, name, on_value(shell, i, addr, no_proxy)),
            );
            assert(on_script(shell, addr, no_proxy) =~= assignments("$env:"@, " = \""@, "\"\n"@, a, n) + (
            "Write-Host \"🟢 Proxy ON: "@ + a + "\"\n"@));
            lemma_env_items_contain(8, i);
            lemma_contains_append("Remove-Item "@, env_items(8), clear_mark(shell, name));
            lemma_contains_prefix(
                "Remove-Item "@ + env_items(8),
                " -ErrorAction SilentlyContinue\nWrite-Host \"🔴 Proxy OFF\"\n"@,
                clear_mark(shell, name),
            );
        },
        ShellType::Cmd => {
            lemma_var_lines_contain("set "@, "="@, "\n"@, addr, no_proxy, 8, i);
            lemma_contains_prefix(
                assignments("set "@, "="@, "\n"@, addr, no_proxy),
                "echo 🟢 Proxy ON: "@ + addr + "\n"@,
                set_line(shell, name, on_value(shell, i, addr, no_proxy)),
            );
            assert(on_script(shell, addr, no_proxy) =~= assignments("set "@, "="@, "\n"@, addr, no_proxy) + (
            "echo 🟢 Proxy ON: "@ + addr + "\n"@));
            let e = Seq::<char>::empty();
            lemma_var_lines_contain("set "@, "="@, "\n"@, e, e, 8, i);
            assert(line("set "@, name, "="@, value_for(i, e, e), "\n"@) =~= clear_mark(shell, name));
            lemma_contains_prefix(
                var_lines("set "@, "="@, "\n"@, e, e, 8),
                "echo 🔴 Proxy OFF\n"@,
                clear_mark(shell, name),
            );
        },
        ShellType::Bash => {
            let (a, n) = (bash_quoted(addr), bash_quoted(no_proxy));
            lemma_var_lines_contain("export "@, "="@, "\n"@, a, n, 8, i);
            lemma_contains_prefix(
                assignments("export "@, "="@, "\n"@, a, n),
                "echo \"🟢 Proxy ON: "@ + addr + "\"\n"@,
                set_line(shell, name, on_value(shell, i, addr, no_proxy)),
            );
            assert(on_script(shell, addr, no_proxy) =~= assignments("export "@, "="@, "\n"@, a, n) + (
            "echo \"🟢 Proxy ON: "@ + addr + "\"\n"@));
            lemma_spaced_vars_contain(8, i);
            lemma_contains_append("unset"@, spaced_vars(8), clear_mark(shell, name));
            lemma_contains_prefix(
                "unset"@ + spaced_vars(8),
                "\necho \"🔴 Proxy OFF\"\n"@,
                clear_mark(shell, name),
            );
        },
    }
}


/// Removing variables leaves none of the given names, and keeps every other
/// variable as it was.
pub proof fn law_removed_names_are_gone(m: Map<Seq<char>, EnvEntry>, names: Seq<Seq<char>>, k: Seq<char>)
    ensures
        names.contains(k) ==> !removals(m, names).0.contains_key(k),
        !names.contains(k) ==> (removals(m, names).0.contains_key(k) == m.contains_key(k) && (m.contains_key(k)
            ==> removals(m, names).0[k] == m[k])),
    decreases names.len(),
{
    if names.len() > 0 {
        let rest = names.drop_first();
        law_removed_names_are_gone(m.remove(names[0]), rest, k);
        if names.contains(k) && k != names[0] {
            let i = choose|i: int| 0 <= i < names.len() && names[i] == k;
            assert(rest[i - 1] == k);
        }
        if !names.contains(k) {
            assert forall|i: int| 0 <= i < rest.len() implies rest[i] != k by {
                assert(rest[i] == names[i + 1]);
            }
            assert(names[0] != k);
        }
        if k == names[0] {
            lemma_removed_stay_gone(m.remove(names[0]), rest, k);
        }
    }
}

proof fn lemma_removed_stay_gone(m: Map<Seq<char>, EnvEntry>, names: Seq<Seq<char>>, k: Seq<char>)
    requires
        !m.contains_key(k),
    ensures
        !removals(m, names).0.contains_key(k),
    decreases names.len(),
{
    if names.len() > 0 {
        lemma_removed_stay_gone(m.remove(names[0]), names.drop_first(), k);
    }
}

/// Every package a list yields is a real name: not empty, not a comment, not
/// a section header.
pub proof fn law_packages_are_names(content: Seq<char>, include_extras: bool, x: Seq<char>)
    ensures
        packages_of(content, include_extras).contains(x) ==> x.len() > 0 && x[0] != '#' && x != seq![
            '[',
            'c',
            'o',
            'r',
            'e',
            ']',
        ] && x != seq!['[', 'e', 'x', 't', 'r', 'a', 's', ']'],
{
    lemma_packages_are_names(crate::text::lines(content), PackageSection::Legacy, include_extras, x);
}

proof fn lemma_packages_are_names(lines: Seq<Seq<char>>, section: PackageSection, include_extras: bool, x: Seq<char>)
    ensures
        packages_of_lines(lines, section, include_extras).contains(x) ==> x.len() > 0 && x[0] != '#' && x
            != seq!['[', 'c', 'o', 'r', 'e', ']'] && x != seq!['[', 'e', 'x', 't', 'r', 'a', 's', ']'],
    decreases lines.len(),
{
    if lines.len() > 0 {
        let line = trim(lines[0]);
        let rest = lines.drop_first();
        lemma_packages_are_names(rest, section, include_extras, x);
        lemma_packages_are_names(rest, PackageSection::Core, include_extras, x);
        lemma_packages_are_names(rest, PackageSection::Extras, include_extras, x);
        lemma_contains_cons(line, packages_of_lines(rest, section, include_extras), x);
    }
}

/// A tag that some variable carries is counted at least once.
pub proof fn law_tag_counts_positive(s: Seq<(Seq<char>, EnvEntry)>, t: Seq<char>)
    requires
        tag_used(s, t),
    ensures
        tagged(s, t).len() >= 1,
{
    let i = choose|i: int| 0 <= i < s.len() && #[trigger] has_tag(s[i].1, t);
    let pred = |p: (Seq<char>, EnvEntry)| has_tag(p.1, t);
    s.lemma_filter_contains(pred, i);
    assert(tagged(s, t).contains(s[i]));
}


proof fn lemma_split_pieces_lack_separator(s: Seq<char>, c: char, j: int)
    requires
        0 <= j < split_on(s, c).len(),
    ensures
        !has_char(split_on(s, c)[j], c),
    decreases s.len(),
{
    if s.len() > 0 {
        let p = split_on(s.drop_last(), c);
        lemma_split_on_len(s.drop_last(), c);
        if s.last() == c {
            if j < p.len() {
                lemma_split_pieces_lack_separator(s.drop_last(), c, j);
            }
        } else {
            if j == p.len() - 1 {
                lemma_split_pieces_lack_separator(s.drop_last(), c, j);
                let q = p.last().push(s.last());
                assert forall|i: int| 0 <= i < q.len() implies q[i] != c by {
                    if i < q.len() - 1 {
                        assert(q[i] == p.last()[i]);
                    }
                }
            } else {
                lemma_split_pieces_lack_separator(s.drop_last(), c, j);
            }
        }
    }
}

proof fn lemma_split_on_len(s: Seq<char>, c: char)
    ensures
        split_on(s, c).len() >= 1,
    decreases s.len(),
{
    if s.len() > 0 {
        lemma_split_on_len(s.drop_last(), c);
    }
}

proof fn lemma_trim_within(p: Seq<char>, c: char)
    ensures
        has_char(trim(p), c) ==> has_char(p, c),
        trim(p).len() > 0 ==> !char_is_whitespace(trim(p)[0]) && !char_is_whitespace(trim(p).last()),
{
    lemma_trim_start_within(p, c);
    lemma_trim_end_within(trim_start(p), c);
}

proof fn lemma_trim_start_within(p: Seq<char>, c: char)
    ensures
        has_char(trim_start(p), c) ==> has_char(p, c),
        trim_start(p).len() > 0 ==> !char_is_whitespace(trim_start(p)[0]),
    decreases p.len(),
{
    if p.len() > 0 && char_is_whitespace(p[0]) {
        lemma_trim_start_within(p.drop_first(), c);
        if has_char(p.drop_first(), c) {
            let i = choose|i: int| 0 <= i < p.drop_first().len() && p.drop_first()[i] == c;
            assert(p[i + 1] == c);
        }
    }
}

proof fn lemma_trim_end_within(p: Seq<char>, c: char)
    ensures
        has_char(trim_end(p), c) ==> has_char(p, c),
        trim_end(p).len() > 0 ==> !char_is_whitespace(trim_end(p).last()),
        trim_end(p).len() > 0 && p.len() > 0 ==> trim_end(p)[0] == p[0],
    decreases p.len(),
{
    if p.len() > 0 && char_is_whitespace(p.last()) {
        lemma_trim_end_within(p.drop_last(), c);
        if has_char(p.drop_last(), c) {
            let i = choose|i: int| 0 <= i < p.drop_last().len() && p.drop_last()[i] == c;
            assert(p[i] == c);
        }
    }
}

/// The tags read from `-t` are never empty, hold no comma, and neither begin
/// nor end with whitespace.
pub proof fn law_tags_are_clean(s: Seq<char>, t: Seq<char>)
    requires
        tags_of(s).contains(t),
    ensures
        t.len() > 0,
        !has_char(t, ','),
        !char_is_whitespace(t[0]),
        !char_is_whitespace(t.last()),
{
    let pieces = split_on(s, ',');
    let trimmed = pieces.map_values(|p: Seq<char>| trim(p));
    let pred = |p: Seq<char>| p.len() > 0;
    let i = choose|i: int| 0 <= i < tags_of(s).len() && tags_of(s)[i] == t;
    trimmed.lemma_filter_pred(pred, i);
    trimmed.lemma_filter_contains_rev(pred, t);
    let j = choose|j: int| 0 <= j < trimmed.len() && trimmed[j] == t;
    assert(t == trim(pieces[j]));
    lemma_split_pieces_lack_separator(s, ',', j);
    lemma_trim_within(pieces[j], ',');
    lemma_trim_start_within(pieces[j], ',');
    lemma_trim_end_within(trim_start(pieces[j]), ',');
}

/// A push is reported as pushed only as the outcome of a `git push` that
/// succeeded; and once the upstream has been checked, the next command is
/// always a `git push`: of `HEAD` when an upstream exists, otherwise of the
/// current branch, setting it as the upstream.
pub proof fn law_push_reported_only_after_git_push(
    state: PushStateView,
    spawned: bool,
    success: bool,
    stdout: Seq<char>,
    stderr: Seq<char>,
)
    requires
        !(state is Finished),
    ensures
        push_next(state, spawned, success, stdout, stderr).1 == GitStepView::Done(
            Ok::<Seq<char>, Seq<char>>("☁️  已推送到远程仓库\n"@),
        ) ==> state is Pushing && success,
        state matches PushStateView::CheckingUpstream { branch } ==> {
            let (next, step) = push_next(state, spawned, success, stdout, stderr);
            &&& next is Pushing
            &&& step matches GitStepView::Run(a) && a.len() >= 3 && a[0] == "push"@ && a.contains("origin"@)
                && a.last() == (if spawned && success {
                "HEAD"@
            } else {
                branch
            })
        },
{
    reveal_strlit("☁️  已推送到远程仓库\n");
    reveal_strlit("⏭️  没有变更需要推送\n");
    reveal_strlit("⚠️  推送失败，请先设置远程仓库：\n   ax config remote <url>\n");
    reveal_strlit("⚠️  推送失败: ");
    let pushed = "☁️  已推送到远程仓库\n"@;
    match state {
        PushStateView::CheckingUnpushed { has_changes } => {
            assert("⏭️  没有变更需要推送\n"@[0] != pushed[0]);
        },
        PushStateView::CheckingUpstream { branch } => {
            let a = if spawned && success {
                seq!["push"@, "origin"@, "HEAD"@]
            } else {
                seq!["push"@, "-u"@, "origin"@, branch]
            };
            if spawned && success {
                assert(a[1] == "origin"@);
            } else {
                assert(a[2] == "origin"@);
            }
        },
        PushStateView::Pushing => {
            if !success {
                assert("⚠️  推送失败，请先设置远程仓库：\n   ax config remote <url>\n"@[0] != pushed[0]);
                assert(("⚠️  推送失败: "@ + stderr + "\n"@)[0] == "⚠️  推送失败: "@[0]);
                assert("⚠️  推送失败: "@[0] != pushed[0]);
            }
        },
        _ => {},
    }
}

/// Pausing or resuming by tag (without `--all`) changes only the variables
/// that carry the tag: each of them ends in the target state, and every other
/// variable keeps its state.
pub proof fn law_tag_selects_only_tagged(
    before: Seq<(Seq<char>, EnvEntry)>,
    after: Seq<(Seq<char>, EnvEntry)>,
    names: Seq<Seq<char>>,
    t: Seq<char>,
    pause: bool,
)
    requires
        pause_applied(before, after, names, Some(t), false, pause),
    ensures
        forall|i: int|
            0 <= i < before.len() ==> (if has_tag(before[i].1, t) {
                #[trigger] after[i].1.paused == pause
            } else {
                after[i].1.paused == before[i].1.paused
            }),
{
    assert forall|i: int| 0 <= i < before.len() implies (if has_tag(before[i].1, t) {
        #[trigger] after[i].1.paused == pause
    } else {
        after[i].1.paused == before[i].1.paused
    }) by {
        let (k, o) = before[i];
        assert(before[i] == (k, o));
    }
}

/// Every export line of the load script for a POSIX shell assigns, once the
/// shell reads it, exactly the stored value: the script of an active variable
/// starts with `export NAME=` and a word that the shell reads back as the
/// value.
pub proof fn law_bash_load_assigns_the_value(s: Seq<(Seq<char>, EnvEntry)>)
    requires
        s.len() > 0,
        !s[0].1.paused,
    ensures
        exists|w: Seq<char>|
            load_script(s, ShellType::Bash) == "export "@ + s[0].0 + "="@ + w + "\n"@ + load_script(
                s.drop_first(),
                ShellType::Bash,
            ) && #[trigger] sh_read(w, false) == Some(s[0].1.value@),
{
    let w = bash_quoted(s[0].1.value@);
    lemma_bash_quoted_reads_back(s[0].1.value@);
    assert(load_script(s, ShellType::Bash) == "export "@ + s[0].0 + "="@ + w + "\n"@ + load_script(
        s.drop_first(),
        ShellType::Bash,
    ));
    assert(sh_read(w, false) == Some(s[0].1.value@));
}

/// The header of a package list section.
pub open spec fn is_section_header(l: Seq<char>) -> bool {
    l == seq!['[', 'c', 'o', 'r', 'e', ']'] || l == seq!['[', 'e', 'x', 't', 'r', 'a', 's', ']']
}

proof fn lemma_unsectioned_line_kept(ls: Seq<Seq<char>>, include_extras: bool, i: int)
    requires
        0 <= i < ls.len(),
        forall|j: int| 0 <= j < i ==> !is_section_header(#[trigger] trim(ls[j])),
        trim(ls[i]).len() > 0,
        trim(ls[i])[0] != '#',
        !is_section_header(trim(ls[i])),
    ensures
        packages_of_lines(ls, PackageSection::Legacy, include_extras).contains(trim(ls[i])),
    decreases i,
{
    let rest = ls.drop_first();
    let x = trim(ls[i]);
    if i == 0 {
        assert(packages_of_lines(ls, PackageSection::Legacy, include_extras)[0] == x);
    } else {
        assert(!is_section_header(trim(ls[0])));
        assert forall|j: int| 0 <= j < i - 1 implies !is_section_header(#[trigger] trim(rest[j])) by {
            assert(rest[j] == ls[j + 1]);
        }
        assert(rest[i - 1] == ls[i]);
        lemma_unsectioned_line_kept(rest, include_extras, i - 1);
        lemma_contains_cons(trim(ls[0]), packages_of_lines(rest, PackageSection::Legacy, include_extras), x);
    }
}

/// A package named before any section header counts, with or without
/// extras: every non-blank, non-comment line of a list that comes before any
/// `[core]` or `[extras]` header is one of the packages read from it.
pub proof fn law_unsectioned_packages_always_count(content: Seq<char>, include_extras: bool, i: int)
    requires
        0 <= i < crate::text::lines(content).len(),
        forall|j: int|
            0 <= j < i ==> !is_section_header(#[trigger] trim(crate::text::lines(content)[j])),
        trim(crate::text::lines(content)[i]).len() > 0,
        trim(crate::text::lines(content)[i])[0] != '#',
        !is_section_header(trim(crate::text::lines(content)[i])),
    ensures
        packages_of(content, include_extras).contains(trim(crate::text::lines(content)[i])),
{
    lemma_unsectioned_line_kept(crate::text::lines(content), include_extras, i);
}

/// Every connection plan passes the saved port to ssh: its arguments hold
/// `-p` followed by the port in decimal, and end with `user@host`, whatever
/// the authentication and whether sshpass is there.
pub proof fn law_connect_uses_saved_port(e: SshHostEntry, has_sshpass: bool, home: Option<Seq<char>>)
    ensures
        exists|k: int|
            0 <= k && k + 1 < connect_args(e, has_sshpass, home).len() && #[trigger] connect_args(
                e,
                has_sshpass,
                home,
            )[k] == "-p"@ && connect_args(e, has_sshpass, home)[k + 1] == decimal(e.port as nat),
        connect_args(e, has_sshpass, home).last() == e.user@ + "@"@ + e.host@,
{
    let a = connect_args(e, has_sshpass, home);
    if e.auth == SshAuth::Password && has_sshpass {
        assert(a[2] == "-p"@);
    } else {
        assert(a[0] == "-p"@);
    }
}

/// Pausing or resuming with `--all` leaves every variable in the target
/// state; by names (no tag, no `--all`), exactly the named variables end in
/// the target state and every other one keeps its state. Names and texts never
/// change.
pub proof fn law_pause_selection(
    before: Seq<(Seq<char>, EnvEntry)>,
    after: Seq<(Seq<char>, EnvEntry)>,
    names: Seq<Seq<char>>,
    tag: Option<Seq<char>>,
    all: bool,
    pause: bool,
)
    requires
        pause_applied(before, after, names, tag, all, pause),
    ensures
        after.len() == before.len(),
        forall|i: int|
            #![trigger after[i]]
            0 <= i < before.len() ==> after[i].0 == before[i].0 && same_text(after[i].1, before[i].1),
        all ==> forall|i: int| #![trigger after[i]] 0 <= i < before.len() ==> after[i].1.paused == pause,
        !all && tag is None ==> forall|i: int|
            #![trigger after[i]]
            0 <= i < before.len() ==> (if names.contains(before[i].0) {
                after[i].1.paused == pause
            } else {
                after[i].1.paused == before[i].1.paused
            }),
{
    assert forall|i: int| #![trigger after[i]] 0 <= i < before.len() implies after[i].0 == before[i].0 && same_text(
        after[i].1,
        before[i].1,
    ) && (all ==> after[i].1.paused == pause) && (!all && tag is None ==> (if names.contains(before[i].0) {
        after[i].1.paused == pause
    } else {
        after[i].1.paused == before[i].1.paused
    })) by {
        let (k, o) = before[i];
        assert(before[i] == (k, o));
    }
}

} // verus!
