//! The tables that the listing commands print: environment variables, their
//! tags, and the custom commands.
use vstd::prelude::*;

use crate::config::{opt_view, CommandEntry, CommandMap, EnvEntry, EnvMap};
use crate::strmap::StrMap;
use crate::env::{entry_has_tag, has_tag};
use crate::text::{
    byte_len, byte_len_of, byte_prefix, byte_prefix_chars, chars_of, decimal, has_boundary,
    join_strings, join_with, pad_right, push_padded, push_str, str_eq, string_of_range,
    to_decimal, views,
};

verus! {

/// The rule printed above and below the variable table.
pub open spec fn env_rule() -> Seq<char> {
    "─────────────────────────────────────────────────────────\n"@
}

/// Whether `ax env show` lists an entry: with a name, only that variable;
/// with a tag, the variables that carry it; otherwise the active variables,
/// and the paused ones too with `--all`.
pub open spec fn shown(p: (Seq<char>, EnvEntry), name: Option<Seq<char>>, tag: Option<Seq<char>>, all: bool) -> bool {
    match name {
        Some(n) => p.0 == n,
        None => match tag {
            Some(t) => has_tag(p.1, t),
            None => all || !p.1.paused,
        },
    }
}

/// The entries that `ax env show` lists, in name order.
pub open spec fn show_selection(
    s: Seq<(Seq<char>, EnvEntry)>,
    name: Option<Seq<char>>,
    tag: Option<Seq<char>>,
    all: bool,
) -> Seq<(Seq<char>, EnvEntry)> {
    s.filter(|p: (Seq<char>, EnvEntry)| shown(p, name, tag, all))
}

/// The longest name of the entries, in bytes.
pub open spec fn max_name_bytes<V>(f: Seq<(Seq<char>, V)>) -> nat
    decreases f.len(),
{
    if f.len() == 0 {
        0
    } else {
        let m = max_name_bytes(f.drop_last());
        let b = byte_len(f.last().0);
        if b > m {
            b
        } else {
            m
        }
    }
}

/// The longest value of the entries, in bytes.
pub open spec fn max_value_bytes(f: Seq<(Seq<char>, EnvEntry)>) -> nat
    decreases f.len(),
{
    if f.len() == 0 {
        0
    } else {
        let m = max_value_bytes(f.drop_last());
        let b = byte_len(f.last().1.value@);
        if b > m {
            b
        } else {
            m
        }
    }
}

/// The width of the name column: the longest name in bytes, at least 6.
pub open spec fn name_width(f: Seq<(Seq<char>, EnvEntry)>) -> nat {
    if max_name_bytes(f) > 6 {
        max_name_bytes(f)
    } else {
        6
    }
}

/// The width of the value column: the longest value in bytes, at most 50.
pub open spec fn value_width(f: Seq<(Seq<char>, EnvEntry)>) -> nat {
    if max_value_bytes(f) < 50 {
        max_value_bytes(f)
    } else {
        50
    }
}

/// A value as the table shows it: one longer than 50 bytes is cut to its
/// first 47 bytes and `...`.
pub open spec fn value_display(v: Seq<char>) -> Seq<char> {
    if byte_len(v) > 50 {
        byte_prefix(v, 47) + "..."@
    } else {
        v
    }
}

/// The status mark of a row.
pub open spec fn status_mark(paused: bool) -> Seq<char> {
    if paused {
        "⏸️ "@
    } else {
        "✅ "@
    }
}

/// The tags of a row: comma-separated in brackets, when there are any.
pub open spec fn tags_part(tags: Seq<Seq<char>>) -> Seq<char> {
    if tags.len() == 0 {
        Seq::empty()
    } else {
        " ["@ + join_with(tags, ","@) + "]"@
    }
}

/// The description of a row after `#`, when there is one.
pub open spec fn desc_part(desc: Seq<char>) -> Seq<char> {
    if desc.len() == 0 {
        Seq::empty()
    } else {
        "  # "@ + desc
    }
}

/// One row of the variable table.
pub open spec fn show_row(name: Seq<char>, e: EnvEntry, nw: nat, vw: nat) -> Seq<char> {
    "  "@ + status_mark(e.paused) + pad_right(name, nw) + " = "@ + pad_right(value_display(e.value@), vw)
        + tags_part(views(e.tags@)) + desc_part(e.desc@) + "\n"@
}

/// The rows of the variable table, in order.
pub open spec fn show_rows(f: Seq<(Seq<char>, EnvEntry)>, nw: nat, vw: nat) -> Seq<char>
    decreases f.len(),
{
    if f.len() == 0 {
        Seq::empty()
    } else {
        show_rows(f.drop_last(), nw, vw) + show_row(f.last().0, f.last().1, nw, vw)
    }
}

/// What `ax env show` prints for the listed entries.
pub open spec fn show_text(f: Seq<(Seq<char>, EnvEntry)>) -> Seq<char> {
    if f.len() == 0 {
        "📋 暂无环境变量\n"@
    } else {
        "📋 环境变量列表：\n"@ + env_rule() + show_rows(f, name_width(f), value_width(f)) + env_rule()
            + "  共 "@ + decimal(f.len()) + " 个变量\n"@
    }
}

/// An entry that the table can show: its name and value fit in memory, and
/// a value longer than 50 bytes has a character boundary at byte 47.
pub open spec fn showable(p: (Seq<char>, EnvEntry)) -> bool {
    &&& byte_len(p.0) <= usize::MAX
    &&& byte_len(p.1.value@) <= usize::MAX
    &&& byte_len(p.1.value@) > 50 ==> has_boundary(p.1.value@, 47)
}

/// Whether `ax env show` lists the entry.
pub fn is_shown(key: &str, e: &EnvEntry, name: Option<&str>, tag: Option<&str>, all: bool) -> (r: bool)
    ensures
        r == shown((key@, *e), opt_view(name), opt_view(tag), all),
{
    match name {
        Some(n) => str_eq(key, n),
        None => match tag {
            Some(t) => entry_has_tag(e, t),
            None => all || !e.paused,
        },
    }
}

proof fn lemma_filter_step<A>(s: Seq<A>, i: int, pred: spec_fn(A) -> bool)
    requires
        0 <= i < s.len(),
    ensures
        s.take(i + 1).filter(pred) == (if pred(s[i]) {
            s.take(i).filter(pred).push(s[i])
        } else {
            s.take(i).filter(pred)
        }),
{
    reveal(Seq::filter);
    assert(s.take(i + 1).drop_last() =~= s.take(i));
    assert(s.take(i + 1).last() == s[i]);
}

/// A value as the table shows it.
fn value_cell(value: &str) -> (r: String)
    requires
        byte_len(value@) <= usize::MAX,
        byte_len(value@) > 50 ==> has_boundary(value@, 47),
    ensures
        r@ == value_display(value@),
{
    let vb = byte_len_of(value);
    if vb > 50 {
        let v = chars_of(value);
        let k = match byte_prefix_chars(&v, 47) {
            Some(k) => k,
            None => {
                proof {
                    assert(false);
                }
                0
            },
        };
        let mut d = string_of_range(&v, 0, k);
        assert(v@.subrange(0, k as int) =~= v@.take(k as int));
        push_str(&mut d, "...");
        d
    } else {
        value.to_owned()
    }
}

/// The tags of a row.
fn tags_cell(tags: &Vec<String>) -> (r: String)
    ensures
        r@ == tags_part(views(tags@)),
{
    if tags.len() > 0 {
        let mut out = " [".to_owned();
        let j = join_strings(tags, ",");
        push_str(&mut out, j.as_str());
        push_str(&mut out, "]");
        out
    } else {
        assert(views(tags@).len() == 0);
        String::new()
    }
}

/// The description of a row.
fn desc_cell(desc: &str) -> (r: String)
    ensures
        r@ == desc_part(desc@),
{
    if desc.is_empty() {
        String::new()
    } else {
        let mut out = "  # ".to_owned();
        push_str(&mut out, desc);
        out
    }
}

/// Appends one row of the variable table.
fn push_show_row(out: &mut String, name: &str, e: &EnvEntry, nw: usize, vw: usize)
    requires
        showable((name@, *e)),
    ensures
        final(out)@ == old(out)@ + show_row(name@, *e, nw as nat, vw as nat),
{
    let value = value_cell(e.value.as_str());
    let tags = tags_cell(&e.tags);
    let desc = desc_cell(e.desc.as_str());
    push_str(out, "  ");
    if e.paused {
        push_str(out, "⏸️ ");
    } else {
        push_str(out, "✅ ");
    }
    push_padded(out, name, nw);
    push_str(out, " = ");
    push_padded(out, value.as_str(), vw);
    push_str(out, tags.as_str());
    push_str(out, desc.as_str());
    push_str(out, "\n");
    assert(out@ =~= old(out)@ + show_row(name@, *e, nw as nat, vw as nat));
}

/// What `ax env show` prints: the listed variables (see `shown`) in a table
/// whose name column is as wide as the longest name in bytes (at least 6)
/// and whose value column is as wide as the longest value in bytes (at most
/// 50), then their number.
pub fn render_env_show(map: &EnvMap, name: Option<&str>, tag: Option<&str>, all: bool) -> (r: String)
    requires
        forall|i: int|
            0 <= i < map@.len() && shown(map@[i], opt_view(name), opt_view(tag), all) ==> #[trigger] showable(
                map@[i],
            ),
    ensures
        r@ == show_text(show_selection(map@, opt_view(name), opt_view(tag), all)),
{
    let ghost s = map@;
    let ghost nv = opt_view(name);
    let ghost tv = opt_view(tag);
    let ghost pred = |p: (Seq<char>, EnvEntry)| shown(p, nv, tv, all);
    let n = map.len();
    let mut i: usize = 0;
    let mut count: usize = 0;
    let mut mn: usize = 0;
    let mut mv: usize = 0;
    assert(s.take(0) =~= Seq::<(Seq<char>, EnvEntry)>::empty());
    while i < n
        invariant
            s == map@,
            n == s.len(),
            i <= n,
            nv == opt_view(name),
            tv == opt_view(tag),
            pred == (|p: (Seq<char>, EnvEntry)| shown(p, nv, tv, all)),
            forall|j: int| 0 <= j < s.len() && shown(s[j], nv, tv, all) ==> #[trigger] showable(s[j]),
            count == s.take(i as int).filter(pred).len(),
            count <= i,
            mn == max_name_bytes(s.take(i as int).filter(pred)),
            mv == max_value_bytes(s.take(i as int).filter(pred)),
        decreases n - i,
    {
        proof {
            lemma_filter_step(s, i as int, pred);
        }
        let key = map.key_at(i);
        let e = map.value_at(i);
        if is_shown(key.as_str(), e, name, tag, all) {
            assert(showable(s[i as int]));
            let ghost fi = s.take(i as int).filter(pred);
            assert(fi.push(s[i as int]).drop_last() =~= fi);
            let b = byte_len_of(key.as_str());
            if b > mn {
                mn = b;
            }
            let c = byte_len_of(e.value.as_str());
            if c > mv {
                mv = c;
            }
            count = count + 1;
        }
        i = i + 1;
    }
    assert(s.take(n as int) =~= s);
    let ghost f = s.filter(pred);
    assert(f == show_selection(map@, nv, tv, all));
    if count == 0 {
        return "📋 暂无环境变量\n".to_owned();
    }
    let nw: usize = if mn > 6 { mn } else { 6 };
    let vw: usize = if mv < 50 { mv } else { 50 };
    let mut out = "📋 环境变量列表：\n".to_owned();
    push_str(&mut out, "─────────────────────────────────────────────────────────\n");
    let ghost head = out@;
    i = 0;
    while i < n
        invariant
            s == map@,
            n == s.len(),
            i <= n,
            nv == opt_view(name),
            tv == opt_view(tag),
            pred == (|p: (Seq<char>, EnvEntry)| shown(p, nv, tv, all)),
            forall|j: int| 0 <= j < s.len() && shown(s[j], nv, tv, all) ==> #[trigger] showable(s[j]),
            out@ == head + show_rows(s.take(i as int).filter(pred), nw as nat, vw as nat),
        decreases n - i,
    {
        proof {
            lemma_filter_step(s, i as int, pred);
        }
        let key = map.key_at(i);
        let e = map.value_at(i);
        if is_shown(key.as_str(), e, name, tag, all) {
            assert(showable(s[i as int]));
            let ghost fi = s.take(i as int).filter(pred);
            push_show_row(&mut out, key.as_str(), e, nw, vw);
            assert(fi.push(s[i as int]).drop_last() =~= fi);
        }
        i = i + 1;
    }
    push_str(&mut out, "─────────────────────────────────────────────────────────\n");
    push_str(&mut out, "  共 ");
    let cs = to_decimal(count as u64);
    push_str(&mut out, cs.as_str());
    push_str(&mut out, " 个变量\n");
    assert(out@ =~= show_text(f));
    out
}


// ---------------------------------------------------------------------------
// Tags
// ---------------------------------------------------------------------------

/// A tag with how many variables carry it and how many of those are paused.
pub struct TagCount {
    pub tag: String,
    pub count: usize,
    pub paused: usize,
}

/// Some variable carries the tag `t`.
pub open spec fn tag_used(s: Seq<(Seq<char>, EnvEntry)>, t: Seq<char>) -> bool {
    exists|i: int| 0 <= i < s.len() && #[trigger] has_tag(s[i].1, t)
}

/// The variables that carry the tag `t`.
pub open spec fn tagged(s: Seq<(Seq<char>, EnvEntry)>, t: Seq<char>) -> Seq<(Seq<char>, EnvEntry)> {
    s.filter(|p: (Seq<char>, EnvEntry)| has_tag(p.1, t))
}

/// The paused variables that carry the tag `t`.
pub open spec fn tagged_paused(s: Seq<(Seq<char>, EnvEntry)>, t: Seq<char>) -> Seq<(Seq<char>, EnvEntry)> {
    s.filter(|p: (Seq<char>, EnvEntry)| has_tag(p.1, t) && p.1.paused)
}

/// How many variables carry `t`, and how many of those are paused.
fn count_tag(map: &EnvMap, t: &str) -> (r: (usize, usize))
    ensures
        r.0 == tagged(map@, t@).len(),
        r.1 == tagged_paused(map@, t@).len(),
{
    let ghost s = map@;
    let ghost p1 = |p: (Seq<char>, EnvEntry)| has_tag(p.1, t@);
    let ghost p2 = |p: (Seq<char>, EnvEntry)| has_tag(p.1, t@) && p.1.paused;
    let n = map.len();
    let mut c: usize = 0;
    let mut d: usize = 0;
    let mut i: usize = 0;
    assert(s.take(0) =~= Seq::<(Seq<char>, EnvEntry)>::empty());
    while i < n
        invariant
            s == map@,
            n == s.len(),
            i <= n,
            p1 == (|p: (Seq<char>, EnvEntry)| has_tag(p.1, t@)),
            p2 == (|p: (Seq<char>, EnvEntry)| has_tag(p.1, t@) && p.1.paused),
            c == s.take(i as int).filter(p1).len(),
            d == s.take(i as int).filter(p2).len(),
            c <= i,
            d <= i,
        decreases n - i,
    {
        proof {
            lemma_filter_step(s, i as int, p1);
            lemma_filter_step(s, i as int, p2);
        }
        let e = map.value_at(i);
        if entry_has_tag(e, t) {
            c = c + 1;
            if e.paused {
                d = d + 1;
            }
        }
        i = i + 1;
    }
    assert(s.take(n as int) =~= s);
    (c, d)
}

/// The tags of the variables, each once, in ascending order, with how many
/// variables carry each and how many of those are paused.
pub fn tag_summary(map: &EnvMap) -> (r: Vec<TagCount>)
    ensures
        forall|a: int, b: int|
            0 <= a < b < r@.len() ==> crate::strmap::key_lt(#[trigger] r@[a].tag@, #[trigger] r@[b].tag@),
        forall|t: Seq<char>|
            #![trigger tag_used(map@, t)]
            (exists|i: int| 0 <= i < r@.len() && #[trigger] r@[i].tag@ == t) <==> tag_used(map@, t),
        forall|i: int|
            0 <= i < r@.len() ==> (#[trigger] r@[i]).count == tagged(map@, r@[i].tag@).len()
                && r@[i].paused == tagged_paused(map@, r@[i].tag@).len(),
{
    let ghost s = map@;
    let mut set: StrMap<()> = StrMap::new();
    let n = map.len();
    let mut i: usize = 0;
    while i < n
        invariant
            s == map@,
            n == s.len(),
            i <= n,
            set.wf(),
            forall|t: Seq<char>|
                #![trigger set.map().contains_key(t)]
                set.map().contains_key(t) <==> exists|a: int| 0 <= a < i && #[trigger] has_tag(s[a].1, t),
        decreases n - i,
    {
        let e = map.value_at(i);
        let m = e.tags.len();
        let mut j: usize = 0;
        while j < m
            invariant
                s == map@,
                n == s.len(),
                i < n,
                *e == s[i as int].1,
                m == e.tags@.len(),
                j <= m,
                set.wf(),
                forall|t: Seq<char>|
                    #![trigger set.map().contains_key(t)]
                    set.map().contains_key(t) <==> ((exists|a: int| 0 <= a < i && #[trigger] has_tag(s[a].1, t))
                        || (exists|b: int| 0 <= b < j && #[trigger] e.tags@[b]@ == t)),
            decreases m - j,
        {
            set.insert(e.tags[j].clone(), ());
            proof {
                assert forall|t: Seq<char>|
                    #![trigger set.map().contains_key(t)]
                    set.map().contains_key(t) <==> ((exists|a: int| 0 <= a < i && #[trigger] has_tag(s[a].1, t))
                        || (exists|b: int| 0 <= b < j + 1 && #[trigger] e.tags@[b]@ == t)) by {
                    if t == e.tags@[j as int]@ {
                        assert(e.tags@[j as int]@ == t);
                    }
                }
            }
            j = j + 1;
        }
        proof {
            assert forall|t: Seq<char>|
                #![trigger set.map().contains_key(t)]
                set.map().contains_key(t) <==> exists|a: int| 0 <= a < i + 1 && #[trigger] has_tag(s[a].1, t) by {
                if exists|b: int| 0 <= b < m && #[trigger] e.tags@[b]@ == t {
                    let b = choose|b: int| 0 <= b < m && #[trigger] e.tags@[b]@ == t;
                    assert(views(e.tags@)[b] == t);
                    assert(has_tag(s[i as int].1, t));
                }
                if has_tag(s[i as int].1, t) {
                    let b = choose|b: int| 0 <= b < views(e.tags@).len() && views(e.tags@)[b] == t;
                    assert(e.tags@[b]@ == t);
                }
            }
        }
        i = i + 1;
    }
    let keys = set.keys();
    proof {
        crate::strmap::lemma_sorted_distinct(set@);
    }
    let mut r: Vec<TagCount> = Vec::new();
    let mut k: usize = 0;
    while k < keys.len()
        invariant
            s == map@,
            set.wf(),
            views(keys@) == set@.map_values(|e: (Seq<char>, ())| e.0),
            k <= keys@.len(),
            r@.len() == k,
            forall|a: int| 0 <= a < k ==> (#[trigger] r@[a]).tag@ == keys@[a]@ && r@[a].count == tagged(
                s,
                r@[a].tag@,
            ).len() && r@[a].paused == tagged_paused(s, r@[a].tag@).len(),
        decreases keys@.len() - k,
    {
        let (c, d) = count_tag(map, keys[k].as_str());
        r.push(TagCount { tag: keys[k].clone(), count: c, paused: d });
        k = k + 1;
    }
    proof {
        assert(views(keys@).len() == set@.len());
        assert forall|a: int, b: int| 0 <= a < b < r@.len() implies crate::strmap::key_lt(
            #[trigger] r@[a].tag@,
            #[trigger] r@[b].tag@,
        ) by {
            assert(views(keys@)[a] == set@[a].0);
            assert(views(keys@)[b] == set@[b].0);
        }
        assert forall|t: Seq<char>|
            #![trigger tag_used(map@, t)]
            (exists|i: int| 0 <= i < r@.len() && #[trigger] r@[i].tag@ == t) <==> tag_used(map@, t) by {
            crate::strmap::lemma_map_of_dom(set@, t);
            if exists|i: int| 0 <= i < r@.len() && #[trigger] r@[i].tag@ == t {
                let i = choose|i: int| 0 <= i < r@.len() && #[trigger] r@[i].tag@ == t;
                assert(views(keys@)[i] == set@[i].0);
                assert(crate::strmap::has_key(set@, t));
                assert(set.map().contains_key(t));
                let a = choose|a: int| 0 <= a < n && #[trigger] has_tag(s[a].1, t);
            }
            if tag_used(map@, t) {
                let a = choose|a: int| 0 <= a < s.len() && #[trigger] has_tag(s[a].1, t);
                assert(set.map().contains_key(t));
                let j = choose|j: int| 0 <= j < set@.len() && #[trigger] set@[j].0 == t;
                assert(views(keys@)[j] == set@[j].0);
                assert(r@[j].tag@ == t);
            }
        }
    }
    r
}

/// One line of the tag list: the tag padded to 20, the number of its
/// variables, and how many of them are paused when any are.
pub open spec fn tag_row(tag: Seq<char>, count: nat, paused: nat) -> Seq<char> {
    "  "@ + pad_right(tag, 20) + " "@ + decimal(count) + " 个变量"@ + (if paused > 0 {
        " ("@ + decimal(paused) + " 个暂停)"@
    } else {
        Seq::<char>::empty()
    }) + "\n"@
}

/// The lines of the tag list, in order.
pub open spec fn tag_rows(rows: Seq<TagCount>) -> Seq<char>
    decreases rows.len(),
{
    if rows.len() == 0 {
        Seq::empty()
    } else {
        tag_rows(rows.drop_last()) + tag_row(rows.last().tag@, rows.last().count as nat, rows.last().paused as nat)
    }
}

/// What `ax env tags` prints for a tag summary.
pub open spec fn tags_text(rows: Seq<TagCount>) -> Seq<char> {
    if rows.len() == 0 {
        "📋 暂无标签\n"@
    } else {
        "🏷️  标签列表：\n"@ + tag_rows(rows)
    }
}

/// Appends one line of the tag list.
fn push_tag_row(out: &mut String, row: &TagCount)
    ensures
        final(out)@ == old(out)@ + tag_row(row.tag@, row.count as nat, row.paused as nat),
{
    push_str(out, "  ");
    push_padded(out, row.tag.as_str(), 20);
    push_str(out, " ");
    let c = to_decimal(row.count as u64);
    push_str(out, c.as_str());
    push_str(out, " 个变量");
    if row.paused > 0 {
        push_str(out, " (");
        let d = to_decimal(row.paused as u64);
        push_str(out, d.as_str());
        push_str(out, " 个暂停)");
    }
    push_str(out, "\n");
    assert(out@ =~= old(out)@ + tag_row(row.tag@, row.count as nat, row.paused as nat));
}

/// The tag list as `ax env tags` prints it.
pub fn render_tag_summary(rows: &Vec<TagCount>) -> (r: String)
    ensures
        r@ == tags_text(rows@),
{
    if rows.len() == 0 {
        return "📋 暂无标签\n".to_owned();
    }
    let mut out = "🏷️  标签列表：\n".to_owned();
    let ghost head = out@;
    let mut i: usize = 0;
    while i < rows.len()
        invariant
            i <= rows@.len(),
            out@ == head + tag_rows(rows@.take(i as int)),
        decreases rows@.len() - i,
    {
        let row = &rows[i];
        let ghost before = out@;
        push_tag_row(&mut out, row);
        assert(rows@.take(i + 1).drop_last() =~= rows@.take(i as int));
        assert(out@ =~= before + tag_row(row.tag@, row.count as nat, row.paused as nat));
        i = i + 1;
    }
    assert(rows@.take(rows@.len() as int) =~= rows@);
    out
}

// ---------------------------------------------------------------------------
// Custom commands
// ---------------------------------------------------------------------------

/// The rule printed above and below the command table.
pub open spec fn command_rule() -> Seq<char> {
    "──────────────────────────────────────────\n"@
}

/// The longest description of the commands, in bytes.
pub open spec fn max_desc_bytes(f: Seq<(Seq<char>, CommandEntry)>) -> nat
    decreases f.len(),
{
    if f.len() == 0 {
        0
    } else {
        let m = max_desc_bytes(f.drop_last());
        let b = byte_len(f.last().1.desc@);
        if b > m {
            b
        } else {
            m
        }
    }
}

/// One row of the command table: name and description padded to their
/// columns, then the command after an arrow.
pub open spec fn command_row(name: Seq<char>, e: CommandEntry, nw: nat, dw: nat) -> Seq<char> {
    "  "@ + pad_right(name, nw) + "  "@ + pad_right(e.desc@, dw) + "  → "@ + e.cmd@ + "\n"@
}

/// The rows of the command table, in name order.
pub open spec fn command_rows(f: Seq<(Seq<char>, CommandEntry)>, nw: nat, dw: nat) -> Seq<char>
    decreases f.len(),
{
    if f.len() == 0 {
        Seq::empty()
    } else {
        command_rows(f.drop_last(), nw, dw) + command_row(f.last().0, f.last().1, nw, dw)
    }
}

/// At least 4.
pub open spec fn at_least_4(n: nat) -> nat {
    if n > 4 {
        n
    } else {
        4
    }
}

/// What `ax list` prints: a hint when there are no commands, otherwise the
/// commands in a table whose columns are as wide as the longest name and
/// description in bytes (at least 4).
pub open spec fn command_list_text(f: Seq<(Seq<char>, CommandEntry)>) -> Seq<char> {
    if f.len() == 0 {
        "📋 暂无自定义命令\n   使用 ax add <名称> <命令> [描述] 添加\n"@
    } else {
        "📋 自定义命令列表：\n"@ + command_rule() + command_rows(
            f,
            at_least_4(max_name_bytes(f)),
            at_least_4(max_desc_bytes(f)),
        ) + command_rule()
    }
}

/// The command table as `ax list` prints it.
pub fn render_command_list(map: &CommandMap) -> (r: String)
    requires
        forall|i: int|
            0 <= i < map@.len() ==> byte_len(#[trigger] map@[i].0) <= usize::MAX && byte_len(
                map@[i].1.desc@,
            ) <= usize::MAX,
    ensures
        r@ == command_list_text(map@),
{
    let ghost s = map@;
    let n = map.len();
    if n == 0 {
        return "📋 暂无自定义命令\n   使用 ax add <名称> <命令> [描述] 添加\n".to_owned();
    }
    let mut mn: usize = 0;
    let mut md: usize = 0;
    let mut i: usize = 0;
    assert(s.take(0) =~= Seq::<(Seq<char>, CommandEntry)>::empty());
    while i < n
        invariant
            s == map@,
            n == s.len(),
            i <= n,
            forall|j: int|
                0 <= j < s.len() ==> byte_len(#[trigger] s[j].0) <= usize::MAX && byte_len(s[j].1.desc@)
                    <= usize::MAX,
            mn == max_name_bytes(s.take(i as int)),
            md == max_desc_bytes(s.take(i as int)),
        decreases n - i,
    {
        assert(s.take(i + 1).drop_last() =~= s.take(i as int));
        assert(s.take(i + 1).last() == s[i as int]);
        let key = map.key_at(i);
        let e = map.value_at(i);
        let b = byte_len_of(key.as_str());
        if b > mn {
            mn = b;
        }
        let c = byte_len_of(e.desc.as_str());
        if c > md {
            md = c;
        }
        i = i + 1;
    }
    assert(s.take(n as int) =~= s);
    let nw: usize = if mn > 4 { mn } else { 4 };
    let dw: usize = if md > 4 { md } else { 4 };
    let mut out = "📋 自定义命令列表：\n".to_owned();
    push_str(&mut out, "──────────────────────────────────────────\n");
    let ghost head = out@;
    i = 0;
    while i < n
        invariant
            s == map@,
            n == s.len(),
            i <= n,
            out@ == head + command_rows(s.take(i as int), nw as nat, dw as nat),
        decreases n - i,
    {
        assert(s.take(i + 1).drop_last() =~= s.take(i as int));
        assert(s.take(i + 1).last() == s[i as int]);
        let key = map.key_at(i);
        let e = map.value_at(i);
        let ghost before = out@;
        push_str(&mut out, "  ");
        push_padded(&mut out, key.as_str(), nw);
        push_str(&mut out, "  ");
        push_padded(&mut out, e.desc.as_str(), dw);
        push_str(&mut out, "  → ");
        push_str(&mut out, e.cmd.as_str());
        push_str(&mut out, "\n");
        assert(out@ =~= before + command_row(key@, *e, nw as nat, dw as nat));
        i = i + 1;
    }
    push_str(&mut out, "──────────────────────────────────────────\n");
    assert(out@ =~= command_list_text(s));
    out
}


// ---------------------------------------------------------------------------
// The run menu
// ---------------------------------------------------------------------------

/// `s` preceded by spaces up to `width` characters (what `{:width}` gives a
/// number).
pub open spec fn pad_left(s: Seq<char>, width: nat) -> Seq<char> {
    if s.len() >= width {
        s
    } else {
        Seq::new((width - s.len()) as nat, |i: int| ' ') + s
    }
}

/// One line of the run menu: its number right-aligned to 3, the name padded
/// to 20, and the description (`无描述` when there is none).
pub open spec fn menu_row(number: nat, name: Seq<char>, e: CommandEntry) -> Seq<char> {
    "  "@ + pad_left(decimal(number), 3) + ") "@ + pad_right(name, 20) + " "@ + (if e.desc@.len() == 0 {
        "无描述"@
    } else {
        e.desc@
    }) + "\n"@
}

/// The lines of the run menu for the entries `f`, numbered from `first`.
pub open spec fn menu_rows(f: Seq<(Seq<char>, CommandEntry)>) -> Seq<char>
    decreases f.len(),
{
    if f.len() == 0 {
        Seq::empty()
    } else {
        menu_rows(f.drop_last()) + menu_row(f.len(), f.last().0, f.last().1)
    }
}

/// What `ax run` without a name prints before asking: the commands in name
/// order, numbered from 1, then the prompt (without a line feed).
pub open spec fn run_menu_text(f: Seq<(Seq<char>, CommandEntry)>) -> Seq<char> {
    if f.len() == 0 {
        "📋 暂无自定义命令\n"@
    } else {
        "📋 可用命令：\n"@ + menu_rows(f) + "\n输入编号执行 (0 取消): "@
    }
}

/// Appends `s` preceded by spaces up to `width` characters.
fn push_padded_left(out: &mut String, s: &str, width: usize)
    ensures
        final(out)@ == old(out)@ + pad_left(s@, width as nat),
{
    let v = chars_of(s);
    if v.len() < width {
        let mut k: usize = v.len();
        let ghost base = out@;
        assert(Seq::new(0nat, |i: int| ' ') =~= Seq::<char>::empty());
        assert(out@ =~= base + Seq::new((k - v@.len()) as nat, |i: int| ' '));
        while k < width
            invariant
                v@ == s@,
                v@.len() <= k <= width,
                out@ == base + Seq::new((k - v@.len()) as nat, |i: int| ' '),
            decreases width - k,
        {
            crate::text::push_char(out, ' ');
            k = k + 1;
            assert(out@ =~= base + Seq::new((k - v@.len()) as nat, |i: int| ' '));
        }
    }
    push_str(out, s);
    assert(out@ =~= old(out)@ + pad_left(s@, width as nat));
}

/// Appends one line of the run menu.
fn push_menu_row(out: &mut String, number: u64, name: &str, e: &CommandEntry)
    ensures
        final(out)@ == old(out)@ + menu_row(number as nat, name@, *e),
{
    push_str(out, "  ");
    let d = to_decimal(number);
    push_padded_left(out, d.as_str(), 3);
    push_str(out, ") ");
    push_padded(out, name, 20);
    push_str(out, " ");
    if e.desc.as_str().is_empty() {
        push_str(out, "无描述");
    } else {
        push_str(out, e.desc.as_str());
    }
    push_str(out, "\n");
    assert(out@ =~= old(out)@ + menu_row(number as nat, name@, *e));
}

/// The run menu as `ax run` prints it (see `run_menu_text`).
pub fn render_run_menu(map: &CommandMap) -> (r: String)
    ensures
        r@ == run_menu_text(map@),
{
    let n = map.len();
    if n == 0 {
        return "📋 暂无自定义命令\n".to_owned();
    }
    let ghost s = map@;
    let mut out = "📋 可用命令：\n".to_owned();
    let ghost head = out@;
    let mut i: usize = 0;
    assert(s.take(0) =~= Seq::<(Seq<char>, CommandEntry)>::empty());
    while i < n
        invariant
            s == map@,
            n == s.len(),
            i <= n,
            out@ == head + menu_rows(s.take(i as int)),
        decreases n - i,
    {
        assert(s.take(i + 1).drop_last() =~= s.take(i as int));
        assert(s.take(i + 1).last() == s[i as int]);
        let key = map.key_at(i);
        let e = map.value_at(i);
        push_menu_row(&mut out, (i + 1) as u64, key.as_str(), e);
        i = i + 1;
    }
    assert(s.take(n as int) =~= s);
    push_str(&mut out, "\n输入编号执行 (0 取消): ");
    out
}


// ---------------------------------------------------------------------------
// Configuration overview
// ---------------------------------------------------------------------------

/// The lines that list the linked files: source, arrow, destination, and
/// `(可选)` for an optional one.
pub open spec fn link_lines(links: Seq<crate::config::LinkEntry>) -> Seq<char>
    decreases links.len(),
{
    if links.len() == 0 {
        Seq::empty()
    } else {
        link_lines(links.drop_last()) + "    "@ + links.last().src@ + " → "@ + links.last().dst@ + (if links.last().optional {
            " (可选)"@
        } else {
            Seq::<char>::empty()
        }) + "\n"@
    }
}

/// What `ax info` prints: the paths under the configuration directory
/// `cdir`, the main settings, the number of commands, the remote URL when
/// `git remote get-url origin` printed one (`remote_output`, trimmed), the
/// linked files, and how the shell files are included.
pub open spec fn info_text(
    cdir: Seq<char>,
    config: crate::config::Config,
    command_count: nat,
    remote_output: Option<Seq<char>>,
) -> Seq<char> {
    "ax-cli 配置信息\n══════════════════════════════════════\n\n"@ + "  配置目录:      "@ + cdir + "\n"@
        + "  配置文件:      "@ + crate::paths::path_join(cdir, "config.yaml"@) + "\n"@ + "  配置片段目录:  "@
        + crate::paths::path_join(cdir, "config.d"@) + "\n"@ + "  命令文件:      "@ + crate::paths::path_join(
        cdir,
        "config.d/commands.yaml"@,
    ) + "\n"@ + "  包列表目录:    "@ + crate::paths::path_join(cdir, "packages"@) + "\n"@ + "\n"@ + "  自动同步:      "@
        + (if config.ax.auto_sync {
        "✅ 开启"@
    } else {
        "❌ 关闭"@
    }) + "\n"@ + "  代理地址:      "@ + config.proxy.address@ + "\n"@ + "  Shell:         "@ + config.shell.default@
        + "\n"@ + "  插件数:        "@ + decimal(config.shell.plugins@.len()) + "\n"@ + "  已注册命令:    "@
        + decimal(command_count) + "\n"@ + (match remote_output {
        Some(o) => if crate::text::trim(o).len() > 0 {
            "  远程仓库:      "@ + crate::text::trim(o) + "\n"@
        } else {
            Seq::<char>::empty()
        },
        None => Seq::<char>::empty(),
    }) + "\n  部署链接:\n"@ + link_lines(config.deploy.links@) + "  Shell 引入:\n"@
        + "    ~/.zshrc  -> source ~/.config/ax-cli/bash/.zshrc\n"@
        + "    ~/.bashrc -> source ~/.config/ax-cli/bash/.bashrc\n"@
}

/// Appends `label`, `value` and a line feed.
fn push_line(out: &mut String, label: &str, value: &str)
    ensures
        final(out)@ == old(out)@ + label@ + value@ + "\n"@,
{
    push_str(out, label);
    push_str(out, value);
    push_str(out, "\n");
}

/// The overview as `ax info` prints it (see `info_text`).
pub fn render_info(
    cdir: &str,
    config: &crate::config::Config,
    command_count: u64,
    remote_output: Option<&str>,
) -> (r: String)
    ensures
        r@ == info_text(cdir@, *config, command_count as nat, opt_view(remote_output)),
{
    let mut out = "ax-cli 配置信息\n══════════════════════════════════════\n\n".to_owned();
    push_line(&mut out, "  配置目录:      ", cdir);
    let a = crate::paths::join(cdir, "config.yaml");
    push_line(&mut out, "  配置文件:      ", a.as_str());
    let b = crate::paths::join(cdir, "config.d");
    push_line(&mut out, "  配置片段目录:  ", b.as_str());
    let c = crate::paths::join(cdir, "config.d/commands.yaml");
    push_line(&mut out, "  命令文件:      ", c.as_str());
    let d = crate::paths::join(cdir, "packages");
    push_line(&mut out, "  包列表目录:    ", d.as_str());
    push_str(&mut out, "\n");
    if config.ax.auto_sync {
        push_line(&mut out, "  自动同步:      ", "✅ 开启");
    } else {
        push_line(&mut out, "  自动同步:      ", "❌ 关闭");
    }
    push_line(&mut out, "  代理地址:      ", config.proxy.address.as_str());
    push_line(&mut out, "  Shell:         ", config.shell.default.as_str());
    let pn = to_decimal(config.shell.plugins.len() as u64);
    push_line(&mut out, "  插件数:        ", pn.as_str());
    let cn = to_decimal(command_count);
    push_line(&mut out, "  已注册命令:    ", cn.as_str());
    match remote_output {
        Some(o) => {
            let t = crate::text::trim_str(o);
            if !t.as_str().is_empty() {
                push_line(&mut out, "  远程仓库:      ", t.as_str());
            }
        },
        None => {},
    }
    push_str(&mut out, "\n  部署链接:\n");
    let ghost head = out@;
    let links = &config.deploy.links;
    let mut i: usize = 0;
    assert(links@.take(0) =~= Seq::<crate::config::LinkEntry>::empty());
    while i < links.len()
        invariant
            i <= links@.len(),
            out@ == head + link_lines(links@.take(i as int)),
        decreases links@.len() - i,
    {
        assert(links@.take(i + 1).drop_last() =~= links@.take(i as int));
        assert(links@.take(i + 1).last() == links@[i as int]);
        let l = &links[i];
        let ghost before = out@;
        push_str(&mut out, "    ");
        push_str(&mut out, l.src.as_str());
        push_str(&mut out, " → ");
        push_str(&mut out, l.dst.as_str());
        if l.optional {
            push_str(&mut out, " (可选)");
        }
        push_str(&mut out, "\n");
        assert(out@ =~= before + "    "@ + l.src@ + " → "@ + l.dst@ + (if l.optional {
            " (可选)"@
        } else {
            Seq::<char>::empty()
        }) + "\n"@);
        i = i + 1;
    }
    assert(links@.take(links@.len() as int) =~= links@);
    push_str(&mut out, "  Shell 引入:\n");
    push_str(&mut out, "    ~/.zshrc  -> source ~/.config/ax-cli/bash/.zshrc\n");
    push_str(&mut out, "    ~/.bashrc -> source ~/.config/ax-cli/bash/.bashrc\n");
    assert(out@ =~= info_text(cdir@, *config, command_count as nat, opt_view(remote_output)));
    out
}

} // verus!
