//! Paths as `/`-separated text: joining, `~` expansion, the final component
//! and its replacement. The separator is the same on every platform here;
//! where the program uses such a path, it turns it into a path of its
//! platform, with that platform's separator between the components.
use vstd::prelude::*;

use crate::text::{chars_of, push_str, starts_with, string_of_range};

verus! {

/// `rel` appended to `base` the way `PathBuf::push` does it: an absolute
/// `rel` replaces `base`; otherwise a `/` is put between them unless `base`
/// is empty or already ends with one.
pub open spec fn path_join(base: Seq<char>, rel: Seq<char>) -> Seq<char> {
    if rel.len() > 0 && rel[0] == '/' {
        rel
    } else if base.len() == 0 || base.last() == '/' {
        base + rel
    } else {
        base + seq!['/'] + rel
    }
}

/// `path` with a leading `~/` replaced by the home directory, when there is one.
pub open spec fn expand_home(path: Seq<char>, home: Option<Seq<char>>) -> Seq<char> {
    if starts_with(path, seq!['~', '/']) && home is Some {
        path_join(home->0, path.skip(2))
    } else {
        path
    }
}

/// `p` without trailing separators and trailing `.` components; a lone
/// leading `/` (the root) or a lone character is kept.
pub open spec fn strip_trailing(p: Seq<char>) -> Seq<char>
    decreases p.len(),
{
    if p.len() >= 2 && p.last() == '/' {
        strip_trailing(p.drop_last())
    } else if p.len() >= 2 && p.last() == '.' && p[p.len() - 2] == '/' {
        strip_trailing(p.drop_last())
    } else {
        p
    }
}

/// Length of the text before the last `/` of `p`, plus one for that `/`
/// (zero when `p` has no `/`).
pub open spec fn last_segment_start(p: Seq<char>) -> int
    decreases p.len(),
{
    if p.len() == 0 {
        0
    } else if p.last() == '/' {
        p.len() as int
    } else {
        last_segment_start(p.drop_last())
    }
}

/// The final component of a path, as `Path::file_name` gives it: none for an
/// empty path, the root, `.` or `..`.
pub open spec fn file_name(p: Seq<char>) -> Option<Seq<char>> {
    let t = strip_trailing(p);
    let s = t.skip(last_segment_start(t));
    if s.len() == 0 || s == seq!['.'] || s == seq!['.', '.'] {
        None
    } else {
        Some(s)
    }
}

/// The parent of a path that has a final component: the text before that
/// component, without trailing separators and `.` components.
pub open spec fn parent_of(p: Seq<char>) -> Seq<char> {
    let t = strip_trailing(p);
    strip_trailing(t.take(last_segment_start(t)))
}

/// `p` with its final component replaced by `name` (`Path::with_file_name`,
/// for a path that has a final component).
pub open spec fn with_file_name(p: Seq<char>, name: Seq<char>) -> Seq<char> {
    path_join(parent_of(p), name)
}

proof fn lemma_last_segment_start(p: Seq<char>)
    ensures
        0 <= last_segment_start(p) <= p.len(),
        forall|j: int| last_segment_start(p) <= j < p.len() ==> p[j] != '/',
        last_segment_start(p) > 0 ==> p[last_segment_start(p) - 1] == '/',
    decreases p.len(),
{
    if p.len() > 0 && p.last() != '/' {
        let q = p.drop_last();
        lemma_last_segment_start(q);
        assert forall|j: int| last_segment_start(p) <= j < p.len() implies p[j] != '/' by {
            if j < p.len() - 1 {
                assert(p[j] == q[j]);
            }
        }
    }
}

/// `base` joined with `rel` (see `path_join`).
pub fn join(base: &str, rel: &str) -> (r: String)
    ensures
        r@ == path_join(base@, rel@),
{
    let b = chars_of(base);
    let rv = chars_of(rel);
    if rv.len() > 0 && rv[0] == '/' {
        return rel.to_owned();
    }
    let mut out = base.to_owned();
    if !(b.len() == 0 || b[b.len() - 1] == '/') {
        crate::text::push_char(&mut out, '/');
    }
    push_str(&mut out, rel);
    out
}

/// `path` with a leading `~/` replaced by `home`, when `home` is given.
pub fn expand_home_with(path: &str, home: Option<&str>) -> (r: String)
    ensures
        r@ == expand_home(path@, match home {
            Some(h) => Some(h@),
            None => None,
        }),
{
    let p = chars_of(path);
    if p.len() >= 2 && p[0] == '~' && p[1] == '/' {
        assert(p@.subrange(0, 2) =~= seq!['~', '/']);
        match home {
            Some(h) => {
                let rest = string_of_range(&p, 2, p.len());
                assert(rest@ =~= path@.skip(2));
                join(h, &rest)
            },
            None => path.to_owned(),
        }
    } else {
        assert(!starts_with(path@, seq!['~', '/'])) by {
            if starts_with(path@, seq!['~', '/']) {
                assert(path@.subrange(0, 2)[0] == '~');
                assert(path@.subrange(0, 2)[1] == '/');
            }
        }
        path.to_owned()
    }
}

/// Length of `v[..n]` after `strip_trailing`.
fn strip_trailing_len(v: &[char], n: usize) -> (r: usize)
    requires
        n <= v@.len(),
    ensures
        r <= n,
        v@.take(r as int) == strip_trailing(v@.take(n as int)),
{
    let mut k = n;
    while (k >= 2 && v[k - 1] == '/') || (k >= 2 && v[k - 1] == '.' && v[k - 2] == '/')
        invariant
            k <= n <= v@.len(),
            strip_trailing(v@.take(n as int)) == strip_trailing(v@.take(k as int)),
        decreases k,
    {
        assert(v@.take(k as int).drop_last() =~= v@.take(k - 1));
        assert(v@.take(k as int).last() == v@[k - 1]);
        assert(v@.take(k as int)[k - 2] == v@[k - 2]);
        k = k - 1;
    }
    let ghost t = v@.take(k as int);
    assert(strip_trailing(t) == t) by {
        if t.len() >= 2 {
            assert(t.last() == v@[k - 1]);
            assert(t[t.len() - 2] == v@[k - 2]);
        }
    }
    k
}

/// Start of the last segment of `v[..n]` (see `last_segment_start`).
fn segment_start(v: &[char], n: usize) -> (r: usize)
    requires
        n <= v@.len(),
    ensures
        r <= n,
        r == last_segment_start(v@.take(n as int)),
{
    let mut k = n;
    while k > 0 && v[k - 1] != '/'
        invariant
            k <= n <= v@.len(),
            last_segment_start(v@.take(n as int)) == last_segment_start(v@.take(k as int)),
        decreases k,
    {
        assert(v@.take(k as int).drop_last() =~= v@.take(k - 1));
        assert(v@.take(k as int).last() == v@[k - 1]);
        k = k - 1;
    }
    if k > 0 {
        assert(v@.take(k as int).last() == v@[k - 1]);
    }
    k
}

/// The final component of `path` (`Path::file_name`).
pub fn path_file_name(path: &str) -> (r: Option<String>)
    ensures
        match r {
            Some(s) => file_name(path@) == Some(s@),
            None => file_name(path@) is None,
        },
{
    let v = chars_of(path);
    assert(v@.take(v@.len() as int) =~= v@);
    let t = strip_trailing_len(&v, v.len());
    let a = segment_start(&v, t);
    proof {
        let ts = v@.take(t as int);
        assert(ts.take(a as int) =~= v@.take(a as int));
        assert(ts.skip(a as int) =~= v@.subrange(a as int, t as int));
        assert(v@.take(a as int).take(a as int) =~= v@.take(a as int));
        lemma_last_segment_start(ts);
    }
    let len = t - a;
    if len == 0 || (len == 1 && v[a] == '.') || (len == 2 && v[a] == '.' && v[a + 1] == '.') {
        proof {
            let s = v@.subrange(a as int, t as int);
            if len == 1 {
                assert(s =~= seq!['.']);
            }
            if len == 2 {
                assert(s =~= seq!['.', '.']);
            }
        }
        None
    } else {
        proof {
            let s = v@.subrange(a as int, t as int);
            if s == seq!['.'] {
                assert(s[0] == v@[a as int]);
            }
            if s == seq!['.', '.'] {
                assert(s[0] == v@[a as int]);
                assert(s[1] == v@[a + 1]);
            }
        }
        Some(string_of_range(&v, a, t))
    }
}

/// `path` with its final component replaced by `name`
/// (`Path::with_file_name`), for a path that has a final component.
pub fn path_with_file_name(path: &str, name: &str) -> (r: String)
    requires
        file_name(path@) is Some,
    ensures
        r@ == with_file_name(path@, name@),
{
    let v = chars_of(path);
    assert(v@.take(v@.len() as int) =~= v@);
    let t = strip_trailing_len(&v, v.len());
    let a = segment_start(&v, t);
    proof {
        let ts = v@.take(t as int);
        assert(ts.take(a as int) =~= v@.take(a as int));
    }
    let p = strip_trailing_len(&v, a);
    let parent = string_of_range(&v, 0, p);
    assert(parent@ =~= v@.take(p as int));
    join(&parent, name)
}

} // verus!
