//! Character-level text operations that the rest of the library is built on.
//!
//! Strings are modelled by their views, sequences of `char`.
use vstd::prelude::*;
use vstd::string::*;
use vstd::utf8::{char_is_scalar, encode_scalar, encode_utf8};

verus! {

// ---------------------------------------------------------------------------
// Specifications
// ---------------------------------------------------------------------------

/// What `char::is_whitespace` answers for `c` (the Unicode `White_Space` property).
pub uninterp spec fn char_is_whitespace(c: char) -> bool;

/// What `char::is_alphanumeric` answers for `c` (Unicode `Alphabetic` or `Numeric`).
pub uninterp spec fn char_is_alphanumeric(c: char) -> bool;

/// What `str::to_lowercase` gives for `s` (Unicode lower case).
pub uninterp spec fn str_to_lowercase(s: Seq<char>) -> Seq<char>;

/// Every character is ASCII.
pub open spec fn all_ascii(s: Seq<char>) -> bool {
    forall|i: int| 0 <= i < s.len() ==> (#[trigger] s[i] as u32) < 128
}

/// The ASCII whitespace characters: tab, line feed, vertical tab, form feed,
/// carriage return and space.
pub open spec fn is_ascii_whitespace(c: char) -> bool {
    c == ' ' || ('\t' <= c && c <= '\r')
}

/// ASCII letters and digits.
pub open spec fn is_ascii_alnum(c: char) -> bool {
    ('a' <= c && c <= 'z') || ('A' <= c && c <= 'Z') || ('0' <= c && c <= '9')
}

/// ASCII lower-casing of one character; every other character is kept.
pub open spec fn lower(c: char) -> char {
    if 'A' <= c && c <= 'Z' {
        ((c as u32) + 32) as char
    } else {
        c
    }
}

/// ASCII lower-casing of a whole sequence.
pub open spec fn lower_seq(s: Seq<char>) -> Seq<char> {
    s.map_values(|c: char| lower(c))
}

/// `p` occurs in `s` starting at index `i`.
pub open spec fn occurs_at(s: Seq<char>, p: Seq<char>, i: int) -> bool {
    0 <= i && i + p.len() <= s.len() && s.subrange(i, i + p.len()) == p
}

/// `s` begins with `p`.
pub open spec fn starts_with(s: Seq<char>, p: Seq<char>) -> bool {
    occurs_at(s, p, 0)
}

/// `p` occurs somewhere in `s`.
pub open spec fn contains(s: Seq<char>, p: Seq<char>) -> bool {
    exists|i: int| occurs_at(s, p, i)
}

/// `c` occurs in `s`.
pub open spec fn has_char(s: Seq<char>, c: char) -> bool {
    exists|i: int| 0 <= i < s.len() && s[i] == c
}

/// Replaces the non-overlapping occurrences of `p` in `s`, found from left to
/// right, by `t` (what `str::replace` does for a non-empty pattern).
pub open spec fn replace(s: Seq<char>, p: Seq<char>, t: Seq<char>) -> Seq<char>
    decreases s.len(),
{
    if s.len() == 0 || p.len() == 0 {
        s
    } else if starts_with(s, p) {
        t + replace(s.skip(p.len() as int), p, t)
    } else {
        seq![s[0]] + replace(s.drop_first(), p, t)
    }
}

/// `s` without its leading whitespace.
pub open spec fn trim_start(s: Seq<char>) -> Seq<char>
    decreases s.len(),
{
    if s.len() > 0 && char_is_whitespace(s[0]) {
        trim_start(s.drop_first())
    } else {
        s
    }
}

/// `s` without its trailing whitespace.
pub open spec fn trim_end(s: Seq<char>) -> Seq<char>
    decreases s.len(),
{
    if s.len() > 0 && char_is_whitespace(s.last()) {
        trim_end(s.drop_last())
    } else {
        s
    }
}

/// `s` without leading and trailing whitespace (what `str::trim` gives).
pub open spec fn trim(s: Seq<char>) -> Seq<char> {
    trim_end(trim_start(s))
}

/// Index of the first line feed in `s`, if any.
pub open spec fn first_newline(s: Seq<char>) -> Option<int>
    decreases s.len(),
{
    if s.len() == 0 {
        None
    } else if s[0] == '\n' {
        Some(0)
    } else {
        match first_newline(s.drop_first()) {
            Some(i) => Some(i + 1),
            None => None,
        }
    }
}

/// A line without its line terminator: a final carriage return is dropped.
pub open spec fn strip_cr(l: Seq<char>) -> Seq<char> {
    if l.len() > 0 && l.last() == '\r' {
        l.drop_last()
    } else {
        l
    }
}

/// The lines of `s` (what `str::lines` yields): split at `\n`, a `\r` right
/// before a `\n` is dropped, and a final line ending adds no empty line.
pub open spec fn lines(s: Seq<char>) -> Seq<Seq<char>>
    decreases s.len(),
{
    if s.len() == 0 {
        seq![]
    } else {
        match first_newline(s) {
            Some(i) => if 0 <= i < s.len() {
                seq![strip_cr(s.take(i))] + lines(s.skip(i + 1))
            } else {
                seq![]
            },
            None => seq![s],
        }
    }
}

/// The views of a sequence of strings.
pub open spec fn views(v: Seq<String>) -> Seq<Seq<char>> {
    v.map_values(|s: String| s@)
}

// ---------------------------------------------------------------------------
// Lemmas
// ---------------------------------------------------------------------------

/// `first_newline` finds the first line feed, and only line feeds.
pub proof fn lemma_first_newline(s: Seq<char>)
    ensures
        match first_newline(s) {
            Some(i) => 0 <= i < s.len() && s[i] == '\n' && forall|j: int|
                0 <= j < i ==> s[j] != '\n',
            None => forall|j: int| 0 <= j < s.len() ==> s[j] != '\n',
        },
    decreases s.len(),
{
    if s.len() > 0 && s[0] != '\n' {
        lemma_first_newline(s.drop_first());
        match first_newline(s.drop_first()) {
            Some(i) => {
                assert forall|j: int| 0 <= j < i + 1 implies s[j] != '\n' by {
                    if j > 0 {
                        assert(s[j] == s.drop_first()[j - 1]);
                    }
                }
            },
            None => {
                assert forall|j: int| 0 <= j < s.len() implies s[j] != '\n' by {
                    if j > 0 {
                        assert(s[j] == s.drop_first()[j - 1]);
                    }
                }
            },
        }
    }
}

/// A line feed at `i`, with none before it, is the first line feed.
pub proof fn lemma_first_newline_at(s: Seq<char>, i: int)
    requires
        0 <= i < s.len(),
        s[i] == '\n',
        forall|j: int| 0 <= j < i ==> s[j] != '\n',
    ensures
        first_newline(s) == Some(i),
{
    lemma_first_newline(s);
    match first_newline(s) {
        Some(k) => {
            if k < i {
                assert(s[k] != '\n');
            } else if k > i {
                assert(s[i] != '\n');
            }
        },
        None => {
            assert(s[i] != '\n');
        },
    }
}

/// Without a line feed, the text is a single line.
pub proof fn lemma_no_newline(s: Seq<char>)
    requires
        forall|j: int| 0 <= j < s.len() ==> s[j] != '\n',
    ensures
        s.len() > 0 ==> first_newline(s) is None,
{
    lemma_first_newline(s);
    if s.len() > 0 {
        match first_newline(s) {
            Some(k) => {
                assert(s[k] == '\n');
            },
            None => {},
        }
    }
}

// ---------------------------------------------------------------------------
// Trusted items for std functions that vstd does not specify
// ---------------------------------------------------------------------------

/// `String::push` appends one character.
#[verifier::external_body]
pub(crate) fn push_char(s: &mut String, c: char)
    ensures
        final(s)@ == old(s)@.push(c),
{
    s.push(c);
}

/// `char::is_whitespace`. The contract names its answer; for ASCII input it
/// states the answer (tab through carriage return, and space).
#[verifier::external_body]
pub(crate) fn is_whitespace(c: char) -> (r: bool)
    ensures
        r == char_is_whitespace(c),
        (c as u32) < 128 ==> (r <==> is_ascii_whitespace(c)),
{
    c.is_whitespace()
}

/// `char::is_alphanumeric`. The contract names its answer; for ASCII input it
/// states the answer (letters and digits).
#[verifier::external_body]
pub(crate) fn is_alphanumeric(c: char) -> (r: bool)
    ensures
        r == char_is_alphanumeric(c),
        (c as u32) < 128 ==> (r <==> is_ascii_alnum(c)),
{
    c.is_alphanumeric()
}

/// `str::to_lowercase`. The contract names its answer; for ASCII text it
/// states the answer (ASCII lower case).
#[verifier::external_body]
pub(crate) fn to_lowercase(s: &str) -> (r: String)
    ensures
        r@ == str_to_lowercase(s@),
        all_ascii(s@) ==> r@ == lower_seq(s@),
{
    s.to_lowercase()
}

// ---------------------------------------------------------------------------
// Conversions
// ---------------------------------------------------------------------------

/// The characters of `s`, in order.
pub fn chars_of(s: &str) -> (v: Vec<char>)
    ensures
        v@ == s@,
{
    let mut v: Vec<char> = Vec::new();
    for c in it: s.chars()
        invariant
            v@ == it.seq().take(it.index() as int),
    {
        v.push(c);
    }
    v
}

/// Appends the characters `v[from..to]` to `s`.
pub fn push_range(s: &mut String, v: &[char], from: usize, to: usize)
    requires
        from <= to <= v@.len(),
    ensures
        final(s)@ == old(s)@ + v@.subrange(from as int, to as int),
{
    let mut i = from;
    while i < to
        invariant
            from <= i <= to <= v@.len(),
            s@ == old(s)@ + v@.subrange(from as int, i as int),
        decreases to - i,
    {
        push_char(s, v[i]);
        i = i + 1;
        assert(s@ =~= old(s)@ + v@.subrange(from as int, i as int));
    }
}

/// A string holding the characters `v[from..to]`.
pub fn string_of_range(v: &[char], from: usize, to: usize) -> (s: String)
    requires
        from <= to <= v@.len(),
    ensures
        s@ == v@.subrange(from as int, to as int),
{
    let mut s = String::new();
    push_range(&mut s, v, from, to);
    assert(s@ =~= v@.subrange(from as int, to as int));
    s
}

/// A string holding the characters of `v`.
pub fn string_of(v: &[char]) -> (s: String)
    ensures
        s@ == v@,
{
    let s = string_of_range(v, 0, v.len());
    assert(v@.subrange(0, v@.len() as int) =~= v@);
    s
}

/// Appends `t` to `s`.
pub fn push_str(s: &mut String, t: &str)
    ensures
        final(s)@ == old(s)@ + t@,
{
    s.append(t);
}

// ---------------------------------------------------------------------------
// Searching
// ---------------------------------------------------------------------------

/// Whether `p` occurs in `s` at index `i`.
pub fn matches_at(s: &[char], p: &[char], i: usize) -> (r: bool)
    ensures
        r == occurs_at(s@, p@, i as int),
{
    if i > s.len() || p.len() > s.len() - i {
        return false;
    }
    let mut k: usize = 0;
    while k < p.len()
        invariant
            i + p@.len() <= s@.len(),
            s@.len() == s.len(),
            k <= p@.len(),
            forall|j: int| 0 <= j < k ==> s@[i + j] == p@[j],
        decreases p.len() - k,
    {
        assert(i + k < s@.len());
        if s[i + k] != p[k] {
            assert(s@.subrange(i as int, i + p@.len())[k as int] != p@[k as int]);
            return false;
        }
        k = k + 1;
    }
    assert(s@.subrange(i as int, i + p@.len()) =~= p@);
    true
}

/// Whether `s` begins with `p`.
pub fn has_prefix(s: &[char], p: &[char]) -> (r: bool)
    ensures
        r == starts_with(s@, p@),
{
    matches_at(s, p, 0)
}

/// Whether `p` occurs in `s`.
pub fn find(s: &[char], p: &[char]) -> (r: bool)
    ensures
        r == contains(s@, p@),
{
    if p.len() > s.len() {
        assert forall|i: int| !occurs_at(s@, p@, i) by {}
        return false;
    }
    let last = s.len() - p.len();
    let mut i: usize = 0;
    loop
        invariant
            p@.len() <= s@.len(),
            last == s@.len() - p@.len(),
            i <= last,
            forall|j: int| 0 <= j < i ==> !occurs_at(s@, p@, j),
        decreases last - i,
    {
        if matches_at(s, p, i) {
            return true;
        }
        if i == last {
            assert forall|j: int| !occurs_at(s@, p@, j) by {
                if 0 <= j && j + p@.len() <= s@.len() {
                    assert(j <= i);
                }
            }
            return false;
        }
        i = i + 1;
    }
}

/// Whether `p` occurs in `s`.
pub fn str_contains(s: &str, p: &str) -> (r: bool)
    ensures
        r == contains(s@, p@),
{
    let sv = chars_of(s);
    let pv = chars_of(p);
    find(&sv, &pv)
}

/// Whether `c` occurs in `s`.
pub fn find_char(s: &[char], c: char) -> (r: bool)
    ensures
        r == has_char(s@, c),
{
    let mut i: usize = 0;
    while i < s.len()
        invariant
            i <= s@.len(),
            forall|j: int| 0 <= j < i ==> s@[j] != c,
        decreases s.len() - i,
    {
        if s[i] == c {
            return true;
        }
        i = i + 1;
    }
    false
}

/// Whether two character sequences are equal.
pub fn chars_eq(a: &[char], b: &[char]) -> (r: bool)
    ensures
        r == (a@ == b@),
{
    if a.len() != b.len() {
        return false;
    }
    let r = matches_at(a, b, 0);
    assert(r ==> a@.subrange(0, b@.len() as int) =~= a@);
    assert(a@ == b@ ==> a@.subrange(0, b@.len() as int) =~= a@);
    r
}

/// Whether two strings are equal.
pub fn str_eq(a: &str, b: &str) -> (r: bool)
    ensures
        r == (a@ == b@),
{
    let av = chars_of(a);
    let bv = chars_of(b);
    chars_eq(&av, &bv)
}

// ---------------------------------------------------------------------------
// ASCII case
// ---------------------------------------------------------------------------

proof fn lemma_char_code_injective(a: char, b: char)
    requires
        a as u32 == b as u32,
    ensures
        a == b,
{
}

/// ASCII lower-case of a character's code.
fn lower_code(c: char) -> (r: u32)
    ensures
        r == lower(c) as u32,
{
    let x = c as u32;
    if 65 <= x && x <= 90 {
        x + 32
    } else {
        x
    }
}

/// Whether `s`, ASCII-lower-cased, begins with `p` (itself taken as is).
pub fn has_prefix_ignore_ascii_case(s: &[char], p: &[char]) -> (r: bool)
    ensures
        r == starts_with(lower_seq(s@), p@),
{
    if p.len() > s.len() {
        return false;
    }
    let mut k: usize = 0;
    while k < p.len()
        invariant
            p@.len() <= s@.len(),
            k <= p@.len(),
            forall|j: int| 0 <= j < k ==> lower(s@[j]) == p@[j],
        decreases p.len() - k,
    {
        if lower_code(s[k]) != p[k] as u32 {
            assert(lower_seq(s@).subrange(0, p@.len() as int)[k as int] != p@[k as int]);
            return false;
        }
        proof {
            lemma_char_code_injective(lower(s@[k as int]), p@[k as int]);
        }
        k = k + 1;
    }
    assert(lower_seq(s@).subrange(0, p@.len() as int) =~= p@);
    true
}

/// Whether `s`, ASCII-lower-cased, equals `p`.
pub fn eq_ignore_ascii_case(s: &[char], p: &[char]) -> (r: bool)
    ensures
        r == (lower_seq(s@) == p@),
{
    if s.len() != p.len() {
        assert(lower_seq(s@).len() != p@.len());
        return false;
    }
    let r = has_prefix_ignore_ascii_case(s, p);
    assert(lower_seq(s@).subrange(0, p@.len() as int) =~= lower_seq(s@));
    r
}

// ---------------------------------------------------------------------------
// Replacing
// ---------------------------------------------------------------------------

proof fn lemma_replace_step(s: Seq<char>, p: Seq<char>, t: Seq<char>, i: int)
    requires
        0 <= i < s.len(),
        p.len() > 0,
    ensures
        occurs_at(s, p, i) ==> replace(s.skip(i), p, t) == t + replace(
            s.skip(i + p.len()),
            p,
            t,
        ),
        !occurs_at(s, p, i) ==> replace(s.skip(i), p, t) == seq![s[i]] + replace(
            s.skip(i + 1),
            p,
            t,
        ),
{
    let r = s.skip(i);
    if occurs_at(s, p, i) {
        assert(r.subrange(0, p.len() as int) =~= s.subrange(i, i + p.len()));
        assert(r.skip(p.len() as int) =~= s.skip(i + p.len()));
    } else {
        if starts_with(r, p) {
            assert(r.subrange(0, p.len() as int) =~= s.subrange(i, i + p.len()));
        }
        assert(r.drop_first() =~= s.skip(i + 1));
    }
}

/// `s` with every non-overlapping occurrence of `p`, from left to right,
/// replaced by `t` (`str::replace`); an empty `p` leaves `s` as it is.
pub fn replace_all(s: &str, p: &str, t: &str) -> (r: String)
    ensures
        r@ == replace(s@, p@, t@),
{
    let sv = chars_of(s);
    let pv = chars_of(p);
    if pv.len() == 0 {
        proof {
            if s@.len() > 0 {
                assert(replace(s@, p@, t@) == s@);
            }
        }
        return s.to_owned();
    }
    let mut out = String::new();
    let mut i: usize = 0;
    assert(sv@.skip(0) =~= sv@);
    while i < sv.len()
        invariant
            sv@ == s@,
            pv@ == p@,
            p@.len() > 0,
            i <= sv@.len(),
            replace(s@, p@, t@) == out@ + replace(s@.skip(i as int), p@, t@),
        decreases sv.len() - i,
    {
        proof {
            lemma_replace_step(s@, p@, t@, i as int);
        }
        if matches_at(&sv, &pv, i) {
            push_str(&mut out, t);
            i = i + pv.len();
        } else {
            push_char(&mut out, sv[i]);
            i = i + 1;
        }
    }
    assert(s@.skip(i as int) =~= Seq::<char>::empty());
    assert(out@ + Seq::<char>::empty() =~= out@);
    out
}

// ---------------------------------------------------------------------------
// Trimming
// ---------------------------------------------------------------------------

proof fn lemma_trim_start_step(s: Seq<char>, i: int)
    requires
        0 <= i < s.len(),
        char_is_whitespace(s[i]),
    ensures
        trim_start(s.skip(i)) == trim_start(s.skip(i + 1)),
{
    assert(s.skip(i).drop_first() =~= s.skip(i + 1));
}

proof fn lemma_trim_end_step(s: Seq<char>, j: int)
    requires
        0 < j <= s.len(),
        char_is_whitespace(s[j - 1]),
    ensures
        trim_end(s.take(j)) == trim_end(s.take(j - 1)),
{
    assert(s.take(j).drop_last() =~= s.take(j - 1));
}

/// Bounds `[a, b)` of `s` with leading and trailing whitespace removed.
pub fn trim_bounds(s: &[char]) -> (r: (usize, usize))
    ensures
        r.0 <= r.1 <= s@.len(),
        s@.subrange(r.0 as int, r.1 as int) == trim(s@),
{
    let mut i: usize = 0;
    assert(s@.skip(0) =~= s@);
    while i < s.len() && is_whitespace(s[i])
        invariant
            i <= s@.len(),
            trim_start(s@) == trim_start(s@.skip(i as int)),
        decreases s.len() - i,
    {
        proof {
            lemma_trim_start_step(s@, i as int);
        }
        i = i + 1;
    }
    let ghost rest = s@.skip(i as int);
    assert(trim_start(s@) == rest) by {
        if rest.len() > 0 {
            assert(rest[0] == s@[i as int]);
        }
    }
    let mut j: usize = s.len();
    assert(rest.take(rest.len() as int) =~= rest);
    while j > i && is_whitespace(s[j - 1])
        invariant
            i <= j <= s@.len(),
            rest == s@.skip(i as int),
            trim_end(rest) == trim_end(rest.take(j - i)),
        decreases j,
    {
        proof {
            assert(rest[j - i - 1] == s@[j - 1]);
            lemma_trim_end_step(rest, (j - i) as int);
        }
        j = j - 1;
    }
    assert(trim_end(rest.take(j - i)) == rest.take(j - i)) by {
        let q = rest.take(j - i);
        if q.len() > 0 {
            assert(q.last() == s@[j - 1]);
        }
    }
    assert(rest.take(j - i) =~= s@.subrange(i as int, j as int));
    (i, j)
}

/// `s` with trailing whitespace removed.
pub fn trim_end_chars(s: &[char]) -> (r: Vec<char>)
    ensures
        r@ == trim_end(s@),
{
    let mut j: usize = s.len();
    assert(s@.take(s@.len() as int) =~= s@);
    while j > 0 && is_whitespace(s[j - 1])
        invariant
            j <= s@.len(),
            trim_end(s@) == trim_end(s@.take(j as int)),
        decreases j,
    {
        proof {
            lemma_trim_end_step(s@, j as int);
        }
        j = j - 1;
    }
    assert(trim_end(s@.take(j as int)) == s@.take(j as int)) by {
        if j > 0 {
            assert(s@.take(j as int).last() == s@[j - 1]);
        }
    }
    assert(s@.take(j as int) =~= s@.subrange(0, j as int));
    slice_chars(s, 0, j)
}

/// `s` with leading and trailing whitespace removed.
pub fn trim_chars(s: &[char]) -> (r: Vec<char>)
    ensures
        r@ == trim(s@),
{
    let (a, b) = trim_bounds(s);
    let mut r: Vec<char> = Vec::new();
    let mut k = a;
    while k < b
        invariant
            a <= k <= b <= s@.len(),
            r@ == s@.subrange(a as int, k as int),
        decreases b - k,
    {
        r.push(s[k]);
        k = k + 1;
        assert(r@ =~= s@.subrange(a as int, k as int));
    }
    r
}

/// `s` with leading and trailing whitespace removed (`str::trim`).
pub fn trim_str(s: &str) -> (r: String)
    ensures
        r@ == trim(s@),
{
    let v = chars_of(s);
    let (a, b) = trim_bounds(&v);
    string_of_range(&v, a, b)
}

/// Whether `s` is empty or whitespace only (`s.trim().is_empty()`).
pub fn is_blank(s: &str) -> (r: bool)
    ensures
        r == (trim(s@).len() == 0),
{
    let v = chars_of(s);
    let (a, b) = trim_bounds(&v);
    a == b
}

// ---------------------------------------------------------------------------
// Lines
// ---------------------------------------------------------------------------

/// The characters `v[from..to]`.
pub fn slice_chars(v: &[char], from: usize, to: usize) -> (r: Vec<char>)
    requires
        from <= to <= v@.len(),
    ensures
        r@ == v@.subrange(from as int, to as int),
{
    let mut r: Vec<char> = Vec::new();
    let mut k = from;
    while k < to
        invariant
            from <= k <= to <= v@.len(),
            r@ == v@.subrange(from as int, k as int),
        decreases to - k,
    {
        r.push(v[k]);
        k = k + 1;
        assert(r@ =~= v@.subrange(from as int, k as int));
    }
    r
}

/// A line `v[from..to]` with a final carriage return dropped.
fn line_of(v: &[char], from: usize, to: usize) -> (r: Vec<char>)
    requires
        from <= to <= v@.len(),
    ensures
        r@ == strip_cr(v@.subrange(from as int, to as int)),
{
    let mut end = to;
    if to > from && v[to - 1] == '\r' {
        end = to - 1;
    }
    let r = slice_chars(v, from, end);
    assert(strip_cr(v@.subrange(from as int, to as int)) =~= v@.subrange(from as int, end as int));
    r
}

/// The lines of `s`, as `str::lines` yields them.
pub fn lines_of(s: &[char]) -> (r: Vec<Vec<char>>)
    ensures
        r@.map_values(|l: Vec<char>| l@) == lines(s@),
{
    let mut r: Vec<Vec<char>> = Vec::new();
    let mut start: usize = 0;
    let mut k: usize = 0;
    assert(s@.skip(0) =~= s@);
    while k < s.len()
        invariant
            start <= k <= s@.len(),
            forall|j: int| start <= j < k ==> s@[j] != '\n',
            lines(s@) == r@.map_values(|l: Vec<char>| l@) + lines(s@.skip(start as int)),
        decreases s.len() - k,
    {
        if s[k] == '\n' {
            let line = line_of(s, start, k);
            proof {
                let rest = s@.skip(start as int);
                assert forall|j: int| 0 <= j < k - start implies rest[j] != '\n' by {
                    assert(rest[j] == s@[start + j]);
                }
                lemma_first_newline_at(rest, k - start);
                assert(rest.take(k - start) =~= s@.subrange(start as int, k as int));
                assert(rest.skip(k - start + 1) =~= s@.skip(k + 1));
            }
            let ghost old_r = r@;
            r.push(line);
            assert(r@.map_values(|l: Vec<char>| l@) =~= old_r.map_values(|l: Vec<char>| l@).push(
                strip_cr(s@.subrange(start as int, k as int)),
            ));
            k = k + 1;
            start = k;
        } else {
            k = k + 1;
        }
    }
    if start < s.len() {
        let line = slice_chars(s, start, s.len());
        proof {
            let rest = s@.skip(start as int);
            assert forall|j: int| 0 <= j < rest.len() implies rest[j] != '\n' by {
                assert(rest[j] == s@[start + j]);
            }
            lemma_no_newline(rest);
            assert(rest =~= s@.subrange(start as int, s@.len() as int));
        }
        let ghost old_r = r@;
        r.push(line);
        assert(r@.map_values(|l: Vec<char>| l@) =~= old_r.map_values(|l: Vec<char>| l@) + lines(
            s@.skip(start as int),
        ));
    } else {
        assert(s@.skip(start as int) =~= Seq::<char>::empty());
        assert(r@.map_values(|l: Vec<char>| l@) + Seq::<Seq<char>>::empty() =~= r@.map_values(
            |l: Vec<char>| l@,
        ));
    }
    r
}

// ---------------------------------------------------------------------------
// Numbers and padding
// ---------------------------------------------------------------------------

/// The character of a decimal digit.
pub open spec fn digit_char(d: int) -> char {
    ((d + 48) as u32) as char
}

/// The decimal digits of `n`, most significant first (`0` for zero).
pub open spec fn decimal(n: nat) -> Seq<char>
    decreases n,
{
    if n < 10 {
        seq![digit_char(n as int)]
    } else {
        decimal(n / 10) + seq![digit_char((n % 10) as int)]
    }
}

fn digit(d: u64) -> (c: char)
    requires
        d < 10,
    ensures
        c == digit_char(d as int),
{
    let c = match d {
        0 => '0',
        1 => '1',
        2 => '2',
        3 => '3',
        4 => '4',
        5 => '5',
        6 => '6',
        7 => '7',
        8 => '8',
        _ => '9',
    };
    assert(c as u32 == (d + 48) as u32);
    c
}

/// The decimal text of `n` (what `to_string` gives for a number).
pub fn to_decimal(n: u64) -> (r: String)
    ensures
        r@ == decimal(n as nat),
    decreases n,
{
    if n < 10 {
        let mut r = String::new();
        push_char(&mut r, digit(n));
        assert(r@ =~= seq![digit_char(n as int)]);
        r
    } else {
        let mut r = to_decimal(n / 10);
        push_char(&mut r, digit(n % 10));
        r
    }
}

/// `s` followed by spaces up to `width` characters (what `{:<width}` gives).
pub open spec fn pad_right(s: Seq<char>, width: nat) -> Seq<char> {
    if s.len() >= width {
        s
    } else {
        s + Seq::new((width - s.len()) as nat, |i: int| ' ')
    }
}

/// Appends `s` padded with spaces to `width` characters.
pub fn push_padded(out: &mut String, s: &str, width: usize)
    ensures
        final(out)@ == old(out)@ + pad_right(s@, width as nat),
{
    let v = chars_of(s);
    push_str(out, s);
    let ghost base = old(out)@ + s@;
    if v.len() >= width {
        assert(pad_right(s@, width as nat) == s@);
        return;
    }
    let mut k = v.len();
    assert(out@ =~= base + Seq::new((k - v@.len()) as nat, |i: int| ' '));
    while k < width
        invariant
            v@ == s@,
            v@.len() <= k <= width,
            out@ == base + Seq::new((k - v@.len()) as nat, |i: int| ' '),
        decreases width - k,
    {
        push_char(out, ' ');
        k = k + 1;
        assert(out@ =~= base + Seq::new((k - v@.len()) as nat, |i: int| ' '));
    }
}


// ---------------------------------------------------------------------------
// Lengths in bytes
// ---------------------------------------------------------------------------

/// The length of `s` in bytes, UTF-8 encoded (what `str::len` gives).
pub open spec fn byte_len(s: Seq<char>) -> nat {
    encode_utf8(s).len()
}

/// Whether some prefix of `s` is exactly `n` bytes long, that is, whether
/// byte `n` is a character boundary.
pub open spec fn has_boundary(s: Seq<char>, n: nat) -> bool {
    exists|k: int| 0 <= k <= s.len() && #[trigger] byte_len(s.take(k)) == n
}

/// The prefix of `s` that is `n` bytes long (`&s[..n]`), where there is one.
pub open spec fn byte_prefix(s: Seq<char>, n: nat) -> Seq<char> {
    s.take(choose|k: int| 0 <= k <= s.len() && #[trigger] byte_len(s.take(k)) == n)
}

proof fn lemma_encode_append(a: Seq<char>, b: Seq<char>)
    ensures
        encode_utf8(a + b) == encode_utf8(a) + encode_utf8(b),
    decreases a.len(),
{
    if a.len() == 0 {
        assert(a + b =~= b);
        assert(encode_utf8(a) + encode_utf8(b) =~= encode_utf8(b));
    } else {
        assert((a + b).drop_first() =~= a.drop_first() + b);
        assert((a + b)[0] == a[0]);
        lemma_encode_append(a.drop_first(), b);
        assert(encode_utf8(a + b) =~= encode_utf8(a) + encode_utf8(b));
    }
}

/// Adding a character adds its encoded width.
pub proof fn lemma_byte_len_push(s: Seq<char>, c: char)
    ensures
        byte_len(s.push(c)) == byte_len(s) + encode_scalar(c as u32).len(),
        1 <= encode_scalar(c as u32).len() <= 4,
{
    lemma_encode_append(s, seq![c]);
    assert(s.push(c) =~= s + seq![c]);
    assert(seq![c].drop_first() =~= Seq::<char>::empty());
    assert(encode_utf8(seq![c]) =~= encode_scalar(c as u32) + encode_utf8(Seq::<char>::empty()));
}

/// A longer prefix is longer in bytes by at least one byte per character.
pub proof fn lemma_byte_len_take(s: Seq<char>, j: int, k: int)
    requires
        0 <= j <= k <= s.len(),
    ensures
        byte_len(s.take(j)) + (k - j) <= byte_len(s.take(k)),
    decreases k - j,
{
    if j < k {
        lemma_byte_len_take(s, j, k - 1);
        assert(s.take(k) =~= s.take(k - 1).push(s[k - 1]));
        lemma_byte_len_push(s.take(k - 1), s[k - 1]);
    }
}

/// The length of a string in bytes.
pub fn byte_len_of(s: &str) -> (r: usize)
    requires
        byte_len(s@) <= usize::MAX,
    ensures
        r == byte_len(s@),
{
    s.len()
}

/// The width in bytes of a character, UTF-8 encoded.
pub fn char_width(c: char) -> (r: usize)
    ensures
        r == encode_scalar(c as u32).len(),
{
    proof {
        char_is_scalar(c);
    }
    let u = c as u32;
    if u <= 0x7F {
        1
    } else if u <= 0x7FF {
        2
    } else if u <= 0xFFFF {
        3
    } else {
        4
    }
}

/// The number of characters of `v` that make up its first `n` bytes, where
/// byte `n` is a character boundary.
pub fn byte_prefix_chars(v: &[char], n: usize) -> (r: Option<usize>)
    ensures
        match r {
            Some(k) => k <= v@.len() && byte_len(v@.take(k as int)) == n && byte_prefix(v@, n as nat)
                == v@.take(k as int),
            None => !has_boundary(v@, n as nat),
        },
{
    let mut k: usize = 0;
    let mut acc: usize = 0;
    assert(v@.take(0) =~= Seq::<char>::empty());
    while k < v.len() && acc < n
        invariant
            k <= v@.len(),
            acc <= n,
            acc == byte_len(v@.take(k as int)),
        decreases v@.len() - k,
    {
        let w = char_width(v[k]);
        proof {
            assert(v@.take(k + 1) =~= v@.take(k as int).push(v@[k as int]));
            lemma_byte_len_push(v@.take(k as int), v@[k as int]);
        }
        if w > n - acc {
            proof {
                assert forall|j: int| 0 <= j <= v@.len() implies #[trigger] byte_len(v@.take(j)) != n by {
                    if j <= k {
                        lemma_byte_len_take(v@, j, k as int);
                    } else {
                        lemma_byte_len_take(v@, k + 1, j);
                    }
                }
            }
            return None;
        }
        acc = acc + w;
        k = k + 1;
    }
    if acc == n {
        proof {
            let c = choose|j: int| 0 <= j <= v@.len() && #[trigger] byte_len(v@.take(j)) == n;
            if c < k {
                lemma_byte_len_take(v@, c, k as int);
            } else if c > k {
                lemma_byte_len_take(v@, k as int, c);
            }
        }
        Some(k)
    } else {
        proof {
            assert forall|j: int| 0 <= j <= v@.len() implies #[trigger] byte_len(v@.take(j)) != n by {
                lemma_byte_len_take(v@, j, k as int);
            }
        }
        None
    }
}

/// The parts joined with a separator between them.
pub open spec fn join_with(parts: Seq<Seq<char>>, sep: Seq<char>) -> Seq<char>
    decreases parts.len(),
{
    if parts.len() == 0 {
        Seq::empty()
    } else if parts.len() == 1 {
        parts[0]
    } else {
        join_with(parts.drop_last(), sep) + sep + parts.last()
    }
}

/// The strings joined with `sep` between them.
pub fn join_strings(parts: &Vec<String>, sep: &str) -> (r: String)
    ensures
        r@ == join_with(views(parts@), sep@),
{
    let mut out = String::new();
    let mut i: usize = 0;
    while i < parts.len()
        invariant
            i <= parts@.len(),
            out@ == join_with(views(parts@).take(i as int), sep@),
        decreases parts@.len() - i,
    {
        let ghost before = views(parts@).take(i as int);
        assert(views(parts@).take(i + 1).drop_last() =~= before);
        if i > 0 {
            push_str(&mut out, sep);
        }
        push_str(&mut out, parts[i].as_str());
        i = i + 1;
        proof {
            if i == 1 {
                assert(out@ =~= views(parts@).take(1)[0]);
            }
        }
    }
    assert(views(parts@).take(parts@.len() as int) =~= views(parts@));
    out
}

/// Owned copies of the given strings, in order.
pub fn owned_strings(parts: &[&str]) -> (r: Vec<String>)
    ensures
        crate::text::views(r@) == parts@.map_values(|p: &str| p@),
{
    let mut r: Vec<String> = Vec::new();
    let mut i: usize = 0;
    while i < parts.len()
        invariant
            i <= parts@.len(),
            crate::text::views(r@) == parts@.map_values(|p: &str| p@).take(i as int),
        decreases parts@.len() - i,
    {
        let ghost old_r = r@;
        r.push(parts[i].to_owned());
        assert(crate::text::views(r@) =~= crate::text::views(old_r).push(parts@[i as int]@));
        assert(parts@.map_values(|p: &str| p@).take(i + 1) =~= parts@.map_values(|p: &str| p@).take(
            i as int,
        ).push(parts@[i as int]@));
        i = i + 1;
    }
    assert(parts@.map_values(|p: &str| p@).take(i as int) =~= parts@.map_values(|p: &str| p@));
    r
}

} // verus!
