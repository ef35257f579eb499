//! A map from strings to values that keeps its keys in ascending order, as
//! the configuration's command, environment and host tables do.
use vstd::prelude::*;

use crate::text::chars_of;

verus! {

// ---------------------------------------------------------------------------
// Key order
// ---------------------------------------------------------------------------

/// Lexicographic order of character sequences by code point (the order of
/// `String`s, whose UTF-8 bytes compare the same way).
pub open spec fn key_lt(a: Seq<char>, b: Seq<char>) -> bool
    decreases a.len(),
{
    if a.len() == 0 {
        b.len() > 0
    } else if b.len() == 0 {
        false
    } else if a[0] != b[0] {
        (a[0] as u32) < (b[0] as u32)
    } else {
        key_lt(a.drop_first(), b.drop_first())
    }
}

/// No key is below itself.
pub proof fn lemma_key_lt_irreflexive(a: Seq<char>)
    ensures
        !key_lt(a, a),
    decreases a.len(),
{
    if a.len() > 0 {
        lemma_key_lt_irreflexive(a.drop_first());
    }
}

/// Of two keys, at most one is below the other.
pub proof fn lemma_key_lt_asymmetric(a: Seq<char>, b: Seq<char>)
    ensures
        key_lt(a, b) ==> !key_lt(b, a),
    decreases a.len(),
{
    if a.len() > 0 && b.len() > 0 && a[0] == b[0] {
        lemma_key_lt_asymmetric(a.drop_first(), b.drop_first());
    }
}

/// The key order is transitive.
pub proof fn lemma_key_lt_transitive(a: Seq<char>, b: Seq<char>, c: Seq<char>)
    requires
        key_lt(a, b),
        key_lt(b, c),
    ensures
        key_lt(a, c),
    decreases a.len(),
{
    if a.len() > 0 && b.len() > 0 && c.len() > 0 && a[0] == b[0] && b[0] == c[0] {
        lemma_key_lt_transitive(a.drop_first(), b.drop_first(), c.drop_first());
    }
}

proof fn lemma_code_injective(x: char, y: char)
    requires
        x as u32 == y as u32,
    ensures
        x == y,
{
}

/// Of two different keys, one is below the other.
pub proof fn lemma_key_lt_total(a: Seq<char>, b: Seq<char>)
    requires
        a != b,
    ensures
        key_lt(a, b) || key_lt(b, a),
    decreases a.len(),
{
    if a.len() > 0 && b.len() > 0 && a[0] == b[0] {
        if a.drop_first() == b.drop_first() {
            assert(a =~= seq![a[0]] + a.drop_first());
            assert(b =~= seq![b[0]] + b.drop_first());
        }
        lemma_key_lt_total(a.drop_first(), b.drop_first());
    } else if a.len() > 0 && b.len() > 0 {
        if a[0] as u32 == b[0] as u32 {
            lemma_code_injective(a[0], b[0]);
        }
    } else if a.len() == 0 && b.len() == 0 {
        assert(a =~= b);
    }
}

/// Whether `a` sorts before `b`.
pub fn key_less(a: &str, b: &str) -> (r: bool)
    ensures
        r == key_lt(a@, b@),
{
    let av = chars_of(a);
    let bv = chars_of(b);
    let mut i: usize = 0;
    assert(a@.skip(0) =~= a@);
    assert(b@.skip(0) =~= b@);
    while i < av.len() && i < bv.len() && av[i] == bv[i]
        invariant
            av@ == a@,
            bv@ == b@,
            i <= av@.len(),
            i <= bv@.len(),
            key_lt(a@, b@) == key_lt(a@.skip(i as int), b@.skip(i as int)),
        decreases av.len() - i,
    {
        assert(a@.skip(i as int).drop_first() =~= a@.skip(i + 1));
        assert(b@.skip(i as int).drop_first() =~= b@.skip(i + 1));
        i = i + 1;
    }
    if i == av.len() {
        i < bv.len()
    } else if i == bv.len() {
        false
    } else {
        assert(a@.skip(i as int)[0] == a@[i as int]);
        assert(b@.skip(i as int)[0] == b@[i as int]);
        (av[i] as u32) < (bv[i] as u32)
    }
}

// ---------------------------------------------------------------------------
// Sequences of entries
// ---------------------------------------------------------------------------

/// Keys ascend strictly.
pub open spec fn sorted<V>(s: Seq<(Seq<char>, V)>) -> bool {
    forall|i: int, j: int| 0 <= i < j < s.len() ==> key_lt(#[trigger] s[i].0, #[trigger] s[j].0)
}

/// No key occurs twice.
pub open spec fn distinct_keys<V>(s: Seq<(Seq<char>, V)>) -> bool {
    forall|i: int, j: int| 0 <= i < s.len() && 0 <= j < s.len() && i != j ==> #[trigger] s[i].0
        != #[trigger] s[j].0
}

/// `k` is a key of some entry.
pub open spec fn has_key<V>(s: Seq<(Seq<char>, V)>, k: Seq<char>) -> bool {
    exists|i: int| 0 <= i < s.len() && #[trigger] s[i].0 == k
}

/// The map that a sequence of entries stands for (an earlier entry wins).
pub open spec fn map_of<V>(s: Seq<(Seq<char>, V)>) -> Map<Seq<char>, V>
    decreases s.len(),
{
    if s.len() == 0 {
        Map::empty()
    } else {
        map_of(s.drop_first()).insert(s[0].0, s[0].1)
    }
}

/// Sorted entries have distinct keys.
pub proof fn lemma_sorted_distinct<V>(s: Seq<(Seq<char>, V)>)
    requires
        sorted(s),
    ensures
        distinct_keys(s),
{
    assert forall|i: int, j: int|
        0 <= i < s.len() && 0 <= j < s.len() && i != j implies #[trigger] s[i].0
        != #[trigger] s[j].0 by {
        if i < j {
            assert(key_lt(s[i].0, s[j].0));
            lemma_key_lt_irreflexive(s[i].0);
        } else {
            assert(key_lt(s[j].0, s[i].0));
            lemma_key_lt_irreflexive(s[j].0);
        }
    }
}

/// The keys of `map_of(s)` are the keys of the entries.
pub proof fn lemma_map_of_dom<V>(s: Seq<(Seq<char>, V)>, k: Seq<char>)
    ensures
        map_of(s).contains_key(k) <==> has_key(s, k),
    decreases s.len(),
{
    if s.len() > 0 {
        lemma_map_of_dom(s.drop_first(), k);
        if has_key(s.drop_first(), k) {
            let i = choose|i: int| 0 <= i < s.drop_first().len() && #[trigger] s.drop_first()[i].0 == k;
            assert(s[i + 1].0 == k);
        }
        if has_key(s, k) && s[0].0 != k {
            let i = choose|i: int| 0 <= i < s.len() && #[trigger] s[i].0 == k;
            assert(s.drop_first()[i - 1].0 == k);
        }
    }
}

/// With distinct keys, each entry is found in `map_of`.
pub proof fn lemma_map_of_lookup<V>(s: Seq<(Seq<char>, V)>, i: int)
    requires
        distinct_keys(s),
        0 <= i < s.len(),
    ensures
        map_of(s).contains_key(s[i].0),
        map_of(s)[s[i].0] == s[i].1,
    decreases s.len(),
{
    if i > 0 {
        let t = s.drop_first();
        assert forall|a: int, b: int|
            0 <= a < t.len() && 0 <= b < t.len() && a != b implies #[trigger] t[a].0
            != #[trigger] t[b].0 by {
            assert(s[a + 1].0 != s[b + 1].0);
        }
        assert(t[i - 1] == s[i]);
        lemma_map_of_lookup(t, i - 1);
        assert(s[0].0 != s[i].0);
    }
}

proof fn lemma_distinct_drop_first<V>(s: Seq<(Seq<char>, V)>)
    requires
        distinct_keys(s),
        s.len() > 0,
    ensures
        distinct_keys(s.drop_first()),
        !has_key(s.drop_first(), s[0].0),
{
    let t = s.drop_first();
    assert forall|a: int, b: int|
        0 <= a < t.len() && 0 <= b < t.len() && a != b implies #[trigger] t[a].0
        != #[trigger] t[b].0 by {
        assert(s[a + 1].0 != s[b + 1].0);
    }
    if has_key(t, s[0].0) {
        let i = choose|i: int| 0 <= i < t.len() && #[trigger] t[i].0 == s[0].0;
        assert(s[i + 1].0 == s[0].0);
    }
}

/// With distinct keys, the map has exactly as many keys as there are
/// entries.
pub proof fn lemma_map_of_len<V>(s: Seq<(Seq<char>, V)>)
    requires
        distinct_keys(s),
    ensures
        map_of(s).dom().finite(),
        map_of(s).dom().len() == s.len(),
    decreases s.len(),
{
    if s.len() > 0 {
        lemma_distinct_drop_first(s);
        lemma_map_of_len(s.drop_first());
        lemma_map_of_dom(s.drop_first(), s[0].0);
        assert(map_of(s).dom() =~= map_of(s.drop_first()).dom().insert(s[0].0));
    } else {
        assert(map_of(s).dom() =~= Set::<Seq<char>>::empty());
    }
}

/// Inserting an entry with a new key inserts into the map.
pub proof fn lemma_map_of_insert_at<V>(s: Seq<(Seq<char>, V)>, pos: int, e: (Seq<char>, V))
    requires
        0 <= pos <= s.len(),
        !has_key(s, e.0),
    ensures
        map_of(s.insert(pos, e)) == map_of(s).insert(e.0, e.1),
    decreases pos,
{
    let t = s.insert(pos, e);
    if pos == 0 {
        assert(t.drop_first() =~= s);
    } else {
        let s1 = s.drop_first();
        assert(t.drop_first() =~= s1.insert(pos - 1, e));
        if has_key(s1, e.0) {
            let i = choose|i: int| 0 <= i < s1.len() && #[trigger] s1[i].0 == e.0;
            assert(s[i + 1].0 == e.0);
        }
        lemma_map_of_insert_at(s1, pos - 1, e);
        assert(t[0] == s[0]);
        assert(s[0].0 != e.0);
        assert(map_of(t) =~= map_of(s).insert(e.0, e.1));
    }
}

/// Replacing the value of an entry replaces it in the map.
pub proof fn lemma_map_of_update<V>(s: Seq<(Seq<char>, V)>, i: int, v: V)
    requires
        distinct_keys(s),
        0 <= i < s.len(),
    ensures
        map_of(s.update(i, (s[i].0, v))) == map_of(s).insert(s[i].0, v),
    decreases i,
{
    let t = s.update(i, (s[i].0, v));
    if i == 0 {
        assert(t.drop_first() =~= s.drop_first());
        assert(map_of(t) =~= map_of(s).insert(s[i].0, v));
    } else {
        let s1 = s.drop_first();
        lemma_distinct_drop_first(s);
        assert(t.drop_first() =~= s1.update(i - 1, (s1[i - 1].0, v)));
        lemma_map_of_update(s1, i - 1, v);
        assert(s[0].0 != s[i].0);
        assert(map_of(t) =~= map_of(s).insert(s[i].0, v));
    }
}

/// Removing an entry removes its key from the map.
pub proof fn lemma_map_of_remove<V>(s: Seq<(Seq<char>, V)>, i: int)
    requires
        distinct_keys(s),
        0 <= i < s.len(),
    ensures
        map_of(s.remove(i)) == map_of(s).remove(s[i].0),
    decreases i,
{
    let t = s.remove(i);
    let s1 = s.drop_first();
    lemma_distinct_drop_first(s);
    if i == 0 {
        assert(t =~= s1);
        lemma_map_of_dom(s1, s[0].0);
        assert(map_of(t) =~= map_of(s).remove(s[i].0));
    } else {
        assert(t.drop_first() =~= s1.remove(i - 1));
        lemma_map_of_remove(s1, i - 1);
        assert(s[0].0 != s[i].0);
        assert(map_of(t) =~= map_of(s).remove(s[i].0));
    }
}

// ---------------------------------------------------------------------------
// The map
// ---------------------------------------------------------------------------

/// Entries with string keys, kept in ascending key order with each key once.
pub struct StrMap<V> {
    entries: Vec<(String, V)>,
}

impl<V> View for StrMap<V> {
    type V = Seq<(Seq<char>, V)>;

    /// The entries in key order, keys by their characters.
    closed spec fn view(&self) -> Seq<(Seq<char>, V)> {
        self.entries@.map_values(|e: (String, V)| (e.0@, e.1))
    }
}

impl<V> StrMap<V> {
    /// Keys ascend strictly.
    pub open spec fn wf(&self) -> bool {
        sorted(self@)
    }

    /// The map that the entries stand for.
    pub open spec fn map(&self) -> Map<Seq<char>, V> {
        map_of(self@)
    }

    /// An empty map.
    pub fn new() -> (m: Self)
        ensures
            m.wf(),
            m@ == Seq::<(Seq<char>, V)>::empty(),
    {
        let m = StrMap { entries: Vec::new() };
        assert(m@ =~= Seq::<(Seq<char>, V)>::empty());
        m
    }

    /// The number of entries: in a well-formed map, the number of keys.
    pub fn len(&self) -> (n: usize)
        ensures
            n == self@.len(),
            self.wf() ==> n == self.map().dom().len() && self.map().dom().finite(),
    {
        proof {
            if self.wf() {
                lemma_sorted_distinct(self@);
                lemma_map_of_len(self@);
            }
        }
        self.entries.len()
    }

    /// Whether there are no entries.
    pub fn is_empty(&self) -> (b: bool)
        ensures
            b == (self@.len() == 0),
    {
        self.entries.len() == 0
    }

    /// The key of the `i`-th entry in key order.
    pub fn key_at(&self, i: usize) -> (k: &String)
        requires
            i < self@.len(),
        ensures
            k@ == self@[i as int].0,
    {
        &self.entries[i].0
    }

    /// The value of the `i`-th entry in key order.
    pub fn value_at(&self, i: usize) -> (v: &V)
        requires
            i < self@.len(),
        ensures
            *v == self@[i as int].1,
    {
        &self.entries[i].1
    }

    /// The index of the entry with key `key`, if there is one.
    pub fn position(&self, key: &str) -> (r: Option<usize>)
        ensures
            match r {
                Some(i) => i < self@.len() && self@[i as int].0 == key@,
                None => !has_key(self@, key@),
            },
    {
        let k = key.to_owned();
        let mut i: usize = 0;
        while i < self.entries.len()
            invariant
                k@ == key@,
                i <= self@.len(),
                self@.len() == self.entries@.len(),
                forall|j: int| 0 <= j < i ==> self@[j].0 != key@,
            decreases self.entries.len() - i,
        {
            if self.entries[i].0 == k {
                return Some(i);
            }
            i = i + 1;
        }
        assert(!has_key(self@, key@)) by {
            if has_key(self@, key@) {
                let j = choose|j: int| 0 <= j < self@.len() && #[trigger] self@[j].0 == key@;
                assert(self@[j].0 != key@);
            }
        }
        None
    }

    /// Whether `key` has an entry.
    pub fn contains_key(&self, key: &str) -> (b: bool)
        requires
            self.wf(),
        ensures
            b == self.map().contains_key(key@),
    {
        proof {
            lemma_map_of_dom(self@, key@);
        }
        match self.position(key) {
            Some(i) => {
                assert(has_key(self@, key@));
                true
            },
            None => false,
        }
    }

    /// The value for `key`, if it has an entry.
    pub fn get(&self, key: &str) -> (r: Option<&V>)
        requires
            self.wf(),
        ensures
            match r {
                Some(v) => self.map().contains_key(key@) && *v == self.map()[key@],
                None => !self.map().contains_key(key@),
            },
    {
        proof {
            lemma_map_of_dom(self@, key@);
            lemma_sorted_distinct(self@);
        }
        match self.position(key) {
            Some(i) => {
                proof {
                    lemma_map_of_lookup(self@, i as int);
                }
                Some(&self.entries[i].1)
            },
            None => None,
        }
    }

    /// Sets `key` to `value`: an existing entry is updated in place, a new key
    /// gets an entry at its place in key order.
    pub fn insert(&mut self, key: String, value: V)
        requires
            old(self).wf(),
        ensures
            final(self).wf(),
            final(self).map() == old(self).map().insert(key@, value),
    {
        proof {
            lemma_sorted_distinct(self@);
        }
        let ghost s = self@;
        let mut i: usize = 0;
        while i < self.entries.len() && key_less(self.entries[i].0.as_str(), key.as_str())
            invariant
                self@ == s,
                sorted(s),
                i <= s.len(),
                self@.len() == self.entries@.len(),
                forall|j: int| 0 <= j < i ==> key_lt(#[trigger] s[j].0, key@),
            decreases self.entries.len() - i,
        {
            i = i + 1;
        }
        if i < self.entries.len() && self.entries[i].0 == key {
            let ghost k = s[i as int].0;
            self.entries.set(i, (key, value));
            proof {
                assert(self@ =~= s.update(i as int, (k, value)));
                lemma_map_of_update(s, i as int, value);
                assert forall|a: int, b: int| 0 <= a < b < self@.len() implies key_lt(
                    #[trigger] self@[a].0,
                    #[trigger] self@[b].0,
                ) by {
                    assert(self@[a].0 == s[a].0);
                    assert(self@[b].0 == s[b].0);
                }
            }
        } else {
            let ghost kv = key@;
            proof {
                if i < s.len() {
                    assert(!key_lt(s[i as int].0, kv));
                    assert(s[i as int].0 != kv);
                    lemma_key_lt_total(s[i as int].0, kv);
                }
                assert(!has_key(s, kv)) by {
                    if has_key(s, kv) {
                        let j = choose|j: int| 0 <= j < s.len() && #[trigger] s[j].0 == kv;
                        if j < i {
                            assert(key_lt(s[j].0, kv));
                            lemma_key_lt_irreflexive(kv);
                        } else if j > i {
                            assert(key_lt(s[i as int].0, s[j].0));
                            assert(key_lt(kv, s[i as int].0));
                            lemma_key_lt_transitive(kv, s[i as int].0, s[j].0);
                            lemma_key_lt_irreflexive(kv);
                        }
                    }
                }
            }
            self.entries.insert(i, (key, value));
            proof {
                assert(self@ =~= s.insert(i as int, (kv, value)));
                lemma_map_of_insert_at(s, i as int, (kv, value));
                let t = self@;
                assert forall|a: int, b: int| 0 <= a < b < t.len() implies key_lt(
                    #[trigger] t[a].0,
                    #[trigger] t[b].0,
                ) by {
                    if b < i {
                        assert(t[a] == s[a] && t[b] == s[b]);
                    } else if b == i {
                        assert(t[a] == s[a]);
                    } else if a == i {
                        assert(t[b] == s[b - 1]);
                        if b - 1 > i {
                            lemma_key_lt_transitive(kv, s[i as int].0, s[b - 1].0);
                        }
                    } else if a < i {
                        assert(t[a] == s[a] && t[b] == s[b - 1]);
                    } else {
                        assert(t[a] == s[a - 1] && t[b] == s[b - 1]);
                    }
                }
            }
        }
    }

    /// Removes the entry for `key` and gives its value back, if there was one.
    pub fn remove(&mut self, key: &str) -> (r: Option<V>)
        requires
            old(self).wf(),
        ensures
            final(self).wf(),
            final(self).map() == old(self).map().remove(key@),
            match r {
                Some(v) => old(self).map().contains_key(key@) && v == old(self).map()[key@],
                None => !old(self).map().contains_key(key@),
            },
    {
        proof {
            lemma_sorted_distinct(self@);
            lemma_map_of_dom(self@, key@);
        }
        let ghost s = self@;
        match self.position(key) {
            Some(i) => {
                proof {
                    lemma_map_of_lookup(s, i as int);
                    lemma_map_of_remove(s, i as int);
                }
                let e = self.entries.remove(i);
                proof {
                    assert(self@ =~= s.remove(i as int));
                    let t = self@;
                    assert forall|a: int, b: int| 0 <= a < b < t.len() implies key_lt(
                        #[trigger] t[a].0,
                        #[trigger] t[b].0,
                    ) by {
                        if b < i {
                            assert(t[a] == s[a] && t[b] == s[b]);
                        } else if a < i {
                            assert(t[a] == s[a] && t[b] == s[b + 1]);
                        } else {
                            assert(t[a] == s[a + 1] && t[b] == s[b + 1]);
                        }
                    }
                }
                Some(e.1)
            },
            None => {
                assert(map_of(s).remove(key@) =~= map_of(s));
                None
            },
        }
    }

    /// Replaces the value of the `i`-th entry, keeping its key.
    pub fn set_value_at(&mut self, i: usize, value: V)
        requires
            old(self).wf(),
            i < old(self)@.len(),
        ensures
            final(self).wf(),
            final(self)@ == old(self)@.update(i as int, (old(self)@[i as int].0, value)),
            final(self).map() == old(self).map().insert(old(self)@[i as int].0, value),
    {
        let ghost s = self@;
        proof {
            lemma_sorted_distinct(s);
            lemma_map_of_update(s, i as int, value);
        }
        let k = self.entries[i].0.clone();
        self.entries.set(i, (k, value));
        proof {
            assert(self@ =~= s.update(i as int, (s[i as int].0, value)));
            assert forall|a: int, b: int| 0 <= a < b < self@.len() implies key_lt(
                #[trigger] self@[a].0,
                #[trigger] self@[b].0,
            ) by {
                assert(self@[a].0 == s[a].0);
                assert(self@[b].0 == s[b].0);
            }
        }
    }

    /// Adds every entry of `other`; where both have a key, `other`'s value wins.
    pub fn extend(&mut self, other: StrMap<V>)
        requires
            old(self).wf(),
        ensures
            final(self).wf(),
            final(self).map() == old(self).map().union_prefer_right(other.map()),
    {
        let ghost s = other@;
        let ghost base = self.map();
        let mut entries = other.entries;
        assert(s.skip(s.len() as int) =~= Seq::<(Seq<char>, V)>::empty());
        assert(base.union_prefer_right(Map::<Seq<char>, V>::empty()) =~= base);
        while entries.len() > 0
            invariant
                self.wf(),
                entries@.map_values(|e: (String, V)| (e.0@, e.1)) == s.take(entries@.len() as int),
                entries@.len() <= s.len(),
                self.map() == base.union_prefer_right(map_of(s.skip(entries@.len() as int))),
            decreases entries.len(),
        {
            let ghost n = entries@.len() as int;
            let e = entries.pop().unwrap();
            proof {
                assert(s.take(n)[n - 1] == (e.0@, e.1));
                assert(s[n - 1] == (e.0@, e.1));
                assert(entries@.map_values(|e: (String, V)| (e.0@, e.1)) =~= s.take(n - 1));
                assert(s.skip(n - 1).drop_first() =~= s.skip(n));
                assert(s.skip(n - 1)[0] == s[n - 1]);
            }
            self.insert(e.0, e.1);
            assert(self.map() =~= base.union_prefer_right(map_of(s.skip(n - 1))));
        }
        assert(s.skip(0) =~= s);
    }

    /// The entries, in key order.
    pub fn into_entries(self) -> (r: Vec<(String, V)>)
        ensures
            r@.map_values(|e: (String, V)| (e.0@, e.1)) == self@,
    {
        self.entries
    }

    /// The keys, in ascending order.
    pub fn keys(&self) -> (r: Vec<String>)
        ensures
            crate::text::views(r@) == self@.map_values(|e: (Seq<char>, V)| e.0),
    {
        let mut r: Vec<String> = Vec::new();
        let mut i: usize = 0;
        while i < self.entries.len()
            invariant
                i <= self@.len(),
                self@.len() == self.entries@.len(),
                crate::text::views(r@) == self@.map_values(|e: (Seq<char>, V)| e.0).take(i as int),
            decreases self.entries.len() - i,
        {
            let ghost old_r = r@;
            let k = self.entries[i].0.clone();
            r.push(k);
            assert(crate::text::views(r@) =~= crate::text::views(old_r).push(self@[i as int].0));
            assert(self@.map_values(|e: (Seq<char>, V)| e.0).take(i + 1) =~= self@.map_values(
                |e: (Seq<char>, V)| e.0,
            ).take(i as int).push(self@[i as int].0));
            i = i + 1;
        }
        assert(self@.map_values(|e: (Seq<char>, V)| e.0).take(i as int) =~= self@.map_values(
            |e: (Seq<char>, V)| e.0,
        ));
        r
    }
}

} // verus!
