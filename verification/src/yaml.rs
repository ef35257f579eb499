//! Layered configuration: the YAML files that are read, in which order, and
//! how each layer is merged over the ones before it.
//!
//! A YAML value is either a mapping, the sequence of its keys and values in
//! order, or any other value, seen through an id that stands for it (equal
//! values have equal ids); mapping keys are ids too.
use vstd::prelude::*;

use crate::strmap::{has_key, lemma_map_of_dom, lemma_sorted_distinct, map_of, StrMap};
use crate::paths::{join, path_join};
use crate::text::{chars_of, chars_eq};

verus! {

/// A YAML value of a configuration layer.
#[derive(Debug, PartialEq, Eq)]
pub enum YamlValue {
    /// A mapping: its key ids and values in order.
    Mapping(Vec<(u64, YamlValue)>),
    /// Any other value.
    Other(u64),
}

/// What a YAML value is, for specifications.
pub enum YamlNode {
    Mapping(Seq<(u64, YamlNode)>),
    Other(u64),
}

/// The value that `v` holds.
pub open spec fn node_of(v: YamlValue) -> YamlNode
    decreases v,
{
    match v {
        YamlValue::Mapping(m) => YamlNode::Mapping(pairs_of(m@)),
        YamlValue::Other(id) => YamlNode::Other(id),
    }
}

/// The pairs of a mapping, each value taken as what it holds.
pub open spec fn pairs_of(s: Seq<(u64, YamlValue)>) -> Seq<(u64, YamlNode)>
    decreases s,
{
    Seq::new(
        s.len(),
        |i: int|
            if 0 <= i < s.len() {
                (s[i].0, node_of(s[i].1))
            } else {
                (0, YamlNode::Other(0))
            },
    )
}

impl View for YamlValue {
    type V = YamlNode;

    open spec fn view(&self) -> YamlNode {
        node_of(*self)
    }
}

/// The first position of key `k` in a mapping.
pub open spec fn key_index<V>(m: Seq<(u64, V)>, k: u64) -> Option<int>
    decreases m.len(),
{
    if m.len() == 0 {
        None
    } else if m[0].0 == k {
        Some(0)
    } else {
        match key_index(m.drop_first(), k) {
            Some(i) => Some(i + 1),
            None => None,
        }
    }
}

/// Inserting into a mapping: an existing key keeps its place and takes the
/// new value; a new key goes at the end.
pub open spec fn mapping_insert<V>(m: Seq<(u64, V)>, k: u64, v: V) -> Seq<(u64, V)> {
    match key_index(m, k) {
        Some(i) => m.update(i, (k, v)),
        None => m.push((k, v)),
    }
}

/// Inserting the pairs of `o` into `m`, one after another.
pub open spec fn mapping_extend<V>(m: Seq<(u64, V)>, o: Seq<(u64, V)>) -> Seq<(u64, V)>
    decreases o.len(),
{
    if o.len() == 0 {
        m
    } else {
        mapping_extend(mapping_insert(m, o[0].0, o[0].1), o.drop_first())
    }
}

/// A value of a later layer over the value of an earlier one, merged at
/// every depth: two mappings give the earlier's pairs with the later's laid
/// over them (see `deep_extend`); otherwise the later value replaces the
/// earlier.
pub open spec fn merge_value(base: YamlNode, overlay: YamlNode) -> YamlNode
    decreases overlay,
{
    match overlay {
        YamlNode::Mapping(os) => match base {
            YamlNode::Mapping(bs) => YamlNode::Mapping(
                deep_extend(mapping_extend(seq![], bs), os),
            ),
            YamlNode::Other(_) => overlay,
        },
        YamlNode::Other(_) => overlay,
    }
}

/// Laying the pairs of `os` over the mapping `m`, one after another: a key
/// that `m` has keeps its place and takes the merge of its value with the
/// new one (`merge_value`); a new key goes at the end.
pub open spec fn deep_extend(m: Seq<(u64, YamlNode)>, os: Seq<(u64, YamlNode)>) -> Seq<(u64, YamlNode)>
    decreases os,
{
    if os.len() == 0 {
        m
    } else {
        let k = os[0].0;
        let v = os[0].1;
        let next = match key_index(m, k) {
            Some(i) => m.update(i, (k, merge_value(m[i].1, v))),
            None => m.push((k, v)),
        };
        deep_extend(next, os.subrange(1, os.len() as int))
    }
}

/// A layer over another: every key of either; a key of both takes the merged
/// value.
pub open spec fn merged(base: Map<Seq<char>, YamlNode>, overlay: Map<Seq<char>, YamlNode>) -> Map<Seq<char>, YamlNode> {
    Map::new(
        |k: Seq<char>| base.contains_key(k) || overlay.contains_key(k),
        |k: Seq<char>|
            if overlay.contains_key(k) {
                if base.contains_key(k) {
                    merge_value(base[k], overlay[k])
                } else {
                    overlay[k]
                }
            } else {
                base[k]
            },
    )
}

/// The top-level values of a layer, by key.
pub open spec fn nodes(m: Map<Seq<char>, YamlValue>) -> Map<Seq<char>, YamlNode> {
    m.map_values(|v: YamlValue| v@)
}

/// `key_index` gives the first position of the key, or `None` when no pair
/// has it.
pub proof fn lemma_key_index<V>(m: Seq<(u64, V)>, k: u64)
    ensures
        match key_index(m, k) {
            Some(i) => 0 <= i < m.len() && m[i].0 == k && forall|j: int| 0 <= j < i ==> m[j].0 != k,
            None => forall|j: int| 0 <= j < m.len() ==> m[j].0 != k,
        },
    decreases m.len(),
{
    if m.len() > 0 && m[0].0 != k {
        let t = m.drop_first();
        lemma_key_index(t, k);
        match key_index(t, k) {
            Some(i) => {
                assert forall|j: int| 0 <= j < i + 1 implies m[j].0 != k by {
                    if j > 0 {
                        assert(m[j] == t[j - 1]);
                    }
                }
            },
            None => {
                assert forall|j: int| 0 <= j < m.len() implies m[j].0 != k by {
                    if j > 0 {
                        assert(m[j] == t[j - 1]);
                    }
                }
            },
        }
    }
}

proof fn lemma_key_index_unique<V>(m: Seq<(u64, V)>, k: u64, i: int)
    requires
        0 <= i < m.len(),
        m[i].0 == k,
        forall|j: int| 0 <= j < i ==> m[j].0 != k,
    ensures
        key_index(m, k) == Some(i),
{
    lemma_key_index(m, k);
    match key_index(m, k) {
        Some(a) => {
            if a < i {
                assert(m[a].0 != k);
            } else if a > i {
                assert(m[i].0 != k);
            }
        },
        None => {
            assert(m[i].0 != k);
        },
    }
}

proof fn lemma_key_index_none<V>(m: Seq<(u64, V)>, k: u64)
    requires
        forall|j: int| 0 <= j < m.len() ==> m[j].0 != k,
    ensures
        key_index(m, k) is None,
{
    lemma_key_index(m, k);
    if key_index(m, k) is Some {
        let a = key_index(m, k)->0;
        assert(m[a].0 != k);
    }
}

/// The position of key `k` in a mapping, if it has it.
fn find_key(m: &Vec<(u64, YamlValue)>, k: u64) -> (r: Option<usize>)
    ensures
        match r {
            Some(i) => (i as int) < m@.len() && m@[i as int].0 == k && key_index(m@, k) == Some(
                i as int,
            ) && key_index(pairs_of(m@), k) == Some(i as int),
            None => key_index(m@, k) is None && key_index(pairs_of(m@), k) is None,
        },
{
    let ghost p = pairs_of(m@);
    let mut i: usize = 0;
    while i < m.len()
        invariant
            i <= m@.len(),
            p == pairs_of(m@),
            forall|j: int| 0 <= j < i ==> m@[j].0 != k,
        decreases m.len() - i,
    {
        if m[i].0 == k {
            proof {
                lemma_key_index_unique(m@, k, i as int);
                assert forall|j: int| 0 <= j < i implies p[j].0 != k by {
                    assert(p[j].0 == m@[j].0);
                }
                assert(p[i as int].0 == k);
                lemma_key_index_unique(p, k, i as int);
            }
            return Some(i);
        }
        i = i + 1;
    }
    proof {
        lemma_key_index_none(m@, k);
        assert forall|j: int| 0 <= j < p.len() implies p[j].0 != k by {
            assert(p[j].0 == m@[j].0);
        }
        lemma_key_index_none(p, k);
    }
    None
}

/// Inserts the pairs of `o` into `m`, one after another (see
/// `mapping_extend`).
fn plain_extend(m: &mut Vec<(u64, YamlValue)>, o: Vec<(u64, YamlValue)>)
    ensures
        pairs_of(final(m)@) == mapping_extend(pairs_of(old(m)@), pairs_of(o@)),
{
    let mut o = o;
    let ghost target = mapping_extend(pairs_of(m@), pairs_of(o@));
    while o.len() > 0
        invariant
            target == mapping_extend(pairs_of(m@), pairs_of(o@)),
        decreases o.len(),
    {
        let ghost before = pairs_of(m@);
        let ghost po = pairs_of(o@);
        let (k, v) = o.remove(0);
        proof {
            assert(po[0] == (k, node_of(v)));
            assert(pairs_of(o@) =~= po.drop_first());
        }
        match find_key(m, k) {
            Some(i) => {
                m.set(i, (k, v));
                assert(pairs_of(m@) =~= before.update(i as int, (k, node_of(v))));
            },
            None => {
                m.push((k, v));
                assert(pairs_of(m@) =~= before.push((k, node_of(v))));
            },
        }
    }
    assert(pairs_of(o@) =~= Seq::<(u64, YamlNode)>::empty());
}

/// A value of a later layer laid over the value of an earlier one (see
/// `merge_value`).
pub fn merge_values(base: YamlValue, overlay: YamlValue) -> (r: YamlValue)
    ensures
        r@ == merge_value(base@, overlay@),
    decreases overlay,
{
    let ghost ov = overlay;
    match overlay {
        YamlValue::Mapping(o) => match base {
            YamlValue::Mapping(b) => {
                let ghost o0 = o;
                let ghost os = pairs_of(o@);
                let mut m: Vec<(u64, YamlValue)> = Vec::new();
                assert(pairs_of(m@) =~= Seq::<(u64, YamlNode)>::empty());
                plain_extend(&mut m, b);
                let ghost target = deep_extend(pairs_of(m@), os);
                let mut o = o;
                let ghost mut j: int = 0;
                assert(o@.skip(0) =~= o@);
                while o.len() > 0
                    invariant
                        ov == overlay,
                        ov == YamlValue::Mapping(o0),
                        0 <= j <= o0@.len(),
                        o@ == o0@.skip(j),
                        target == deep_extend(pairs_of(m@), pairs_of(o@)),
                    decreases o.len(),
                {
                    let ghost before = pairs_of(m@);
                    let ghost po = pairs_of(o@);
                    let (k, v) = o.remove(0);
                    proof {
                        assert(o0@[j] == (k, v));
                        assert(ov->Mapping_0 == o0);
                        assert(decreases_to!(ov => ov->Mapping_0));
                        assert(decreases_to!(o0 => o0@));
                        assert(decreases_to!(o0@ => o0@[j]));
                        assert(decreases_to!(o0@[j] => o0@[j].1));
                        assert(decreases_to!(ov => v));
                        assert(po[0] == (k, node_of(v)));
                        assert(pairs_of(o@) =~= po.subrange(1, po.len() as int));
                        assert(o@ =~= o0@.skip(j + 1));
                        j = j + 1;
                    }
                    match find_key(&m, k) {
                        Some(i) => {
                            let (kk, old_v) = m.remove(i);
                            proof {
                                assert(before[i as int] == (kk, node_of(old_v)));
                            }
                            let nv = merge_values(old_v, v);
                            m.insert(i, (kk, nv));
                            assert(pairs_of(m@) =~= before.update(
                                i as int,
                                (k, merge_value(before[i as int].1, node_of(v))),
                            ));
                        },
                        None => {
                            m.push((k, v));
                            assert(pairs_of(m@) =~= before.push((k, node_of(v))));
                        },
                    }
                }
                assert(pairs_of(o@) =~= Seq::<(u64, YamlNode)>::empty());
                YamlValue::Mapping(m)
            },
            YamlValue::Other(_) => YamlValue::Mapping(o),
        },
        YamlValue::Other(id) => YamlValue::Other(id),
    }
}

proof fn lemma_merged_insert(
    base: Map<Seq<char>, YamlNode>,
    p: Map<Seq<char>, YamlNode>,
    k: Seq<char>,
    v: YamlNode,
)
    requires
        !p.contains_key(k),
    ensures
        merged(base, p.insert(k, v)) == merged(base, p).insert(
            k,
            if base.contains_key(k) {
                merge_value(base[k], v)
            } else {
                v
            },
        ),
{
    assert(merged(base, p.insert(k, v)) =~= merged(base, p).insert(
        k,
        if base.contains_key(k) {
            merge_value(base[k], v)
        } else {
            v
        },
    ));
}

/// Merges a later layer into the layers before it (see `merged`).
pub fn merge_into(base: &mut StrMap<YamlValue>, overlay: StrMap<YamlValue>)
    requires
        old(base).wf(),
        overlay.wf(),
    ensures
        final(base).wf(),
        nodes(final(base).map()) == merged(nodes(old(base).map()), nodes(overlay.map())),
{
    let ghost s = overlay@;
    let ghost start = nodes(base.map());
    proof {
        lemma_sorted_distinct(s);
    }
    let mut entries = overlay.into_entries();
    assert(s.skip(s.len() as int) =~= Seq::<(Seq<char>, YamlValue)>::empty());
    assert(nodes(map_of(s.skip(s.len() as int))) =~= Map::<Seq<char>, YamlNode>::empty());
    assert(merged(start, Map::<Seq<char>, YamlNode>::empty()) =~= start);
    while entries.len() > 0
        invariant
            base.wf(),
            crate::strmap::distinct_keys(s),
            entries@.map_values(|e: (String, YamlValue)| (e.0@, e.1)) == s.take(entries@.len() as int),
            entries@.len() <= s.len(),
            nodes(base.map()) == merged(start, nodes(map_of(s.skip(entries@.len() as int)))),
        decreases entries.len(),
    {
        let ghost n = entries@.len() as int;
        let e = entries.pop().unwrap();
        let ghost rest = s.skip(n);
        proof {
            assert(s.take(n)[n - 1] == (e.0@, e.1));
            assert(s[n - 1] == (e.0@, e.1));
            assert(entries@.map_values(|e: (String, YamlValue)| (e.0@, e.1)) =~= s.take(n - 1));
            assert(s.skip(n - 1).drop_first() =~= rest);
            assert(s.skip(n - 1)[0] == s[n - 1]);
            lemma_map_of_dom(rest, e.0@);
            if has_key(rest, e.0@) {
                let j = choose|j: int| 0 <= j < rest.len() && #[trigger] rest[j].0 == e.0@;
                assert(s[n + j].0 == e.0@);
                assert(s[n - 1].0 == e.0@);
            }
            lemma_merged_insert(start, nodes(map_of(rest)), e.0@, e.1@);
            assert(nodes(map_of(s.skip(n - 1))) =~= nodes(map_of(rest)).insert(e.0@, e.1@));
        }
        let ghost k = e.0@;
        let ghost before = base.map();
        proof {
            assert(nodes(before).contains_key(k) == start.contains_key(k));
            if start.contains_key(k) {
                assert(nodes(before)[k] == start[k]);
                assert(before[k]@ == start[k]);
            }
        }
        let combined = match base.remove(e.0.as_str()) {
            Some(b) => merge_values(b, e.1),
            None => e.1,
        };
        assert(combined@ == (if start.contains_key(k) {
            merge_value(start[k], s[n - 1].1@)
        } else {
            s[n - 1].1@
        }));
        base.insert(e.0, combined);
        assert(base.map() =~= before.insert(k, combined));
        assert(nodes(base.map()) =~= nodes(before).insert(k, combined@));
        assert(nodes(base.map()) =~= merged(start, nodes(map_of(s.skip(n - 1)))));
    }
    assert(s.skip(0) =~= s);
}

/// The extension of a file name (`Path::extension`): the text after the last
/// `.`, unless that `.` begins the name or there is none.
pub open spec fn extension_of(name: Seq<char>) -> Option<Seq<char>>
    decreases name.len(),
{
    if name.len() <= 1 {
        None
    } else if name.last() == '.' {
        Some(Seq::<char>::empty())
    } else {
        match extension_of(name.drop_last()) {
            Some(e) => Some(e.push(name.last())),
            None => None,
        }
    }
}

/// A file read as a configuration layer: its extension is `yaml` or `yml`.
pub open spec fn is_yaml_name(name: Seq<char>) -> bool {
    extension_of(name) == Some("yaml"@) || extension_of(name) == Some("yml"@)
}

/// The extension of a file name, if it has one.
pub fn file_extension(name: &str) -> (r: Option<String>)
    ensures
        match r {
            Some(e) => extension_of(name@) == Some(e@),
            None => extension_of(name@) is None,
        },
{
    let v = chars_of(name);
    if v.len() <= 1 {
        return None;
    }
    let mut k = v.len();
    assert(v@.take(v@.len() as int) =~= v@);
    while k > 1 && v[k - 1] != '.'
        invariant
            1 <= k <= v@.len(),
            v@ == name@,
            match extension_of(name@) {
                Some(e) => match extension_of(v@.take(k as int)) {
                    Some(f) => e == f + v@.subrange(k as int, v@.len() as int),
                    None => false,
                },
                None => extension_of(v@.take(k as int)) is None,
            },
        decreases k,
    {
        let ghost t = v@.take(k as int);
        assert(t.drop_last() =~= v@.take(k - 1));
        assert(t.last() == v@[k - 1]);
        proof {
            match extension_of(v@.take(k - 1)) {
                Some(f) => {
                    assert(f.push(v@[k - 1]) + v@.subrange(k as int, v@.len() as int) =~= f
                        + v@.subrange(k - 1, v@.len() as int));
                },
                None => {},
            }
        }
        k = k - 1;
    }
    if k == 1 {
        assert(extension_of(v@.take(1)) is None);
        None
    } else {
        assert(v@.take(k as int).last() == v@[k - 1]);
        assert(Seq::<char>::empty() + v@.subrange(k as int, v@.len() as int) =~= v@.subrange(
            k as int,
            v@.len() as int,
        ));
        Some(crate::text::string_of_range(&v, k, v.len()))
    }
}

/// Whether a file is read as a configuration layer.
pub fn is_yaml_file(name: &str) -> (r: bool)
    ensures
        r == is_yaml_name(name@),
{
    match file_extension(name) {
        Some(e) => {
            let ev = chars_of(e.as_str());
            chars_eq(&ev, &chars_of("yaml")) || chars_eq(&ev, &chars_of("yml"))
        },
        None => false,
    }
}

/// The files of a directory that are read as layers, by name in ascending
/// order: those whose extension is `yaml` or `yml`.
pub fn yaml_files(names: Vec<String>) -> (r: Vec<String>)
    ensures
        forall|a: int, b: int|
            0 <= a < b < r@.len() ==> crate::strmap::key_lt(#[trigger] r@[a]@, #[trigger] r@[b]@),
        forall|k: Seq<char>|
            #![trigger crate::text::views(r@).contains(k)]
            #![trigger crate::text::views(names@).contains(k)]
            crate::text::views(r@).contains(k) <==> (crate::text::views(names@).contains(k)
                && is_yaml_name(k)),
{
    let mut set: StrMap<()> = StrMap::new();
    let mut i: usize = 0;
    while i < names.len()
        invariant
            i <= names@.len(),
            set.wf(),
            forall|k: Seq<char>|
                set.map().contains_key(k) <==> (exists|j: int|
                    0 <= j < i && #[trigger] names@[j]@ == k && is_yaml_name(k)),
        decreases names.len() - i,
    {
        if is_yaml_file(names[i].as_str()) {
            set.insert(names[i].clone(), ());
        }
        proof {
            assert forall|k: Seq<char>|
                set.map().contains_key(k) <==> (exists|j: int|
                    0 <= j < i + 1 && #[trigger] names@[j]@ == k && is_yaml_name(k)) by {
                if k == names@[i as int]@ && is_yaml_name(k) {
                    assert(names@[i as int]@ == k);
                }
            }
        }
        i = i + 1;
    }
    let r = set.keys();
    proof {
        lemma_sorted_distinct(set@);
    }
    assert forall|k: Seq<char>|
        #![trigger crate::text::views(r@).contains(k)]
        #![trigger crate::text::views(names@).contains(k)]
            crate::text::views(r@).contains(k) <==> (crate::text::views(names@).contains(k)
                && is_yaml_name(k)) by {
            lemma_map_of_dom(set@, k);
            if crate::text::views(r@).contains(k) {
                let j = choose|j: int| 0 <= j < crate::text::views(r@).len() && crate::text::views(r@)[j] == k;
                assert(set@[j].0 == k);
                assert(has_key(set@, k));
                assert(set.map().contains_key(k));
                let a = choose|j: int| 0 <= j < i && #[trigger] names@[j]@ == k && is_yaml_name(k);
                assert(crate::text::views(names@)[a] == k);
            }
            if crate::text::views(names@).contains(k) && is_yaml_name(k) {
                let a = choose|a: int| 0 <= a < crate::text::views(names@).len() && crate::text::views(names@)[a] == k;
                assert(names@[a]@ == k);
                assert(set.map().contains_key(k));
                let j = choose|j: int| 0 <= j < set@.len() && #[trigger] set@[j].0 == k;
                assert(crate::text::views(r@)[j] == k);
            }
        }
    proof {
        assert forall|a: int, b: int| 0 <= a < b < r@.len() implies crate::strmap::key_lt(
            #[trigger] r@[a]@,
            #[trigger] r@[b]@,
        ) by {
            assert(crate::text::views(r@)[a] == set@[a].0);
            assert(crate::text::views(r@)[b] == set@[b].0);
        }
    }
    r
}


/// A source of configuration: a directory whose YAML files are read in name
/// order, or one file.
pub enum Layer {
    Dir(String),
    File(String),
}

/// A layer for specifications: whether it is a directory, and its path.
pub open spec fn layer_view(l: Layer) -> (bool, Seq<char>) {
    match l {
        Layer::Dir(p) => (true, p@),
        Layer::File(p) => (false, p@),
    }
}

/// The layers of the configuration, lowest precedence first: `config.d` and
/// `config.yaml` of the user's configuration directory, then `config` and
/// `config.yaml` beside the binary (when its directory is known), then the
/// directory `AX_CONFIG_DIR` names and its `config.yaml` (when it is set).
pub open spec fn layers_of(user_dir: Seq<char>, bin_dir: Option<Seq<char>>, env_dir: Option<Seq<char>>) -> Seq<(bool, Seq<char>)> {
    seq![(true, path_join(user_dir, "config.d"@)), (false, path_join(user_dir, "config.yaml"@))]
        + (match bin_dir {
        Some(b) => seq![(true, path_join(b, "config"@)), (false, path_join(b, "config.yaml"@))],
        None => Seq::empty(),
    }) + (match env_dir {
        Some(e) => seq![(true, e), (false, path_join(e, "config.yaml"@))],
        None => Seq::empty(),
    })
}

/// The layers of the configuration in the order they are merged (see
/// `layers_of`); `env_dir` is `AX_CONFIG_DIR` with `~` already expanded.
pub fn config_layers(user_dir: &str, bin_dir: Option<&str>, env_dir: Option<&str>) -> (r: Vec<Layer>)
    ensures
        r@.map_values(|l: Layer| layer_view(l)) == layers_of(
            user_dir@,
            crate::config::opt_view(bin_dir),
            crate::config::opt_view(env_dir),
        ),
{
    let mut r: Vec<Layer> = Vec::new();
    r.push(Layer::Dir(join(user_dir, "config.d")));
    r.push(Layer::File(join(user_dir, "config.yaml")));
    match bin_dir {
        Some(b) => {
            r.push(Layer::Dir(join(b, "config")));
            r.push(Layer::File(join(b, "config.yaml")));
        },
        None => {},
    }
    match env_dir {
        Some(e) => {
            r.push(Layer::Dir(e.to_owned()));
            r.push(Layer::File(join(e, "config.yaml")));
        },
        None => {},
    }
    assert(r@.map_values(|l: Layer| layer_view(l)) =~= layers_of(
        user_dir@,
        crate::config::opt_view(bin_dir),
        crate::config::opt_view(env_dir),
    ));
    r
}

} // verus!
