//! Analyzer context: contextual strings and user data, each kept in a map
//! keyed by a string tag and ordered by the tag as Rust orders strings.
use vstd::prelude::*;
use crate::text::{text_before, text_order, TextOrder, lemma_text_before_strict_total};

verus! {

/// A key made of one string.
pub trait StringTag: Sized {
    /// The text of the tag.
    spec fn tag_text(&self) -> Seq<char>;

    /// The text of the tag, borrowed.
    fn text(&self) -> (s: &str)
        ensures
            s@ == self.tag_text(),
    ;

    /// A copy of the tag.
    fn duplicate(&self) -> (r: Self)
        ensures
            r.tag_text() == self.tag_text(),
    ;
}

/// A value that can be stored under a tag and copied with its contents.
pub trait TagValue: DeepView + Sized {
    /// A copy of the value, with the same contents.
    fn duplicate(&self) -> (r: Self)
        ensures
            r.deep_view() == self.deep_view(),
    ;
}

impl TagValue for String {
    fn duplicate(&self) -> (r: String) {
        self.clone()
    }
}

impl TagValue for Vec<String> {
    fn duplicate(&self) -> (r: Vec<String>) {
        let mut r: Vec<String> = Vec::new();
        let mut i: usize = 0;
        while i < self.len()
            invariant
                i <= self@.len(),
                r@.len() == i,
                forall|j: int| 0 <= j < i ==> #[trigger] r@[j] == self@[j],
            decreases self@.len() - i,
        {
            r.push(self[i].clone());
            i = i + 1;
        }
        assert(r.deep_view() =~= self.deep_view());
        r
    }
}

/// A map from tags to values whose entries stand in ascending tag order,
/// each tag once: the entries of a `BTreeMap` keyed by the tags.
#[derive(Debug, PartialEq, Eq)]
pub struct TagMap<K: StringTag, V: TagValue> {
    entries: Vec<(K, V)>,
}

/// The tags of a sequence of entries.
pub open spec fn entry_keys<K: StringTag, V>(entries: Seq<(K, V)>) -> Seq<Seq<char>> {
    entries.map_values(|e: (K, V)| e.0.tag_text())
}

/// The map that pairs each of `keys` with the value at its position.
pub open spec fn keyed_map<W>(keys: Seq<Seq<char>>, vals: Seq<W>) -> Map<Seq<char>, W> {
    Map::new(|k: Seq<char>| keys.contains(k), |k: Seq<char>| vals[key_position(keys, k)])
}

/// A position at which `k` stands among `keys`, when it stands there.
pub open spec fn key_position(keys: Seq<Seq<char>>, k: Seq<char>) -> int {
    choose|i: int| 0 <= i < keys.len() && keys[i] == k
}

/// Tags that ascend strictly.
pub open spec fn strictly_ascending(keys: Seq<Seq<char>>) -> bool {
    forall|i: int, j: int| 0 <= i < j < keys.len() ==> text_before(#[trigger] keys[i], #[trigger] keys[j])
}

/// Strictly ascending tags are distinct.
pub proof fn lemma_ascending_distinct(keys: Seq<Seq<char>>, i: int, j: int)
    requires
        strictly_ascending(keys),
        0 <= i < keys.len(),
        0 <= j < keys.len(),
        i != j,
    ensures
        keys[i] != keys[j],
{
    lemma_text_before_strict_total(keys[i], keys[j], keys[i]);
    if i < j {
        assert(text_before(keys[i], keys[j]));
    } else {
        assert(text_before(keys[j], keys[i]));
    }
}

/// Under ascending tags, the tag at a position maps to the value at that position.
pub proof fn lemma_keyed_map_at<W>(keys: Seq<Seq<char>>, vals: Seq<W>, p: int)
    requires
        strictly_ascending(keys),
        0 <= p < keys.len(),
    ensures
        keyed_map(keys, vals).contains_key(keys[p]),
        keyed_map(keys, vals)[keys[p]] == vals[p],
{
    let k = keys[p];
    assert(keys.contains(k));
    let i = key_position(keys, k);
    assert(keyed_map(keys, vals)[k] == vals[i]);
    if i != p {
        lemma_ascending_distinct(keys, i, p);
    }
}

/// Replacing the value at a position replaces the value of its tag.
pub proof fn lemma_keyed_map_update<W>(keys: Seq<Seq<char>>, vals: Seq<W>, i: int, v: W)
    requires
        strictly_ascending(keys),
        0 <= i < keys.len(),
        vals.len() == keys.len(),
    ensures
        keyed_map(keys, vals.update(i, v)) == keyed_map(keys, vals).insert(keys[i], v),
{
    let m1 = keyed_map(keys, vals.update(i, v));
    let m2 = keyed_map(keys, vals).insert(keys[i], v);
    assert forall|k: Seq<char>| m1.contains_key(k) implies m1[k] == m2[k] by {
        let j = choose|j: int| 0 <= j < keys.len() && keys[j] == k;
        lemma_keyed_map_at(keys, vals.update(i, v), j);
        lemma_keyed_map_at(keys, vals, j);
        if j != i {
            lemma_ascending_distinct(keys, i, j);
        }
    }
    assert(m1.dom() =~= m2.dom());
    assert(m1 =~= m2);
}

/// Inserting a new tag at its place in the order adds it to the map.
pub proof fn lemma_keyed_map_insert<W>(keys: Seq<Seq<char>>, vals: Seq<W>, i: int, k: Seq<char>, v: W)
    requires
        strictly_ascending(keys),
        strictly_ascending(keys.insert(i, k)),
        0 <= i <= keys.len(),
        vals.len() == keys.len(),
        !keys.contains(k),
    ensures
        keyed_map(keys.insert(i, k), vals.insert(i, v)) == keyed_map(keys, vals).insert(k, v),
{
    let nk = keys.insert(i, k);
    let nv = vals.insert(i, v);
    let m1 = keyed_map(nk, nv);
    let m2 = keyed_map(keys, vals).insert(k, v);
    assert forall|x: Seq<char>| m1.contains_key(x) <==> m2.contains_key(x) by {
        if nk.contains(x) {
            let j = choose|j: int| 0 <= j < nk.len() && nk[j] == x;
            if j < i {
                assert(keys[j] == x);
            } else if j > i {
                assert(keys[j - 1] == x);
            }
        }
        if keys.contains(x) {
            let j = choose|j: int| 0 <= j < keys.len() && keys[j] == x;
            if j < i {
                assert(nk[j] == x);
            } else {
                assert(nk[j + 1] == x);
            }
        }
        if x == k {
            assert(nk[i] == k);
        }
    }
    assert forall|x: Seq<char>| m1.contains_key(x) implies m1[x] == m2[x] by {
        let j = choose|j: int| 0 <= j < nk.len() && nk[j] == x;
        lemma_keyed_map_at(nk, nv, j);
        if j < i {
            lemma_keyed_map_at(keys, vals, j);
        } else if j > i {
            lemma_keyed_map_at(keys, vals, j - 1);
        }
    }
    assert(m1.dom() =~= m2.dom());
    assert(m1 =~= m2);
}

impl<K: StringTag, V: TagValue> TagMap<K, V> {
    /// The entries, in order.
    pub closed spec fn entry_seq(&self) -> Seq<(K, V)> {
        self.entries@
    }

    /// The tags, in order.
    pub open spec fn keys(&self) -> Seq<Seq<char>> {
        entry_keys(self.entry_seq())
    }

    /// The values, in the order of their tags.
    pub open spec fn values(&self) -> Seq<V::V> {
        self.entry_seq().map_values(|e: (K, V)| e.1.deep_view())
    }

    /// The map from tag texts to values.
    pub open spec fn map_view(&self) -> Map<Seq<char>, V::V> {
        keyed_map(self.keys(), self.values())
    }

    #[verifier::type_invariant]
    closed spec fn ordered(&self) -> bool {
        strictly_ascending(entry_keys(self.entries@))
    }

    /// An empty map.
    pub fn new() -> (m: Self)
        ensures
            m.entry_seq() == Seq::<(K, V)>::empty(),
            m.map_view() == Map::<Seq<char>, V::V>::empty(),
    {
        let m = TagMap { entries: Vec::new() };
        assert(m.map_view() =~= Map::<Seq<char>, V::V>::empty());
        m
    }

    /// The number of entries.
    pub fn len(&self) -> (n: usize)
        ensures
            n == self.keys().len(),
    {
        self.entries.len()
    }

    /// Whether the map has no entry.
    pub fn is_empty(&self) -> (b: bool)
        ensures
            b == (self.keys().len() == 0),
    {
        self.entries.len() == 0
    }

    /// The entries, in ascending tag order.
    pub fn entries(&self) -> (s: &[(K, V)])
        ensures
            s@ == self.entry_seq(),
            strictly_ascending(self.keys()),
    {
        proof {
            use_type_invariant(self);
        }
        self.entries.as_slice()
    }

    /// Where the tag `key` stands among the entries, if it is there.
    fn find(&self, key: &str) -> (r: Option<usize>)
        ensures
            r is None ==> !self.keys().contains(key@),
            r matches Some(i) ==> i < self.keys().len() && self.keys()[i as int] == key@,
    {
        let mut i: usize = 0;
        while i < self.entries.len()
            invariant
                i <= self.entries@.len(),
                forall|j: int| 0 <= j < i ==> self.keys()[j] != key@,
            decreases self.entries@.len() - i,
        {
            if let TextOrder::Same = text_order(self.entries[i].0.text(), key) {
                return Some(i);
            }
            i = i + 1;
        }
        proof {
            if self.keys().contains(key@) {
                let j = choose|j: int| 0 <= j < self.keys().len() && self.keys()[j] == key@;
                assert(self.keys()[j] != key@);
            }
        }
        None
    }

    /// The value stored under the tag `key`.
    pub fn get(&self, key: &str) -> (r: Option<&V>)
        ensures
            r is Some <==> self.map_view().contains_key(key@),
            r matches Some(v) ==> v.deep_view() == self.map_view()[key@],
    {
        proof {
            use_type_invariant(self);
        }
        match self.find(key) {
            None => None,
            Some(i) => {
                proof {
                    lemma_keyed_map_at(self.keys(), self.values(), i as int);
                }
                Some(&self.entries[i].1)
            },
        }
    }

    /// Whether the tag `key` has an entry.
    pub fn contains_key(&self, key: &str) -> (b: bool)
        ensures
            b == self.map_view().contains_key(key@),
    {
        self.find(key).is_some()
    }

    /// The first position whose tag does not come before `key`, and
    /// whether the tag there is `key` itself.
    fn position(&self, key: &str) -> (r: (usize, bool))
        ensures
            r.0 <= self.keys().len(),
            forall|j: int| 0 <= j < r.0 ==> text_before(#[trigger] self.keys()[j], key@),
            r.1 <==> (r.0 < self.keys().len() && self.keys()[r.0 as int] == key@),
            !r.1 && r.0 < self.keys().len() ==> text_before(key@, self.keys()[r.0 as int]),
    {
        let mut i: usize = 0;
        while i < self.entries.len()
            invariant
                i <= self.entries@.len(),
                forall|j: int| 0 <= j < i ==> text_before(#[trigger] self.keys()[j], key@),
            decreases self.entries@.len() - i,
        {
            match text_order(self.entries[i].0.text(), key) {
                TextOrder::Before => {
                    i = i + 1;
                },
                TextOrder::Same => {
                    return (i, true);
                },
                TextOrder::After => {
                    return (i, false);
                },
            }
        }
        (i, false)
    }

    /// Stores `value` under `key`. A tag already present keeps its place
    /// and its first key value, and the value it held is returned; a new
    /// tag goes in at its place in the order.
    pub fn insert(&mut self, key: K, value: V) -> (previous: Option<V>)
        ensures
            final(self).map_view() == old(self).map_view().insert(key.tag_text(), value.deep_view()),
            previous is Some <==> old(self).map_view().contains_key(key.tag_text()),
            previous matches Some(v) ==> v.deep_view() == old(self).map_view()[key.tag_text()],
            old(self).map_view().contains_key(key.tag_text()) ==> final(self).keys() == old(self).keys(),
            !old(self).map_view().contains_key(key.tag_text()) ==> final(self).keys().len()
                == old(self).keys().len() + 1,
    {
        proof {
            use_type_invariant(&*self);
        }
        let ghost k = key.tag_text();
        let ghost old_keys = self.keys();
        let ghost old_vals = self.values();
        let (i, found) = self.position(key.text());
        let mut entries: Vec<(K, V)> = Vec::new();
        std::mem::swap(&mut entries, &mut self.entries);
        assert(entries@ == old(self).entries@);
        if found {
            let (old_key, old_value) = entries.remove(i);
            entries.insert(i, (old_key, value));
            proof {
                lemma_keyed_map_at(old_keys, old_vals, i as int);
                assert(entry_keys(entries@) =~= old_keys);
                assert(entries@.map_values(|e: (K, V)| e.1.deep_view()) =~= old_vals.update(
                    i as int,
                    value.deep_view(),
                ));
                lemma_keyed_map_update(old_keys, old_vals, i as int, value.deep_view());
            }
            self.entries = entries;
            Some(old_value)
        } else {
            entries.insert(i, (key, value));
            proof {
                let nk = old_keys.insert(i as int, k);
                assert(entry_keys(entries@) =~= nk);
                assert(entries@.map_values(|e: (K, V)| e.1.deep_view()) =~= old_vals.insert(
                    i as int,
                    value.deep_view(),
                ));
                assert(!old_keys.contains(k)) by {
                    if old_keys.contains(k) {
                        let j = choose|j: int| 0 <= j < old_keys.len() && old_keys[j] == k;
                        lemma_text_before_strict_total(k, k, k);
                        if j < i {
                            assert(text_before(old_keys[j], k));
                        } else if j > i {
                            assert(text_before(old_keys[i as int], old_keys[j]));
                            lemma_text_before_strict_total(k, old_keys[i as int], old_keys[j]);
                        }
                    }
                }
                assert forall|a: int, b: int| 0 <= a < b < nk.len() implies text_before(
                    #[trigger] nk[a],
                    #[trigger] nk[b],
                ) by {
                    if b < i {
                    } else if b == i {
                    } else if a < i {
                        assert(text_before(old_keys[a], k));
                        if b - 1 > i {
                            assert(text_before(old_keys[i as int], old_keys[b - 1]));
                            lemma_text_before_strict_total(k, old_keys[i as int], old_keys[b - 1]);
                        }
                        lemma_text_before_strict_total(old_keys[a], k, old_keys[b - 1]);
                    } else if a == i {
                        if b - 1 > i {
                            assert(text_before(old_keys[i as int], old_keys[b - 1]));
                            lemma_text_before_strict_total(k, old_keys[i as int], old_keys[b - 1]);
                        }
                    } else {
                        assert(text_before(old_keys[a - 1], old_keys[b - 1]));
                    }
                }
                lemma_keyed_map_insert(old_keys, old_vals, i as int, k, value.deep_view());
            }
            self.entries = entries;
            None
        }
    }
}

impl<K: StringTag, V: TagValue> Clone for TagMap<K, V> {
    /// A copy holding the same tags and values in the same order.
    fn clone(&self) -> (r: Self)
        ensures
            r.keys() == self.keys(),
            r.values() == self.values(),
    {
        proof {
            use_type_invariant(self);
        }
        let mut entries: Vec<(K, V)> = Vec::new();
        let mut i: usize = 0;
        while i < self.entries.len()
            invariant
                i <= self.entries@.len(),
                entries@.len() == i,
                strictly_ascending(entry_keys(self.entries@)),
                forall|j: int| 0 <= j < i ==> (#[trigger] entries@[j]).0.tag_text()
                    == self.entries@[j].0.tag_text() && entries@[j].1.deep_view()
                    == self.entries@[j].1.deep_view(),
            decreases self.entries@.len() - i,
        {
            let k = self.entries[i].0.duplicate();
            let v = self.entries[i].1.duplicate();
            entries.push((k, v));
            i = i + 1;
        }
        assert(entry_keys(entries@) =~= entry_keys(self.entries@));
        let ghost built = entries@;
        let r = TagMap { entries };
        assert(r.entry_seq() == built);
        assert forall|j: int| 0 <= j < r.values().len() implies r.values()[j] == self.values()[j] by {
            assert(built[j].1.deep_view() == self.entries@[j].1.deep_view());
        }
        assert(r.values() =~= self.values());
        r
    }
}

/// `AnalysisContext.ContextualStringsTag`.
#[derive(Debug, Clone, PartialEq, Eq, PartialOrd, Ord, Hash)]
pub struct ContextualStringsTag(String);

impl View for ContextualStringsTag {
    type V = Seq<char>;

    closed spec fn view(&self) -> Seq<char> {
        self.0@
    }
}

impl ContextualStringsTag {
    pub fn new(raw_value: String) -> (t: Self)
        ensures
            t@ == raw_value@,
    {
        ContextualStringsTag(raw_value)
    }

    /// The `general` tag.
    pub fn general() -> (t: Self)
        ensures
            t@ == "general"@,
    {
        Self::new("general".to_owned())
    }

    pub fn raw_value(&self) -> (s: &str)
        ensures
            s@ == self@,
    {
        self.0.as_str()
    }
}

impl StringTag for ContextualStringsTag {
    open spec fn tag_text(&self) -> Seq<char> {
        self@
    }

    fn text(&self) -> (s: &str) {
        self.raw_value()
    }

    fn duplicate(&self) -> (r: Self) {
        ContextualStringsTag(self.0.clone())
    }
}

/// `AnalysisContext.UserDataTag`.
#[derive(Debug, Clone, PartialEq, Eq, PartialOrd, Ord, Hash)]
pub struct UserDataTag(String);

impl View for UserDataTag {
    type V = Seq<char>;

    closed spec fn view(&self) -> Seq<char> {
        self.0@
    }
}

impl UserDataTag {
    pub fn new(raw_value: String) -> (t: Self)
        ensures
            t@ == raw_value@,
    {
        UserDataTag(raw_value)
    }

    pub fn raw_value(&self) -> (s: &str)
        ensures
            s@ == self@,
    {
        self.0.as_str()
    }
}

impl StringTag for UserDataTag {
    open spec fn tag_text(&self) -> Seq<char> {
        self@
    }

    fn text(&self) -> (s: &str) {
        self.raw_value()
    }

    fn duplicate(&self) -> (r: Self) {
        UserDataTag(self.0.clone())
    }
}

/// What an [`AnalysisContext`] holds: contextual strings and user data,
/// each by tag text.
pub struct ContextModel {
    pub contextual_strings: Map<Seq<char>, Seq<Seq<char>>>,
    pub user_data: Map<Seq<char>, Seq<char>>,
}

/// Analyzer context for contextual strings and string-backed user-data values.
#[derive(Debug, Clone, PartialEq, Eq)]
pub struct AnalysisContext {
    contextual_strings: TagMap<ContextualStringsTag, Vec<String>>,
    user_data: TagMap<UserDataTag, String>,
}

impl View for AnalysisContext {
    type V = ContextModel;

    open spec fn view(&self) -> ContextModel {
        ContextModel {
            contextual_strings: self.contextual_table().map_view(),
            user_data: self.user_data_table().map_view(),
        }
    }
}

impl AnalysisContext {
    /// The contextual strings, as a map.
    pub closed spec fn contextual_table(&self) -> TagMap<ContextualStringsTag, Vec<String>> {
        self.contextual_strings
    }

    /// The user data, as a map.
    pub closed spec fn user_data_table(&self) -> TagMap<UserDataTag, String> {
        self.user_data
    }

    /// A context with neither contextual strings nor user data.
    pub fn new() -> (c: Self)
        ensures
            c.contextual_table().keys().len() == 0,
            c.user_data_table().keys().len() == 0,
            c@.contextual_strings == Map::<Seq<char>, Seq<Seq<char>>>::empty(),
            c@.user_data == Map::<Seq<char>, Seq<char>>::empty(),
    {
        AnalysisContext { contextual_strings: TagMap::new(), user_data: TagMap::new() }
    }

    pub fn contextual_strings(&self) -> (m: &TagMap<ContextualStringsTag, Vec<String>>)
        ensures
            *m == self.contextual_table(),
    {
        &self.contextual_strings
    }

    /// Sets the contextual strings of `tag`, replacing any it had.
    pub fn set_contextual_strings(&mut self, tag: ContextualStringsTag, values: Vec<String>)
        ensures
            final(self)@.contextual_strings == old(self)@.contextual_strings.insert(tag@, values.deep_view()),
            final(self).user_data_table() == old(self).user_data_table(),
    {
        self.contextual_strings.insert(tag, values);
    }

    pub fn with_contextual_strings(self, tag: ContextualStringsTag, values: Vec<String>) -> (c: Self)
        ensures
            c@.contextual_strings == self@.contextual_strings.insert(tag@, values.deep_view()),
            c.user_data_table() == self.user_data_table(),
    {
        let mut c = self;
        c.set_contextual_strings(tag, values);
        c
    }

    pub fn user_data(&self) -> (m: &TagMap<UserDataTag, String>)
        ensures
            *m == self.user_data_table(),
    {
        &self.user_data
    }

    /// Sets the user-data value of `tag`, replacing any it had.
    pub fn set_user_data(&mut self, tag: UserDataTag, value: String)
        ensures
            final(self)@.user_data == old(self)@.user_data.insert(tag@, value@),
            final(self).contextual_table() == old(self).contextual_table(),
    {
        self.user_data.insert(tag, value);
    }

    pub fn with_user_data(self, tag: UserDataTag, value: String) -> (c: Self)
        ensures
            c@.user_data == self@.user_data.insert(tag@, value@),
            c.contextual_table() == self.contextual_table(),
    {
        let mut c = self;
        c.set_user_data(tag, value);
        c
    }
}

impl Default for AnalysisContext {
    fn default() -> (c: Self)
        ensures
            c.contextual_table().keys().len() == 0,
            c.user_data_table().keys().len() == 0,
    {
        Self::new()
    }
}

/// After a value is stored under a tag, reading that tag gives the value,
/// and every other tag reads as it did before.
pub proof fn lemma_read_after_write<W>(
    before: Map<Seq<char>, W>,
    after: Map<Seq<char>, W>,
    key: Seq<char>,
    value: W,
    other: Seq<char>,
)
    requires
        after == before.insert(key, value),
    ensures
        after.contains_key(key),
        after[key] == value,
        other != key ==> after.contains_key(other) == before.contains_key(other),
        other != key && before.contains_key(other) ==> after[other] == before[other],
{
}

/// Storing the same value twice under a tag is the same as storing it once,
/// and storing under two different tags gives the same map in either order.
pub proof fn lemma_writes_commute<W>(m: Map<Seq<char>, W>, k1: Seq<char>, v1: W, k2: Seq<char>, v2: W)
    ensures
        m.insert(k1, v1).insert(k1, v1) == m.insert(k1, v1),
        k1 != k2 ==> m.insert(k1, v1).insert(k2, v2) == m.insert(k2, v2).insert(k1, v1),
{
    assert(m.insert(k1, v1).insert(k1, v1) =~= m.insert(k1, v1));
    if k1 != k2 {
        assert(m.insert(k1, v1).insert(k2, v2) =~= m.insert(k2, v2).insert(k1, v1));
    }
}

} // verus!
