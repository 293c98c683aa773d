//! A small map kept as a list of entries, for keys that hold text: the
//! command registry and the cooldown table use it.
use vstd::prelude::*;

verus! {

/// A key that can be compared in code and seen as a plain value in specs.
pub trait ListKey: Sized {
    type KV;

    spec fn key_view(&self) -> Self::KV;

    fn same_key(&self, other: &Self) -> (r: bool)
        ensures
            r == (self.key_view() == other.key_view()),
    ;
}

impl ListKey for String {
    type KV = Seq<char>;

    open spec fn key_view(&self) -> Seq<char> {
        self@
    }

    fn same_key(&self, other: &Self) -> (r: bool) {
        *self == *other
    }
}

impl ListKey for (u64, String) {
    type KV = (u64, Seq<char>);

    open spec fn key_view(&self) -> (u64, Seq<char>) {
        (self.0, self.1@)
    }

    fn same_key(&self, other: &Self) -> (r: bool) {
        self.0 == other.0 && self.1 == other.1
    }
}

/// The map that a list of entries stands for: each key to the value of the
/// entry that holds it.
pub open spec fn entries_map<K: ListKey, V>(s: Seq<(K, V)>) -> Map<K::KV, V> {
    Map::new(
        |k: K::KV| exists|i: int| 0 <= i < s.len() && s[i].0.key_view() == k,
        |k: K::KV| s[choose|i: int| 0 <= i < s.len() && s[i].0.key_view() == k].1,
    )
}

/// No two entries hold the same key.
pub open spec fn unique_keys<K: ListKey, V>(s: Seq<(K, V)>) -> bool {
    forall|i: int, j: int|
        0 <= i < s.len() && 0 <= j < s.len() && i != j ==> s[i].0.key_view() != s[j].0.key_view()
}

/// With unique keys, the map gives each entry's key that entry's value.
pub proof fn lemma_entry_in_map<K: ListKey, V>(s: Seq<(K, V)>, i: int)
    requires
        unique_keys(s),
        0 <= i < s.len(),
    ensures
        entries_map(s).contains_key(s[i].0.key_view()),
        entries_map(s)[s[i].0.key_view()] == s[i].1,
{
    let k = s[i].0.key_view();
    assert(exists|j: int| 0 <= j < s.len() && s[j].0.key_view() == k);
    let j = choose|j: int| 0 <= j < s.len() && s[j].0.key_view() == k;
    assert(j == i);
}

/// A list with distinct keys stands for a map with one key per entry.
proof fn lemma_keys_count<K: ListKey, V>(s: Seq<(K, V)>)
    requires
        unique_keys(s),
    ensures
        entries_map(s).dom().len() == s.len(),
        entries_map(s).dom().finite(),
    decreases s.len(),
{
    let m = entries_map(s);
    if s.len() == 0 {
        assert(m.dom() =~= Set::<K::KV>::empty());
    } else {
        let t = s.drop_last();
        assert(unique_keys(t)) by {
            assert forall|a: int, b: int|
                0 <= a < t.len() && 0 <= b < t.len() && a != b implies t[a].0.key_view()
                != t[b].0.key_view() by {
                assert(t[a] == s[a] && t[b] == s[b]);
            }
        }
        lemma_keys_count(t);
        let mt = entries_map(t);
        let k = s.last().0.key_view();
        assert(!mt.dom().contains(k)) by {
            if mt.dom().contains(k) {
                let j = choose|j: int| 0 <= j < t.len() && t[j].0.key_view() == k;
                assert(t[j] == s[j]);
                assert(s[s.len() - 1].0.key_view() == k);
            }
        }
        assert(m.dom() =~= mt.dom().insert(k)) by {
            assert forall|key: K::KV| #[trigger] m.dom().contains(key) <==> mt.dom().insert(
                k,
            ).contains(key) by {
                if m.dom().contains(key) {
                    let j = choose|j: int| 0 <= j < s.len() && s[j].0.key_view() == key;
                    if j < t.len() {
                        assert(t[j] == s[j]);
                    }
                }
                if mt.dom().contains(key) {
                    let j = choose|j: int| 0 <= j < t.len() && t[j].0.key_view() == key;
                    assert(t[j] == s[j]);
                }
                if key == k {
                    assert(s[s.len() - 1].0.key_view() == key);
                }
            }
        }
    }
}

/// A map kept as a list of `(key, value)` entries with distinct keys, in the
/// order in which the keys were first inserted.
pub struct KeyedList<K: ListKey, V> {
    entries: Vec<(K, V)>,
}

impl<K: ListKey, V> KeyedList<K, V> {
    /// The entries hold distinct keys.
    #[verifier::type_invariant]
    spec fn distinct_keys(&self) -> bool {
        unique_keys(self.entries@)
    }
}

impl<K: ListKey, V: Copy> KeyedList<K, V> {
    /// The map that the entries stand for.
    pub closed spec fn view_map(&self) -> Map<K::KV, V> {
        entries_map(self.entries@)
    }

    /// The keys, in the order in which they were first inserted.
    pub closed spec fn key_seq(&self) -> Seq<K::KV> {
        self.entries@.map_values(|e: (K, V)| e.0.key_view())
    }

    /// The values, in the order of their keys.
    pub closed spec fn value_seq(&self) -> Seq<V> {
        self.entries@.map_values(|e: (K, V)| e.1)
    }

    /// An empty map.
    pub fn new() -> (r: Self)
        ensures
            r.view_map() == Map::<K::KV, V>::empty(),
            r.key_seq().len() == 0,
    {
        let r = KeyedList { entries: Vec::new() };
        assert(r.view_map() =~= Map::<K::KV, V>::empty());
        r
    }

    /// The position of the entry holding `k`, if any.
    fn find(&self, k: &K) -> (r: Option<usize>)
        ensures
            match r {
                Some(i) => i < self.entries@.len() && self.entries@[i as int].0.key_view()
                    == k.key_view(),
                None => !self.view_map().contains_key(k.key_view()),
            },
    {
        let mut i: usize = 0;
        while i < self.entries.len()
            invariant
                i <= self.entries@.len(),
                forall|j: int| 0 <= j < i ==> self.entries@[j].0.key_view() != k.key_view(),
            decreases self.entries@.len() - i,
        {
            if self.entries[i].0.same_key(k) {
                return Some(i);
            }
            i = i + 1;
        }
        None
    }

    /// The value for `k`, if any.
    pub fn get(&self, k: &K) -> (r: Option<V>)
        ensures
            r == (if self.view_map().contains_key(k.key_view()) {
                Some(self.view_map()[k.key_view()])
            } else {
                None::<V>
            }),
    {
        proof {
            use_type_invariant(self);
        }
        match self.find(k) {
            Some(i) => {
                proof {
                    lemma_entry_in_map(self.entries@, i as int);
                }
                Some(self.entries[i].1)
            },
            None => None,
        }
    }

    /// Whether some entry holds `k`.
    pub fn contains_key(&self, k: &K) -> (r: bool)
        ensures
            r == self.view_map().contains_key(k.key_view()),
    {
        proof {
            use_type_invariant(self);
        }
        match self.find(k) {
            Some(i) => {
                proof {
                    lemma_entry_in_map(self.entries@, i as int);
                }
                true
            },
            None => false,
        }
    }

    /// Maps `k` to `v`: an entry for `k` keeps its place and takes the new
    /// value; otherwise a new entry comes last.
    pub fn insert(&mut self, k: K, v: V)
        ensures
            final(self).view_map() == old(self).view_map().insert(k.key_view(), v),
            old(self).view_map().contains_key(k.key_view()) ==> final(self).key_seq() == old(
                self,
            ).key_seq(),
            !old(self).view_map().contains_key(k.key_view()) ==> final(self).key_seq() == old(
                self,
            ).key_seq().push(k.key_view()),
    {
        proof {
            use_type_invariant(&*self);
        }
        let ghost s = self.entries@;
        let ghost kv = k.key_view();
        let found = self.find(&k);
        let mut list: Vec<(K, V)> = Vec::new();
        std::mem::swap(&mut list, &mut self.entries);
        match found {
            Some(i) => {
                list.set(i, (k, v));
                let ghost t = list@;
                assert(t =~= s.update(i as int, t[i as int]));
                assert(unique_keys(t)) by {
                    assert forall|a: int, b: int|
                        0 <= a < t.len() && 0 <= b < t.len() && a != b implies t[a].0.key_view()
                        != t[b].0.key_view() by {
                        if a != i && b != i {
                            assert(t[a] == s[a] && t[b] == s[b]);
                        } else if a == i {
                            assert(t[b] == s[b]);
                        } else {
                            assert(t[a] == s[a]);
                        }
                    }
                }
                assert(entries_map(t) =~= entries_map(s).insert(kv, v)) by {
                    assert forall|key: K::KV| #[trigger]
                        entries_map(t).contains_key(key) <==> entries_map(s).insert(
                            kv,
                            v,
                        ).contains_key(key) by {
                        if entries_map(t).contains_key(key) {
                            let j = choose|j: int| 0 <= j < t.len() && t[j].0.key_view() == key;
                            if j != i {
                                assert(s[j] == t[j]);
                            }
                        }
                        if entries_map(s).contains_key(key) {
                            let j = choose|j: int| 0 <= j < s.len() && s[j].0.key_view() == key;
                            if j != i {
                                assert(s[j] == t[j]);
                            } else {
                                assert(t[j].0.key_view() == key);
                            }
                        }
                        if key == kv {
                            assert(t[i as int].0.key_view() == key);
                        }
                    }
                    assert forall|key: K::KV| #[trigger]
                        entries_map(t).contains_key(key) implies entries_map(t)[key] == entries_map(
                        s,
                    ).insert(kv, v)[key] by {
                        let j = choose|j: int| 0 <= j < t.len() && t[j].0.key_view() == key;
                        lemma_entry_in_map(t, j);
                        if j != i {
                            assert(s[j] == t[j]);
                            lemma_entry_in_map(s, j);
                        }
                    }
                }
                assert(t.map_values(|e: (K, V)| e.0.key_view()) =~= s.map_values(
                    |e: (K, V)| e.0.key_view(),
                ));
            },
            None => {
                list.push((k, v));
                let ghost t = list@;
                assert(t =~= s.push(t[s.len() as int]));
                assert(unique_keys(t)) by {
                    assert forall|a: int, b: int|
                        0 <= a < t.len() && 0 <= b < t.len() && a != b implies t[a].0.key_view()
                        != t[b].0.key_view() by {
                        if a < s.len() && b < s.len() {
                            assert(t[a] == s[a] && t[b] == s[b]);
                        } else if a < s.len() {
                            assert(t[a] == s[a]);
                            assert(entries_map(s).contains_key(s[a].0.key_view()));
                        } else {
                            assert(t[b] == s[b]);
                            assert(entries_map(s).contains_key(s[b].0.key_view()));
                        }
                    }
                }
                assert(entries_map(t) =~= entries_map(s).insert(kv, v)) by {
                    assert forall|key: K::KV| #[trigger]
                        entries_map(t).contains_key(key) <==> entries_map(s).insert(
                            kv,
                            v,
                        ).contains_key(key) by {
                        if entries_map(t).contains_key(key) {
                            let j = choose|j: int| 0 <= j < t.len() && t[j].0.key_view() == key;
                            if j < s.len() {
                                assert(s[j] == t[j]);
                            }
                        }
                        if entries_map(s).contains_key(key) {
                            let j = choose|j: int| 0 <= j < s.len() && s[j].0.key_view() == key;
                            assert(s[j] == t[j]);
                        }
                        if key == kv {
                            assert(t[s.len() as int].0.key_view() == key);
                        }
                    }
                    assert forall|key: K::KV| #[trigger]
                        entries_map(t).contains_key(key) implies entries_map(t)[key] == entries_map(
                        s,
                    ).insert(kv, v)[key] by {
                        let j = choose|j: int| 0 <= j < t.len() && t[j].0.key_view() == key;
                        lemma_entry_in_map(t, j);
                        if j < s.len() {
                            assert(s[j] == t[j]);
                            lemma_entry_in_map(s, j);
                        }
                    }
                }
                assert(t.map_values(|e: (K, V)| e.0.key_view()) =~= s.map_values(
                    |e: (K, V)| e.0.key_view(),
                ).push(kv));
            },
        }
        self.entries = list;
    }

    /// Removes the entry for `k`, if any.
    pub fn remove(&mut self, k: &K)
        ensures
            final(self).view_map() == old(self).view_map().remove(k.key_view()),
    {
        proof {
            use_type_invariant(&*self);
        }
        let ghost s = self.entries@;
        let ghost kv = k.key_view();
        let found = self.find(k);
        let mut list: Vec<(K, V)> = Vec::new();
        std::mem::swap(&mut list, &mut self.entries);
        match found {
            Some(i) => {
                list.remove(i);
                let ghost t = list@;
                assert(t =~= s.remove(i as int));
                assert(forall|a: int| 0 <= a < t.len() ==> #[trigger] t[a] == if a < i {
                    s[a]
                } else {
                    s[a + 1]
                });
                assert(unique_keys(t)) by {
                    assert forall|a: int, b: int|
                        0 <= a < t.len() && 0 <= b < t.len() && a != b implies t[a].0.key_view()
                        != t[b].0.key_view() by {
                        let a2 = if a < i {
                            a
                        } else {
                            a + 1
                        };
                        let b2 = if b < i {
                            b
                        } else {
                            b + 1
                        };
                        assert(t[a] == s[a2] && t[b] == s[b2]);
                    }
                }
                assert(entries_map(t) =~= entries_map(s).remove(kv)) by {
                    assert forall|key: K::KV| #[trigger]
                        entries_map(t).contains_key(key) <==> entries_map(s).remove(
                            kv,
                        ).contains_key(key) by {
                        if entries_map(t).contains_key(key) {
                            let j = choose|j: int| 0 <= j < t.len() && t[j].0.key_view() == key;
                            let j2 = if j < i {
                                j
                            } else {
                                j + 1
                            };
                            assert(t[j] == s[j2]);
                            assert(j2 != i);
                        }
                        if entries_map(s).contains_key(key) && key != kv {
                            let j = choose|j: int| 0 <= j < s.len() && s[j].0.key_view() == key;
                            assert(j != i);
                            let j2 = if j < i {
                                j
                            } else {
                                j - 1
                            };
                            assert(t[j2] == s[j]);
                        }
                    }
                    assert forall|key: K::KV| #[trigger]
                        entries_map(t).contains_key(key) implies entries_map(t)[key] == entries_map(
                        s,
                    ).remove(kv)[key] by {
                        let j = choose|j: int| 0 <= j < t.len() && t[j].0.key_view() == key;
                        lemma_entry_in_map(t, j);
                        let j2 = if j < i {
                            j
                        } else {
                            j + 1
                        };
                        assert(t[j] == s[j2]);
                        lemma_entry_in_map(s, j2);
                    }
                }
            },
            None => {
                assert(entries_map(s) =~= entries_map(s).remove(kv));
            },
        }
        self.entries = list;
    }

    /// Removes every entry.
    pub fn clear(&mut self)
        ensures
            final(self).view_map() == Map::<K::KV, V>::empty(),
            final(self).key_seq().len() == 0,
    {
        self.entries = Vec::new();
        assert(self.view_map() =~= Map::<K::KV, V>::empty());
    }

    /// The values of all entries, in the order of their keys: one per key
    /// of the map, each the value of its key.
    pub fn values(&self) -> (r: Vec<V>)
        ensures
            r@ == self.value_seq(),
            r@.len() == self.key_seq().len(),
            self.key_seq().no_duplicates(),
            self.key_seq().to_set() == self.view_map().dom(),
            self.view_map().dom().finite(),
            self.view_map().dom().len() == r@.len(),
            forall|i: int| 0 <= i < r@.len() ==> #[trigger] self.view_map()[self.key_seq()[i]] == r@[i],
    {
        proof {
            use_type_invariant(self);
            let s = self.entries@;
            lemma_keys_count(s);
            let ks = self.key_seq();
            assert forall|i: int| 0 <= i < ks.len() implies #[trigger] self.view_map()[ks[i]] == s[i].1 by {
                lemma_entry_in_map(s, i);
            }
            assert(ks.to_set() =~= self.view_map().dom()) by {
                assert forall|x: K::KV| #[trigger] ks.to_set().contains(x) <==> self.view_map().dom().contains(x) by {
                    if ks.contains(x) {
                        let i = choose|i: int| 0 <= i < ks.len() && ks[i] == x;
                        lemma_entry_in_map(s, i);
                    }
                    if self.view_map().dom().contains(x) {
                        let i = choose|i: int| 0 <= i < s.len() && s[i].0.key_view() == x;
                        assert(ks[i] == x);
                    }
                }
            }
        }
        let mut r: Vec<V> = Vec::new();
        let mut i: usize = 0;
        while i < self.entries.len()
            invariant
                i <= self.entries@.len(),
                r@ == self.entries@.take(i as int).map_values(|e: (K, V)| e.1),
            decreases self.entries@.len() - i,
        {
            r.push(self.entries[i].1);
            i = i + 1;
            assert(self.entries@.take(i as int).map_values(|e: (K, V)| e.1) =~= self.entries@.take(
                (i - 1) as int,
            ).map_values(|e: (K, V)| e.1).push(self.entries@[i - 1].1));
        }
        assert(self.entries@.take(i as int) =~= self.entries@);
        r
    }
}

} // verus!
