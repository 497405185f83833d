//! A small map whose keys each belong to a view.
//!
//! The builder keeps a handful of live entries per view and prunes them by
//! view number, so the map is a plain list of entries in which no key occurs
//! twice. Its mathematical model is a `Map` from keys to values.

use vstd::prelude::*;
use vstd::std_specs::cmp::PartialEqSpecImpl;
use crate::commitment::{BuilderCommitment, VidCommitment};

verus! {

/// A key that can be compared and that names the view it belongs to.
pub trait ViewKey: Copy {
    /// The view this key belongs to.
    spec fn key_view(&self) -> u64;

    fn view_number(&self) -> (v: u64)
        ensures
            v == self.key_view(),
    ;

    fn same_key(&self, other: &Self) -> (same: bool)
        ensures
            same == (*self == *other),
    ;
}

impl ViewKey for u64 {
    open spec fn key_view(&self) -> u64 {
        *self
    }

    fn view_number(&self) -> (v: u64) {
        *self
    }

    fn same_key(&self, other: &Self) -> (same: bool) {
        *self == *other
    }
}

/// Names a builder state: the parent it extends and the view at which
/// consensus claimed that parent.
#[derive(Clone, Copy, Debug, Hash)]
pub struct BuilderStateId {
    pub parent_commitment: VidCommitment,
    pub view: u64,
}

/// Names a built block: its builder commitment and the view it was built in.
#[derive(Clone, Copy, Debug, Hash)]
pub struct BlockId {
    pub hash: BuilderCommitment,
    pub view: u64,
}

impl PartialEq for BuilderStateId {
    fn eq(&self, other: &Self) -> (same: bool) {
        self.view == other.view && self.parent_commitment == other.parent_commitment
    }
}

impl PartialEqSpecImpl for BuilderStateId {
    open spec fn obeys_eq_spec() -> bool {
        true
    }

    open spec fn eq_spec(&self, other: &Self) -> bool {
        *self == *other
    }
}

impl Eq for BuilderStateId {

}

impl PartialEq for BlockId {
    fn eq(&self, other: &Self) -> (same: bool) {
        self.view == other.view && self.hash == other.hash
    }
}

impl PartialEqSpecImpl for BlockId {
    open spec fn obeys_eq_spec() -> bool {
        true
    }

    open spec fn eq_spec(&self, other: &Self) -> bool {
        *self == *other
    }
}

impl Eq for BlockId {

}

impl ViewKey for BuilderStateId {
    open spec fn key_view(&self) -> u64 {
        self.view
    }

    fn view_number(&self) -> (v: u64) {
        self.view
    }

    fn same_key(&self, other: &Self) -> (same: bool) {
        *self == *other
    }
}

impl ViewKey for BlockId {
    open spec fn key_view(&self) -> u64 {
        self.view
    }

    fn view_number(&self) -> (v: u64) {
        self.view
    }

    fn same_key(&self, other: &Self) -> (same: bool) {
        *self == *other
    }
}

/// The keys of `entries`, in order.
pub open spec fn keys_of<K, V>(entries: Seq<(K, V)>) -> Seq<K> {
    entries.map_values(|e: (K, V)| e.0)
}

/// The map that a duplicate-free list of entries stands for.
pub open spec fn map_of<K, V>(entries: Seq<(K, V)>) -> Map<K, V> {
    Map::new(
        |k: K| exists|i: int| 0 <= i < entries.len() && #[trigger] entries[i].0 == k,
        |k: K| entries[choose|i: int| 0 <= i < entries.len() && #[trigger] entries[i].0 == k].1,
    )
}

/// In a duplicate-free list, each entry is what the map holds under its key.
pub proof fn lemma_map_of_entry<K, V>(entries: Seq<(K, V)>, i: int)
    requires
        keys_of(entries).no_duplicates(),
        0 <= i < entries.len(),
    ensures
        map_of(entries).contains_key(entries[i].0),
        map_of(entries)[entries[i].0] == entries[i].1,
{
    let k = entries[i].0;
    let j = choose|j: int| 0 <= j < entries.len() && #[trigger] entries[j].0 == k;
    assert(keys_of(entries)[i] == k);
    assert(keys_of(entries)[j] == k);
}

/// A key is in the map exactly when it is the key of some entry.
pub proof fn lemma_map_of_dom<K, V>(entries: Seq<(K, V)>, k: K)
    ensures
        map_of(entries).contains_key(k) <==> keys_of(entries).contains(k),
{
    if map_of(entries).contains_key(k) {
        let i = choose|i: int| 0 <= i < entries.len() && #[trigger] entries[i].0 == k;
        assert(keys_of(entries)[i] == k);
    }
    if keys_of(entries).contains(k) {
        let i = choose|i: int| 0 <= i < keys_of(entries).len() && keys_of(entries)[i] == k;
        assert(entries[i].0 == k);
    }
}

/// The keys of a duplicate-free list are the domain of its map, each once.
pub proof fn lemma_keys_cover_dom<K, V>(entries: Seq<(K, V)>)
    requires
        keys_of(entries).no_duplicates(),
    ensures
        keys_of(entries).to_set() =~= map_of(entries).dom(),
        map_of(entries).dom().finite(),
        map_of(entries).dom().len() == entries.len(),
{
    let keys = keys_of(entries);
    assert forall|k: K| keys.to_set().contains(k) == map_of(entries).dom().contains(k) by {
        lemma_map_of_dom(entries, k);
    }
    assert(keys.to_set() =~= map_of(entries).dom());
    keys.unique_seq_to_set();
    vstd::seq_lib::seq_to_set_is_finite(keys);
}

/// A map from view-tagged keys to values, with at most one entry per key.
pub struct ViewMap<K, V> {
    entries: Vec<(K, V)>,
}

impl<K, V> View for ViewMap<K, V> {
    type V = Map<K, V>;

    closed spec fn view(&self) -> Map<K, V> {
        map_of(self.entries@)
    }
}

impl<K, V> ViewMap<K, V> {
    #[verifier::type_invariant]
    spec fn no_key_twice(self) -> bool {
        keys_of(self.entries@).no_duplicates()
    }

    /// The keys in the order in which the map lists them.
    pub closed spec fn key_seq(&self) -> Seq<K> {
        keys_of(self.entries@)
    }
}

impl<K: ViewKey, V> ViewMap<K, V> {
    /// A map without entries.
    pub fn new() -> (m: Self)
        ensures
            m@ == Map::<K, V>::empty(),
    {
        let m = ViewMap { entries: Vec::new() };
        assert(m@ =~= Map::<K, V>::empty());
        m
    }

    /// Position of `key` among the entries, if it is there.
    fn position(&self, key: &K) -> (at: Option<usize>)
        ensures
            match at {
                Some(i) => i < self.entries.len() && self.entries[i as int].0 == *key,
                None => !self@.contains_key(*key),
            },
    {
        let mut i: usize = 0;
        while i < self.entries.len()
            invariant
                i <= self.entries.len(),
                forall|j: int| 0 <= j < i ==> self.entries[j].0 != *key,
            decreases self.entries.len() - i,
        {
            if self.entries[i].0.same_key(key) {
                return Some(i);
            }
            i += 1;
        }
        None
    }

    /// Whether the map has an entry for `key`.
    pub fn contains_key(&self, key: &K) -> (found: bool)
        ensures
            found == self@.contains_key(*key),
    {
        let at = self.position(key);
        proof {
            use_type_invariant(self);
            if let Some(i) = at {
                lemma_map_of_entry(self.entries@, i as int);
            }
        }
        at.is_some()
    }

    /// What the map holds under `key`, if anything.
    pub fn get(&self, key: &K) -> (value: Option<&V>)
        ensures
            match value {
                Some(v) => self@.contains_key(*key) && *v == self@[*key],
                None => !self@.contains_key(*key),
            },
    {
        match self.position(key) {
            Some(i) => {
                proof {
                    use_type_invariant(self);
                    lemma_map_of_entry(self.entries@, i as int);
                }
                Some(&self.entries[i].1)
            },
            None => None,
        }
    }

    /// Whether the map has no entries.
    pub fn is_empty(&self) -> (empty: bool)
        ensures
            empty == (self@ == Map::<K, V>::empty()),
    {
        let empty = self.entries.len() == 0;
        proof {
            use_type_invariant(self);
            if empty {
                assert(self@ =~= Map::<K, V>::empty());
            } else {
                lemma_map_of_entry(self.entries@, 0);
            }
        }
        empty
    }

    /// Number of entries.
    pub fn len(&self) -> (n: usize)
        ensures
            self@.dom().finite(),
            n == self@.dom().len(),
    {
        proof {
            use_type_invariant(self);
            lemma_keys_cover_dom(self.entries@);
        }
        self.entries.len()
    }

    /// Puts `value` under `key`, replacing and returning what was there.
    pub fn insert(&mut self, key: K, value: V) -> (previous: Option<V>)
        ensures
            final(self)@ == old(self)@.insert(key, value),
            previous == old(self)@.get(key),
    {
        proof {
            use_type_invariant(&*self);
        }
        let ghost before = self.entries@;
        let at = self.position(&key);
        let mut entries: Vec<(K, V)> = Vec::new();
        std::mem::swap(&mut self.entries, &mut entries);
        match at {
            Some(i) => {
                proof {
                    lemma_map_of_entry(before, i as int);
                }
                entries.push((key, value));
                let previous = entries.swap_remove(i);
                proof {
                    let after = entries@;
                    assert(after == before.update(i as int, (key, value)));
                    assert(keys_of(after) =~= keys_of(before));
                    assert forall|k: K| #[trigger]
                        map_of(after).contains_key(k) == map_of(before).insert(
                            key,
                            value,
                        ).contains_key(k) by {
                        lemma_map_of_dom(after, k);
                        lemma_map_of_dom(before, k);
                    }
                    assert forall|k: K| #[trigger]
                        map_of(after).contains_key(k) implies map_of(after)[k] == map_of(
                        before,
                    ).insert(key, value)[k] by {
                        let j = choose|j: int| 0 <= j < after.len() && #[trigger] after[j].0 == k;
                        lemma_map_of_entry(after, j);
                        if j != i as int {
                            lemma_map_of_entry(before, j);
                            assert(keys_of(before)[j] == k);
                            assert(keys_of(before)[i as int] == key);
                        }
                    }
                    assert(map_of(after) =~= map_of(before).insert(key, value));
                }
                std::mem::swap(&mut self.entries, &mut entries);
                Some(previous.1)
            },
            None => {
                entries.push((key, value));
                proof {
                    let after = entries@;
                    lemma_map_of_dom(before, key);
                    assert(keys_of(after) =~= keys_of(before).push(key));
                    assert(keys_of(after).no_duplicates()) by {
                        assert forall|a: int, b: int|
                            0 <= a < keys_of(after).len() && 0 <= b < keys_of(after).len() && a
                                != b implies keys_of(after)[a] != keys_of(after)[b] by {
                            if a < before.len() {
                                assert(keys_of(before)[a] == keys_of(after)[a]);
                            }
                            if b < before.len() {
                                assert(keys_of(before)[b] == keys_of(after)[b]);
                            }
                        }
                    }
                    assert forall|k: K| #[trigger]
                        map_of(after).contains_key(k) == map_of(before).insert(
                            key,
                            value,
                        ).contains_key(k) by {
                        lemma_map_of_dom(after, k);
                        lemma_map_of_dom(before, k);
                        if keys_of(before).contains(k) {
                            let j = choose|j: int|
                                0 <= j < keys_of(before).len() && keys_of(before)[j] == k;
                            assert(keys_of(after)[j] == k);
                        }
                        if keys_of(after).contains(k) && k != key {
                            let j = choose|j: int|
                                0 <= j < keys_of(after).len() && keys_of(after)[j] == k;
                            assert(keys_of(before)[j] == k);
                        }
                        if k == key {
                            assert(keys_of(after)[before.len() as int] == k);
                        }
                    }
                    assert forall|k: K| #[trigger]
                        map_of(after).contains_key(k) implies map_of(after)[k] == map_of(
                        before,
                    ).insert(key, value)[k] by {
                        let j = choose|j: int| 0 <= j < after.len() && #[trigger] after[j].0 == k;
                        lemma_map_of_entry(after, j);
                        if j < before.len() {
                            lemma_map_of_entry(before, j);
                        }
                    }
                    assert(map_of(after) =~= map_of(before).insert(key, value));
                }
                std::mem::swap(&mut self.entries, &mut entries);
                None
            },
        }
    }

    /// Puts `value` under `key` unless the key already has a value; an
    /// earlier entry is never overwritten. Says whether the value went in.
    pub fn insert_if_absent(&mut self, key: K, value: V) -> (inserted: bool)
        ensures
            inserted == !old(self)@.contains_key(key),
            final(self)@ == if old(self)@.contains_key(key) {
                old(self)@
            } else {
                old(self)@.insert(key, value)
            },
    {
        if self.contains_key(&key) {
            false
        } else {
            self.insert(key, value);
            true
        }
    }

    /// Whether some key of the map belongs to `view`.
    pub fn has_view(&self, view: u64) -> (found: bool)
        ensures
            found == exists|k: K| self@.contains_key(k) && #[trigger] k.key_view() == view,
    {
        let mut i: usize = 0;
        while i < self.entries.len()
            invariant
                i <= self.entries.len(),
                forall|j: int| 0 <= j < i ==> (#[trigger] self.entries[j]).0.key_view() != view,
            decreases self.entries.len() - i,
        {
            if self.entries[i].0.view_number() == view {
                proof {
                    use_type_invariant(self);
                    lemma_map_of_entry(self.entries@, i as int);
                }
                return true;
            }
            i += 1;
        }
        proof {
            assert forall|k: K| self@.contains_key(k) implies #[trigger] k.key_view() != view by {
                let j = choose|j: int|
                    0 <= j < self.entries@.len() && #[trigger] self.entries@[j].0 == k;
                assert(self.entries[j].0.key_view() != view);
            }
        }
        false
    }

    /// An entry whose view no other entry's view exceeds, if the map has
    /// entries. Where several entries share the greatest view, any of them
    /// may be the one.
    pub fn greatest(&self) -> (found: Option<(K, &V)>)
        ensures
            match found {
                Some((k, v)) => {
                    &&& self@.contains_key(k)
                    &&& *v == self@[k]
                    &&& forall|other: K| #[trigger]
                        self@.contains_key(other) ==> other.key_view() <= k.key_view()
                },
                None => self@ == Map::<K, V>::empty(),
            },
    {
        proof {
            use_type_invariant(self);
        }
        if self.entries.len() == 0 {
            assert(self@ =~= Map::<K, V>::empty());
            return None;
        }
        let mut best: usize = 0;
        let mut i: usize = 1;
        while i < self.entries.len()
            invariant
                best < i <= self.entries.len(),
                forall|j: int|
                    0 <= j < i ==> (#[trigger] self.entries[j]).0.key_view()
                        <= self.entries[best as int].0.key_view(),
            decreases self.entries.len() - i,
        {
            if self.entries[i].0.view_number() > self.entries[best].0.view_number() {
                best = i;
            }
            i += 1;
        }
        proof {
            lemma_map_of_entry(self.entries@, best as int);
            assert forall|other: K| #[trigger] self@.contains_key(other) implies other.key_view()
                <= self.entries[best as int].0.key_view() by {
                let j = choose|j: int|
                    0 <= j < self.entries@.len() && #[trigger] self.entries@[j].0 == other;
                assert(self.entries[j].0.key_view() <= self.entries[best as int].0.key_view());
            }
        }
        Some((self.entries[best].0, &self.entries[best].1))
    }

    /// Drops every entry whose view is below `cutoff` and keeps the rest
    /// as they are.
    pub fn retain_from(&mut self, cutoff: u64)
        ensures
            final(self)@ == old(self)@.restrict(Set::new(|k: K| k.key_view() >= cutoff)),
    {
        proof {
            use_type_invariant(&*self);
        }
        let ghost before = self.entries@;
        let mut entries: Vec<(K, V)> = Vec::new();
        std::mem::swap(&mut self.entries, &mut entries);
        let mut kept: Vec<(K, V)> = Vec::new();
        // For each kept entry, the place in `before` that it came from.
        let ghost mut origin: Seq<int> = Seq::empty();
        while entries.len() > 0
            invariant
                keys_of(before).no_duplicates(),
                entries@ == before.take(entries.len() as int),
                entries.len() <= before.len(),
                origin.len() == kept.len(),
                forall|j: int|
                    0 <= j < kept.len() ==> entries.len() <= #[trigger] origin[j] < before.len()
                        && kept[j] == before[origin[j]] && kept[j].0.key_view() >= cutoff,
                forall|i: int, j: int|
                    0 <= i < j < kept.len() ==> #[trigger] origin[i] != #[trigger] origin[j],
                forall|b: int|
                    entries.len() <= b < before.len() && (#[trigger] before[b]).0.key_view()
                        >= cutoff ==> kept@.contains(before[b]),
            decreases entries.len(),
        {
            let ghost at = entries.len() - 1;
            let ghost kept_before = kept@;
            let entry = entries.pop().unwrap();
            assert(entry == before[at]);
            if entry.0.view_number() >= cutoff {
                kept.push(entry);
                proof {
                    origin = origin.push(at);
                    assert(kept@[kept_before.len() as int] == before[at]);
                    assert forall|b: int|
                        entries.len() <= b < before.len() && (#[trigger] before[b]).0.key_view()
                            >= cutoff implies kept@.contains(before[b]) by {
                        if b != at {
                            let j = choose|j: int|
                                0 <= j < kept_before.len() && kept_before[j] == before[b];
                            assert(kept@[j] == before[b]);
                        }
                    }
                }
            }
        }
        proof {
            let after = kept@;
            let kept_views = Set::new(|k: K| k.key_view() >= cutoff);
            let target = map_of(before).restrict(kept_views);
            assert forall|i: int, j: int|
                0 <= i < keys_of(after).len() && 0 <= j < keys_of(after).len() && i
                    != j implies keys_of(after)[i] != keys_of(after)[j] by {
                assert(origin[i] != origin[j]);
                assert(keys_of(before)[origin[i]] == keys_of(after)[i]);
                assert(keys_of(before)[origin[j]] == keys_of(after)[j]);
            }
            assert forall|k: K| #[trigger] map_of(after).contains_key(k) == target.contains_key(
                k,
            ) by {
                if map_of(after).contains_key(k) {
                    let j = choose|j: int| 0 <= j < after.len() && #[trigger] after[j].0 == k;
                    assert(before[origin[j]].0 == k);
                }
                if target.contains_key(k) {
                    let b = choose|b: int| 0 <= b < before.len() && #[trigger] before[b].0 == k;
                    assert(before[b].0.key_view() >= cutoff);
                    let j = choose|j: int| 0 <= j < after.len() && after[j] == before[b];
                    assert(after[j].0 == k);
                }
            }
            assert forall|k: K| #[trigger] map_of(after).contains_key(k) implies map_of(after)[k]
                == target[k] by {
                let j = choose|j: int| 0 <= j < after.len() && #[trigger] after[j].0 == k;
                lemma_map_of_entry(after, j);
                lemma_map_of_entry(before, origin[j]);
            }
            assert(map_of(after) =~= target);
        }
        std::mem::swap(&mut self.entries, &mut kept);
    }

    /// The keys of the map, each once.
    pub fn keys(&self) -> (keys: Vec<K>)
        ensures
            keys@ == self.key_seq(),
            keys@.no_duplicates(),
            keys@.to_set() =~= self@.dom(),
    {
        let mut keys: Vec<K> = Vec::new();
        let mut i: usize = 0;
        while i < self.entries.len()
            invariant
                i <= self.entries.len(),
                keys@ == keys_of(self.entries@).take(i as int),
            decreases self.entries.len() - i,
        {
            keys.push(self.entries[i].0);
            proof {
                assert(keys@ =~= keys_of(self.entries@).take(i + 1));
            }
            i += 1;
        }
        proof {
            assert(keys@ =~= keys_of(self.entries@));
            use_type_invariant(self);
            lemma_keys_cover_dom(self.entries@);
        }
        keys
    }
}

} // verus!
