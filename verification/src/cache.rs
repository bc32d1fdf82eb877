//! A keyed cache: a finite map kept as a list of entries with distinct keys.
//!
//! The caches keyed by 32-byte hashes, by filters, by request pairs and by
//! address pairs use this type in place of std's `HashMap`: vstd specifies
//! `HashMap` only for keys of the primitive integer types (and `bool`), so a
//! `HashMap` with such keys could not be reasoned about. Keys are found by a
//! linear scan, so a lookup takes time linear in the number of entries. The
//! caches keyed by block numbers (`u64`) keep std's `HashMap`.

use vstd::prelude::*;
use std::sync::Arc;

verus! {

broadcast use vstd::array::group_array_axioms;

/// Keys that executable code can compare.
pub trait CacheKey: Sized {
    /// Whether two keys are the same key.
    fn same_key(&self, other: &Self) -> (r: bool)
        ensures
            r == (*self == *other),
    ;
}

/// Keys that executable code can copy.
pub trait CloneKey: Sized {
    /// A copy of the key, equal to it.
    fn clone_key(&self) -> (r: Self)
        ensures
            r == *self,
    ;
}

impl CacheKey for u64 {
    fn same_key(&self, other: &Self) -> (r: bool) {
        *self == *other
    }
}

impl CloneKey for u64 {
    fn clone_key(&self) -> (r: Self) {
        *self
    }
}

impl<const N: usize> CacheKey for [u8; N] {
    fn same_key(&self, other: &Self) -> (r: bool) {
        bytes_equal(self, other)
    }
}

impl<const N: usize> CloneKey for [u8; N] {
    fn clone_key(&self) -> (r: Self) {
        *self
    }
}

impl<A: CacheKey, B: CacheKey> CacheKey for (A, B) {
    fn same_key(&self, other: &Self) -> (r: bool) {
        self.0.same_key(&other.0) && self.1.same_key(&other.1)
    }
}

impl<A: CloneKey, B: CloneKey> CloneKey for (A, B) {
    fn clone_key(&self) -> (r: Self) {
        (self.0.clone_key(), self.1.clone_key())
    }
}

/// std's `Arc::clone`: a new handle to the same allocation, so the value it
/// points to is the value the original handle points to.
#[verifier::external_body]
fn arc_clone<T>(a: &Arc<T>) -> (r: Arc<T>)
    ensures
        r == *a,
{
    Arc::clone(a)
}

impl<T: CacheKey> CacheKey for Arc<T> {
    fn same_key(&self, other: &Self) -> (r: bool) {
        let a: &T = &**self;
        let b: &T = &**other;
        a.same_key(b)
    }
}

impl<T> CloneKey for Arc<T> {
    fn clone_key(&self) -> (r: Self) {
        arc_clone(self)
    }
}

impl CacheKey for ethers::types::Filter {
    fn same_key(&self, other: &Self) -> (r: bool) {
        crate::eth::filters_equal(self, other)
    }
}

impl CloneKey for ethers::types::Filter {
    fn clone_key(&self) -> (r: Self) {
        crate::eth::filter_clone(self)
    }
}

/// Byte-wise comparison of two fixed-size byte strings.
pub fn bytes_equal<const N: usize>(a: &[u8; N], b: &[u8; N]) -> (r: bool)
    ensures
        r == (*a == *b),
{
    let mut i: usize = 0;
    while i < N
        invariant
            i <= N,
            a@.len() == N,
            b@.len() == N,
            forall|j: int| 0 <= j < i ==> a@[j] == b@[j],
        decreases N - i,
    {
        if a[i] != b[i] {
            assert(a@[i as int] != b@[i as int]);
            return false;
        }
        i = i + 1;
    }
    assert(*a =~= *b);
    true
}

/// The entries of `s` carry pairwise distinct keys.
pub open spec fn keys_distinct<K, V>(s: Seq<(K, V)>) -> bool {
    forall|i: int, j: int| 0 <= i < s.len() && 0 <= j < s.len() && i != j ==> s[i].0 != s[j].0
}

/// Some entry of `s` has key `k`.
pub open spec fn has_key<K, V>(s: Seq<(K, V)>, k: K) -> bool {
    exists|i: int| 0 <= i < s.len() && s[i].0 == k
}

/// The map that a list of entries stands for.
pub open spec fn entries_map<K, V>(s: Seq<(K, V)>) -> Map<K, V> {
    Map::new(
        |k: K| has_key(s, k),
        |k: K| s[choose|i: int| 0 <= i < s.len() && s[i].0 == k].1,
    )
}

/// With distinct keys, the map holds each entry's value at its key.
pub proof fn lemma_entries_map_at<K, V>(s: Seq<(K, V)>, i: int)
    requires
        keys_distinct(s),
        0 <= i < s.len(),
    ensures
        entries_map(s).contains_key(s[i].0),
        entries_map(s)[s[i].0] == s[i].1,
{
    let k = s[i].0;
    assert(has_key(s, k));
    let j = choose|j: int| 0 <= j < s.len() && s[j].0 == k;
    assert(j == i);
}

/// Appending an entry with a new key keeps the keys distinct and adds that
/// key with that value to the map.
pub proof fn lemma_entries_push<K, V>(s: Seq<(K, V)>, k: K, v: V)
    requires
        keys_distinct(s),
        !has_key(s, k),
    ensures
        keys_distinct(s.push((k, v))),
        entries_map(s.push((k, v))) == entries_map(s).insert(k, v),
{
    let s1 = s.push((k, v));
    assert forall|x: K| #[trigger] has_key(s1, x) == (x == k || has_key(s, x)) by {
        if has_key(s, x) {
            let j = choose|j: int| 0 <= j < s.len() && s[j].0 == x;
            assert(s1[j].0 == x);
        }
        if has_key(s1, x) {
            let j = choose|j: int| 0 <= j < s1.len() && s1[j].0 == x;
            if j < s.len() {
                assert(s[j].0 == x);
            }
        }
        assert(s1[s.len() as int].0 == k);
    }
    assert(keys_distinct(s1));
    assert forall|x: K| #[trigger] entries_map(s1).contains_key(x) implies entries_map(s1)[x]
        == entries_map(s).insert(k, v)[x] by {
        let j = choose|j: int| 0 <= j < s1.len() && s1[j].0 == x;
        lemma_entries_map_at(s1, j);
        if x != k {
            lemma_entries_map_at(s, j);
        }
    }
    assert(entries_map(s1) =~= entries_map(s).insert(k, v));
}

/// Removing the entry at `i` keeps the keys distinct and removes its key
/// from the map.
pub proof fn lemma_entries_remove<K, V>(s: Seq<(K, V)>, i: int)
    requires
        keys_distinct(s),
        0 <= i < s.len(),
    ensures
        keys_distinct(s.remove(i)),
        !has_key(s.remove(i), s[i].0),
        entries_map(s.remove(i)) == entries_map(s).remove(s[i].0),
{
    let s1 = s.remove(i);
    let key = s[i].0;
    assert forall|x: K| #[trigger] has_key(s1, x) == (x != key && has_key(s, x)) by {
        if has_key(s, x) && x != key {
            let j = choose|j: int| 0 <= j < s.len() && s[j].0 == x;
            if j < i {
                assert(s1[j].0 == x);
            } else {
                assert(s1[j - 1].0 == x);
            }
        }
        if has_key(s1, x) {
            let j = choose|j: int| 0 <= j < s1.len() && s1[j].0 == x;
            if j < i {
                assert(s[j].0 == x);
            } else {
                assert(s[j + 1].0 == x);
            }
        }
    }
    assert(keys_distinct(s1));
    assert forall|x: K| #[trigger] entries_map(s1).contains_key(x) implies entries_map(s1)[x]
        == entries_map(s).remove(key)[x] by {
        let j = choose|j: int| 0 <= j < s1.len() && s1[j].0 == x;
        lemma_entries_map_at(s1, j);
        if j < i {
            lemma_entries_map_at(s, j);
        } else {
            lemma_entries_map_at(s, j + 1);
        }
    }
    assert(entries_map(s1) =~= entries_map(s).remove(key));
}

/// A finite map from keys to values, kept as a list of entries whose keys are
/// pairwise distinct.
#[derive(Debug)]
pub struct KeyedCache<K, V> {
    entries: Vec<(K, V)>,
}

impl<K, V> View for KeyedCache<K, V> {
    type V = Map<K, V>;

    /// The map this cache holds.
    closed spec fn view(&self) -> Map<K, V> {
        entries_map(self.entries@)
    }
}

impl<K, V> KeyedCache<K, V> {
    #[verifier::type_invariant]
    spec fn distinct_keys(&self) -> bool {
        keys_distinct(self.entries@)
    }

    /// An empty cache.
    pub fn new() -> (c: Self)
        ensures
            c@ == Map::<K, V>::empty(),
    {
        let c = KeyedCache { entries: Vec::new() };
        assert(c@ =~= Map::<K, V>::empty());
        c
    }

    /// The number of entries.
    pub fn len(&self) -> (n: usize)
        ensures
            n == self@.len(),
            self@.dom().finite(),
    {
        proof {
            use_type_invariant(self);
            self.lemma_len();
        }
        self.entries.len()
    }

    proof fn lemma_len(&self)
        requires
            keys_distinct(self.entries@),
        ensures
            self@.dom().finite(),
            self@.len() == self.entries@.len(),
    {
        let s = self.entries@;
        let keys = s.map_values(|e: (K, V)| e.0);
        assert forall|i: int, j: int| 0 <= i < keys.len() && 0 <= j < keys.len() && i != j
            implies keys[i] != keys[j] by {}
        assert(keys.no_duplicates());
        keys.unique_seq_to_set();
        assert(self@.dom() =~= keys.to_set()) by {
            assert forall|k: K| self@.dom().contains(k) implies keys.to_set().contains(k) by {
                let i = choose|i: int| 0 <= i < s.len() && s[i].0 == k;
                assert(keys[i] == k);
            }
            assert forall|k: K| keys.to_set().contains(k) implies self@.dom().contains(k) by {
                let i = choose|i: int| 0 <= i < keys.len() && keys[i] == k;
                assert(s[i].0 == k);
            }
        }
    }

    /// Removes every entry.
    pub fn clear(&mut self)
        ensures
            final(self)@ == Map::<K, V>::empty(),
    {
        self.entries = Vec::new();
        assert(self@ =~= Map::<K, V>::empty());
    }
}

impl<K: CacheKey, V> KeyedCache<K, V> {
    /// The position of the entry with key `key`, if there is one.
    fn position(&self, key: &K) -> (r: Option<usize>)
        ensures
            match r {
                Some(i) => i < self.entries@.len() && self.entries@[i as int].0 == *key,
                None => !has_key(self.entries@, *key),
            },
    {
        let mut i: usize = 0;
        while i < self.entries.len()
            invariant
                i <= self.entries@.len(),
                forall|j: int| 0 <= j < i ==> self.entries@[j].0 != *key,
            decreases self.entries@.len() - i,
        {
            if self.entries[i].0.same_key(key) {
                return Some(i);
            }
            i = i + 1;
        }
        None
    }

    /// Whether the cache holds a value for `key`.
    pub fn contains_key(&self, key: &K) -> (r: bool)
        ensures
            r == self@.contains_key(*key),
    {
        self.position(key).is_some()
    }

    /// The value held for `key`, if any.
    pub fn get(&self, key: &K) -> (r: Option<&V>)
        ensures
            match r {
                Some(v) => self@.contains_key(*key) && *v == self@[*key],
                None => !self@.contains_key(*key),
            },
    {
        proof {
            use_type_invariant(self);
        }
        match self.position(key) {
            Some(i) => {
                proof {
                    lemma_entries_map_at(self.entries@, i as int);
                }
                Some(&self.entries[i].1)
            },
            None => None,
        }
    }

    /// Holds `value` for `key`; returns the value held before, if any.
    pub fn insert(&mut self, key: K, value: V) -> (r: Option<V>)
        ensures
            final(self)@ == old(self)@.insert(key, value),
            match r {
                Some(v) => old(self)@.contains_key(key) && v == old(self)@[key],
                None => !old(self)@.contains_key(key),
            },
    {
        proof {
            use_type_invariant(&*self);
        }
        let ghost s0 = self.entries@;
        let mut entries: Vec<(K, V)> = Vec::new();
        match self.position(&key) {
            Some(i) => {
                proof {
                    lemma_entries_map_at(s0, i as int);
                    lemma_entries_remove(s0, i as int);
                    lemma_entries_push(s0.remove(i as int), key, value);
                    assert(entries_map(s0).remove(key).insert(key, value) =~= entries_map(
                        s0,
                    ).insert(key, value));
                }
                std::mem::swap(&mut entries, &mut self.entries);
                let (_, prev) = entries.remove(i);
                entries.push((key, value));
                self.entries = entries;
                Some(prev)
            },
            None => {
                proof {
                    lemma_entries_push(s0, key, value);
                }
                std::mem::swap(&mut entries, &mut self.entries);
                entries.push((key, value));
                self.entries = entries;
                None
            },
        }
    }

    /// Drops the value held for `key`; returns it, if there was one.
    pub fn remove(&mut self, key: &K) -> (r: Option<V>)
        ensures
            final(self)@ == old(self)@.remove(*key),
            match r {
                Some(v) => old(self)@.contains_key(*key) && v == old(self)@[*key],
                None => !old(self)@.contains_key(*key),
            },
    {
        proof {
            use_type_invariant(&*self);
        }
        let ghost s0 = self.entries@;
        match self.position(key) {
            Some(i) => {
                proof {
                    lemma_entries_map_at(s0, i as int);
                    lemma_entries_remove(s0, i as int);
                }
                let mut entries: Vec<(K, V)> = Vec::new();
                std::mem::swap(&mut entries, &mut self.entries);
                let (_, prev) = entries.remove(i);
                self.entries = entries;
                Some(prev)
            },
            None => {
                proof {
                    assert(self@ =~= old(self)@.remove(*key));
                }
                None
            },
        }
    }
}

impl<K: CloneKey, V: Clone> Clone for KeyedCache<K, V> {
    /// A cache with the same keys, each holding a clone of the value held
    /// here.
    fn clone(&self) -> (r: Self)
        ensures
            r@.dom() == self@.dom(),
            forall|k: K| #[trigger] r@.contains_key(k) ==> cloned::<V>(self@[k], r@[k]),
    {
        proof {
            use_type_invariant(self);
        }
        let mut entries: Vec<(K, V)> = Vec::new();
        let mut i: usize = 0;
        while i < self.entries.len()
            invariant
                i <= self.entries@.len(),
                entries@.len() == i,
                keys_distinct(self.entries@),
                forall|j: int| 0 <= j < i ==> #[trigger] entries@[j].0 == self.entries@[j].0,
                forall|j: int|
                    0 <= j < i ==> cloned::<V>(self.entries@[j].1, #[trigger] entries@[j].1),
            decreases self.entries@.len() - i,
        {
            let k = self.entries[i].0.clone_key();
            let v = self.entries[i].1.clone();
            entries.push((k, v));
            i = i + 1;
        }
        let ghost s0 = self.entries@;
        let ghost s1 = entries@;
        proof {
            assert forall|a: int, b: int| 0 <= a < s1.len() && 0 <= b < s1.len() && a != b
                implies s1[a].0 != s1[b].0 by {
                assert(s1[a].0 == s0[a].0);
                assert(s1[b].0 == s0[b].0);
            }
            assert forall|k: K| #[trigger] has_key(s1, k) == has_key(s0, k) by {
                if has_key(s0, k) {
                    let j = choose|j: int| 0 <= j < s0.len() && s0[j].0 == k;
                    assert(s1[j].0 == k);
                }
                if has_key(s1, k) {
                    let j = choose|j: int| 0 <= j < s1.len() && s1[j].0 == k;
                    assert(s0[j].0 == k);
                }
            }
            assert(entries_map(s1).dom() =~= entries_map(s0).dom());
            assert forall|k: K| #[trigger] entries_map(s1).contains_key(k) implies cloned::<V>(
                entries_map(s0)[k],
                entries_map(s1)[k],
            ) by {
                let j = choose|j: int| 0 <= j < s1.len() && s1[j].0 == k;
                lemma_entries_map_at(s1, j);
                assert(s0[j].0 == k);
                lemma_entries_map_at(s0, j);
            }
        }
        KeyedCache { entries }
    }
}

/// What a read gives back after a write: the written value at the written
/// key, and at every other key what was there before.
pub proof fn law_read_after_insert<K, V>(
    before: KeyedCache<K, V>,
    after: KeyedCache<K, V>,
    key: K,
    value: V,
    other: K,
)
    requires
        after@ == before@.insert(key, value),
    ensures
        after@.contains_key(key),
        after@[key] == value,
        other != key ==> (after@.contains_key(other) == before@.contains_key(other)),
        other != key && before@.contains_key(other) ==> after@[other] == before@[other],
{
}

/// After a removal nothing is held for the removed key, and every other key
/// keeps what it held.
pub proof fn law_read_after_remove<K, V>(
    before: KeyedCache<K, V>,
    after: KeyedCache<K, V>,
    key: K,
    other: K,
)
    requires
        after@ == before@.remove(key),
    ensures
        !after@.contains_key(key),
        other != key ==> (after@.contains_key(other) == before@.contains_key(other)),
        other != key && before@.contains_key(other) ==> after@[other] == before@[other],
{
}

/// Removing a key that was just inserted where none was held undoes the
/// insertion.
pub proof fn law_remove_undoes_insert<K, V>(
    before: KeyedCache<K, V>,
    middle: KeyedCache<K, V>,
    after: KeyedCache<K, V>,
    key: K,
    value: V,
)
    requires
        !before@.contains_key(key),
        middle@ == before@.insert(key, value),
        after@ == middle@.remove(key),
    ensures
        after@ == before@,
{
    assert(after@ =~= before@);
}

} // verus!
