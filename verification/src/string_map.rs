//! A map from strings to values, kept in the order of its keys.
//!
//! Each key occurs at most once, and entries are ordered by the UTF-8 bytes
//! of their keys, so the entries of a map are determined by what it maps
//! each key to, however it was built; re-inserting a key replaces its value
//! in place.

use vstd::prelude::*;
use vstd::utf8::{encode_utf8, encode_utf8_decode_utf8};

verus! {

/// The index of the entry whose key is `k`, if any.
pub open spec fn key_index<V>(entries: Seq<(Seq<char>, V)>, k: Seq<char>) -> Option<int> {
    if exists|i: int| 0 <= i < entries.len() && #[trigger] entries[i].0 == k {
        Some(choose|i: int| 0 <= i < entries.len() && #[trigger] entries[i].0 == k)
    } else {
        None
    }
}

/// The value stored under `k`, if any.
pub open spec fn lookup<V>(entries: Seq<(Seq<char>, V)>, k: Seq<char>) -> Option<V> {
    match key_index(entries, k) {
        Some(i) => Some(entries[i].1),
        None => None,
    }
}

/// No key occurs twice.
pub open spec fn keys_unique<V>(entries: Seq<(Seq<char>, V)>) -> bool {
    forall|i: int, j: int|
        0 <= i < entries.len() && 0 <= j < entries.len() && i != j ==> #[trigger] entries[i].0
            != #[trigger] entries[j].0
}

pub proof fn lemma_key_index_unique<V>(entries: Seq<(Seq<char>, V)>, i: int)
    requires
        keys_unique(entries),
        0 <= i < entries.len(),
    ensures
        key_index(entries, entries[i].0) == Some(i),
{
    let k = entries[i].0;
    assert(0 <= i < entries.len() && entries[i].0 == k);
}

/// Lexicographic order on byte strings: the first differing byte decides,
/// and a proper prefix comes first.
pub open spec fn bytes_less(a: Seq<u8>, b: Seq<u8>) -> bool
    decreases a.len(),
{
    if a.len() == 0 {
        b.len() > 0
    } else if b.len() == 0 {
        false
    } else if a[0] != b[0] {
        a[0] < b[0]
    } else {
        bytes_less(a.drop_first(), b.drop_first())
    }
}

/// The order of keys: by their UTF-8 bytes.
pub open spec fn key_less(a: Seq<char>, b: Seq<char>) -> bool {
    bytes_less(encode_utf8(a), encode_utf8(b))
}

/// Keys strictly increase along the entries.
pub open spec fn keys_sorted<V>(entries: Seq<(Seq<char>, V)>) -> bool {
    forall|i: int, j: int|
        0 <= i < j < entries.len() ==> key_less(#[trigger] entries[i].0, #[trigger] entries[j].0)
}

/// Where a new key goes: after every key that comes before it.
pub open spec fn insert_position<V>(entries: Seq<(Seq<char>, V)>, k: Seq<char>) -> nat
    decreases entries.len(),
{
    if entries.len() == 0 {
        0
    } else if key_less(entries[0].0, k) {
        1 + insert_position(entries.drop_first(), k)
    } else {
        0
    }
}

pub proof fn lemma_bytes_less_irreflexive(a: Seq<u8>)
    ensures
        !bytes_less(a, a),
    decreases a.len(),
{
    if a.len() > 0 {
        lemma_bytes_less_irreflexive(a.drop_first());
    }
}

pub proof fn lemma_bytes_less_transitive(a: Seq<u8>, b: Seq<u8>, c: Seq<u8>)
    requires
        bytes_less(a, b),
        bytes_less(b, c),
    ensures
        bytes_less(a, c),
    decreases a.len(),
{
    if a.len() > 0 && b.len() > 0 && c.len() > 0 && a[0] == b[0] && b[0] == c[0] {
        lemma_bytes_less_transitive(a.drop_first(), b.drop_first(), c.drop_first());
    }
}

pub proof fn lemma_bytes_less_total(a: Seq<u8>, b: Seq<u8>)
    requires
        a != b,
    ensures
        bytes_less(a, b) || bytes_less(b, a),
    decreases a.len(),
{
    if a.len() == 0 && b.len() == 0 {
        assert(a =~= b);
    } else if a.len() > 0 && b.len() > 0 && a[0] == b[0] {
        if a.drop_first() == b.drop_first() {
            assert(a.drop_first().len() == a.len() - 1);
            assert(b.drop_first().len() == b.len() - 1);
            assert(a.len() == b.len());
            assert(a =~= b) by {
                assert forall|i: int| 0 <= i < a.len() implies a[i] == b[i] by {
                    if i > 0 {
                        assert(a[i] == a.drop_first()[i - 1]);
                        assert(b[i] == b.drop_first()[i - 1]);
                    }
                }
            }
        }
        lemma_bytes_less_total(a.drop_first(), b.drop_first());
    }
}

/// The key order is irreflexive, transitive and total on distinct keys.
pub proof fn lemma_key_order(a: Seq<char>, b: Seq<char>, c: Seq<char>)
    ensures
        !key_less(a, a),
        key_less(a, b) && key_less(b, c) ==> key_less(a, c),
        a != b ==> key_less(a, b) || key_less(b, a),
{
    lemma_bytes_less_irreflexive(encode_utf8(a));
    if key_less(a, b) && key_less(b, c) {
        lemma_bytes_less_transitive(encode_utf8(a), encode_utf8(b), encode_utf8(c));
    }
    if a != b {
        encode_utf8_decode_utf8(a);
        encode_utf8_decode_utf8(b);
        lemma_bytes_less_total(encode_utf8(a), encode_utf8(b));
    }
}

/// Sorted entries have unique keys.
pub proof fn lemma_sorted_unique<V>(entries: Seq<(Seq<char>, V)>)
    requires
        keys_sorted(entries),
    ensures
        keys_unique(entries),
{
    assert forall|i: int, j: int|
        0 <= i < entries.len() && 0 <= j < entries.len() && i != j implies #[trigger] entries[i].0
        != #[trigger] entries[j].0 by {
        lemma_key_order(entries[i].0, entries[j].0, entries[j].0);
        if i < j {
            assert(key_less(entries[i].0, entries[j].0));
        } else {
            assert(key_less(entries[j].0, entries[i].0));
        }
    }
}

proof fn lemma_insert_position_facts<V>(entries: Seq<(Seq<char>, V)>, k: Seq<char>)
    ensures
        insert_position(entries, k) <= entries.len(),
        forall|j: int| 0 <= j < insert_position(entries, k) ==> key_less(#[trigger] entries[j].0, k),
        insert_position(entries, k) < entries.len() ==> !key_less(
            entries[insert_position(entries, k) as int].0,
            k,
        ),
    decreases entries.len(),
{
    if entries.len() > 0 && key_less(entries[0].0, k) {
        let t = entries.drop_first();
        lemma_insert_position_facts(t, k);
        assert forall|j: int| 0 <= j < insert_position(entries, k) implies key_less(
            #[trigger] entries[j].0,
            k,
        ) by {
            if j > 0 {
                assert(entries[j] == t[j - 1]);
            }
        }
        if insert_position(entries, k) < entries.len() {
            assert(entries[insert_position(entries, k) as int] == t[insert_position(t, k) as int]);
        }
    }
}

/// A new key's position is within the entries.
pub proof fn lemma_insert_position_le<V>(entries: Seq<(Seq<char>, V)>, k: Seq<char>)
    ensures
        insert_position(entries, k) <= entries.len(),
{
    lemma_insert_position_facts(entries, k);
}

/// The position of a new key in sorted entries: every key before it is
/// smaller, every key from it on is larger.
pub proof fn lemma_insert_position_splits<V>(entries: Seq<(Seq<char>, V)>, k: Seq<char>)
    requires
        keys_sorted(entries),
        key_index(entries, k) is None,
    ensures
        insert_position(entries, k) <= entries.len(),
        forall|j: int| 0 <= j < insert_position(entries, k) ==> key_less(#[trigger] entries[j].0, k),
        forall|j: int|
            insert_position(entries, k) <= j < entries.len() ==> key_less(k, #[trigger] entries[j].0),
{
    lemma_insert_position_facts(entries, k);
    let p = insert_position(entries, k) as int;
    assert forall|j: int| p <= j < entries.len() implies key_less(k, #[trigger] entries[j].0) by {
        assert(entries[p].0 != k);
        lemma_key_order(entries[p].0, k, k);
        lemma_key_order(k, entries[p].0, entries[j].0);
        if j > p {
            assert(key_less(entries[p].0, entries[j].0));
        }
    }
}

/// The position computed by scanning past the smaller keys is the insert
/// position.
proof fn lemma_insert_position_is<V>(entries: Seq<(Seq<char>, V)>, k: Seq<char>, i: int)
    requires
        0 <= i <= entries.len(),
        forall|j: int| 0 <= j < i ==> key_less(#[trigger] entries[j].0, k),
        i == entries.len() || !key_less(entries[i].0, k),
    ensures
        insert_position(entries, k) == i,
    decreases i,
{
    if i > 0 {
        let t = entries.drop_first();
        assert(key_less(entries[0].0, k));
        assert forall|j: int| 0 <= j < i - 1 implies key_less(#[trigger] t[j].0, k) by {
            assert(t[j] == entries[j + 1]);
        }
        if i < entries.len() {
            assert(t[i - 1] == entries[i]);
        }
        lemma_insert_position_is(t, k, i - 1);
    }
}

/// The entries after storing `v` under `k`: an existing entry for `k` is
/// replaced in place, otherwise a new entry goes where its key belongs in
/// the order.
pub open spec fn inserted<V>(entries: Seq<(Seq<char>, V)>, k: Seq<char>, v: V) -> Seq<(Seq<char>, V)> {
    match key_index(entries, k) {
        Some(i) => entries.update(i, (k, v)),
        None => entries.insert(insert_position(entries, k) as int, (k, v)),
    }
}

pub proof fn lemma_inserted_sorted<V>(entries: Seq<(Seq<char>, V)>, k: Seq<char>, v: V)
    requires
        keys_sorted(entries),
    ensures
        keys_sorted(inserted(entries, k, v)),
        keys_unique(inserted(entries, k, v)),
{
    let e2 = inserted(entries, k, v);
    match key_index(entries, k) {
        Some(idx) => {
            assert forall|i: int, j: int| 0 <= i < j < e2.len() implies key_less(
                #[trigger] e2[i].0,
                #[trigger] e2[j].0,
            ) by {
                assert(e2[i].0 == entries[i].0);
                assert(e2[j].0 == entries[j].0);
            }
        },
        None => {
            lemma_insert_position_splits(entries, k);
            let p = insert_position(entries, k) as int;
            entries.insert_ensures(p, (k, v));
            assert forall|i: int, j: int| 0 <= i < j < e2.len() implies key_less(
                #[trigger] e2[i].0,
                #[trigger] e2[j].0,
            ) by {
                if j < p {
                    assert(e2[i] == entries[i] && e2[j] == entries[j]);
                } else if j == p {
                    assert(e2[i] == entries[i]);
                } else if i < p {
                    assert(e2[i] == entries[i] && e2[j] == entries[j - 1]);
                    lemma_key_order(entries[i].0, k, entries[j - 1].0);
                } else if i == p {
                    assert(e2[j] == entries[j - 1]);
                } else {
                    assert(e2[i] == entries[i - 1] && e2[j] == entries[j - 1]);
                }
            }
        },
    }
    lemma_sorted_unique(e2);
}

/// The value of the entry with the given index, read through its key.
proof fn lemma_lookup_at<V>(entries: Seq<(Seq<char>, V)>, i: int)
    requires
        keys_unique(entries),
        0 <= i < entries.len(),
    ensures
        lookup(entries, entries[i].0) == Some(entries[i].1),
{
    lemma_key_index_unique(entries, i);
}

/// Past the first entry, lookups of other keys read the remaining entries,
/// and the first key is not among them.
proof fn lemma_lookup_tail<V>(entries: Seq<(Seq<char>, V)>, k: Seq<char>)
    requires
        keys_unique(entries),
        entries.len() > 0,
    ensures
        k != entries[0].0 ==> lookup(entries, k) == lookup(entries.drop_first(), k),
        lookup(entries.drop_first(), entries[0].0) is None,
{
    let t = entries.drop_first();
    assert(keys_unique(t)) by {
        assert forall|i: int, j: int|
            0 <= i < t.len() && 0 <= j < t.len() && i != j implies #[trigger] t[i].0 != #[trigger] t[j].0 by {
            assert(t[i] == entries[i + 1] && t[j] == entries[j + 1]);
        }
    }
    assert forall|i: int| 0 <= i < t.len() implies #[trigger] t[i].0 != entries[0].0 by {
        assert(t[i] == entries[i + 1]);
    }
    if k != entries[0].0 {
        if exists|j: int| 0 <= j < t.len() && #[trigger] t[j].0 == k {
            let j = choose|j: int| 0 <= j < t.len() && #[trigger] t[j].0 == k;
            assert(t[j] == entries[j + 1]);
            lemma_key_index_unique(t, j);
            lemma_key_index_unique(entries, j + 1);
        } else {
            assert forall|i: int| 0 <= i < entries.len() implies #[trigger] entries[i].0 != k by {
                if i > 0 {
                    assert(entries[i] == t[i - 1]);
                }
            }
        }
    }
}

/// Sorted entries are determined by what they map each key to: two sorted
/// entry lists that agree on every lookup are the same list.
pub proof fn law_sorted_entries_determined_by_lookups<V>(e1: Seq<(Seq<char>, V)>, e2: Seq<(Seq<char>, V)>)
    requires
        keys_sorted(e1),
        keys_sorted(e2),
        forall|k: Seq<char>| #[trigger] lookup(e1, k) == lookup(e2, k),
    ensures
        e1 == e2,
    decreases e1.len(),
{
    lemma_sorted_unique(e1);
    lemma_sorted_unique(e2);
    if e1.len() == 0 {
        if e2.len() > 0 {
            lemma_lookup_at(e2, 0);
            assert(lookup(e1, e2[0].0) is None);
        }
        assert(e1 =~= e2);
    } else if e2.len() == 0 {
        lemma_lookup_at(e1, 0);
        assert(lookup(e2, e1[0].0) is None);
    } else {
        let k1 = e1[0].0;
        let k2 = e2[0].0;
        lemma_lookup_at(e1, 0);
        lemma_lookup_at(e2, 0);
        assert(lookup(e2, k1) is Some);
        assert(lookup(e1, k2) is Some);
        let j = choose|j: int| 0 <= j < e2.len() && #[trigger] e2[j].0 == k1;
        let i = choose|i: int| 0 <= i < e1.len() && #[trigger] e1[i].0 == k2;
        lemma_key_order(k1, k2, k1);
        if j > 0 && i > 0 {
            assert(key_less(k2, e2[j].0));
            assert(key_less(k1, e1[i].0));
        }
        assert(k1 == k2);
        assert(e1[0] == e2[0]);
        let t1 = e1.drop_first();
        let t2 = e2.drop_first();
        assert forall|k: Seq<char>| #[trigger] lookup(t1, k) == lookup(t2, k) by {
            lemma_lookup_tail(e1, k);
            lemma_lookup_tail(e2, k);
            assert(lookup(e1, k) == lookup(e2, k));
        }
        assert(keys_sorted(t1)) by {
            assert forall|a: int, b: int| 0 <= a < b < t1.len() implies key_less(#[trigger] t1[a].0, #[trigger] t1[b].0) by {
                assert(t1[a] == e1[a + 1] && t1[b] == e1[b + 1]);
            }
        }
        assert(keys_sorted(t2)) by {
            assert forall|a: int, b: int| 0 <= a < b < t2.len() implies key_less(#[trigger] t2[a].0, #[trigger] t2[b].0) by {
                assert(t2[a] == e2[a + 1] && t2[b] == e2[b + 1]);
            }
        }
        law_sorted_entries_determined_by_lookups(t1, t2);
        assert(e1 =~= e2) by {
            assert forall|x: int| 0 <= x < e1.len() implies e1[x] == e2[x] by {
                if x > 0 {
                    assert(e1[x] == t1[x - 1] && e2[x] == t2[x - 1]);
                }
            }
        }
    }
}

/// Reading a key right after storing a value under it gives that value.
pub proof fn law_lookup_after_insert<V>(entries: Seq<(Seq<char>, V)>, k: Seq<char>, v: V)
    requires
        keys_sorted(entries),
    ensures
        lookup(inserted(entries, k, v), k) == Some(v),
{
    let e2 = inserted(entries, k, v);
    lemma_inserted_sorted(entries, k, v);
    match key_index(entries, k) {
        Some(i) => {
            assert(e2[i].0 == k);
            lemma_key_index_unique(e2, i);
        },
        None => {
            let p = insert_position(entries, k) as int;
            lemma_insert_position_facts(entries, k);
            entries.insert_ensures(p, (k, v));
            assert(e2[p].0 == k);
            lemma_key_index_unique(e2, p);
        },
    }
}

/// Storing under one key leaves every other key's value as it was.
pub proof fn law_insert_keeps_other_keys<V>(
    entries: Seq<(Seq<char>, V)>,
    k: Seq<char>,
    v: V,
    other: Seq<char>,
)
    requires
        keys_sorted(entries),
        other != k,
    ensures
        lookup(inserted(entries, k, v), other) == lookup(entries, other),
{
    let e2 = inserted(entries, k, v);
    lemma_inserted_sorted(entries, k, v);
    lemma_sorted_unique(entries);
    let p = insert_position(entries, k) as int;
    if key_index(entries, k) is None {
        lemma_insert_position_facts(entries, k);
        entries.insert_ensures(p, (k, v));
    }
    match key_index(entries, other) {
        Some(j) => {
            assert(entries[j].0 == other);
            match key_index(entries, k) {
                Some(i) => {
                    assert(e2[j] == entries[j]);
                    lemma_key_index_unique(e2, j);
                },
                None => {
                    if j < p {
                        assert(e2[j] == entries[j]);
                        lemma_key_index_unique(e2, j);
                    } else {
                        assert(e2[j + 1] == entries[j]);
                        lemma_key_index_unique(e2, j + 1);
                    }
                },
            }
        },
        None => {
            assert forall|i: int| 0 <= i < e2.len() implies #[trigger] e2[i].0 != other by {
                match key_index(entries, k) {
                    Some(x) => {
                        if i == x {
                            assert(e2[i].0 == k);
                        } else {
                            assert(e2[i] == entries[i]);
                            assert(!(0 <= i < entries.len() && entries[i].0 == other));
                        }
                    },
                    None => {
                        if i < p {
                            assert(e2[i] == entries[i]);
                            assert(!(0 <= i < entries.len() && entries[i].0 == other));
                        } else if i == p {
                            assert(e2[i].0 == k);
                        } else {
                            assert(e2[i] == entries[i - 1]);
                            assert(!(0 <= i - 1 < entries.len() && entries[i - 1].0 == other));
                        }
                    },
                }
            }
        },
    }
}

/// Storing a value grows the map by one entry exactly when the key is new.
pub proof fn law_insert_len<V>(entries: Seq<(Seq<char>, V)>, k: Seq<char>, v: V)
    requires
        keys_sorted(entries),
    ensures
        inserted(entries, k, v).len() == entries.len() + (if key_index(entries, k) is Some {
            0int
        } else {
            1int
        }),
{
    if key_index(entries, k) is None {
        lemma_insert_position_facts(entries, k);
        entries.insert_ensures(insert_position(entries, k) as int, (k, v));
    }
}

/// A map from strings to values, its entries ordered by key.
pub struct StringMap<V> {
    keys: Vec<String>,
    vals: Vec<V>,
}

impl<V> StringMap<V> {
    #[verifier::type_invariant]
    spec fn well_formed(self) -> bool {
        &&& self.keys.len() == self.vals.len()
        &&& keys_unique(self.entries())
        &&& keys_sorted(self.entries())
    }

    /// The entries in order, each key taken by its characters.
    pub closed spec fn entries(self) -> Seq<(Seq<char>, V)> {
        Seq::new(self.keys.len() as nat, |i: int| (self.keys@[i]@, self.vals@[i]))
    }

    /// An empty map.
    pub fn new() -> (m: Self)
        ensures
            m.entries() == Seq::<(Seq<char>, V)>::empty(),
    {
        let m = StringMap { keys: Vec::new(), vals: Vec::new() };
        assert(m.entries() =~= Seq::<(Seq<char>, V)>::empty());
        m
    }

    /// Number of entries; the entries are in key order, each key once.
    pub fn len(&self) -> (n: usize)
        ensures
            n == self.entries().len(),
            keys_sorted(self.entries()),
            keys_unique(self.entries()),
    {
        proof {
            use_type_invariant(self);
        }
        self.keys.len()
    }

    /// Whether the map has no entry.
    pub fn is_empty(&self) -> (b: bool)
        ensures
            b == (self.entries().len() == 0),
    {
        proof {
            use_type_invariant(self);
        }
        self.keys.len() == 0
    }

    /// The key of the `i`-th entry.
    pub fn key_at(&self, i: usize) -> (k: &String)
        requires
            i < self.entries().len(),
        ensures
            k@ == self.entries()[i as int].0,
    {
        proof {
            use_type_invariant(self);
        }
        &self.keys[i]
    }

    /// The value of the `i`-th entry.
    pub fn value_at(&self, i: usize) -> (v: &V)
        requires
            i < self.entries().len(),
        ensures
            *v == self.entries()[i as int].1,
    {
        proof {
            use_type_invariant(self);
        }
        &self.vals[i]
    }

    fn find(&self, key: &String) -> (r: Option<usize>)
        ensures
            match r {
                Some(i) => key_index(self.entries(), key@) == Some(i as int),
                None => key_index(self.entries(), key@) is None,
            },
    {
        proof {
            use_type_invariant(self);
        }
        let mut i: usize = 0;
        while i < self.keys.len()
            invariant
                i <= self.keys@.len(),
                self.keys@.len() == self.vals@.len(),
                keys_unique(self.entries()),
                forall|j: int| 0 <= j < i ==> #[trigger] self.entries()[j].0 != key@,
            decreases self.keys@.len() - i,
        {
            if self.keys[i] == *key {
                proof {
                    lemma_key_index_unique(self.entries(), i as int);
                }
                return Some(i);
            }
            i = i + 1;
        }
        None
    }

    /// The value stored under `key`, if any.
    pub fn get(&self, key: &str) -> (r: Option<&V>)
        ensures
            match r {
                Some(v) => lookup(self.entries(), key@) == Some(*v),
                None => lookup(self.entries(), key@) is None,
            },
    {
        proof {
            use_type_invariant(self);
        }
        let owned = key.to_owned();
        match self.find(&owned) {
            Some(i) => Some(&self.vals[i]),
            None => None,
        }
    }

    /// Whether some entry has key `key`.
    pub fn contains_key(&self, key: &str) -> (b: bool)
        ensures
            b == (key_index(self.entries(), key@) is Some),
    {
        let owned = key.to_owned();
        self.find(&owned).is_some()
    }

    /// Stores `value` under `key`, returning the value it replaces.
    pub fn insert(&mut self, key: String, value: V) -> (r: Option<V>)
        ensures
            final(self).entries() == inserted(old(self).entries(), key@, value),
            r == lookup(old(self).entries(), key@),
            keys_sorted(old(self).entries()),
            keys_unique(old(self).entries()),
            keys_sorted(final(self).entries()),
            keys_unique(final(self).entries()),
    {
        proof {
            use_type_invariant(&*self);
        }
        let ghost old_entries = self.entries();
        let ghost k = key@;
        proof {
            lemma_inserted_sorted(old_entries, k, value);
        }
        let found = self.find(&key);
        let position = match found {
            Some(i) => i,
            None => self.position_of_new(&key),
        };
        let mut taken = StringMap { keys: Vec::new(), vals: Vec::new() };
        assert(taken.entries() =~= Seq::<(Seq<char>, V)>::empty());
        std::mem::swap(self, &mut taken);
        let StringMap { mut keys, mut vals } = taken;
        assert(keys@.len() == vals@.len());
        match found {
            Some(i) => {
                keys.set(i, key);
                let previous = vals.remove(i);
                vals.insert(i, value);
                let ghost new_entries = Seq::new(keys.len() as nat, |j: int| (keys@[j]@, vals@[j]));
                assert(new_entries =~= inserted(old_entries, k, value));
                *self = StringMap { keys, vals };
                Some(previous)
            },
            None => {
                keys.insert(position, key);
                vals.insert(position, value);
                let ghost new_entries = Seq::new(keys.len() as nat, |j: int| (keys@[j]@, vals@[j]));
                proof {
                    old_entries.insert_ensures(position as int, (k, value));
                }
                assert(new_entries =~= inserted(old_entries, k, value));
                *self = StringMap { keys, vals };
                None
            },
        }
    }

    /// Where a key that is not stored belongs: after every smaller key.
    fn position_of_new(&self, key: &String) -> (p: usize)
        requires
            key_index(self.entries(), key@) is None,
        ensures
            p == insert_position(self.entries(), key@),
            p <= self.entries().len(),
    {
        proof {
            use_type_invariant(self);
        }
        let kb = key.as_str().as_bytes();
        let mut i: usize = 0;
        while i < self.keys.len()
            invariant
                i <= self.keys@.len(),
                self.keys@.len() == self.vals@.len(),
                kb@ == encode_utf8(key@),
                forall|j: int| 0 <= j < i ==> key_less(#[trigger] self.entries()[j].0, key@),
            decreases self.keys@.len() - i,
        {
            let b = self.keys[i].as_str().as_bytes();
            if !bytes_less_exec(b, kb) {
                proof {
                    lemma_insert_position_is(self.entries(), key@, i as int);
                }
                assert(i <= self.entries().len());
                return i;
            }
            i = i + 1;
        }
        proof {
            lemma_insert_position_is(self.entries(), key@, i as int);
        }
        i
    }
}

/// Compares byte strings lexicographically.
fn bytes_less_exec(a: &[u8], b: &[u8]) -> (r: bool)
    ensures
        r == bytes_less(a@, b@),
{
    let mut i: usize = 0;
    assert(a@.skip(0) =~= a@);
    assert(b@.skip(0) =~= b@);
    while i < a.len() && i < b.len()
        invariant
            i <= a@.len(),
            i <= b@.len(),
            bytes_less(a@, b@) == bytes_less(a@.skip(i as int), b@.skip(i as int)),
        decreases a@.len() - i,
    {
        if a[i] != b[i] {
            return a[i] < b[i];
        }
        proof {
            assert(a@.skip(i as int).drop_first() =~= a@.skip(i + 1));
            assert(b@.skip(i as int).drop_first() =~= b@.skip(i + 1));
        }
        i = i + 1;
    }
    i == a.len() && i < b.len()
}

} // verus!
