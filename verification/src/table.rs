//! A table of values keyed by strings, with at most one entry per key.
//!
//! The watch managers, the log stream manager, the shell session manager
//! and the shared watch cache keep their state in such tables.
use vstd::prelude::*;
use crate::ordering::views;
use crate::text::{owned, str_eq};

verus! {

/// Values keyed by strings, one entry per key, in the order in which the
/// keys were first inserted.
#[derive(Debug)]
pub struct KeyedTable<V> {
    entries: Vec<(String, V)>,
}

/// The keys of a list of entries.
pub open spec fn entry_keys<V>(entries: Seq<(String, V)>) -> Seq<Seq<char>> {
    entries.map_values(|e: (String, V)| e.0@)
}

/// `vals` holds, in the order of `keys`, the value that `m` has under each
/// key, and `keys` lists every key of `m` once.
pub open spec fn values_in_order<V>(vals: Seq<V>, m: Map<Seq<char>, V>, keys: Seq<Seq<char>>) -> bool {
    &&& keys.no_duplicates()
    &&& keys.to_set() == m.dom()
    &&& keys.len() == vals.len()
    &&& forall|i: int| 0 <= i < vals.len() ==> vals[i] == m[keys[i]]
}

/// `vals` holds the values of `m`, one for each key, in some order of the
/// keys.
pub open spec fn all_values_of<V>(vals: Seq<V>, m: Map<Seq<char>, V>) -> bool {
    exists|keys: Seq<Seq<char>>| #[trigger] values_in_order(vals, m, keys)
}

/// `vals` holds, in the order of `keys`, an item related by `rel` to the
/// value that `m` has under each key, and `keys` lists every key of `m`
/// once.
pub open spec fn related_in_order<A, V>(
    vals: Seq<A>,
    m: Map<Seq<char>, V>,
    keys: Seq<Seq<char>>,
    rel: spec_fn(A, V) -> bool,
) -> bool {
    &&& keys.no_duplicates()
    &&& keys.to_set() == m.dom()
    &&& keys.len() == vals.len()
    &&& forall|i: int| 0 <= i < vals.len() ==> rel(vals[i], m[keys[i]])
}

/// `vals` holds one item for each value of `m`, related to it by `rel`, in
/// some order of the keys.
pub open spec fn one_for_each<A, V>(vals: Seq<A>, m: Map<Seq<char>, V>, rel: spec_fn(A, V) -> bool) -> bool {
    exists|keys: Seq<Seq<char>>| #[trigger] related_in_order(vals, m, keys, rel)
}

/// Values taken, each changed by `f`, from entries that list every key of
/// `m` once with its value are the values of `m` changed by `f`.
pub proof fn lemma_drained_values<V, W>(
    entries: Seq<(String, V)>,
    m: Map<Seq<char>, V>,
    out: Seq<W>,
    f: spec_fn(V) -> W,
)
    requires
        entry_keys(entries).no_duplicates(),
        entry_keys(entries).to_set() == m.dom(),
        forall|i: int| 0 <= i < entries.len() ==> entries[i].1 == m[#[trigger] entry_keys(entries)[i]],
        out.len() == entries.len(),
        forall|i: int| 0 <= i < out.len() ==> out[i] == f(#[trigger] entries[i].1),
    ensures
        all_values_of(out, m.map_values(f)),
{
    let ks = entry_keys(entries);
    assert forall|i: int| 0 <= i < out.len() implies out[i] == m.map_values(f)[ks[i]] by {
        assert(ks.contains(ks[i]));
        assert(m.dom().contains(ks[i]));
        assert(entries[i].1 == m[ks[i]]);
    }
    assert(m.map_values(f).dom() =~= m.dom());
    assert(values_in_order(out, m.map_values(f), ks));
}

impl<V> View for KeyedTable<V> {
    type V = Map<Seq<char>, V>;

    closed spec fn view(&self) -> Map<Seq<char>, V> {
        let ks = entry_keys(self.entries@);
        Map::new(|k: Seq<char>| ks.contains(k), |k: Seq<char>| self.entries@[ks.index_of(k)].1)
    }
}

impl<V> KeyedTable<V> {
    #[verifier::type_invariant]
    spec fn keys_unique(&self) -> bool {
        entry_keys(self.entries@).no_duplicates()
    }

    /// The keys, in insertion order.
    pub closed spec fn key_list(&self) -> Seq<Seq<char>> {
        entry_keys(self.entries@)
    }

    proof fn lemma_view(&self)
        requires
            self.keys_unique(),
        ensures
            self@.dom() == self.key_list().to_set(),
            self.key_list().len() == self.entries@.len(),
            forall|i: int|
                0 <= i < self.entries@.len() ==> #[trigger] self@[self.entries@[i].0@]
                    == self.entries@[i].1,
            forall|i: int|
                0 <= i < self.entries@.len() ==> self@.contains_key(#[trigger] self.entries@[i].0@),
    {
        let ks = entry_keys(self.entries@);
        assert(self@.dom() =~= ks.to_set());
        assert forall|i: int| 0 <= i < self.entries@.len() implies #[trigger] self@[self.entries@[i].0@]
            == self.entries@[i].1 by {
            assert(ks[i] == self.entries@[i].0@);
            let j = ks.index_of(ks[i]);
            assert(ks.contains(ks[i]));
            assert(ks[j] == ks[i]);
        }
        assert forall|i: int| 0 <= i < self.entries@.len() implies self@.contains_key(
            #[trigger] self.entries@[i].0@,
        ) by {
            assert(ks[i] == self.entries@[i].0@);
        }
    }

    /// The `i`-th key in key order is in the table.
    pub proof fn lemma_keys_in_dom(&self, i: int)
        requires
            0 <= i < self.key_list().len(),
        ensures
            self@.contains_key(self.key_list()[i]),
    {
        assert(self.key_list().contains(self.key_list()[i]));
    }

    /// The empty table.
    pub fn new() -> (r: Self)
        ensures
            r@ == Map::<Seq<char>, V>::empty(),
            r.key_list() == Seq::<Seq<char>>::empty(),
    {
        let r = KeyedTable { entries: Vec::new() };
        assert(r@ =~= Map::<Seq<char>, V>::empty());
        assert(r.key_list() =~= Seq::<Seq<char>>::empty());
        r
    }

    /// The position of the entry for `key`, if there is one.
    fn position(&self, key: &str) -> (r: Option<usize>)
        ensures
            match r {
                Some(i) => i < self.entries@.len() && self.entries@[i as int].0@ == key@,
                None => !self.key_list().contains(key@),
            },
    {
        let mut i: usize = 0;
        while i < self.entries.len()
            invariant
                i <= self.entries.len(),
                forall|j: int| 0 <= j < i ==> self.entries@[j].0@ != key@,
            decreases self.entries.len() - i,
        {
            if str_eq(self.entries[i].0.as_str(), key) {
                return Some(i);
            }
            i = i + 1;
        }
        assert(!self.key_list().contains(key@)) by {
            if self.key_list().contains(key@) {
                let j = choose|j: int| 0 <= j < self.key_list().len() && self.key_list()[j] == key@;
                assert(self.entries@[j].0@ != key@);
            }
        }
        None
    }

    /// The number of entries.
    pub fn len(&self) -> (r: usize)
        ensures
            r == self@.len(),
            r == self.key_list().len(),
            self@.dom().finite(),
    {
        proof {
            use_type_invariant(self);
            self.lemma_view();
            self.key_list().unique_seq_to_set();
            vstd::seq_lib::seq_to_set_is_finite(self.key_list());
        }
        self.entries.len()
    }

    /// Whether the table holds an entry for `key`.
    pub fn contains_key(&self, key: &str) -> (r: bool)
        ensures
            r == self@.contains_key(key@),
    {
        proof {
            use_type_invariant(self);
            self.lemma_view();
        }
        self.position(key).is_some()
    }

    /// The value stored under `key`, if any.
    pub fn get(&self, key: &str) -> (r: Option<&V>)
        ensures
            match r {
                Some(v) => self@.contains_key(key@) && *v == self@[key@],
                None => !self@.contains_key(key@),
            },
    {
        proof {
            use_type_invariant(self);
            self.lemma_view();
        }
        match self.position(key) {
            Some(i) => Some(&self.entries[i].1),
            None => None,
        }
    }

    /// Stores `value` under `key`, replacing and returning what was stored
    /// there before. A new key goes last in the key order.
    pub fn insert(&mut self, key: String, value: V) -> (r: Option<V>)
        ensures
            final(self)@ == old(self)@.insert(key@, value),
            match r {
                Some(v) => old(self)@.contains_key(key@) && v == old(self)@[key@],
                None => !old(self)@.contains_key(key@),
            },
            old(self)@.contains_key(key@) ==> final(self).key_list() == old(self).key_list(),
            !old(self)@.contains_key(key@) ==> final(self).key_list() == old(self).key_list().push(
                key@,
            ),
    {
        proof {
            use_type_invariant(&*self);
            self.lemma_view();
        }
        let ghost old_entries = self.entries@;
        match self.position(key.as_str()) {
            Some(i) => {
                let mut entries: Vec<(String, V)> = Vec::new();
                std::mem::swap(&mut entries, &mut self.entries);
                let ghost taken = entries@;
                assert(taken == old_entries);
                let (_, old_value) = entries.remove(i);
                let ghost ks = entry_keys(old_entries);
                entries.insert(i, (key, value));
                proof {
                    assert(entry_keys(entries@) =~= ks);
                }
                self.entries = entries;
                proof {
                    let new_ks = entry_keys(self.entries@);
                    assert(new_ks =~= ks);
                    assert(self@ =~= old(self)@.insert(key@, value)) by {
                        assert forall|k: Seq<char>| #[trigger] self@.contains_key(k) implies self@[k]
                            == old(self)@.insert(key@, value)[k] by {
                            let j = ks.index_of(k);
                            assert(ks.contains(k));
                            if k == key@ {
                                assert(ks[i as int] == key@);
                                assert(j == i);
                            } else {
                                assert(j != i);
                                assert(self.entries@[j] == old_entries[j]);
                            }
                        }
                    }
                    assert(old_value == old_entries[i as int].1);
                    assert(old_entries[i as int].0@ == key@);
                }
                Some(old_value)
            },
            None => {
                let mut entries: Vec<(String, V)> = Vec::new();
                std::mem::swap(&mut entries, &mut self.entries);
                let ghost ks = entry_keys(old_entries);
                assert(entries@ == old_entries);
                entries.push((key, value));
                proof {
                    assert(entry_keys(entries@) =~= ks.push(key@));
                }
                self.entries = entries;
                proof {
                    let new_ks = entry_keys(self.entries@);
                    assert(new_ks =~= ks.push(key@));
                    assert forall|a: int, b: int|
                        0 <= a < new_ks.len() && 0 <= b < new_ks.len() && a != b implies new_ks[a]
                        != new_ks[b] by {
                        if a < ks.len() && b < ks.len() {
                        } else if a == ks.len() {
                            assert(ks.contains(new_ks[b]));
                        } else {
                            assert(ks.contains(new_ks[a]));
                        }
                    }
                    assert(self@ =~= old(self)@.insert(key@, value)) by {
                        assert forall|k: Seq<char>| #[trigger] old(self)@.insert(key@, value).contains_key(k)
                            implies self@.contains_key(k) by {
                            if k == key@ {
                                assert(new_ks[ks.len() as int] == key@);
                            } else {
                                assert(ks.contains(k));
                                let j0 = ks.index_of(k);
                                assert(new_ks[j0] == k);
                            }
                        }
                        assert forall|k: Seq<char>| #[trigger] self@.contains_key(k) implies self@[k]
                            == old(self)@.insert(key@, value)[k] by {
                            let j = new_ks.index_of(k);
                            assert(new_ks.contains(k));
                            if k == key@ {
                                assert(new_ks[ks.len() as int] == key@);
                                assert(j == ks.len());
                            } else {
                                assert(j < ks.len());
                                assert(ks[j] == k);
                                assert(ks.contains(k));
                                let j0 = ks.index_of(k);
                                assert(ks[j0] == k);
                                assert(new_ks[j0] == k);
                                assert(j == j0);
                            }
                        }
                    }
                }
                None
            },
        }
    }

    /// Removes and returns the value stored under `key`, if any. The other
    /// keys keep their order.
    pub fn remove(&mut self, key: &str) -> (r: Option<V>)
        ensures
            final(self)@ == old(self)@.remove(key@),
            match r {
                Some(v) => old(self)@.contains_key(key@) && v == old(self)@[key@],
                None => !old(self)@.contains_key(key@),
            },
    {
        proof {
            use_type_invariant(&*self);
            self.lemma_view();
        }
        let ghost old_entries = self.entries@;
        let ghost ks = entry_keys(old_entries);
        match self.position(key) {
            Some(i) => {
                let mut entries: Vec<(String, V)> = Vec::new();
                std::mem::swap(&mut entries, &mut self.entries);
                assert(entries@ == old_entries);
                let (_, v) = entries.remove(i);
                proof {
                    assert(entry_keys(entries@) =~= ks.remove(i as int));
                }
                self.entries = entries;
                proof {
                    let new_ks = entry_keys(self.entries@);
                    assert(new_ks =~= ks.remove(i as int));
                    assert forall|a: int, b: int|
                        0 <= a < new_ks.len() && 0 <= b < new_ks.len() && a != b implies new_ks[a]
                        != new_ks[b] by {
                        let a0 = if a < i { a } else { a + 1 };
                        let b0 = if b < i { b } else { b + 1 };
                        assert(new_ks[a] == ks[a0]);
                        assert(new_ks[b] == ks[b0]);
                    }
                    assert(self@ =~= old(self)@.remove(key@)) by {
                        assert forall|k: Seq<char>| #[trigger] old(self)@.remove(key@).contains_key(k)
                            implies self@.contains_key(k) by {
                            let j = ks.index_of(k);
                            assert(ks.contains(k));
                            assert(j != i);
                            if j < i {
                                assert(new_ks[j] == k);
                            } else {
                                assert(new_ks[j - 1] == k);
                            }
                        }
                        assert forall|k: Seq<char>| #[trigger] self@.contains_key(k) implies self@[k]
                            == old(self)@[k] && k != key@ && old(self)@.contains_key(k) by {
                            assert(new_ks.contains(k));
                            let j = new_ks.index_of(k);
                            assert(new_ks[j] == k);
                            let j0 = if j < i { j } else { j + 1 };
                            assert(self.entries@ == old_entries.remove(i as int));
                            assert(ks[j0] == k);
                            assert(ks.contains(k));
                            assert(ks[ks.index_of(k)] == k);
                            assert(ks.index_of(k) == j0);
                            assert(self.entries@[j] == old_entries[j0]);
                            assert(j0 != i);
                            assert(self@[k] == self.entries@[j].1);
                            assert(old(self)@.contains_key(k));
                            assert(old(self)@[k] == old_entries[j0].1);
                            assert(ks[i as int] == key@);
                            assert(ks.no_duplicates());
                            assert(k != key@);
                        }
                    }
                    assert(v == old_entries[i as int].1);
                    assert(old_entries[i as int].0@ == key@);
                }
                Some(v)
            },
            None => {
                assert(old(self)@.remove(key@) =~= old(self)@);
                None
            },
        }
    }

    /// Removes the entries of all the listed keys and says how many there
    /// were.
    pub fn remove_keys(&mut self, keys: &Vec<String>) -> (r: usize)
        ensures
            final(self)@ == old(self)@.restrict(Set::new(|k: Seq<char>| !views(keys@).contains(k))),
            r == old(self)@.len() - final(self)@.len(),
    {
        let initial = self.len();
        let ghost start = self@;
        let mut i: usize = 0;
        while i < keys.len()
            invariant
                i <= keys.len(),
                self@ == start.restrict(Set::new(|k: Seq<char>| !views(keys@.take(i as int)).contains(k))),
                start == old(self)@,
                start.dom().finite(),
                initial == start.len(),
            decreases keys.len() - i,
        {
            self.remove(keys[i].as_str());
            proof {
                let f = keys@[i as int]@;
                let a = views(keys@.take(i as int));
                let b = views(keys@.take(i + 1));
                assert(b =~= a.push(f));
                assert forall|k: Seq<char>| b.contains(k) == (a.contains(k) || k == f) by {
                    if a.contains(k) {
                        let j = choose|j: int| 0 <= j < a.len() && a[j] == k;
                        assert(b[j] == k);
                    }
                    if k == f {
                        assert(b[i as int] == k);
                    }
                    if b.contains(k) {
                        let j = choose|j: int| 0 <= j < b.len() && b[j] == k;
                        if j < i {
                            assert(a[j] == k);
                        }
                    }
                }
                assert(self@ =~= start.restrict(
                    Set::new(|k: Seq<char>| !views(keys@.take(i + 1)).contains(k)),
                ));
            }
            i = i + 1;
        }
        proof {
            assert(keys@.take(keys.len() as int) =~= keys@);
            assert(self@ =~= start.restrict(Set::new(|k: Seq<char>| !views(keys@).contains(k))));
            assert(self@.dom().subset_of(start.dom()));
            vstd::set_lib::lemma_len_subset(self@.dom(), start.dom());
        }
        let left = self.len();
        initial - left
    }

    /// The keys, in insertion order.
    pub fn keys(&self) -> (r: Vec<String>)
        ensures
            crate::ordering::views(r@) == self.key_list(),
            self.key_list().to_set() == self@.dom(),
            self.key_list().no_duplicates(),
    {
        proof {
            use_type_invariant(self);
            self.lemma_view();
        }
        let mut r: Vec<String> = Vec::new();
        let mut i: usize = 0;
        while i < self.entries.len()
            invariant
                i <= self.entries.len(),
                crate::ordering::views(r@) == self.key_list().take(i as int),
            decreases self.entries.len() - i,
        {
            let ghost before = r@;
            let k = owned(self.entries[i].0.as_str());
            r.push(k);
            assert(crate::ordering::views(r@) =~= crate::ordering::views(before).push(k@));
            assert(self.key_list().take(i + 1) =~= self.key_list().take(i as int).push(
                self.key_list()[i as int],
            ));
            i = i + 1;
        }
        assert(self.key_list().take(self.entries.len() as int) =~= self.key_list());
        r
    }

    /// The values, in key order.
    pub fn values(&self) -> (r: Vec<&V>)
        ensures
            r@.len() == self.key_list().len(),
            self.key_list().no_duplicates(),
            self.key_list().to_set() == self@.dom(),
            forall|i: int| 0 <= i < r@.len() ==> *r@[i] == self@[#[trigger] self.key_list()[i]],
    {
        proof {
            use_type_invariant(self);
            self.lemma_view();
        }
        let mut r: Vec<&V> = Vec::new();
        let mut i: usize = 0;
        while i < self.entries.len()
            invariant
                i <= self.entries.len(),
                r@.len() == i,
                forall|j: int|
                    0 <= j < i ==> *r@[j] == self@[#[trigger] self.key_list()[j]],
            decreases self.entries.len() - i,
        {
            r.push(&self.entries[i].1);
            proof {
                use_type_invariant(self);
                self.lemma_view();
                assert(self.key_list()[i as int] == self.entries@[i as int].0@);
                assert(self@[self.entries@[i as int].0@] == self.entries@[i as int].1);
            }
            i = i + 1;
        }
        r
    }

    /// Removes every entry and returns them, in key order.
    pub fn drain(&mut self) -> (r: Vec<(String, V)>)
        ensures
            final(self)@ == Map::<Seq<char>, V>::empty(),
            entry_keys(r@) == old(self).key_list(),
            entry_keys(r@).no_duplicates(),
            entry_keys(r@).to_set() == old(self)@.dom(),
            forall|i: int|
                0 <= i < r@.len() ==> r@[i].1 == old(self)@[#[trigger] old(self).key_list()[i]],
    {
        proof {
            use_type_invariant(&*self);
            self.lemma_view();
        }
        let mut r: Vec<(String, V)> = Vec::new();
        std::mem::swap(&mut r, &mut self.entries);
        proof {
            assert(self@ =~= Map::<Seq<char>, V>::empty());
            assert forall|i: int| 0 <= i < r@.len() implies r@[i].1 == old(self)@[#[trigger] old(
                self,
            ).key_list()[i]] by {
                assert(old(self).key_list()[i] == old(self).entries@[i].0@);
            }
        }
        r
    }
}

} // verus!
