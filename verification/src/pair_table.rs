//! A table of values keyed by pairs of strings, with at most one entry per
//! key. The shared watch cache keys its watches by resource type and scope.
use vstd::prelude::*;
use crate::text::str_eq;

verus! {

/// Values keyed by strings, one entry per key, in the order in which the
/// keys were first inserted.
#[derive(Debug)]
pub struct PairTable<V> {
    entries: Vec<((String, String), V)>,
}

/// The key of an entry, as a pair of texts.
pub open spec fn key_of<V>(e: ((String, String), V)) -> (Seq<char>, Seq<char>) {
    (e.0.0@, e.0.1@)
}

/// The keys of a list of entries.
pub open spec fn pair_keys<V>(entries: Seq<((String, String), V)>) -> Seq<(Seq<char>, Seq<char>)> {
    entries.map_values(|e: ((String, String), V)| key_of(e))
}

impl<V> View for PairTable<V> {
    type V = Map<(Seq<char>, Seq<char>), V>;

    closed spec fn view(&self) -> Map<(Seq<char>, Seq<char>), V> {
        let ks = pair_keys(self.entries@);
        Map::new(|k: (Seq<char>, Seq<char>)| ks.contains(k), |k: (Seq<char>, Seq<char>)| self.entries@[ks.index_of(k)].1)
    }
}

impl<V> PairTable<V> {
    #[verifier::type_invariant]
    spec fn keys_unique(&self) -> bool {
        pair_keys(self.entries@).no_duplicates()
    }

    /// The keys, in insertion order.
    pub closed spec fn key_list(&self) -> Seq<(Seq<char>, Seq<char>)> {
        pair_keys(self.entries@)
    }

    proof fn lemma_view(&self)
        requires
            self.keys_unique(),
        ensures
            self@.dom() == self.key_list().to_set(),
            self.key_list().len() == self.entries@.len(),
            forall|i: int|
                0 <= i < self.entries@.len() ==> #[trigger] self@[key_of(self.entries@[i])]
                    == self.entries@[i].1,
            forall|i: int|
                0 <= i < self.entries@.len() ==> self@.contains_key(#[trigger] key_of(self.entries@[i])),
    {
        let ks = pair_keys(self.entries@);
        assert(self@.dom() =~= ks.to_set());
        assert forall|i: int| 0 <= i < self.entries@.len() implies #[trigger] self@[key_of(self.entries@[i])]
            == self.entries@[i].1 by {
            assert(ks[i] == key_of(self.entries@[i]));
            let j = ks.index_of(ks[i]);
            assert(ks.contains(ks[i]));
            assert(ks[j] == ks[i]);
        }
        assert forall|i: int| 0 <= i < self.entries@.len() implies self@.contains_key(
            #[trigger] key_of(self.entries@[i]),
        ) by {
            assert(ks[i] == key_of(self.entries@[i]));
        }
    }

    /// The `i`-th key in key order is in the table.
    pub proof fn lemma_keys_in_dom(&self, i: int)
        requires
            0 <= i < self.key_list().len(),
        ensures
            self@.contains_key(self.key_list()[i]),
    {
        assert(self.key_list().contains(self.key_list()[i]));
    }

    /// The empty table.
    pub fn new() -> (r: Self)
        ensures
            r@ == Map::<(Seq<char>, Seq<char>), V>::empty(),
            r.key_list() == Seq::<(Seq<char>, Seq<char>)>::empty(),
    {
        let r = PairTable { entries: Vec::new() };
        assert(r@ =~= Map::<(Seq<char>, Seq<char>), V>::empty());
        assert(r.key_list() =~= Seq::<(Seq<char>, Seq<char>)>::empty());
        r
    }

    /// The position of the entry for `key`, if there is one.
    fn position(&self, a: &str, b: &str) -> (r: Option<usize>)
        ensures
            match r {
                Some(i) => i < self.entries@.len() && key_of(self.entries@[i as int]) == (a@, b@),
                None => !self.key_list().contains((a@, b@)),
            },
    {
        let mut i: usize = 0;
        while i < self.entries.len()
            invariant
                i <= self.entries.len(),
                forall|j: int| 0 <= j < i ==> key_of(self.entries@[j]) != (a@, b@),
            decreases self.entries.len() - i,
        {
            if str_eq(self.entries[i].0.0.as_str(), a) && str_eq(self.entries[i].0.1.as_str(), b) {
                return Some(i);
            }
            i = i + 1;
        }
        assert(!self.key_list().contains((a@, b@))) by {
            if self.key_list().contains((a@, b@)) {
                let j = choose|j: int| 0 <= j < self.key_list().len() && self.key_list()[j] == (a@, b@);
                assert(key_of(self.entries@[j]) != (a@, b@));
            }
        }
        None
    }

    /// The number of entries.
    pub fn len(&self) -> (r: usize)
        ensures
            r == self@.len(),
            r == self.key_list().len(),
    {
        proof {
            use_type_invariant(self);
            self.lemma_view();
            self.key_list().unique_seq_to_set();
        }
        self.entries.len()
    }

    /// Whether the table holds an entry for `key`.
    pub fn contains_key(&self, a: &str, b: &str) -> (r: bool)
        ensures
            r == self@.contains_key((a@, b@)),
    {
        proof {
            use_type_invariant(self);
            self.lemma_view();
        }
        self.position(a, b).is_some()
    }

    /// The value stored under `key`, if any.
    pub fn get(&self, a: &str, b: &str) -> (r: Option<&V>)
        ensures
            match r {
                Some(v) => self@.contains_key((a@, b@)) && *v == self@[(a@, b@)],
                None => !self@.contains_key((a@, b@)),
            },
    {
        proof {
            use_type_invariant(self);
            self.lemma_view();
        }
        match self.position(a, b) {
            Some(i) => Some(&self.entries[i].1),
            None => None,
        }
    }

    /// Stores `value` under `key`, replacing and returning what was stored
    /// there before. A new key goes last in the key order.
    pub fn insert(&mut self, key: (String, String), value: V) -> (r: Option<V>)
        ensures
            final(self)@ == old(self)@.insert((key.0@, key.1@), value),
            match r {
                Some(v) => old(self)@.contains_key((key.0@, key.1@)) && v == old(self)@[(key.0@, key.1@)],
                None => !old(self)@.contains_key((key.0@, key.1@)),
            },
            old(self)@.contains_key((key.0@, key.1@)) ==> final(self).key_list() == old(self).key_list(),
            !old(self)@.contains_key((key.0@, key.1@)) ==> final(self).key_list() == old(self).key_list().push(
                (key.0@, key.1@),
            ),
            final(self)@.len() == if old(self)@.contains_key((key.0@, key.1@)) {
                old(self)@.len()
            } else {
                old(self)@.len() + 1
            },
    {
        proof {
            use_type_invariant(&*self);
            self.lemma_view();
        }
        let ghost old_entries = self.entries@;
        match self.position(key.0.as_str(), key.1.as_str()) {
            Some(i) => {
                let mut entries: Vec<((String, String), V)> = Vec::new();
                std::mem::swap(&mut entries, &mut self.entries);
                let ghost taken = entries@;
                assert(taken == old_entries);
                let (_, old_value) = entries.remove(i);
                let ghost ks = pair_keys(old_entries);
                entries.insert(i, (key, value));
                proof {
                    assert(pair_keys(entries@) =~= ks);
                }
                self.entries = entries;
                proof {
                    let new_ks = pair_keys(self.entries@);
                    assert(new_ks =~= ks);
                    assert(self@ =~= old(self)@.insert((key.0@, key.1@), value)) by {
                        assert forall|k: (Seq<char>, Seq<char>)| #[trigger] self@.contains_key(k) implies self@[k]
                            == old(self)@.insert((key.0@, key.1@), value)[k] by {
                            let j = ks.index_of(k);
                            assert(ks.contains(k));
                            if k == (key.0@, key.1@) {
                                assert(ks[i as int] == (key.0@, key.1@));
                                assert(j == i);
                            } else {
                                assert(j != i);
                                assert(self.entries@[j] == old_entries[j]);
                            }
                        }
                    }
                    assert(old_value == old_entries[i as int].1);
                    assert(key_of(old_entries[i as int]) == (key.0@, key.1@));
                }
                proof {
                    self.key_list().unique_seq_to_set();
                    old(self).key_list().unique_seq_to_set();
                    self.lemma_view();
                    old(self).lemma_view();
                }
                Some(old_value)
            },
            None => {
                let mut entries: Vec<((String, String), V)> = Vec::new();
                std::mem::swap(&mut entries, &mut self.entries);
                let ghost ks = pair_keys(old_entries);
                assert(entries@ == old_entries);
                entries.push((key, value));
                proof {
                    assert(pair_keys(entries@) =~= ks.push((key.0@, key.1@)));
                }
                self.entries = entries;
                proof {
                    let new_ks = pair_keys(self.entries@);
                    assert(new_ks =~= ks.push((key.0@, key.1@)));
                    assert forall|a: int, b: int|
                        0 <= a < new_ks.len() && 0 <= b < new_ks.len() && a != b implies new_ks[a]
                        != new_ks[b] by {
                        if a < ks.len() && b < ks.len() {
                        } else if a == ks.len() {
                            assert(ks.contains(new_ks[b]));
                        } else {
                            assert(ks.contains(new_ks[a]));
                        }
                    }
                    assert(self@ =~= old(self)@.insert((key.0@, key.1@), value)) by {
                        assert forall|k: (Seq<char>, Seq<char>)| #[trigger] old(self)@.insert((key.0@, key.1@), value).contains_key(k)
                            implies self@.contains_key(k) by {
                            if k == (key.0@, key.1@) {
                                assert(new_ks[ks.len() as int] == (key.0@, key.1@));
                            } else {
                                assert(ks.contains(k));
                                let j0 = ks.index_of(k);
                                assert(new_ks[j0] == k);
                            }
                        }
                        assert forall|k: (Seq<char>, Seq<char>)| #[trigger] self@.contains_key(k) implies self@[k]
                            == old(self)@.insert((key.0@, key.1@), value)[k] by {
                            let j = new_ks.index_of(k);
                            assert(new_ks.contains(k));
                            if k == (key.0@, key.1@) {
                                assert(new_ks[ks.len() as int] == (key.0@, key.1@));
                                assert(j == ks.len());
                            } else {
                                assert(j < ks.len());
                                assert(ks[j] == k);
                                assert(ks.contains(k));
                                let j0 = ks.index_of(k);
                                assert(ks[j0] == k);
                                assert(new_ks[j0] == k);
                                assert(j == j0);
                            }
                        }
                    }
                }
                proof {
                    self.key_list().unique_seq_to_set();
                    old(self).key_list().unique_seq_to_set();
                    self.lemma_view();
                    old(self).lemma_view();
                }
                None
            },
        }
    }

    /// Removes and returns the value stored under `key`, if any. The other
    /// keys keep their order.
    pub fn remove(&mut self, a: &str, b: &str) -> (r: Option<V>)
        ensures
            final(self)@ == old(self)@.remove((a@, b@)),
            match r {
                Some(v) => old(self)@.contains_key((a@, b@)) && v == old(self)@[(a@, b@)],
                None => !old(self)@.contains_key((a@, b@)),
            },
            final(self)@.len() == if old(self)@.contains_key((a@, b@)) {
                old(self)@.len() - 1
            } else {
                old(self)@.len() as int
            },
    {
        proof {
            use_type_invariant(&*self);
            self.lemma_view();
        }
        let ghost old_entries = self.entries@;
        let ghost ks = pair_keys(old_entries);
        match self.position(a, b) {
            Some(i) => {
                let mut entries: Vec<((String, String), V)> = Vec::new();
                std::mem::swap(&mut entries, &mut self.entries);
                assert(entries@ == old_entries);
                let (_, v) = entries.remove(i);
                proof {
                    assert(pair_keys(entries@) =~= ks.remove(i as int));
                }
                self.entries = entries;
                proof {
                    let new_ks = pair_keys(self.entries@);
                    assert(new_ks =~= ks.remove(i as int));
                    assert forall|a: int, b: int|
                        0 <= a < new_ks.len() && 0 <= b < new_ks.len() && a != b implies new_ks[a]
                        != new_ks[b] by {
                        let a0 = if a < i { a } else { a + 1 };
                        let b0 = if b < i { b } else { b + 1 };
                        assert(new_ks[a] == ks[a0]);
                        assert(new_ks[b] == ks[b0]);
                    }
                    assert(self@ =~= old(self)@.remove((a@, b@))) by {
                        assert forall|k: (Seq<char>, Seq<char>)| #[trigger] old(self)@.remove((a@, b@)).contains_key(k)
                            implies self@.contains_key(k) by {
                            let j = ks.index_of(k);
                            assert(ks.contains(k));
                            assert(j != i);
                            if j < i {
                                assert(new_ks[j] == k);
                            } else {
                                assert(new_ks[j - 1] == k);
                            }
                        }
                        assert forall|k: (Seq<char>, Seq<char>)| #[trigger] self@.contains_key(k) implies self@[k]
                            == old(self)@[k] && k != (a@, b@) && old(self)@.contains_key(k) by {
                            assert(new_ks.contains(k));
                            let j = new_ks.index_of(k);
                            assert(new_ks[j] == k);
                            let j0 = if j < i { j } else { j + 1 };
                            assert(self.entries@ == old_entries.remove(i as int));
                            assert(ks[j0] == k);
                            assert(ks.contains(k));
                            assert(ks[ks.index_of(k)] == k);
                            assert(ks.index_of(k) == j0);
                            assert(self.entries@[j] == old_entries[j0]);
                            assert(j0 != i);
                            assert(self@[k] == self.entries@[j].1);
                            assert(old(self)@.contains_key(k));
                            assert(old(self)@[k] == old_entries[j0].1);
                            assert(ks[i as int] == (a@, b@));
                            assert(ks.no_duplicates());
                            assert(k != (a@, b@));
                        }
                    }
                    assert(v == old_entries[i as int].1);
                    assert(key_of(old_entries[i as int]) == (a@, b@));
                }
                proof {
                    self.key_list().unique_seq_to_set();
                    old(self).key_list().unique_seq_to_set();
                    self.lemma_view();
                    old(self).lemma_view();
                }
                Some(v)
            },
            None => {
                assert(old(self)@.remove((a@, b@)) =~= old(self)@);
                None
            },
        }
    }

    /// Removes every entry and returns them, in key order.
    pub fn drain(&mut self) -> (r: Vec<((String, String), V)>)
        ensures
            final(self)@ == Map::<(Seq<char>, Seq<char>), V>::empty(),
            pair_keys(r@) == old(self).key_list(),
            old(self).key_list().no_duplicates(),
            old(self)@.dom() == old(self).key_list().to_set(),
            forall|i: int|
                0 <= i < r@.len() ==> r@[i].1 == old(self)@[#[trigger] old(self).key_list()[i]],
    {
        proof {
            use_type_invariant(&*self);
            self.lemma_view();
        }
        let mut r: Vec<((String, String), V)> = Vec::new();
        std::mem::swap(&mut r, &mut self.entries);
        proof {
            assert(self@ =~= Map::<(Seq<char>, Seq<char>), V>::empty());
            assert forall|i: int| 0 <= i < r@.len() implies r@[i].1 == old(self)@[#[trigger] old(
                self,
            ).key_list()[i]] by {
                assert(old(self).key_list()[i] == key_of(old(self).entries@[i]));
            }
        }
        r
    }
}

} // verus!
