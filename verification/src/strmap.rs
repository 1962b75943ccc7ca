//! A map from strings to values that keeps its entries in insertion order

use vstd::prelude::*;

use crate::text::{owned, str_eq};

verus! {

/// The keys of a list of entries, in order.
pub open spec fn keys_of<V>(e: Seq<(String, V)>) -> Seq<Seq<char>> {
    e.map_values(|p: (String, V)| p.0@)
}

/// No key occurs twice.
pub open spec fn unique(s: Seq<Seq<char>>) -> bool {
    forall|i: int, j: int| 0 <= i < j < s.len() ==> s[i] != s[j]
}

/// The index of the last occurrence of `k`, or -1.
pub open spec fn index_of(s: Seq<Seq<char>>, k: Seq<char>) -> int
    decreases s.len(),
{
    if s.len() == 0 {
        -1
    } else if s.last() == k {
        s.len() - 1
    } else {
        index_of(s.drop_last(), k)
    }
}

pub proof fn lemma_index_of(s: Seq<Seq<char>>, k: Seq<char>)
    ensures
        -1 <= index_of(s, k) < s.len(),
        index_of(s, k) >= 0 ==> s[index_of(s, k)] == k,
        index_of(s, k) == -1 <==> !s.contains(k),
        unique(s) ==> forall|j: int| 0 <= j < s.len() && s[j] == k ==> index_of(s, k) == j,
    decreases s.len(),
{
    if s.len() > 0 {
        lemma_index_of(s.drop_last(), k);
        if s.last() != k {
            assert forall|j: int| 0 <= j < s.len() - 1 implies s[j] == s.drop_last()[j] by {}
            if unique(s) {
                assert(unique(s.drop_last()));
            }
            if s.contains(k) {
                let j = choose|j: int| 0 <= j < s.len() && s[j] == k;
                assert(s.drop_last()[j] == k);
            }
        } else {
            assert(s[s.len() - 1] == k);
        }
    }
}

/// A map from strings to values, in insertion order
#[derive(Debug)]
pub struct StrMap<V> {
    entries: Vec<(String, V)>,
}

impl<V> StrMap<V> {
    #[verifier::type_invariant]
    spec fn keys_are_unique(self) -> bool {
        unique(keys_of(self.entries@))
    }

    /// The keys in insertion order.
    pub closed spec fn keys(&self) -> Seq<Seq<char>> {
        keys_of(self.entries@)
    }

    /// The value for each key.
    pub closed spec fn map(&self) -> Map<Seq<char>, V> {
        Map::new(
            |k: Seq<char>| index_of(self.keys(), k) >= 0,
            |k: Seq<char>| self.entries@[index_of(self.keys(), k)].1,
        )
    }

    /// The keys are the domain of the map.
    pub proof fn lemma_keys(&self)
        ensures
            forall|k: Seq<char>| #[trigger] self.map().contains_key(k) <==> self.keys().contains(k),
    {
        assert forall|k: Seq<char>| #[trigger] self.map().contains_key(k) <==> self.keys().contains(k) by {
            lemma_index_of(self.keys(), k);
        }
    }

    /// An empty map
    pub fn new() -> (r: StrMap<V>)
        ensures
            r.keys() == Seq::<Seq<char>>::empty(),
            r.map() == Map::<Seq<char>, V>::empty(),
    {
        let r = StrMap { entries: Vec::new() };
        proof {
            assert(keys_of(r.entries@) =~= Seq::<Seq<char>>::empty());
            assert(r.map() =~= Map::<Seq<char>, V>::empty());
        }
        r
    }

    /// The number of entries
    pub fn len(&self) -> (r: usize)
        ensures
            r == self.keys().len(),
    {
        self.entries.len()
    }

    /// The position of a key, if it is present.
    fn find(&self, k: &str) -> (r: Option<usize>)
        ensures
            match r {
                Some(i) => i < self.entries@.len() && i == index_of(self.keys(), k@),
                None => index_of(self.keys(), k@) == -1,
            },
    {
        proof {
            use_type_invariant(self);
            lemma_index_of(self.keys(), k@);
        }
        let mut i: usize = 0;
        while i < self.entries.len()
            invariant
                i <= self.entries@.len(),
                unique(self.keys()),
                self.keys() == keys_of(self.entries@),
                -1 <= index_of(self.keys(), k@) < self.keys().len(),
                index_of(self.keys(), k@) == -1 <==> !self.keys().contains(k@),
                forall|j: int|
                    0 <= j < self.keys().len() && self.keys()[j] == k@ ==> index_of(self.keys(), k@) == j,
                forall|j: int| 0 <= j < i ==> self.keys()[j] != k@,
            decreases self.entries@.len() - i,
        {
            if str_eq(self.entries[i].0.as_str(), k) {
                proof {
                    assert(self.keys()[i as int] == k@);
                }
                return Some(i);
            }
            i = i + 1;
        }
        proof {
            if self.keys().contains(k@) {
                let j = choose|j: int| 0 <= j < self.keys().len() && self.keys()[j] == k@;
                assert(self.keys()[j] != k@);
            }
        }
        None
    }

    /// Whether the key is present
    pub fn contains_key(&self, k: &str) -> (r: bool)
        ensures
            r == self.map().contains_key(k@),
    {
        self.find(k).is_some()
    }

    /// The value for a key, if it is present
    pub fn get(&self, k: &str) -> (r: Option<&V>)
        ensures
            match r {
                Some(v) => self.map().contains_key(k@) && *v == self.map()[k@],
                None => !self.map().contains_key(k@),
            },
    {
        match self.find(k) {
            Some(i) => Some(&self.entries[i].1),
            None => None,
        }
    }

    /// Sets the value for a key: in place where the key is present, at the end where it
    /// is not
    pub fn insert(&mut self, k: String, v: V)
        ensures
            final(self).map() == old(self).map().insert(k@, v),
            old(self).keys().contains(k@) ==> final(self).keys() == old(self).keys(),
            !old(self).keys().contains(k@) ==> final(self).keys() == old(self).keys().push(k@),
    {
        proof {
            use_type_invariant(&*self);
            lemma_index_of(self.keys(), k@);
        }
        let ghost old_keys = self.keys();
        let ghost old_map = self.map();
        let ghost kv = k@;
        match self.find(k.as_str()) {
            Some(i) => {
                let mut entries = Vec::new();
                std::mem::swap(&mut entries, &mut self.entries);
                let ghost before = entries@;
                entries.set(i, (k, v));
                proof {
                    assert(keys_of(entries@) =~= old_keys);
                }
                self.entries = entries;
                proof {
                    assert forall|q: Seq<char>| #[trigger] self.map().contains_key(q) == old_map.insert(kv, v).contains_key(q) by {
                        lemma_index_of(old_keys, q);
                    }
                    assert forall|q: Seq<char>| self.map().contains_key(q) implies #[trigger] self.map()[q] == old_map.insert(kv, v)[q] by {
                        lemma_index_of(old_keys, q);
                    }
                    assert(self.map() =~= old_map.insert(kv, v));
                }
            },
            None => {
                let mut entries = Vec::new();
                std::mem::swap(&mut entries, &mut self.entries);
                entries.push((k, v));
                proof {
                    assert(keys_of(entries@) =~= old_keys.push(kv));
                    assert forall|a: int, b: int| 0 <= a < b < old_keys.push(kv).len() implies old_keys.push(kv)[a] != old_keys.push(kv)[b] by {
                        if b == old_keys.len() {
                            assert(old_keys[a] == old_keys.push(kv)[a]);
                        }
                    }
                }
                self.entries = entries;
                proof {
                    let nk = old_keys.push(kv);
                    assert forall|q: Seq<char>| #[trigger] self.map().contains_key(q) == old_map.insert(kv, v).contains_key(q) by {
                        lemma_index_of(old_keys, q);
                        lemma_index_of(nk, q);
                        if q != kv && nk.contains(q) {
                            let j = choose|j: int| 0 <= j < nk.len() && nk[j] == q;
                            assert(old_keys[j] == q);
                        }
                        if q != kv && old_keys.contains(q) {
                            let j = choose|j: int| 0 <= j < old_keys.len() && old_keys[j] == q;
                            assert(nk[j] == q);
                        }
                    }
                    assert forall|q: Seq<char>| self.map().contains_key(q) implies #[trigger] self.map()[q] == old_map.insert(kv, v)[q] by {
                        lemma_index_of(old_keys, q);
                        lemma_index_of(nk, q);
                        if q != kv {
                            let j = index_of(nk, q);
                            assert(old_keys[j] == q);
                        }
                    }
                    assert(self.map() =~= old_map.insert(kv, v));
                }
            },
        }
    }

    /// The entries in order
    pub fn entries(&self) -> (r: &Vec<(String, V)>)
        ensures
            keys_of(r@) == self.keys(),
            forall|i: int| 0 <= i < r@.len() ==> #[trigger] self.map()[r@[i].0@] == r@[i].1,
    {
        proof {
            use_type_invariant(self);
            assert forall|i: int| 0 <= i < self.entries@.len() implies #[trigger] self.map()[self.entries@[i].0@] == self.entries@[i].1 by {
                lemma_index_of(self.keys(), self.entries@[i].0@);
                assert(self.keys()[i] == self.entries@[i].0@);
            }
        }
        &self.entries
    }
}

impl<V> Default for StrMap<V> {
    fn default() -> (r: Self)
        ensures
            r.keys() == Seq::<Seq<char>>::empty(),
            r.map() == Map::<Seq<char>, V>::empty(),
    {
        StrMap::new()
    }
}

} // verus!
