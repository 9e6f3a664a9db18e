//! A map keyed by strings, kept as parallel vectors in insertion order.
//!
//! The mathematical model is a `Map<Seq<char>, V>`; the order in which the
//! entries were first inserted is visible through `key_seq` and `value_seq`.

use vstd::prelude::*;
use crate::text::{str_eq};

verus! {

/// A string-keyed map that remembers insertion order and holds each key once.
pub struct StrMap<V> {
    keys: Vec<String>,
    vals: Vec<V>,
}

impl<V> StrMap<V> {
    /// The keys, in insertion order.
    pub closed spec fn key_seq(&self) -> Seq<Seq<char>> {
        Seq::new(self.keys@.len(), |i: int| self.keys@[i]@)
    }

    /// The values, in the order of their keys.
    pub closed spec fn value_seq(&self) -> Seq<V> {
        self.vals@
    }

    /// Every key occurs once and each key has its value.
    pub closed spec fn wf(&self) -> bool {
        &&& self.keys@.len() == self.vals@.len()
        &&& self.key_seq().no_duplicates()
    }

    /// The map from keys to values.
    pub closed spec fn view(&self) -> Map<Seq<char>, V> {
        Map::new(
            |k: Seq<char>| self.key_seq().contains(k),
            |k: Seq<char>| self.vals@[self.key_seq().index_of(k)],
        )
    }

    /// The position of a key, on a well-formed map.
    pub closed spec fn index_of_key(&self, k: Seq<char>) -> int {
        self.key_seq().index_of(k)
    }

    /// Structural facts every caller may rely on.
    pub proof fn lemma_view(&self)
        requires
            self.wf(),
        ensures
            self.key_seq().len() == self.value_seq().len(),
            self.key_seq().no_duplicates(),
            forall|k: Seq<char>| #[trigger]
                self@.contains_key(k) <==> self.key_seq().contains(k),
            forall|i: int|
                0 <= i < self.key_seq().len() ==> #[trigger] self@.contains_key(self.key_seq()[i])
                    && self@[self.key_seq()[i]] == self.value_seq()[i]
                    && self.index_of_key(self.key_seq()[i]) == i,
            self@.dom().finite(),
            self@.dom().len() == self.key_seq().len(),
    {
        assert forall|i: int| 0 <= i < self.key_seq().len() implies #[trigger] self@.contains_key(
            self.key_seq()[i],
        ) && self@[self.key_seq()[i]] == self.value_seq()[i] && self.index_of_key(
            self.key_seq()[i],
        ) == i by {
            let k = self.key_seq()[i];
            assert(self.key_seq().contains(k));
            let j = self.key_seq().index_of(k);
            assert(0 <= j < self.key_seq().len() && self.key_seq()[j] == k);
        }
        assert(self@.dom() =~= self.key_seq().to_set());
        self.key_seq().unique_seq_to_set();
    }

    /// Two maps with the same keys whose values differ at most at one position differ
    /// in the map view only at that position's key.
    pub proof fn lemma_update_view(&self, other: &Self, i: int)
        requires
            self.wf(),
            other.wf(),
            0 <= i < self.key_seq().len(),
            other.key_seq() == self.key_seq(),
            other.value_seq() == self.value_seq().update(i, other.value_seq()[i]),
        ensures
            other@ == self@.insert(self.key_seq()[i], other.value_seq()[i]),
    {
        self.lemma_view();
        other.lemma_view();
        let ki = self.key_seq()[i];
        assert forall|k: Seq<char>| #[trigger] other@.contains_key(k) implies other@[k] == self@.insert(
            ki,
            other.value_seq()[i],
        )[k] by {
            let j = other.index_of_key(k);
            assert(other.key_seq().contains(k));
            assert(0 <= j < other.key_seq().len() && other.key_seq()[j] == k);
            if j != i {
                assert(k != ki);
            }
        }
        assert(other@ =~= self@.insert(ki, other.value_seq()[i]));
    }

    /// An empty map.
    pub fn new() -> (m: Self)
        ensures
            m.wf(),
            m@ == Map::<Seq<char>, V>::empty(),
            m.key_seq() == Seq::<Seq<char>>::empty(),
            m.value_seq() == Seq::<V>::empty(),
    {
        let m = StrMap { keys: Vec::new(), vals: Vec::new() };
        assert(m@ =~= Map::<Seq<char>, V>::empty());
        assert(m.key_seq() =~= Seq::<Seq<char>>::empty());
        m
    }

    /// The number of entries.
    pub fn len(&self) -> (n: usize)
        requires
            self.wf(),
        ensures
            n == self.key_seq().len(),
            n == self@.dom().len(),
    {
        proof {
            self.lemma_view();
        }
        self.keys.len()
    }

    /// The key stored at a position.
    pub fn key_at(&self, i: usize) -> (k: &String)
        requires
            self.wf(),
            i < self.key_seq().len(),
        ensures
            k@ == self.key_seq()[i as int],
    {
        &self.keys[i]
    }

    /// The value stored at a position.
    pub fn value_at(&self, i: usize) -> (v: &V)
        requires
            self.wf(),
            i < self.key_seq().len(),
        ensures
            *v == self.value_seq()[i as int],
    {
        &self.vals[i]
    }

    /// A mutable reference to the value at a position.
    pub fn value_mut_at(&mut self, i: usize) -> (v: &mut V)
        requires
            old(self).wf(),
            i < old(self).key_seq().len(),
        ensures
            *v == old(self).value_seq()[i as int],
            final(self).wf(),
            final(self).key_seq() == old(self).key_seq(),
            final(self).value_seq() == old(self).value_seq().update(i as int, *final(v)),
    {
        &mut self.vals[i]
    }

    /// The position of a key, if it is present.
    pub fn find(&self, k: &str) -> (r: Option<usize>)
        requires
            self.wf(),
        ensures
            match r {
                Some(i) => i < self.key_seq().len() && self.key_seq()[i as int] == k@
                    && self.index_of_key(k@) == i,
                None => !self.key_seq().contains(k@),
            },
            r is Some <==> self@.contains_key(k@),
    {
        proof {
            self.lemma_view();
        }
        let mut i: usize = 0;
        while i < self.keys.len()
            invariant
                self.wf(),
                i <= self.keys@.len(),
                forall|j: int| 0 <= j < i ==> self.key_seq()[j] != k@,
            decreases self.keys@.len() - i,
        {
            if str_eq(self.keys[i].as_str(), k) {
                assert(self.key_seq()[i as int] == k@);
                return Some(i);
            }
            i = i + 1;
        }
        None
    }

    /// Whether a key is present.
    pub fn contains_key(&self, k: &str) -> (b: bool)
        requires
            self.wf(),
        ensures
            b == self@.contains_key(k@),
    {
        self.find(k).is_some()
    }

    /// The value of a key, if it is present.
    pub fn get(&self, k: &str) -> (r: Option<&V>)
        requires
            self.wf(),
        ensures
            match r {
                Some(v) => self@.contains_key(k@) && *v == self@[k@],
                None => !self@.contains_key(k@),
            },
    {
        proof {
            self.lemma_view();
        }
        match self.find(k) {
            Some(i) => Some(&self.vals[i]),
            None => None,
        }
    }

    /// Replaces the value at a position, keeping the key and the order; returns the old value.
    pub fn set_at(&mut self, i: usize, v: V) -> (old_v: V)
        requires
            old(self).wf(),
            i < old(self).key_seq().len(),
        ensures
            final(self).wf(),
            final(self).key_seq() == old(self).key_seq(),
            final(self).value_seq() == old(self).value_seq().update(i as int, v),
            final(self)@ == old(self)@.insert(old(self).key_seq()[i as int], v),
            old_v == old(self).value_seq()[i as int],
    {
        proof {
            old(self).lemma_view();
        }
        let old_v = self.vals.remove(i);
        self.vals.insert(i, v);
        proof {
            assert(self.key_seq() =~= old(self).key_seq());
            assert(self.value_seq() =~= old(self).value_seq().update(i as int, v));
            self.lemma_view();
            let ki = old(self).key_seq()[i as int];
            assert forall|k: Seq<char>| #[trigger] self@.contains_key(k) implies self@[k] == old(
                self,
            )@.insert(ki, v)[k] by {
                let j = self.index_of_key(k);
                assert(self.key_seq().contains(k));
                assert(0 <= j < self.key_seq().len() && self.key_seq()[j] == k);
                if j != i {
                    assert(k != ki);
                }
            }
            assert(self@ =~= old(self)@.insert(ki, v));
        }
        old_v
    }

    /// Sets the value of a key: an existing key keeps its position, a new key goes last.
    pub fn insert(&mut self, k: String, v: V)
        requires
            old(self).wf(),
        ensures
            final(self).wf(),
            final(self)@ == old(self)@.insert(k@, v),
            old(self)@.contains_key(k@) ==> final(self).key_seq() == old(self).key_seq()
                && final(self).value_seq() == old(self).value_seq().update(
                old(self).index_of_key(k@),
                v,
            ),
            !old(self)@.contains_key(k@) ==> final(self).key_seq() == old(self).key_seq().push(k@)
                && final(self).value_seq() == old(self).value_seq().push(v),
    {
        proof {
            old(self).lemma_view();
        }
        match self.find(k.as_str()) {
            Some(i) => {
                let _ = self.set_at(i, v);
            },
            None => {
                let ghost kv = k@;
                self.keys.push(k);
                self.vals.push(v);
                proof {
                    assert(self.key_seq() =~= old(self).key_seq().push(kv));
                    assert(self.value_seq() =~= old(self).value_seq().push(v));
                    assert(self.key_seq().no_duplicates()) by {
                        assert forall|a: int, b: int|
                            0 <= a < self.key_seq().len() && 0 <= b < self.key_seq().len() && a
                                != b implies self.key_seq()[a] != self.key_seq()[b] by {
                            let n = old(self).key_seq().len();
                            if a < n && b < n {
                            } else if a == n {
                                assert(old(self).key_seq()[b] == self.key_seq()[b]);
                            } else {
                                assert(old(self).key_seq()[a] == self.key_seq()[a]);
                            }
                        }
                    }
                    self.lemma_view();
                    assert forall|key: Seq<char>| #[trigger] self@.contains_key(key) implies self@[key]
                        == old(self)@.insert(kv, v)[key] by {
                        let j = self.index_of_key(key);
                        assert(self.key_seq().contains(key));
                        assert(0 <= j < self.key_seq().len() && self.key_seq()[j] == key);
                        if j < old(self).key_seq().len() {
                            assert(old(self).key_seq()[j] == key);
                            assert(key != kv);
                            assert(old(self)@.contains_key(key));
                        }
                    }
                    assert forall|key: Seq<char>|
                        #[trigger] old(self)@.insert(kv, v).contains_key(key) implies self@.contains_key(
                            key) by {
                        if key != kv {
                            assert(old(self).key_seq().contains(key));
                            let j = old(self).index_of_key(key);
                            assert(self.key_seq()[j] == key);
                        } else {
                            assert(self.key_seq()[old(self).key_seq().len() as int] == key);
                        }
                    }
                    assert(self@ =~= old(self)@.insert(kv, v));
                }
            },
        }
    }

    /// Removes the entry at a position, keeping the order of the others; returns its key and value.
    pub fn remove_at(&mut self, i: usize) -> (r: (String, V))
        requires
            old(self).wf(),
            i < old(self).key_seq().len(),
        ensures
            final(self).wf(),
            final(self).key_seq() == old(self).key_seq().remove(i as int),
            final(self).value_seq() == old(self).value_seq().remove(i as int),
            final(self)@ == old(self)@.remove(old(self).key_seq()[i as int]),
            r.0@ == old(self).key_seq()[i as int],
            r.1 == old(self).value_seq()[i as int],
    {
        proof {
            old(self).lemma_view();
        }
        let ghost ki = old(self).key_seq()[i as int];
        let k = self.keys.remove(i);
        let v = self.vals.remove(i);
        proof {
            let os = old(self).key_seq();
            assert(self.key_seq() =~= os.remove(i as int));
            assert(self.key_seq().no_duplicates()) by {
                assert forall|a: int, b: int|
                    0 <= a < self.key_seq().len() && 0 <= b < self.key_seq().len() && a
                        != b implies self.key_seq()[a] != self.key_seq()[b] by {
                    let oa = if a < i { a } else { a + 1 };
                    let ob = if b < i { b } else { b + 1 };
                    assert(self.key_seq()[a] == os[oa]);
                    assert(self.key_seq()[b] == os[ob]);
                }
            }
            self.lemma_view();
            assert forall|key: Seq<char>| #[trigger] self@.contains_key(key) implies old(
                self,
            )@.remove(ki).contains_key(key) && self@[key] == old(self)@.remove(ki)[key] by {
                let j = self.index_of_key(key);
                assert(self.key_seq().contains(key));
                assert(0 <= j < self.key_seq().len() && self.key_seq()[j] == key);
                let oj = if j < i { j } else { j + 1 };
                assert(os[oj] == key);
                assert(oj != i);
                assert(key != ki);
                assert(old(self)@.contains_key(key));
                assert(old(self).index_of_key(key) == oj);
            }
            assert forall|key: Seq<char>|
                #[trigger] old(self)@.remove(ki).contains_key(key) implies self@.contains_key(key) by {
                assert(os.contains(key));
                let oj = old(self).index_of_key(key);
                assert(oj != i);
                let j = if oj < i { oj } else { oj - 1 };
                assert(self.key_seq()[j] == key);
            }
            assert(self@ =~= old(self)@.remove(ki));
        }
        (k, v)
    }

    /// Removes a key, returning its value if it was present.
    pub fn remove(&mut self, k: &str) -> (r: Option<V>)
        requires
            old(self).wf(),
        ensures
            final(self).wf(),
            final(self)@ == old(self)@.remove(k@),
            match r {
                Some(v) => old(self)@.contains_key(k@) && v == old(self)@[k@]
                    && final(self).key_seq() == old(self).key_seq().remove(old(self).index_of_key(k@))
                    && final(self).value_seq() == old(self).value_seq().remove(old(self).index_of_key(k@)),
                None => !old(self)@.contains_key(k@) && final(self).key_seq() == old(self).key_seq()
                    && final(self).value_seq() == old(self).value_seq(),
            },
    {
        proof {
            old(self).lemma_view();
        }
        match self.find(k) {
            Some(i) => {
                let (_, v) = self.remove_at(i);
                Some(v)
            },
            None => {
                proof {
                    assert(old(self)@.remove(k@) =~= old(self)@);
                }
                None
            },
        }
    }

    /// Removes every entry.
    pub fn clear(&mut self)
        requires
            old(self).wf(),
        ensures
            final(self).wf(),
            final(self)@ == Map::<Seq<char>, V>::empty(),
            final(self).key_seq() == Seq::<Seq<char>>::empty(),
            final(self).value_seq() == Seq::<V>::empty(),
    {
        self.keys.clear();
        self.vals.clear();
        proof {
            assert(self@ =~= Map::<Seq<char>, V>::empty());
            assert(self.key_seq() =~= Seq::<Seq<char>>::empty());
        }
    }
}

impl StrMap<String> {
    /// A copy of a map of strings.
    pub fn duplicate(&self) -> (r: Self)
        ensures
            r.wf() == self.wf(),
            r@ == self@,
            r.key_seq() == self.key_seq(),
            r.value_seq() == self.value_seq(),
    {
        let mut keys: Vec<String> = Vec::new();
        let mut vals: Vec<String> = Vec::new();
        let mut i: usize = 0;
        while i < self.keys.len() && i < self.vals.len()
            invariant
                i <= self.keys@.len(),
                i <= self.vals@.len(),
                keys@.len() == i,
                vals@.len() == i,
                forall|j: int| 0 <= j < i ==> keys@[j]@ == self.keys@[j]@,
                forall|j: int| 0 <= j < i ==> vals@[j] == self.vals@[j],
            decreases self.keys@.len() - i,
        {
            keys.push(self.keys[i].clone());
            vals.push(self.vals[i].clone());
            i = i + 1;
        }
        while i < self.keys.len()
            invariant
                i <= self.keys@.len(),
                keys@.len() == i,
                forall|j: int| 0 <= j < i ==> keys@[j]@ == self.keys@[j]@,
            decreases self.keys@.len() - i,
        {
            keys.push(self.keys[i].clone());
            i = i + 1;
        }
        let mut j: usize = vals.len();
        while j < self.vals.len()
            invariant
                j <= self.vals@.len(),
                vals@.len() == j,
                forall|k: int| 0 <= k < j ==> vals@[k] == self.vals@[k],
            decreases self.vals@.len() - j,
        {
            vals.push(self.vals[j].clone());
            j = j + 1;
        }
        let r = StrMap { keys, vals };
        assert(r.key_seq() =~= self.key_seq());
        assert(r.value_seq() =~= self.value_seq());
        assert(r@ =~= self@);
        r
    }
}

} // verus!
