//! A map from string keys to values, backed by a vector of pairs with
//! pairwise-distinct keys, abstracted as a `Map<Seq<char>, V>`.
//!
//! The session registry and both tables of the credential vault are
//! instances of this container. Its operations are linear scans, not the
//! constant-time lookups a hash map would give: the trade-off buys a
//! fully specified map abstraction, and the registry holds one entry per
//! live session, the vault a handful of rows.

use vstd::prelude::*;

verus! {

/// No two entries share a key.
pub open spec fn keys_distinct<V>(s: Seq<(String, V)>) -> bool {
    forall|i: int, j: int| 0 <= i < j < s.len() ==> s[i].0@ != s[j].0@
}

/// The map described by an entry sequence; later entries shadow earlier
/// ones, which is irrelevant once keys are distinct.
pub open spec fn map_of<V>(s: Seq<(String, V)>) -> Map<Seq<char>, V>
    decreases s.len(),
{
    if s.len() == 0 {
        Map::empty()
    } else {
        map_of(s.drop_last()).insert(s.last().0@, s.last().1)
    }
}

proof fn lemma_map_of_domain<V>(s: Seq<(String, V)>, k: Seq<char>)
    ensures
        map_of(s).contains_key(k) <==> exists|i: int| 0 <= i < s.len() && s[i].0@ == k,
    decreases s.len(),
{
    if s.len() > 0 {
        lemma_map_of_domain(s.drop_last(), k);
        if map_of(s).contains_key(k) && s.last().0@ != k {
            let i = choose|i: int| 0 <= i < s.drop_last().len() && s.drop_last()[i].0@ == k;
            assert(s[i].0@ == k);
        }
        if exists|i: int| 0 <= i < s.len() && s[i].0@ == k {
            let i = choose|i: int| 0 <= i < s.len() && s[i].0@ == k;
            if i < s.len() - 1 {
                assert(s.drop_last()[i].0@ == k);
            }
        }
    }
}

proof fn lemma_map_of_index<V>(s: Seq<(String, V)>, i: int)
    requires
        keys_distinct(s),
        0 <= i < s.len(),
    ensures
        map_of(s).contains_key(s[i].0@),
        map_of(s)[s[i].0@] == s[i].1,
    decreases s.len(),
{
    if i < s.len() - 1 {
        assert(s.drop_last()[i] == s[i]);
        lemma_map_of_index(s.drop_last(), i);
        assert(s[i].0@ != s.last().0@);
    }
}

proof fn lemma_map_of_remove<V>(s: Seq<(String, V)>, i: int)
    requires
        keys_distinct(s),
        0 <= i < s.len(),
    ensures
        map_of(s.remove(i)) == map_of(s).remove(s[i].0@),
    decreases s.len(),
{
    let k = s[i].0@;
    if i == s.len() - 1 {
        assert(s.remove(i) =~= s.drop_last());
        lemma_map_of_domain(s.drop_last(), k);
        assert(forall|j: int| 0 <= j < s.drop_last().len() ==> s[j].0@ != k);
        assert(!map_of(s.drop_last()).contains_key(k));
        assert(map_of(s.drop_last()) =~= map_of(s).remove(k));
    } else {
        let t = s.remove(i);
        assert(t.drop_last() =~= s.drop_last().remove(i));
        assert(t.last() == s.last());
        assert(forall|a: int, b: int|
            0 <= a < b < s.drop_last().len() ==> s.drop_last()[a] == s[a] && s.drop_last()[b]
                == s[b]);
        lemma_map_of_remove(s.drop_last(), i);
        assert(s.drop_last()[i] == s[i]);
        assert(map_of(t) == map_of(s.drop_last()).remove(k).insert(s.last().0@, s.last().1));
        assert(k != s.last().0@);
        assert(map_of(s.drop_last()).remove(k).insert(s.last().0@, s.last().1) =~= map_of(
            s.drop_last(),
        ).insert(s.last().0@, s.last().1).remove(k));
    }
}

/// A string-keyed map with overwrite-on-insert semantics.
pub struct StrMap<V> {
    entries: Vec<(String, V)>,
}

impl<V> StrMap<V> {
    /// The mathematical map this container holds.
    pub closed spec fn view(&self) -> Map<Seq<char>, V> {
        map_of(self.entries@)
    }

    /// Well-formedness: keys are pairwise distinct.
    pub closed spec fn wf(&self) -> bool {
        keys_distinct(self.entries@)
    }

    /// An empty map.
    pub fn new() -> (r: Self)
        ensures
            r.wf(),
            r@ == Map::<Seq<char>, V>::empty(),
    {
        StrMap { entries: Vec::new() }
    }

    /// Index of the entry holding `key`, if any.
    fn index_of(&self, key: &String) -> (r: Option<usize>)
        ensures
            match r {
                Some(i) => i < self.entries@.len() && self.entries@[i as int].0@ == key@,
                None => forall|j: int| 0 <= j < self.entries@.len() ==> self.entries@[j].0@ != key@,
            },
    {
        let mut i: usize = 0;
        while i < self.entries.len()
            invariant
                i <= self.entries@.len(),
                forall|j: int| 0 <= j < i ==> self.entries@[j].0@ != key@,
            decreases self.entries@.len() - i,
        {
            if self.entries[i].0 == *key {
                return Some(i);
            }
            i = i + 1;
        }
        None
    }

    /// Whether `key` is present.
    pub fn contains(&self, key: &String) -> (r: bool)
        ensures
            r == self@.contains_key(key@),
    {
        proof {
            lemma_map_of_domain(self.entries@, key@);
        }
        self.index_of(key).is_some()
    }

    /// The value under `key`, if any.
    pub fn get<'a>(&'a self, key: &String) -> (r: Option<&'a V>)
        requires
            self.wf(),
        ensures
            match r {
                Some(v) => self@.contains_key(key@) && *v == self@[key@],
                None => !self@.contains_key(key@),
            },
    {
        proof {
            lemma_map_of_domain(self.entries@, key@);
        }
        match self.index_of(key) {
            Some(i) => {
                proof {
                    lemma_map_of_index(self.entries@, i as int);
                }
                Some(&self.entries[i].1)
            },
            None => None,
        }
    }

    /// Inserts `value` under `key`, overwriting any existing entry.
    pub fn insert(&mut self, key: String, value: V)
        requires
            old(self).wf(),
        ensures
            final(self).wf(),
            final(self)@ == old(self)@.insert(key@, value),
    {
        proof {
            lemma_map_of_domain(self.entries@, key@);
        }
        let ghost s0 = self.entries@;
        match self.index_of(&key) {
            Some(i) => {
                proof {
                    lemma_map_of_remove(s0, i as int);
                }
                let _ = self.entries.remove(i);
                proof {
                    let s1 = self.entries@;
                    assert forall|a: int| 0 <= a < s1.len() implies s1[a].0@ != key@ by {
                        if a < i {
                            assert(s1[a] == s0[a]);
                        } else {
                            assert(s1[a] == s0[a + 1]);
                        }
                    }
                    assert forall|a: int, b: int| 0 <= a < b < s1.len() implies s1[a].0@
                        != s1[b].0@ by {
                        let a0 = if a < i { a } else { a + 1 };
                        let b0 = if b < i { b } else { b + 1 };
                        assert(s1[a] == s0[a0] && s1[b] == s0[b0]);
                    }
                }
                let ghost s1 = self.entries@;
                self.entries.push((key, value));
                proof {
                    assert(self.entries@.drop_last() =~= s1);
                    assert(self@ =~= old(self)@.insert(key@, value));
                }
            },
            None => {
                self.entries.push((key, value));
                proof {
                    assert(self.entries@.drop_last() =~= s0);
                    assert(self@ =~= old(self)@.insert(key@, value));
                }
            },
        }
    }

    /// Removes the entry under `key`, returning its value if present.
    pub fn remove(&mut self, key: &String) -> (r: Option<V>)
        requires
            old(self).wf(),
        ensures
            final(self).wf(),
            final(self)@ == old(self)@.remove(key@),
            match r {
                Some(v) => old(self)@.contains_key(key@) && v == old(self)@[key@],
                None => !old(self)@.contains_key(key@),
            },
    {
        proof {
            lemma_map_of_domain(self.entries@, key@);
        }
        let ghost s0 = self.entries@;
        match self.index_of(key) {
            Some(i) => {
                proof {
                    lemma_map_of_index(s0, i as int);
                    lemma_map_of_remove(s0, i as int);
                }
                let (_k, v) = self.entries.remove(i);
                proof {
                    let s1 = self.entries@;
                    assert forall|a: int, b: int| 0 <= a < b < s1.len() implies s1[a].0@
                        != s1[b].0@ by {
                        let a0 = if a < i { a } else { a + 1 };
                        let b0 = if b < i { b } else { b + 1 };
                        assert(s1[a] == s0[a0] && s1[b] == s0[b0]);
                    }
                }
                Some(v)
            },
            None => {
                proof {
                    assert(self@ =~= old(self)@.remove(key@));
                }
                None
            },
        }
    }
}

} // verus!
