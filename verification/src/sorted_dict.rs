//! A dictionary that remembers the order its keys were added in. Lookups,
//! insertions and removals work by key; iteration yields the entries in
//! insertion order. A key that is overwritten keeps its original position.

use vstd::prelude::*;

verus! {

/// The position of the first entry with key `k`, if any.
pub open spec fn first_key_index<V>(s: Seq<(String, V)>, k: Seq<char>) -> Option<int>
    decreases s.len(),
{
    if s.len() == 0 {
        None
    } else if s[0].0@ == k {
        Some(0)
    } else {
        match first_key_index(s.drop_first(), k) {
            Some(i) => Some(i + 1),
            None => None,
        }
    }
}

/// `first_key_index` finds exactly the position a left-to-right scan finds.
pub proof fn lemma_first_key_index_is<V>(s: Seq<(String, V)>, k: Seq<char>, i: int)
    requires
        0 <= i < s.len(),
        s[i].0@ == k,
        forall|j: int| 0 <= j < i ==> s[j].0@ != k,
    ensures
        first_key_index(s, k) == Some(i),
    decreases s.len(),
{
    if s[0].0@ != k {
        lemma_first_key_index_is(s.drop_first(), k, i - 1);
    }
}

pub proof fn lemma_first_key_index_none<V>(s: Seq<(String, V)>, k: Seq<char>)
    requires
        forall|j: int| 0 <= j < s.len() ==> s[j].0@ != k,
    ensures
        first_key_index(s, k) is None,
    decreases s.len(),
{
    if s.len() > 0 {
        lemma_first_key_index_none(s.drop_first(), k);
    }
}

/// Conversely, a missing result means the key occurs nowhere, and a found
/// one points at the key's first occurrence.
pub proof fn lemma_first_key_index_char<V>(s: Seq<(String, V)>, k: Seq<char>)
    ensures
        match first_key_index(s, k) {
            None => forall|j: int| 0 <= j < s.len() ==> s[j].0@ != k,
            Some(i) => 0 <= i < s.len() && s[i].0@ == k && (forall|j: int|
                0 <= j < i ==> s[j].0@ != k),
        },
    decreases s.len(),
{
    if s.len() > 0 && s[0].0@ != k {
        lemma_first_key_index_char(s.drop_first(), k);
        assert(forall|j: int| 1 <= j < s.len() ==> s[j] == s.drop_first()[j - 1]);
    }
}

/// Dictionary that remembers the order that keys were added in.
pub struct OrderedDictionary<V> {
    entries: Vec<(String, V)>,
}

impl<V> OrderedDictionary<V> {
    /// The entries, in insertion order.
    pub closed spec fn view(self) -> Seq<(String, V)> {
        self.entries@
    }

    /// Every key occurs at most once.
    pub closed spec fn wf(self) -> bool {
        forall|i: int, j: int| 0 <= i < j < self@.len() ==> self@[i].0@ != self@[j].0@
    }

    pub fn new() -> (r: OrderedDictionary<V>)
        ensures
            r@.len() == 0,
            r.wf(),
    {
        OrderedDictionary { entries: Vec::new() }
    }

    /// The position of `key`, scanning from the front.
    fn find_index(&self, key: &String) -> (r: Option<usize>)
        ensures
            match r {
                Some(i) => first_key_index(self@, key@) == Some(i as int) && i < self@.len()
                    && self@[i as int].0@ == key@,
                None => first_key_index(self@, key@) is None,
            },
    {
        let mut i: usize = 0;
        while i < self.entries.len()
            invariant
                i <= self@.len(),
                forall|j: int| 0 <= j < i ==> self@[j].0@ != key@,
            decreases self@.len() - i,
        {
            if self.entries[i].0 == *key {
                proof {
                    lemma_first_key_index_is(self@, key@, i as int);
                }
                return Some(i);
            }
            i += 1;
        }
        proof {
            lemma_first_key_index_none(self@, key@);
        }
        None
    }

    /// Store `value` under `key`. A key already present keeps its position
    /// and its original spelling, and the displaced value is handed back; a
    /// new key goes to the end.
    pub fn add(&mut self, key: String, value: V) -> (r: Option<V>)
        requires
            old(self).wf(),
        ensures
            final(self).wf(),
            match first_key_index(old(self)@, key@) {
                Some(i) => {
                    &&& r == Some(old(self)@[i].1)
                    &&& final(self)@ == old(self)@.update(i, (old(self)@[i].0, value))
                },
                None => r is None && final(self)@ == old(self)@.push((key, value)),
            },
    {
        match self.find_index(&key) {
            Some(i) => {
                let pair = self.entries.remove(i);
                self.entries.insert(i, (pair.0, value));
                proof {
                    assert(self@ =~= old(self)@.update(i as int, (old(self)@[i as int].0, value)));
                    assert(forall|a: int|
                        0 <= a < self@.len() ==> self@[a].0 == old(self)@[a].0);
                }
                Some(pair.1)
            },
            None => {
                proof {
                    lemma_first_key_index_char(self@, key@);
                }
                self.entries.push((key, value));
                proof {
                    assert(forall|a: int|
                        0 <= a < old(self)@.len() ==> self@[a] == old(self)@[a]);
                    assert(self@[old(self)@.len() as int].0@ == key@);
                }
                None
            },
        }
    }

    /// Remove `key` and hand back its value; later entries move up, earlier
    /// ones keep their order.
    pub fn remove(&mut self, key: &String) -> (r: Option<V>)
        requires
            old(self).wf(),
        ensures
            final(self).wf(),
            match first_key_index(old(self)@, key@) {
                Some(i) => r == Some(old(self)@[i].1) && final(self)@ == old(self)@.remove(i),
                None => r is None && final(self)@ == old(self)@,
            },
    {
        match self.find_index(key) {
            Some(i) => {
                let pair = self.entries.remove(i);
                Some(pair.1)
            },
            None => None,
        }
    }

    /// The value stored under `key`, if any.
    pub fn get(&self, key: &String) -> (r: Option<&V>)
        ensures
            match first_key_index(self@, key@) {
                Some(i) => r matches Some(v) && *v == self@[i].1,
                None => r is None,
            },
    {
        match self.find_index(key) {
            Some(i) => Some(&self.entries[i].1),
            None => None,
        }
    }

    /// Consume the dictionary into an iterator over its entries in insertion
    /// order.
    pub fn into_iter(self) -> (r: OrderedDictIter<V>)
        ensures
            r@ == self@,
    {
        OrderedDictIter { entries: self.entries }
    }
}

/// Yields a consumed dictionary's entries in insertion order.
pub struct OrderedDictIter<V> {
    entries: Vec<(String, V)>,
}

impl<V> OrderedDictIter<V> {
    /// The entries not yet handed out.
    pub closed spec fn view(self) -> Seq<(String, V)> {
        self.entries@
    }

    /// The next entry in insertion order, if one is left.
    pub fn next(&mut self) -> (r: Option<(String, V)>)
        ensures
            old(self)@.len() > 0 ==> (r matches Some(p) && p == old(self)@[0] && final(self)@
                == old(self)@.drop_first()),
            old(self)@.len() == 0 ==> r is None && final(self)@ == old(self)@,
    {
        if self.entries.len() > 0 {
            let pair = self.entries.remove(0);
            proof {
                assert(self@ =~= old(self)@.drop_first());
            }
            Some(pair)
        } else {
            None
        }
    }
}

} // verus!
