//! A small map keyed by strings, seen as a `Map` from character sequences.

use vstd::prelude::*;
use crate::text::str_eq;

verus! {

/// The map an association list stands for: later entries override earlier ones.
pub open spec fn map_of<V>(s: Seq<(String, V)>) -> Map<Seq<char>, V>
    decreases s.len(),
{
    if s.len() == 0 {
        Map::empty()
    } else {
        map_of(s.drop_last()).insert(s.last().0@, s.last().1)
    }
}

proof fn lemma_map_of_absent<V>(s: Seq<(String, V)>, k: Seq<char>)
    requires
        forall|i: int| 0 <= i < s.len() ==> (#[trigger] s[i]).0@ != k,
    ensures
        !map_of(s).contains_key(k),
    decreases s.len(),
{
    if s.len() > 0 {
        lemma_map_of_absent(s.drop_last(), k);
    }
}

proof fn lemma_map_of_remove_index<V>(s: Seq<(String, V)>, i: int, k: Seq<char>)
    requires
        0 <= i < s.len(),
        s[i].0@ == k,
    ensures
        map_of(s.remove(i)).remove(k) == map_of(s).remove(k),
    decreases s.len(),
{
    if i == s.len() - 1 {
        assert(s.remove(i) =~= s.drop_last());
        assert(map_of(s.drop_last()).insert(k, s.last().1).remove(k) =~= map_of(
            s.drop_last(),
        ).remove(k));
        assert(map_of(s.drop_last()).remove(k) =~= map_of(s.drop_last()).remove(k).remove(k));
    } else {
        let d = s.drop_last();
        lemma_map_of_remove_index(d, i, k);
        assert(s.remove(i).drop_last() =~= d.remove(i));
        assert(s.remove(i).last() == s.last());
        let l = s.last();
        assert(map_of(s.remove(i)) == map_of(d.remove(i)).insert(l.0@, l.1));
        assert(map_of(d.remove(i)).insert(l.0@, l.1).remove(k) =~= map_of(d.remove(i)).remove(
            k,
        ).insert(l.0@, l.1).remove(k));
        assert(map_of(d).insert(l.0@, l.1).remove(k) =~= map_of(d).remove(k).insert(
            l.0@,
            l.1,
        ).remove(k));
    }
}

/// A map from strings to values.
pub struct StrMap<V> {
    entries: Vec<(String, V)>,
}

impl<V> View for StrMap<V> {
    type V = Map<Seq<char>, V>;

    closed spec fn view(&self) -> Map<Seq<char>, V> {
        map_of(self.entries@)
    }
}

impl<V> StrMap<V> {
    pub fn new() -> (m: Self)
        ensures
            m@ == Map::<Seq<char>, V>::empty(),
    {
        StrMap { entries: Vec::new() }
    }

    /// The value at `key`.
    pub fn get(&self, key: &str) -> (r: Option<&V>)
        ensures
            match r {
                Some(v) => self@.contains_key(key@) && self@[key@] == *v,
                None => !self@.contains_key(key@),
            },
    {
        let mut i: usize = self.entries.len();
        assert(self.entries@.subrange(0, i as int) =~= self.entries@);
        while i > 0
            invariant
                i <= self.entries@.len(),
                map_of(self.entries@).contains_key(key@) == map_of(
                    self.entries@.subrange(0, i as int),
                ).contains_key(key@),
                map_of(self.entries@).contains_key(key@) ==> map_of(self.entries@)[key@]
                    == map_of(self.entries@.subrange(0, i as int))[key@],
            decreases i,
        {
            assert(self.entries@.subrange(0, i as int).drop_last() =~= self.entries@.subrange(
                0,
                i - 1,
            ));
            if str_eq(self.entries[i - 1].0.as_str(), key) {
                return Some(&self.entries[i - 1].1);
            }
            i = i - 1;
        }
        assert(self.entries@.subrange(0, 0) =~= Seq::<(String, V)>::empty());
        None
    }

    pub fn contains_key(&self, key: &str) -> (r: bool)
        ensures
            r == self@.contains_key(key@),
    {
        self.get(key).is_some()
    }

    /// Sets `key` to `value`.
    pub fn insert(&mut self, key: String, value: V)
        ensures
            final(self)@ == old(self)@.insert(key@, value),
    {
        let ghost k = key@;
        self.remove(key.as_str());
        let ghost mid = self.entries@;
        self.entries.push((key, value));
        proof {
            let s = self.entries@;
            assert(s.drop_last() =~= mid);
            assert(map_of(s) == map_of(s.drop_last()).insert(k, value));
            assert(map_of(mid) == old(self)@.remove(k));
            assert(old(self)@.remove(k).insert(k, value) =~= old(self)@.insert(k, value));
        }
    }

    /// Removes `key`.
    pub fn remove(&mut self, key: &str)
        ensures
            final(self)@ == old(self)@.remove(key@),
    {
        let mut i: usize = self.entries.len();
        assert(map_of(self.entries@).remove(key@) =~= old(self)@.remove(key@));
        while i > 0
            invariant
                i <= self.entries@.len(),
                map_of(self.entries@).remove(key@) == old(self)@.remove(key@),
                forall|j: int| i <= j < self.entries@.len() ==> (#[trigger] self.entries@[j]).0@ != key@,
            decreases i,
        {
            if str_eq(self.entries[i - 1].0.as_str(), key) {
                let ghost before = self.entries@;
                proof {
                    lemma_map_of_remove_index(before, i - 1, key@);
                }
                self.entries.remove(i - 1);
                assert(self.entries@ == before.remove(i - 1));
                assert forall|j: int| i - 1 <= j < self.entries@.len() implies (#[trigger] self.entries@[j]).0@ != key@ by {
                    assert(self.entries@[j] == before[j + 1]);
                }
            }
            i = i - 1;
        }
        proof {
            lemma_map_of_absent(self.entries@, key@);
            assert(map_of(self.entries@).remove(key@) =~= map_of(self.entries@));
        }
    }

    /// Removes every entry.
    pub fn clear(&mut self)
        ensures
            final(self)@ == Map::<Seq<char>, V>::empty(),
    {
        self.entries = Vec::new();
    }
}

} // verus!
