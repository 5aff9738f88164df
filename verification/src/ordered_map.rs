//! A map from strings to values that remembers the order in which keys were
//! first inserted.

use vstd::prelude::*;

verus! {

/// The entries of an ordered map, in insertion order.
pub open spec fn entry_keys<V>(s: Seq<(Seq<char>, V)>) -> Seq<Seq<char>> {
    s.map_values(|e: (Seq<char>, V)| e.0)
}

/// No key occurs twice.
pub open spec fn keys_distinct<V>(s: Seq<(Seq<char>, V)>) -> bool {
    forall|i: int, j: int| 0 <= i < j < s.len() ==> s[i].0 != s[j].0
}

/// Inserting a key: its value is replaced in place when the key is present,
/// otherwise the entry is appended.
pub open spec fn spec_ordered_insert<V>(s: Seq<(Seq<char>, V)>, k: Seq<char>, v: V) -> Seq<
    (Seq<char>, V),
> {
    if exists|i: int| 0 <= i < s.len() && s[i].0 == k {
        let i = choose|i: int| 0 <= i < s.len() && s[i].0 == k;
        s.update(i, (k, v))
    } else {
        s.push((k, v))
    }
}

/// A map from strings to values in insertion order.
#[derive(Debug, Clone)]
pub struct OrderedMap<V> {
    entries: Vec<(String, V)>,
}

impl<V: View> View for OrderedMap<V> {
    type V = Seq<(Seq<char>, V::V)>;

    closed spec fn view(&self) -> Seq<(Seq<char>, V::V)> {
        self.entries@.map_values(|e: (String, V)| (e.0@, e.1@))
    }
}

impl<V: View> OrderedMap<V> {
    /// Keys are distinct.
    pub closed spec fn wf(&self) -> bool {
        keys_distinct(self@)
    }

    pub fn new() -> (m: Self)
        ensures
            m@ == Seq::<(Seq<char>, V::V)>::empty(),
            m.wf(),
    {
        let m = OrderedMap { entries: Vec::new() };
        assert(m@ =~= Seq::<(Seq<char>, V::V)>::empty());
        m
    }

    pub fn len(&self) -> (n: usize)
        ensures
            n == self@.len(),
    {
        self.entries.len()
    }

    /// The key and value at a position.
    pub fn entry(&self, i: usize) -> (e: (&String, &V))
        requires
            i < self@.len(),
        ensures
            (e.0@, e.1@) == self@[i as int],
    {
        let e = &self.entries[i];
        (&e.0, &e.1)
    }

    /// Inserts a key; see [`spec_ordered_insert`].
    pub fn insert(&mut self, k: String, v: V)
        requires
            old(self).wf(),
        ensures
            final(self).wf(),
            final(self)@ == spec_ordered_insert(old(self)@, k@, v@),
    {
        let ghost s = self@;
        let mut i: usize = 0;
        while i < self.entries.len()
            invariant
                i <= self.entries.len(),
                s == self@,
                s == old(self)@,
                keys_distinct(s),
                forall|j: int| 0 <= j < i ==> s[j].0 != k@,
            decreases self.entries.len() - i,
        {
            assert(s[i as int].0 == self.entries@[i as int].0@);
            if self.entries[i].0 == k {
                let ghost kv = k@;
                let ghost vv = v@;
                self.entries.set(i, (k, v));
                assert(s[i as int].0 == kv);
                assert(forall|j: int| 0 <= j < s.len() && s[j].0 == kv ==> j == i);
                assert(self@ =~= s.update(i as int, (kv, vv)));
                assert(exists|j: int| 0 <= j < s.len() && s[j].0 == kv);
                let ghost c = choose|j: int| 0 <= j < s.len() && s[j].0 == kv;
                assert(c == i);
                return;
            }
            i = i + 1;
        }
        let ghost kv = k@;
        let ghost vv = v@;
        self.entries.push((k, v));
        assert(self@ =~= s.push((kv, vv)));
    }
}

} // verus!
