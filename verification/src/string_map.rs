//! A small map keyed by strings, kept as a vector of entries in insertion
//! order with no key occurring twice.

use vstd::prelude::*;
use crate::text::chars_eq;
use crate::text::str_to_chars;

verus! {

/// Entries `(key, value)` as a map from key characters to values; with no
/// repeated key the order of the entries does not matter.
pub open spec fn entries_to_map<V>(s: Seq<(String, V)>) -> Map<Seq<char>, V>
    decreases s.len(),
{
    if s.len() == 0 {
        Map::empty()
    } else {
        entries_to_map(s.drop_last()).insert(s.last().0@, s.last().1)
    }
}

/// No key occurs twice.
pub open spec fn keys_unique<V>(s: Seq<(String, V)>) -> bool {
    forall|i: int, j: int| 0 <= i < j < s.len() ==> #[trigger] s[i].0@ != #[trigger] s[j].0@
}

pub proof fn lemma_entries_to_map<V>(s: Seq<(String, V)>)
    requires
        keys_unique(s),
    ensures
        forall|k: Seq<char>|
            #[trigger] entries_to_map(s).dom().contains(k) <==> exists|i: int|
                0 <= i < s.len() && s[i].0@ == k,
        forall|i: int| 0 <= i < s.len() ==> #[trigger] entries_to_map(s)[s[i].0@] == s[i].1,
        entries_to_map(s).dom().finite(),
        entries_to_map(s).dom().len() == s.len(),
    decreases s.len(),
{
    if s.len() > 0 {
        let t = s.drop_last();
        assert(keys_unique(t)) by {
            assert forall|i: int, j: int| 0 <= i < j < t.len() implies #[trigger] t[i].0@
                != #[trigger] t[j].0@ by {
                assert(t[i] == s[i] && t[j] == s[j]);
            }
        }
        lemma_entries_to_map(t);
        let m = entries_to_map(s);
        assert forall|k: Seq<char>| #[trigger] m.dom().contains(k) <==> exists|i: int|
            0 <= i < s.len() && s[i].0@ == k by {
            if m.dom().contains(k) && k != s.last().0@ {
                let i = choose|i: int| 0 <= i < t.len() && t[i].0@ == k;
                assert(s[i] == t[i]);
            }
            if exists|i: int| 0 <= i < s.len() && s[i].0@ == k {
                let i = choose|i: int| 0 <= i < s.len() && s[i].0@ == k;
                if i < s.len() - 1 {
                    assert(t[i] == s[i]);
                }
            }
        }
        assert forall|i: int| 0 <= i < s.len() implies #[trigger] m[s[i].0@] == s[i].1 by {
            if i < s.len() - 1 {
                assert(t[i] == s[i]);
                assert(s[i].0@ != s[s.len() - 1].0@);
            }
        }
        assert(!entries_to_map(t).dom().contains(s.last().0@)) by {
            if entries_to_map(t).dom().contains(s.last().0@) {
                let i = choose|i: int| 0 <= i < t.len() && t[i].0@ == s.last().0@;
                assert(t[i] == s[i]);
            }
        }
    }
}

/// A map from strings to values that remembers insertion order.
#[derive(Debug)]
pub struct StringMap<V> {
    entries: Vec<(String, V)>,
}

impl<V> StringMap<V> {
    #[verifier::type_invariant]
    closed spec fn unique_keys(self) -> bool {
        keys_unique(self.entries@)
    }

    /// The entries, in insertion order.
    pub closed spec fn entry_seq(self) -> Seq<(String, V)> {
        self.entries@
    }

    pub closed spec fn view(self) -> Map<Seq<char>, V> {
        entries_to_map(self.entries@)
    }

    /// The map holds `view`, in the entry order of `entry_seq`.
    pub fn view_facts(&self)
        ensures
            keys_unique(self.entry_seq()),
            self.view() == entries_to_map(self.entry_seq()),
            self.view().dom().finite(),
            self.view().dom().len() == self.entry_seq().len(),
    {
        proof {
            use_type_invariant(self);
            lemma_entries_to_map(self.entries@);
        }
    }

    /// An empty map.
    pub fn new() -> (r: Self)
        ensures
            r.view() == Map::<Seq<char>, V>::empty(),
            r.entry_seq().len() == 0,
    {
        StringMap { entries: Vec::new() }
    }

    /// Number of entries.
    pub fn len(&self) -> (r: usize)
        ensures
            r == self.view().dom().len(),
            r == self.entry_seq().len(),
    {
        proof {
            use_type_invariant(self);
            lemma_entries_to_map(self.entries@);
        }
        self.entries.len()
    }

    /// Whether the map has no entries.
    pub fn is_empty(&self) -> (r: bool)
        ensures
            r == (self.view().dom().len() == 0),
    {
        self.len() == 0
    }

    /// Position of `key` among the entries.
    fn find(&self, key: &str) -> (r: Option<usize>)
        ensures
            match r {
                Some(i) => i < self.entries@.len() && self.entries@[i as int].0@ == key@,
                None => forall|i: int| 0 <= i < self.entries@.len() ==> self.entries@[i].0@ != key@,
            },
    {
        let k = str_to_chars(key);
        let mut i: usize = 0;
        while i < self.entries.len()
            invariant
                i <= self.entries@.len(),
                k@ == key@,
                forall|j: int| 0 <= j < i ==> self.entries@[j].0@ != key@,
            decreases self.entries@.len() - i,
        {
            let ek = str_to_chars(self.entries[i].0.as_str());
            if chars_eq(&ek, &k) {
                return Some(i);
            }
            i = i + 1;
        }
        None
    }

    /// Whether `key` has an entry.
    pub fn contains_key(&self, key: &str) -> (r: bool)
        ensures
            r == self.view().dom().contains(key@),
    {
        proof {
            use_type_invariant(self);
            lemma_entries_to_map(self.entries@);
        }
        self.find(key).is_some()
    }

    /// The value stored for `key`, if any.
    pub fn get(&self, key: &str) -> (r: Option<&V>)
        ensures
            match r {
                Some(v) => self.view().dom().contains(key@) && *v == self.view()[key@],
                None => !self.view().dom().contains(key@),
            },
    {
        proof {
            use_type_invariant(self);
            lemma_entries_to_map(self.entries@);
        }
        match self.find(key) {
            Some(i) => Some(&self.entries[i].1),
            None => None,
        }
    }

    /// Set the value for `key`, keeping the position of an existing entry
    /// and appending a new one otherwise.
    pub fn insert(&mut self, key: String, value: V)
        ensures
            final(self).view() == old(self).view().insert(key@, value),
    {
        proof {
            use_type_invariant(&*self);
            lemma_entries_to_map(self.entries@);
        }
        let ghost old_entries = self.entries@;
        let ghost old_map = entries_to_map(old_entries);
        match self.find(key.as_str()) {
            Some(i) => {
                let ghost k = key@;
                let mut entries = Vec::new();
                std::mem::swap(&mut entries, &mut self.entries);
                entries.set(i, (key, value));
                let ghost ne = entries@;
                assert(keys_unique(ne)) by {
                    assert forall|a: int, b: int| 0 <= a < b < ne.len() implies #[trigger] ne[a].0@
                        != #[trigger] ne[b].0@ by {
                        assert(old_entries[a].0@ != old_entries[b].0@);
                    }
                }
                proof {
                    lemma_entries_to_map(ne);
                    let nm = entries_to_map(ne);
                    assert forall|q: Seq<char>| #[trigger] nm.dom().contains(q) == old_map.insert(
                        k,
                        value,
                    ).dom().contains(q) by {
                        if nm.dom().contains(q) {
                            let j = choose|j: int| 0 <= j < ne.len() && ne[j].0@ == q;
                            if j != i {
                                assert(old_entries[j] == ne[j]);
                            }
                        }
                        if old_map.dom().contains(q) {
                            let j = choose|j: int| 0 <= j < old_entries.len() && old_entries[j].0@ == q;
                            if j != i {
                                assert(old_entries[j] == ne[j]);
                            }
                        }
                    }
                    assert forall|q: Seq<char>| #[trigger] nm.dom().contains(q) implies nm[q]
                        == old_map.insert(k, value)[q] by {
                        let j = choose|j: int| 0 <= j < ne.len() && ne[j].0@ == q;
                        if j != i {
                            assert(old_entries[j] == ne[j]);
                            assert(old_map[old_entries[j].0@] == old_entries[j].1);
                        }
                    }
                    assert(nm =~= old_map.insert(k, value));
                }
                self.entries = entries;
            },
            None => {
                let mut entries = Vec::new();
                std::mem::swap(&mut entries, &mut self.entries);
                entries.push((key, value));
                let ghost ne = entries@;
                assert(ne.drop_last() =~= old_entries);
                assert(keys_unique(ne)) by {
                    assert forall|a: int, b: int| 0 <= a < b < ne.len() implies #[trigger] ne[a].0@
                        != #[trigger] ne[b].0@ by {
                        if b < ne.len() - 1 {
                            assert(old_entries[a].0@ != old_entries[b].0@);
                        } else {
                            assert(ne[a] == old_entries[a]);
                        }
                    }
                }
                self.entries = entries;
            },
        }
    }

    /// Remove the entry for `key`, if any, keeping the order of the others.
    pub fn remove(&mut self, key: &str)
        ensures
            final(self).view() == old(self).view().remove(key@),
    {
        proof {
            use_type_invariant(&*self);
            lemma_entries_to_map(self.entries@);
        }
        let ghost old_entries = self.entries@;
        let ghost old_map = entries_to_map(old_entries);
        match self.find(key) {
            Some(i) => {
                let mut entries = Vec::new();
                std::mem::swap(&mut entries, &mut self.entries);
                let _ = entries.remove(i);
                let ghost ne = entries@;
                assert(ne =~= old_entries.remove(i as int));
                assert(keys_unique(ne)) by {
                    assert forall|a: int, b: int| 0 <= a < b < ne.len() implies #[trigger] ne[a].0@
                        != #[trigger] ne[b].0@ by {
                        let oa = if a < i { a } else { a + 1 };
                        let ob = if b < i { b } else { b + 1 };
                        assert(ne[a] == old_entries[oa] && ne[b] == old_entries[ob]);
                        assert(old_entries[oa].0@ != old_entries[ob].0@);
                    }
                }
                proof {
                    lemma_entries_to_map(ne);
                    let nm = entries_to_map(ne);
                    let target = old_map.remove(key@);
                    assert forall|q: Seq<char>| #[trigger] nm.dom().contains(q) == target.dom().contains(q) by {
                        if nm.dom().contains(q) {
                            let j = choose|j: int| 0 <= j < ne.len() && ne[j].0@ == q;
                            let oj = if j < i { j } else { j + 1 };
                            assert(ne[j] == old_entries[oj]);
                            assert(old_entries[oj].0@ != old_entries[i as int].0@);
                        }
                        if target.dom().contains(q) {
                            let j = choose|j: int| 0 <= j < old_entries.len() && old_entries[j].0@ == q;
                            assert(j != i);
                            let nj = if j < i { j } else { j - 1 };
                            assert(ne[nj] == old_entries[j]);
                        }
                    }
                    assert forall|q: Seq<char>| #[trigger] nm.dom().contains(q) implies nm[q] == target[q] by {
                        let j = choose|j: int| 0 <= j < ne.len() && ne[j].0@ == q;
                        let oj = if j < i { j } else { j + 1 };
                        assert(ne[j] == old_entries[oj]);
                        assert(old_map[old_entries[oj].0@] == old_entries[oj].1);
                    }
                    assert(nm =~= target);
                }
                self.entries = entries;
            },
            None => {
                assert(old_map.remove(key@) =~= old_map);
            },
        }
    }

    /// The entries, in insertion order.
    pub fn entries(&self) -> (r: &[(String, V)])
        ensures
            r@ == self.entry_seq(),
    {
        self.entries.as_slice()
    }
}

impl<V: Clone> Clone for StringMap<V> {
    /// A copy with the same keys in the same order, each value cloned.
    fn clone(&self) -> (r: Self)
        ensures
            r.entry_seq().len() == self.entry_seq().len(),
            forall|i: int|
                0 <= i < self.entry_seq().len() ==> (#[trigger] r.entry_seq()[i]).0 == self.entry_seq()[i].0
                    && cloned::<V>(self.entry_seq()[i].1, r.entry_seq()[i].1),
    {
        proof {
            use_type_invariant(self);
        }
        let mut entries: Vec<(String, V)> = Vec::new();
        let mut i: usize = 0;
        while i < self.entries.len()
            invariant
                i <= self.entries@.len(),
                keys_unique(self.entries@),
                entries@.len() == i,
                forall|j: int|
                    0 <= j < i ==> (#[trigger] entries@[j]).0 == self.entries@[j].0 && cloned::<V>(
                        self.entries@[j].1,
                        entries@[j].1,
                    ),
            decreases self.entries@.len() - i,
        {
            let k = self.entries[i].0.clone();
            let v = self.entries[i].1.clone();
            entries.push((k, v));
            i = i + 1;
        }
        assert(keys_unique(entries@)) by {
            assert forall|a: int, b: int| 0 <= a < b < entries@.len() implies #[trigger] entries@[a].0@
                != #[trigger] entries@[b].0@ by {
                assert(self.entries@[a].0@ != self.entries@[b].0@);
            }
        }
        StringMap { entries }
    }
}

impl StringMap<String> {
    /// A copy of the map.
    pub fn duplicate(&self) -> (r: Self)
        ensures
            r.view() == self.view(),
            r.entry_seq() == self.entry_seq(),
    {
        let r = self.clone();
        proof {
            assert(r.entry_seq() =~= self.entry_seq());
        }
        r
    }
}

} // verus!
