//! A table keyed by name, with at most one entry for each name.

use vstd::prelude::*;

verus! {

/// No two entries of `s` carry the same key.
pub open spec fn keys_distinct<T>(s: Seq<(Seq<char>, T)>) -> bool {
    forall|i: int, j: int| 0 <= i < j < s.len() ==> (#[trigger] s[i]).0 != (#[trigger] s[j]).0
}

/// Some entry of `s` carries the key `k`.
pub open spec fn has_key<T>(s: Seq<(Seq<char>, T)>, k: Seq<char>) -> bool {
    exists|i: int| 0 <= i < s.len() && (#[trigger] s[i]).0 == k
}

/// The position of an entry of `s` that carries the key `k`.
pub open spec fn position_of<T>(s: Seq<(Seq<char>, T)>, k: Seq<char>) -> int {
    choose|i: int| 0 <= i < s.len() && (#[trigger] s[i]).0 == k
}

/// The entries of `s` as a map from key to value.
pub open spec fn as_map<T>(s: Seq<(Seq<char>, T)>) -> Map<Seq<char>, T> {
    Map::new(|k: Seq<char>| has_key(s, k), |k: Seq<char>| s[position_of(s, k)].1)
}

/// In a sequence with distinct keys, the entry at `i` is the one that its
/// key is mapped to.
pub proof fn lemma_position_unique<T>(s: Seq<(Seq<char>, T)>, i: int)
    requires
        keys_distinct(s),
        0 <= i < s.len(),
    ensures
        has_key(s, s[i].0),
        position_of(s, s[i].0) == i,
        as_map(s)[s[i].0] == s[i].1,
{
    let k = s[i].0;
    assert(0 <= i < s.len() && s[i].0 == k);
    let p = position_of(s, k);
    assert(0 <= p < s.len() && s[p].0 == k);
    if p < i {
        assert(s[p].0 != s[i].0);
    } else if i < p {
        assert(s[i].0 != s[p].0);
    }
}

/// Appending an entry under a new key adds that key to the map.
pub proof fn lemma_push_new_key<T>(s: Seq<(Seq<char>, T)>, k: Seq<char>, v: T)
    requires
        keys_distinct(s),
        !has_key(s, k),
    ensures
        keys_distinct(s.push((k, v))),
        as_map(s.push((k, v))) == as_map(s).insert(k, v),
{
    let t = s.push((k, v));
    assert forall|i: int, j: int| 0 <= i < j < t.len() implies (#[trigger] t[i]).0 != (
    #[trigger] t[j]).0 by {
        if j < s.len() {
            assert(s[i].0 != s[j].0);
        } else {
            assert(s[i].0 != k);
        }
    }
    assert forall|q: Seq<char>| #[trigger] as_map(t).contains_key(q) == as_map(s).insert(k, v).contains_key(q) by {
        if has_key(s, q) {
            let p = position_of(s, q);
            assert(t[p].0 == q);
        }
        if has_key(t, q) {
            let p = position_of(t, q);
            if p < s.len() {
                assert(s[p].0 == q);
            }
        }
        if q == k {
            assert(t[s.len() as int].0 == k);
        }
    }
    assert forall|q: Seq<char>| as_map(t).contains_key(q) implies #[trigger] as_map(t)[q] == as_map(
        s,
    ).insert(k, v)[q] by {
        let p = position_of(t, q);
        lemma_position_unique(t, p);
        if p < s.len() {
            assert(s[p].0 == q);
            lemma_position_unique(s, p);
        }
    }
    assert(as_map(t) =~= as_map(s).insert(k, v));
}

/// Replacing the value of the entry at `i` replaces what its key is mapped to.
pub proof fn lemma_update_value<T>(s: Seq<(Seq<char>, T)>, i: int, v: T)
    requires
        keys_distinct(s),
        0 <= i < s.len(),
    ensures
        keys_distinct(s.update(i, (s[i].0, v))),
        as_map(s.update(i, (s[i].0, v))) == as_map(s).insert(s[i].0, v),
{
    let k = s[i].0;
    let t = s.update(i, (k, v));
    assert forall|a: int, b: int| 0 <= a < b < t.len() implies (#[trigger] t[a]).0 != (
    #[trigger] t[b]).0 by {
        assert(s[a].0 != s[b].0);
    }
    assert forall|q: Seq<char>| #[trigger] as_map(t).contains_key(q) == as_map(s).insert(k, v).contains_key(q) by {
        if has_key(s, q) {
            let p = position_of(s, q);
            assert(t[p].0 == q);
        }
        if has_key(t, q) {
            let p = position_of(t, q);
            assert(s[p].0 == q);
        }
        if q == k {
            assert(t[i].0 == k);
        }
    }
    assert forall|q: Seq<char>| as_map(t).contains_key(q) implies #[trigger] as_map(t)[q] == as_map(
        s,
    ).insert(k, v)[q] by {
        let p = position_of(t, q);
        lemma_position_unique(t, p);
        assert(s[p].0 == q);
        lemma_position_unique(s, p);
    }
    assert(as_map(t) =~= as_map(s).insert(k, v));
}

/// Taking out the entry at `i` takes its key out of the map.
pub proof fn lemma_remove_entry<T>(s: Seq<(Seq<char>, T)>, i: int)
    requires
        keys_distinct(s),
        0 <= i < s.len(),
    ensures
        keys_distinct(s.remove(i)),
        !has_key(s.remove(i), s[i].0),
        as_map(s.remove(i)) == as_map(s).remove(s[i].0),
{
    let k = s[i].0;
    let t = s.remove(i);
    assert forall|a: int| 0 <= a < t.len() implies (#[trigger] t[a]) == s[if a < i { a } else { a + 1 }] by {}
    assert forall|a: int, b: int| 0 <= a < b < t.len() implies (#[trigger] t[a]).0 != (
    #[trigger] t[b]).0 by {
        let first = if a < i { a } else { a + 1 };
        let second = if b < i { b } else { b + 1 };
        assert(s[first].0 != s[second].0);
    }
    if has_key(t, k) {
        let p = position_of(t, k);
        let origin = if p < i { p } else { p + 1 };
        assert(t[p] == s[origin]);
        if origin < i {
            assert(s[origin].0 != s[i].0);
        } else {
            assert(s[i].0 != s[origin].0);
        }
    }
    assert forall|q: Seq<char>| #[trigger] as_map(t).contains_key(q) == as_map(s).remove(k).contains_key(q) by {
        if has_key(s, q) && q != k {
            let p = position_of(s, q);
            let shifted = if p < i { p } else { p - 1 };
            assert(t[shifted].0 == q);
        }
        if has_key(t, q) {
            let p = position_of(t, q);
            let origin = if p < i { p } else { p + 1 };
            assert(t[p] == s[origin]);
            assert(s[origin].0 == q);
        }
    }
    assert forall|q: Seq<char>| as_map(t).contains_key(q) implies #[trigger] as_map(t)[q] == as_map(
        s,
    ).remove(k)[q] by {
        let p = position_of(t, q);
        lemma_position_unique(t, p);
        let origin = if p < i { p } else { p + 1 };
        assert(t[p] == s[origin]);
        lemma_position_unique(s, origin);
    }
    assert(as_map(t) =~= as_map(s).remove(k));
}

/// A table from names to values of type `T`. Entries keep the order in which
/// their names first came in.
#[derive(Debug)]
pub struct NameTable<T> {
    entries: Vec<(String, T)>,
}

impl<T> NameTable<T> {
    /// The entries in order, each name by its characters.
    pub closed spec fn entries(&self) -> Seq<(Seq<char>, T)> {
        Seq::new(self.entries@.len(), |i: int| (self.entries@[i].0@, self.entries@[i].1))
    }

    /// No name occurs twice.
    pub open spec fn wf(&self) -> bool {
        keys_distinct(self.entries())
    }

    /// The table as a map from name to value.
    pub open spec fn view(&self) -> Map<Seq<char>, T> {
        as_map(self.entries())
    }

    /// An empty table.
    pub fn new() -> (t: Self)
        ensures
            t.wf(),
            t.entries() == Seq::<(Seq<char>, T)>::empty(),
            t@ == Map::<Seq<char>, T>::empty(),
    {
        let t = NameTable { entries: Vec::new() };
        assert(t.entries() =~= Seq::<(Seq<char>, T)>::empty());
        assert(t@ =~= Map::<Seq<char>, T>::empty());
        t
    }

    /// The number of entries.
    pub fn len(&self) -> (n: usize)
        ensures
            n == self.entries().len(),
    {
        self.entries.len()
    }

    /// Whether the table holds nothing.
    pub fn is_empty(&self) -> (b: bool)
        ensures
            b == (self.entries().len() == 0),
    {
        self.entries.len() == 0
    }

    /// The first position of `key`, if the table has it.
    pub fn find(&self, key: &str) -> (r: Option<usize>)
        ensures
            match r {
                Some(i) => i < self.entries().len() && self.entries()[i as int].0 == key@
                    && forall|j: int| 0 <= j < i ==> (#[trigger] self.entries()[j]).0 != key@,
                None => !has_key(self.entries(), key@),
            },
    {
        let wanted = key.to_owned();
        let mut i: usize = 0;
        while i < self.entries.len()
            invariant
                i <= self.entries@.len(),
                wanted@ == key@,
                forall|j: int| 0 <= j < i ==> (#[trigger] self.entries()[j]).0 != key@,
            decreases self.entries@.len() - i,
        {
            if self.entries[i].0 == wanted {
                return Some(i);
            }
            i += 1;
        }
        None
    }

    /// Whether the table has an entry for `key`.
    pub fn contains_key(&self, key: &str) -> (b: bool)
        ensures
            b == self@.contains_key(key@),
    {
        self.find(key).is_some()
    }

    /// The value stored under `key`.
    pub fn get(&self, key: &str) -> (r: Option<&T>)
        requires
            self.wf(),
        ensures
            match r {
                Some(v) => self@.contains_key(key@) && *v == self@[key@],
                None => !self@.contains_key(key@),
            },
    {
        match self.find(key) {
            Some(i) => {
                proof {
                    lemma_position_unique(self.entries(), i as int);
                }
                Some(&self.entries[i].1)
            },
            None => None,
        }
    }

    /// The name at position `i`.
    pub fn name_at(&self, i: usize) -> (r: &String)
        requires
            i < self.entries().len(),
        ensures
            r@ == self.entries()[i as int].0,
    {
        &self.entries[i].0
    }

    /// The value at position `i`.
    pub fn value_at(&self, i: usize) -> (r: &T)
        requires
            i < self.entries().len(),
        ensures
            *r == self.entries()[i as int].1,
    {
        &self.entries[i].1
    }

    /// Stores `val` under `key` and hands back what was stored there before.
    /// A new name goes to the end; a known name keeps its place.
    pub fn insert(&mut self, key: String, val: T) -> (r: Option<T>)
        requires
            old(self).wf(),
        ensures
            final(self).wf(),
            final(self)@ == old(self)@.insert(key@, val),
            r == (if old(self)@.contains_key(key@) {
                Some(old(self)@[key@])
            } else {
                None
            }),
            final(self).entries() == (if has_key(old(self).entries(), key@) {
                old(self).entries().update(position_of(old(self).entries(), key@), (key@, val))
            } else {
                old(self).entries().push((key@, val))
            }),
    {
        let ghost before = self.entries();
        match self.find(key.as_str()) {
            Some(i) => {
                proof {
                    lemma_position_unique(before, i as int);
                    lemma_update_value(before, i as int, val);
                }
                let previous = self.entries.remove(i);
                self.entries.insert(i, (key, val));
                assert(self.entries() =~= before.update(i as int, (key@, val)));
                Some(previous.1)
            },
            None => {
                proof {
                    lemma_push_new_key(before, key@, val);
                }
                self.entries.push((key, val));
                assert(self.entries() =~= before.push((key@, val)));
                None
            },
        }
    }

    /// Takes the entry of `key` out and hands its value back.
    pub fn remove(&mut self, key: &str) -> (r: Option<T>)
        requires
            old(self).wf(),
        ensures
            final(self).wf(),
            final(self)@ == old(self)@.remove(key@),
            r == (if old(self)@.contains_key(key@) {
                Some(old(self)@[key@])
            } else {
                None
            }),
            final(self).entries() == (if has_key(old(self).entries(), key@) {
                old(self).entries().remove(position_of(old(self).entries(), key@))
            } else {
                old(self).entries()
            }),
    {
        let ghost before = self.entries();
        match self.find(key) {
            Some(i) => {
                proof {
                    lemma_position_unique(before, i as int);
                    lemma_remove_entry(before, i as int);
                }
                let previous = self.entries.remove(i);
                assert(self.entries() =~= before.remove(i as int));
                Some(previous.1)
            },
            None => {
                assert(self@ =~= old(self)@.remove(key@));
                None
            },
        }
    }

    /// Empties the table and hands back what it held, in order.
    pub fn take_all(&mut self) -> (r: Vec<(String, T)>)
        ensures
            final(self).wf(),
            final(self).entries() == Seq::<(Seq<char>, T)>::empty(),
            final(self)@ == Map::<Seq<char>, T>::empty(),
            r@.len() == old(self).entries().len(),
            forall|i: int|
                0 <= i < r@.len() ==> (#[trigger] r@[i]).0@ == old(self).entries()[i].0 && r@[i].1
                    == old(self).entries()[i].1,
    {
        let mut out: Vec<(String, T)> = Vec::new();
        core::mem::swap(&mut out, &mut self.entries);
        assert(self.entries() =~= Seq::<(Seq<char>, T)>::empty());
        assert(self@ =~= Map::<Seq<char>, T>::empty());
        out
    }
}

/// Uniqueness: a well-formed table holds at most one entry for each name.
pub proof fn lemma_one_entry_per_name<T>(table: NameTable<T>, i: int, j: int)
    requires
        table.wf(),
        0 <= i < table.entries().len(),
        0 <= j < table.entries().len(),
        table.entries()[i].0 == table.entries()[j].0,
    ensures
        i == j,
{
    if i < j {
        assert(table.entries()[i].0 != table.entries()[j].0);
    } else if j < i {
        assert(table.entries()[j].0 != table.entries()[i].0);
    }
}

/// A sequence with distinct keys has as many entries as its map has keys.
pub proof fn lemma_map_size<T>(s: Seq<(Seq<char>, T)>)
    requires
        keys_distinct(s),
    ensures
        as_map(s).dom().finite(),
        as_map(s).dom().len() == s.len(),
    decreases s.len(),
{
    if s.len() == 0 {
        assert(as_map(s).dom() =~= Set::<Seq<char>>::empty());
    } else {
        let t = s.drop_last();
        let k = s.last().0;
        let v = s.last().1;
        assert(keys_distinct(t)) by {
            assert forall|i: int, j: int| 0 <= i < j < t.len() implies (#[trigger] t[i]).0 != (
            #[trigger] t[j]).0 by {
                assert(s[i].0 != s[j].0);
            }
        }
        if has_key(t, k) {
            let p = position_of(t, k);
            assert(s[p].0 != s[s.len() - 1].0);
        }
        lemma_map_size(t);
        assert(s =~= t.push((k, v)));
        lemma_push_new_key(t, k, v);
        assert(as_map(s).dom() =~= as_map(t).dom().insert(k));
        assert(!as_map(t).dom().contains(k));
    }
}

/// A well-formed table has as many entries as its map has keys.
pub proof fn lemma_domain_size<T>(table: NameTable<T>)
    requires
        table.wf(),
    ensures
        table@.dom().finite(),
        table@.dom().len() == table.entries().len(),
{
    lemma_map_size(table.entries());
}

} // verus!
