//! A table keyed by byte strings, in which no key occurs twice.

use vstd::prelude::*;
use vstd::slice::slice_to_vec;

verus! {

/// Whether two byte strings hold the same bytes.
pub fn bytes_equal(a: &[u8], b: &[u8]) -> (r: bool)
    ensures
        r == (a@ == b@),
{
    if a.len() != b.len() {
        return false;
    }
    let mut i: usize = 0;
    while i < a.len()
        invariant
            i <= a@.len(),
            a@.len() == b@.len(),
            forall|j: int| 0 <= j < i ==> a@[j] == b@[j],
        decreases a@.len() - i,
    {
        if a[i] != b[i] {
            return false;
        }
        i = i + 1;
    }
    assert(a@ =~= b@);
    true
}

/// Whether no key stands at two places of `entries`.
spec fn distinct_keys<V>(entries: Seq<(Vec<u8>, V)>) -> bool {
    forall|i: int, j: int|
        0 <= i < j < entries.len() ==> (#[trigger] entries[i]).0@ != (#[trigger] entries[j]).0@
}

/// Whether `key` stands at place `i` of `entries`.
spec fn key_at<V>(entries: Seq<(Vec<u8>, V)>, key: Seq<u8>, i: int) -> bool {
    0 <= i < entries.len() && entries[i].0@ == key
}

/// The table that a list of entries stands for.
spec fn table_of<V>(entries: Seq<(Vec<u8>, V)>) -> Map<Seq<u8>, V> {
    Map::new(
        |key: Seq<u8>| exists|i: int| key_at(entries, key, i),
        |key: Seq<u8>| entries[choose|i: int| key_at(entries, key, i)].1,
    )
}

/// With distinct keys, the table holds at each key the value that stands
/// beside it in the list.
proof fn lemma_table_entry<V>(entries: Seq<(Vec<u8>, V)>, i: int)
    requires
        distinct_keys(entries),
        0 <= i < entries.len(),
    ensures
        table_of(entries).contains_key(entries[i].0@),
        table_of(entries)[entries[i].0@] == entries[i].1,
{
    let key = entries[i].0@;
    assert(key_at(entries, key, i));
    let j = choose|j: int| key_at(entries, key, j);
    assert(key_at(entries, key, j));
    assert(j == i);
}

/// A table from byte strings to values. Its view is a `Map` from the keys,
/// as sequences of bytes, to the values.
pub struct ByteMap<V> {
    entries: Vec<(Vec<u8>, V)>,
}

impl<V> View for ByteMap<V> {
    type V = Map<Seq<u8>, V>;

    closed spec fn view(&self) -> Map<Seq<u8>, V> {
        table_of(self.entries@)
    }
}

impl<V> ByteMap<V> {
    /// The invariant of the table: no key occurs twice.
    pub closed spec fn wf(&self) -> bool {
        distinct_keys(self.entries@)
    }

    /// An empty table.
    pub fn new() -> (r: Self)
        ensures
            r.wf(),
            r@ == Map::<Seq<u8>, V>::empty(),
    {
        let r = ByteMap { entries: Vec::new() };
        assert(r@ =~= Map::<Seq<u8>, V>::empty());
        r
    }

    /// The place of `key` among the entries.
    fn position(&self, key: &[u8]) -> (r: Option<usize>)
        ensures
            match r {
                Some(i) => key_at(self.entries@, key@, i as int),
                None => forall|i: int| !key_at(self.entries@, key@, i),
            },
    {
        let mut i: usize = 0;
        while i < self.entries.len()
            invariant
                i <= self.entries@.len(),
                forall|j: int| 0 <= j < i ==> !key_at(self.entries@, key@, j),
            decreases self.entries@.len() - i,
        {
            if bytes_equal(self.entries[i].0.as_slice(), key) {
                return Some(i);
            }
            i = i + 1;
        }
        None
    }

    /// Whether the table holds `key`.
    pub fn contains_key(&self, key: &[u8]) -> (r: bool)
        requires
            self.wf(),
        ensures
            r == self@.contains_key(key@),
    {
        self.position(key).is_some()
    }

    /// The value at `key`.
    pub fn get(&self, key: &[u8]) -> (r: Option<&V>)
        requires
            self.wf(),
        ensures
            self@.contains_key(key@) ==> r == Some(&self@[key@]),
            !self@.contains_key(key@) ==> r is None,
    {
        match self.position(key) {
            Some(i) => {
                proof {
                    lemma_table_entry(self.entries@, i as int);
                }
                Some(&self.entries[i].1)
            },
            None => None,
        }
    }

    /// Puts `value` at `key` and returns the value that stood there.
    pub fn insert(&mut self, key: &[u8], value: V) -> (r: Option<V>)
        requires
            old(self).wf(),
        ensures
            final(self).wf(),
            final(self)@ == old(self)@.insert(key@, value),
            old(self)@.contains_key(key@) ==> r == Some(old(self)@[key@]),
            !old(self)@.contains_key(key@) ==> r is None,
    {
        let ghost before = self.entries@;
        match self.position(key) {
            Some(i) => {
                proof {
                    lemma_table_entry(before, i as int);
                }
                let (k, previous) = self.entries.remove(i);
                self.entries.push((k, value));
                proof {
                    let after = self.entries@;
                    let n = before.len() as int;
                    assert(after.len() == n);
                    assert forall|a: int, b: int| 0 <= a < b < after.len() implies (#[trigger] after[a]).0@
                        != (#[trigger] after[b]).0@ by {
                        let a0 = if a < i { a } else { a + 1 };
                        if b < n - 1 {
                            let b0 = if b < i { b } else { b + 1 };
                            assert(after[a] == before[a0]);
                            assert(after[b] == before[b0]);
                        } else {
                            assert(after[a] == before[a0]);
                            assert(after[b].0@ == before[i as int].0@);
                        }
                    }
                    assert forall|q: Seq<u8>| #[trigger] table_of(after).contains_key(q) <==> table_of(
                        before,
                    ).insert(key@, value).contains_key(q) by {
                        if table_of(after).contains_key(q) {
                            let a = choose|a: int| key_at(after, q, a);
                            if a < n - 1 {
                                let a0 = if a < i { a } else { a + 1 };
                                assert(key_at(before, q, a0));
                            }
                        }
                        if table_of(before).contains_key(q) {
                            let a0 = choose|a0: int| key_at(before, q, a0);
                            if a0 == i {
                                assert(key_at(after, q, n - 1));
                            } else {
                                let a = if a0 < i { a0 } else { a0 - 1 };
                                assert(key_at(after, q, a));
                            }
                        }
                        if q == key@ {
                            assert(key_at(after, q, n - 1));
                        }
                    }
                    assert forall|q: Seq<u8>| #[trigger] table_of(after).contains_key(q) implies table_of(after)[q]
                        == table_of(before).insert(key@, value)[q] by {
                        let a = choose|a: int| key_at(after, q, a);
                        lemma_table_entry(after, a);
                        if a < n - 1 {
                            let a0 = if a < i { a } else { a + 1 };
                            assert(after[a] == before[a0]);
                            lemma_table_entry(before, a0);
                        }
                    }
                    assert(table_of(after) =~= table_of(before).insert(key@, value));
                }
                Some(previous)
            },
            None => {
                self.entries.push((slice_to_vec(key), value));
                proof {
                    let after = self.entries@;
                    let n = before.len() as int;
                    assert forall|a: int, b: int| 0 <= a < b < after.len() implies (#[trigger] after[a]).0@
                        != (#[trigger] after[b]).0@ by {
                        if b < n {
                            assert(after[a] == before[a]);
                            assert(after[b] == before[b]);
                        } else {
                            assert(after[a] == before[a]);
                            assert(!key_at(before, key@, a));
                        }
                    }
                    assert forall|q: Seq<u8>| #[trigger] table_of(after).contains_key(q) <==> table_of(
                        before,
                    ).insert(key@, value).contains_key(q) by {
                        if table_of(after).contains_key(q) {
                            let a = choose|a: int| key_at(after, q, a);
                            if a < n {
                                assert(key_at(before, q, a));
                            }
                        }
                        if table_of(before).contains_key(q) {
                            let a0 = choose|a0: int| key_at(before, q, a0);
                            assert(key_at(after, q, a0));
                        }
                        if q == key@ {
                            assert(key_at(after, q, n));
                        }
                    }
                    assert forall|q: Seq<u8>| #[trigger] table_of(after).contains_key(q) implies table_of(after)[q]
                        == table_of(before).insert(key@, value)[q] by {
                        let a = choose|a: int| key_at(after, q, a);
                        lemma_table_entry(after, a);
                        if a < n {
                            assert(after[a] == before[a]);
                            lemma_table_entry(before, a);
                        }
                    }
                    assert(table_of(after) =~= table_of(before).insert(key@, value));
                }
                None
            },
        }
    }
}

} // verus!
