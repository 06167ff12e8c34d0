//! A header mapping: an association list of `(name, value)` byte pairs with
//! distinct names. Names are kept verbatim, so callers use one canonical
//! (lowercase) spelling per header name, which is also the normal form the
//! surrounding HTTP machinery delivers.

use vstd::prelude::*;
use vstd::pervasive::VecAdditionalExecFns;
use crate::bytes::slice_eq;

verus! {

/// The view of one stored header entry.
pub open spec fn entry_view(e: (Vec<u8>, Vec<u8>)) -> (Seq<u8>, Seq<u8>) {
    (e.0@, e.1@)
}

/// No two entries share a name.
pub open spec fn distinct_keys(s: Seq<(Seq<u8>, Seq<u8>)>) -> bool {
    forall|i: int, j: int| 0 <= i < j < s.len() ==> s[i].0 != s[j].0
}

/// Some entry carries the name `k`.
pub open spec fn has_key(s: Seq<(Seq<u8>, Seq<u8>)>, k: Seq<u8>) -> bool {
    exists|i: int| 0 <= i < s.len() && (#[trigger] s[i]).0 == k
}

/// The index of the entry named `k` (meaningful only when `has_key` holds;
/// under `distinct_keys` it is unique).
pub open spec fn key_index(s: Seq<(Seq<u8>, Seq<u8>)>, k: Seq<u8>) -> int {
    choose|i: int| 0 <= i < s.len() && (#[trigger] s[i]).0 == k
}

/// The value stored under the name `k`, if any.
pub open spec fn lookup(s: Seq<(Seq<u8>, Seq<u8>)>, k: Seq<u8>) -> Option<Seq<u8>> {
    if has_key(s, k) {
        Some(s[key_index(s, k)].1)
    } else {
        None
    }
}

/// A header mapping.
pub struct Headers {
    entries: Vec<(Vec<u8>, Vec<u8>)>,
}

impl View for Headers {
    type V = Seq<(Seq<u8>, Seq<u8>)>;

    closed spec fn view(&self) -> Seq<(Seq<u8>, Seq<u8>)> {
        self.entries@.map_values(|e: (Vec<u8>, Vec<u8>)| entry_view(e))
    }
}

impl Headers {
    /// The names are distinct, so `lookup` describes the mapping exactly.
    pub open spec fn wf(&self) -> bool {
        distinct_keys(self@)
    }

    /// An empty mapping.
    pub fn new() -> (h: Headers)
        ensures
            h.wf(),
            h@.len() == 0,
            forall|k: Seq<u8>| #[trigger] lookup(h@, k) is None,
    {
        let h = Headers { entries: Vec::new() };
        assert(forall|k: Seq<u8>| !has_key(h@, k));
        h
    }

    /// The number of entries.
    pub fn len(&self) -> (n: usize)
        ensures
            n == self@.len(),
    {
        self.entries.len()
    }

    /// The entry at position `i`, as a `(name, value)` pair of fresh vectors.
    pub fn entry_at(&self, i: usize) -> (e: (Vec<u8>, Vec<u8>))
        requires
            i < self@.len(),
        ensures
            (e.0@, e.1@) == self@[i as int],
    {
        let k = crate::bytes::tail_of(self.entries[i].0.as_slice(), 0);
        let v = crate::bytes::tail_of(self.entries[i].1.as_slice(), 0);
        assert(k@ =~= self.entries@[i as int].0@);
        assert(v@ =~= self.entries@[i as int].1@);
        (k, v)
    }

    /// The position of the entry named `k`, if any.
    fn index_of(&self, k: &[u8]) -> (r: Option<usize>)
        ensures
            r matches Some(i) ==> 0 <= i < self@.len() && self@[i as int].0 == k@,
            r is None ==> !has_key(self@, k@),
    {
        let n = self.entries.len();
        for idx in 0..n
            invariant
                n == self@.len(),
                forall|j: int| 0 <= j < idx ==> (#[trigger] self@[j]).0 != k@,
        {
            if slice_eq(self.entries[idx].0.as_slice(), k) {
                return Some(idx);
            }
        }
        None
    }

    /// The value stored under `k`, if any.
    pub fn get(&self, k: &[u8]) -> (r: Option<&Vec<u8>>)
        requires
            self.wf(),
        ensures
            r matches Some(v) ==> lookup(self@, k@) == Some(v@),
            r is None ==> lookup(self@, k@) is None,
    {
        match self.index_of(k) {
            Some(i) => {
                proof {
                    lemma_key_index_unique(self@, k@, i as int);
                }
                Some(&self.entries[i].1)
            },
            None => None,
        }
    }

    /// Is some value stored under `k`?
    pub fn contains(&self, k: &[u8]) -> (r: bool)
        requires
            self.wf(),
        ensures
            r == (lookup(self@, k@) is Some),
    {
        match self.get(k) {
            Some(_) => true,
            None => false,
        }
    }

    /// Stores `v` under `k`, replacing any earlier value.
    pub fn insert(&mut self, k: Vec<u8>, v: Vec<u8>)
        requires
            old(self).wf(),
        ensures
            final(self).wf(),
            lookup(final(self)@, k@) == Some(v@),
            forall|k2: Seq<u8>|
                k2 != k@ ==> #[trigger] lookup(final(self)@, k2) == lookup(old(self)@, k2),
    {
        let ghost s0 = self@;
        match self.index_of(k.as_slice()) {
            Some(i) => {
                self.entries.set(i, (k, v));
                proof {
                    assert(self@ =~= s0.update(i as int, (k@, v@)));
                    lemma_update_lookup(s0, i as int, k@, v@);
                }
            },
            None => {
                self.entries.push((k, v));
                proof {
                    assert(self@ =~= s0.push((k@, v@)));
                    lemma_push_lookup(s0, k@, v@);
                }
            },
        }
    }

    /// Removes the entry named `k`, if any.
    pub fn remove(&mut self, k: &[u8])
        requires
            old(self).wf(),
        ensures
            final(self).wf(),
            lookup(final(self)@, k@) is None,
            forall|k2: Seq<u8>|
                k2 != k@ ==> #[trigger] lookup(final(self)@, k2) == lookup(old(self)@, k2),
    {
        let ghost s0 = self@;
        match self.index_of(k) {
            Some(i) => {
                self.entries.remove(i);
                proof {
                    assert(self@ =~= s0.remove(i as int));
                    lemma_remove_lookup(s0, i as int);
                    assert(forall|k2: Seq<u8>|
                        k2 != k@ ==> #[trigger] lookup(self@, k2) == lookup(s0, k2));
                }
            },
            None => {
                assert(lookup(self@, k@) is None);
            },
        }
    }
}

/// Under `distinct_keys`, an index whose entry is named `k` is the `key_index`.
proof fn lemma_key_index_unique(s: Seq<(Seq<u8>, Seq<u8>)>, k: Seq<u8>, i: int)
    requires
        distinct_keys(s),
        0 <= i < s.len(),
        s[i].0 == k,
    ensures
        has_key(s, k),
        key_index(s, k) == i,
{
    assert(has_key(s, k));
    let ki = key_index(s, k);
    assert(0 <= ki < s.len() && s[ki].0 == k);
    if ki < i {
        assert(s[ki].0 != s[i].0);
    } else if i < ki {
        assert(s[i].0 != s[ki].0);
    }
}

/// Replacing the entry at `i` by one with the same name changes only that name's value.
proof fn lemma_update_lookup(s: Seq<(Seq<u8>, Seq<u8>)>, i: int, k: Seq<u8>, v: Seq<u8>)
    requires
        distinct_keys(s),
        0 <= i < s.len(),
        s[i].0 == k,
    ensures
        distinct_keys(s.update(i, (k, v))),
        lookup(s.update(i, (k, v)), k) == Some(v),
        forall|k2: Seq<u8>|
            k2 != k ==> #[trigger] lookup(s.update(i, (k, v)), k2) == lookup(s, k2),
{
    let t = s.update(i, (k, v));
    assert(forall|j: int| 0 <= j < s.len() ==> (#[trigger] t[j]).0 == s[j].0);
    assert(distinct_keys(t));
    lemma_key_index_unique(t, k, i);
    assert forall|k2: Seq<u8>| k2 != k implies #[trigger] lookup(t, k2) == lookup(s, k2) by {
        if has_key(s, k2) {
            let j = key_index(s, k2);
            assert(0 <= j < s.len() && s[j].0 == k2);
            assert(j != i);
            assert(t[j] == s[j]);
            lemma_key_index_unique(t, k2, j);
        } else {
            if has_key(t, k2) {
                let j = key_index(t, k2);
                assert(0 <= j < t.len() && t[j].0 == k2);
                assert(j != i);
                assert(s[j].0 == k2);
            }
        }
    }
}

/// Appending an entry with a fresh name adds exactly that name.
proof fn lemma_push_lookup(s: Seq<(Seq<u8>, Seq<u8>)>, k: Seq<u8>, v: Seq<u8>)
    requires
        distinct_keys(s),
        !has_key(s, k),
    ensures
        distinct_keys(s.push((k, v))),
        lookup(s.push((k, v)), k) == Some(v),
        forall|k2: Seq<u8>|
            k2 != k ==> #[trigger] lookup(s.push((k, v)), k2) == lookup(s, k2),
{
    let t = s.push((k, v));
    assert forall|i: int, j: int| 0 <= i < j < t.len() implies t[i].0 != t[j].0 by {
        if j < s.len() {
            assert(s[i].0 != s[j].0);
        } else {
            assert(t[j].0 == k);
            assert(t[i] == s[i]);
        }
    }
    lemma_key_index_unique(t, k, s.len() as int);
    assert forall|k2: Seq<u8>| k2 != k implies #[trigger] lookup(t, k2) == lookup(s, k2) by {
        if has_key(s, k2) {
            let j = key_index(s, k2);
            assert(0 <= j < s.len() && s[j].0 == k2);
            assert(t[j] == s[j]);
            lemma_key_index_unique(t, k2, j);
        } else {
            if has_key(t, k2) {
                let j = key_index(t, k2);
                assert(0 <= j < t.len() && t[j].0 == k2);
                assert(j != s.len());
                assert(s[j].0 == k2);
            }
        }
    }
}

/// Removing the entry at `i` removes exactly its name.
proof fn lemma_remove_lookup(s: Seq<(Seq<u8>, Seq<u8>)>, i: int)
    requires
        distinct_keys(s),
        0 <= i < s.len(),
    ensures
        distinct_keys(s.remove(i)),
        !has_key(s.remove(i), s[i].0),
        forall|k2: Seq<u8>|
            k2 != s[i].0 ==> #[trigger] lookup(s.remove(i), k2) == lookup(s, k2),
{
    let t = s.remove(i);
    s.remove_ensures(i);
    assert forall|a: int, b: int| 0 <= a < b < t.len() implies t[a].0 != t[b].0 by {
        let a0 = if a < i { a } else { a + 1 };
        let b0 = if b < i { b } else { b + 1 };
        assert(t[a] == s[a0]);
        assert(t[b] == s[b0]);
        assert(s[a0].0 != s[b0].0);
    }
    assert forall|j: int| 0 <= j < t.len() implies (#[trigger] t[j]).0 != s[i].0 by {
        let j0 = if j < i { j } else { j + 1 };
        assert(t[j] == s[j0]);
        if j0 < i {
            assert(s[j0].0 != s[i].0);
        } else {
            assert(s[i].0 != s[j0].0);
        }
    }
    assert forall|k2: Seq<u8>| k2 != s[i].0 implies #[trigger] lookup(t, k2) == lookup(s, k2) by {
        if has_key(s, k2) {
            let j = key_index(s, k2);
            assert(0 <= j < s.len() && s[j].0 == k2);
            assert(j != i);
            let jt = if j < i { j } else { j - 1 };
            assert(t[jt] == s[j]);
            assert(has_key(t, k2));
            lemma_key_index_unique(t, k2, jt);
        } else {
            if has_key(t, k2) {
                let j = key_index(t, k2);
                assert(0 <= j < t.len() && t[j].0 == k2);
                let j0 = if j < i { j } else { j + 1 };
                assert(t[j] == s[j0]);
                assert(s[j0].0 == k2);
            }
        }
    }
}

} // verus!
