//! Small string-keyed and integer-keyed association maps.
//!
//! The process-wide caches of this library (object stores by URL, execution
//! contexts by database identity, schema providers by name, table providers by
//! relation identifier, option sets by key) are all maps whose entries, once
//! inserted, are never mutated in place.  They are kept as vectors of pairs
//! with distinct keys, which gives the contracts a direct mathematical view.

use vstd::prelude::*;

verus! {

/// First-match lookup in a sequence of (key, value) pairs, searching from the
/// most recently inserted entry backwards.
pub open spec fn find_str<V>(s: Seq<(String, V)>, k: Seq<char>) -> Option<V>
    decreases s.len(),
{
    if s.len() == 0 {
        None
    } else if s.last().0@ == k {
        Some(s.last().1)
    } else {
        find_str(s.drop_last(), k)
    }
}

/// A dictionary keyed by strings, with distinct keys.
pub struct StrDict<V> {
    pub entries: Vec<(String, V)>,
}

impl<V> StrDict<V> {
    /// Distinct keys: no two entries share a key.
    pub open spec fn wf(self) -> bool {
        forall|i: int, j: int|
            0 <= i < j < self.entries@.len() ==> self.entries@[i].0@ != self.entries@[j].0@
    }

    pub open spec fn spec_contains(self, k: Seq<char>) -> bool {
        exists|i: int| 0 <= i < self.entries@.len() && self.entries@[i].0@ == k
    }

    pub open spec fn spec_get(self, k: Seq<char>) -> Option<V> {
        find_str(self.entries@, k)
    }

    pub open spec fn spec_len(self) -> nat {
        self.entries@.len()
    }

    proof fn lemma_find_present(s: Seq<(String, V)>, k: Seq<char>, i: int)
        requires
            0 <= i < s.len(),
            s[i].0@ == k,
            forall|p: int, q: int| 0 <= p < q < s.len() ==> s[p].0@ != s[q].0@,
        ensures
            find_str(s, k) == Some(s[i].1),
        decreases s.len(),
    {
        if i == s.len() - 1 {
        } else {
            assert(s.last().0@ != k);
            assert(s.drop_last()[i] == s[i]);
            Self::lemma_find_present(s.drop_last(), k, i);
        }
    }

    proof fn lemma_find_absent(s: Seq<(String, V)>, k: Seq<char>)
        requires
            forall|i: int| 0 <= i < s.len() ==> s[i].0@ != k,
        ensures
            find_str(s, k) is None,
        decreases s.len(),
    {
        if s.len() > 0 {
            Self::lemma_find_absent(s.drop_last(), k);
        }
    }

    /// The key is present exactly when lookup yields a value.
    pub proof fn lemma_contains_get(self, k: Seq<char>)
        requires
            self.wf(),
        ensures
            self.spec_contains(k) <==> self.spec_get(k) is Some,
    {
        if self.spec_contains(k) {
            let i = choose|i: int|
                0 <= i < self.entries@.len() && self.entries@[i].0@ == k;
            Self::lemma_find_present(self.entries@, k, i);
        } else {
            Self::lemma_find_absent(self.entries@, k);
        }
    }

    pub fn new() -> (r: Self)
        ensures
            r.wf(),
            r.spec_len() == 0,
            forall|k: Seq<char>| !r.spec_contains(k),
    {
        StrDict { entries: Vec::new() }
    }

    pub fn len(&self) -> (r: usize)
        ensures
            r == self.spec_len(),
    {
        self.entries.len()
    }

    pub fn contains(&self, k: &String) -> (r: bool)
        requires
            self.wf(),
        ensures
            r == self.spec_contains(k@),
            r == (self.spec_get(k@) is Some),
    {
        let n = self.entries.len();
        let mut i: usize = 0;
        while i < n
            invariant
                n == self.entries@.len(),
                0 <= i <= n,
                self.wf(),
                forall|p: int| 0 <= p < i ==> self.entries@[p].0@ != k@,
            decreases n - i,
        {
            if self.entries[i].0 == *k {
                proof {
                    assert(self.entries@[i as int].0@ == k@);
                    self.lemma_contains_get(k@);
                }
                return true;
            }
            i = i + 1;
        }
        proof {
            Self::lemma_find_absent(self.entries@, k@);
        }
        false
    }

    pub fn get(&self, k: &String) -> (r: Option<&V>)
        requires
            self.wf(),
        ensures
            match r {
                Some(v) => self.spec_get(k@) == Some(*v),
                None => self.spec_get(k@) is None,
            },
    {
        let n = self.entries.len();
        let mut i: usize = 0;
        while i < n
            invariant
                n == self.entries@.len(),
                0 <= i <= n,
                self.wf(),
                forall|p: int| 0 <= p < i ==> self.entries@[p].0@ != k@,
            decreases n - i,
        {
            if self.entries[i].0 == *k {
                proof {
                    Self::lemma_find_present(self.entries@, k@, i as int);
                }
                return Some(&self.entries[i].1);
            }
            i = i + 1;
        }
        proof {
            Self::lemma_find_absent(self.entries@, k@);
        }
        None
    }

    /// Insert a fresh key.  Registration caches of this library only ever add
    /// entries for keys that are absent.
    pub fn insert(&mut self, k: String, v: V)
        requires
            old(self).wf(),
            !old(self).spec_contains(k@),
        ensures
            final(self).wf(),
            final(self).entries@ == old(self).entries@.push((k, v)),
            final(self).spec_get(k@) == Some(v),
            final(self).spec_len() == old(self).spec_len() + 1,
            forall|k2: Seq<char>|
                k2 != k@ ==> final(self).spec_get(k2) == old(self).spec_get(k2),
            forall|k2: Seq<char>|
                final(self).spec_contains(k2) <==> (old(self).spec_contains(k2) || k2 == k@),
    {
        self.entries.push((k, v));
        proof {
            let s = self.entries@;
            assert forall|k2: Seq<char>| k2 != s.last().0@ implies find_str(s, k2) == find_str(
                s.drop_last(),
                k2,
            ) by {
                assert(s.drop_last() =~= old(self).entries@);
            }
            assert(s.drop_last() =~= old(self).entries@);
        }
    }

    proof fn lemma_find_remove(s: Seq<(String, V)>, k: Seq<char>, i: int)
        requires
            0 <= i < s.len(),
            s[i].0@ == k,
            forall|p: int, q: int| 0 <= p < q < s.len() ==> s[p].0@ != s[q].0@,
        ensures
            find_str(s.remove(i), k) is None,
            forall|k2: Seq<char>| k2 != k ==> find_str(s.remove(i), k2) == find_str(s, k2),
        decreases s.len(),
    {
        let s2 = s.remove(i);
        if i == s.len() - 1 {
            assert(s2 =~= s.drop_last());
            assert forall|p: int| 0 <= p < s2.len() implies s2[p].0@ != k by {
                assert(s2[p] == s[p]);
            }
            Self::lemma_find_absent(s2, k);
            assert forall|k2: Seq<char>| k2 != k implies find_str(s2, k2) == find_str(s, k2) by {
                assert(s.last().0@ != k2);
                assert(find_str(s, k2) == find_str(s.drop_last(), k2));
                assert(s2 == s.drop_last());
            }
        } else {
            assert(s2.last() == s.last());
            assert(s2.drop_last() =~= s.drop_last().remove(i));
            assert(s.drop_last()[i] == s[i]);
            Self::lemma_find_remove(s.drop_last(), k, i);
            assert(s.last().0@ != k);
            assert forall|k2: Seq<char>| k2 != k implies find_str(s2, k2) == find_str(s, k2) by {
                if s.last().0@ == k2 {
                    assert(find_str(s2, k2) == Some(s2.last().1));
                    assert(find_str(s, k2) == Some(s.last().1));
                } else {
                    assert(find_str(s, k2) == find_str(s.drop_last(), k2));
                    assert(find_str(s2, k2) == find_str(s2.drop_last(), k2));
                    assert(s2.drop_last() == s.drop_last().remove(i));
                }
            }
        }
    }

    /// Take the value under a key out of the dictionary; entries under other
    /// keys are untouched.  Re-inserting under the same key puts an updated
    /// value back.
    pub fn remove(&mut self, k: &String) -> (r: Option<V>)
        requires
            old(self).wf(),
        ensures
            final(self).wf(),
            match r {
                None => final(self).entries@ == old(self).entries@ && old(self).spec_get(k@)
                    is None,
                Some(v) => old(self).spec_get(k@) == Some(v) && !final(self).spec_contains(k@)
                    && final(self).spec_len() + 1 == old(self).spec_len() && forall|
                    k2: Seq<char>,
                |
                    k2 != k@ ==> final(self).spec_get(k2) == old(self).spec_get(k2),
            },
    {
        let n = self.entries.len();
        let mut i: usize = 0;
        while i < n
            invariant
                n == self.entries@.len(),
                0 <= i <= n,
                self.wf(),
                self.entries@ == old(self).entries@,
                forall|p: int| 0 <= p < i ==> self.entries@[p].0@ != k@,
            decreases n - i,
        {
            if self.entries[i].0 == *k {
                proof {
                    Self::lemma_find_present(self.entries@, k@, i as int);
                    Self::lemma_find_remove(self.entries@, k@, i as int);
                }
                let ghost s = self.entries@;
                let entry = self.entries.remove(i);
                proof {
                    assert(self.entries@ =~= s.remove(i as int));
                    assert forall|p: int, q: int|
                        0 <= p < q < self.entries@.len() implies self.entries@[p].0@
                        != self.entries@[q].0@ by {
                        if q < i as int {
                            assert(self.entries@[p] == s[p]);
                            assert(self.entries@[q] == s[q]);
                        } else if p < i as int {
                            assert(self.entries@[p] == s[p]);
                            assert(self.entries@[q] == s[q + 1]);
                        } else {
                            assert(self.entries@[p] == s[p + 1]);
                            assert(self.entries@[q] == s[q + 1]);
                        }
                    }
                    self.lemma_contains_get(k@);
                }
                return Some(entry.1);
            }
            i = i + 1;
        }
        proof {
            Self::lemma_find_absent(self.entries@, k@);
        }
        None
    }
}

/// First-match lookup in a sequence keyed by unsigned integers.
pub open spec fn find_oid<V>(s: Seq<(u32, V)>, k: u32) -> Option<V>
    decreases s.len(),
{
    if s.len() == 0 {
        None
    } else if s.last().0 == k {
        Some(s.last().1)
    } else {
        find_oid(s.drop_last(), k)
    }
}

/// A dictionary keyed by a stable numeric relation identifier.
pub struct OidDict<V> {
    pub entries: Vec<(u32, V)>,
}

impl<V> OidDict<V> {
    pub open spec fn wf(self) -> bool {
        forall|i: int, j: int|
            0 <= i < j < self.entries@.len() ==> self.entries@[i].0 != self.entries@[j].0
    }

    pub open spec fn spec_contains(self, k: u32) -> bool {
        exists|i: int| 0 <= i < self.entries@.len() && self.entries@[i].0 == k
    }

    pub open spec fn spec_get(self, k: u32) -> Option<V> {
        find_oid(self.entries@, k)
    }

    pub open spec fn spec_len(self) -> nat {
        self.entries@.len()
    }

    proof fn lemma_find_present(s: Seq<(u32, V)>, k: u32, i: int)
        requires
            0 <= i < s.len(),
            s[i].0 == k,
            forall|p: int, q: int| 0 <= p < q < s.len() ==> s[p].0 != s[q].0,
        ensures
            find_oid(s, k) == Some(s[i].1),
        decreases s.len(),
    {
        if i == s.len() - 1 {
        } else {
            assert(s.drop_last()[i] == s[i]);
            Self::lemma_find_present(s.drop_last(), k, i);
        }
    }

    proof fn lemma_find_absent(s: Seq<(u32, V)>, k: u32)
        requires
            forall|i: int| 0 <= i < s.len() ==> s[i].0 != k,
        ensures
            find_oid(s, k) is None,
        decreases s.len(),
    {
        if s.len() > 0 {
            Self::lemma_find_absent(s.drop_last(), k);
        }
    }

    pub proof fn lemma_contains_get(self, k: u32)
        requires
            self.wf(),
        ensures
            self.spec_contains(k) <==> self.spec_get(k) is Some,
    {
        if self.spec_contains(k) {
            let i = choose|i: int| 0 <= i < self.entries@.len() && self.entries@[i].0 == k;
            Self::lemma_find_present(self.entries@, k, i);
        } else {
            Self::lemma_find_absent(self.entries@, k);
        }
    }

    pub fn new() -> (r: Self)
        ensures
            r.wf(),
            r.spec_len() == 0,
            forall|k: u32| !r.spec_contains(k),
    {
        OidDict { entries: Vec::new() }
    }

    pub fn contains(&self, k: u32) -> (r: bool)
        requires
            self.wf(),
        ensures
            r == self.spec_contains(k),
            r == (self.spec_get(k) is Some),
    {
        let n = self.entries.len();
        let mut i: usize = 0;
        while i < n
            invariant
                n == self.entries@.len(),
                0 <= i <= n,
                self.wf(),
                forall|p: int| 0 <= p < i ==> self.entries@[p].0 != k,
            decreases n - i,
        {
            if self.entries[i].0 == k {
                proof {
                    assert(self.entries@[i as int].0 == k);
                    self.lemma_contains_get(k);
                }
                return true;
            }
            i = i + 1;
        }
        proof {
            Self::lemma_find_absent(self.entries@, k);
        }
        false
    }

    pub fn get(&self, k: u32) -> (r: Option<&V>)
        requires
            self.wf(),
        ensures
            match r {
                Some(v) => self.spec_get(k) == Some(*v),
                None => self.spec_get(k) is None,
            },
    {
        let n = self.entries.len();
        let mut i: usize = 0;
        while i < n
            invariant
                n == self.entries@.len(),
                0 <= i <= n,
                self.wf(),
                forall|p: int| 0 <= p < i ==> self.entries@[p].0 != k,
            decreases n - i,
        {
            if self.entries[i].0 == k {
                proof {
                    Self::lemma_find_present(self.entries@, k, i as int);
                }
                return Some(&self.entries[i].1);
            }
            i = i + 1;
        }
        proof {
            Self::lemma_find_absent(self.entries@, k);
        }
        None
    }

    pub fn insert(&mut self, k: u32, v: V)
        requires
            old(self).wf(),
            !old(self).spec_contains(k),
        ensures
            final(self).wf(),
            final(self).entries@ == old(self).entries@.push((k, v)),
            final(self).spec_get(k) == Some(v),
            final(self).spec_len() == old(self).spec_len() + 1,
            forall|k2: u32| k2 != k ==> final(self).spec_get(k2) == old(self).spec_get(k2),
            forall|k2: u32|
                final(self).spec_contains(k2) <==> (old(self).spec_contains(k2) || k2 == k),
    {
        self.entries.push((k, v));
        proof {
            let s = self.entries@;
            assert forall|k2: u32| k2 != s.last().0 implies find_oid(s, k2) == find_oid(
                s.drop_last(),
                k2,
            ) by {
                assert(s.drop_last() =~= old(self).entries@);
            }
            assert(s.drop_last() =~= old(self).entries@);
        }
    }
}

} // verus!
