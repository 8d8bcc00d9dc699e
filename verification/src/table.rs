//! A key-value table with unique integer keys.
//!
//! Backing storage is a vector that keeps insertion order, so the table can
//! both answer point lookups and hand its entries out in a stable order. It
//! stands behind every keyed collection of the node: chunk stores, mailboxes,
//! account ledgers and pending-transfer sets.

use vstd::prelude::*;

verus! {

use vstd::pervasive::VecAdditionalExecFns;

/// There is an entry with key `k`.
pub open spec fn tbl_has<V>(s: Seq<(u64, V)>, k: u64) -> bool {
    exists|i: int| 0 <= i < s.len() && s[i].0 == k
}

/// The position of the entry with key `k` (meaningful only when `tbl_has`).
pub open spec fn tbl_index<V>(s: Seq<(u64, V)>, k: u64) -> int {
    choose|i: int| 0 <= i < s.len() && s[i].0 == k
}

/// The value stored under `k`, if any.
pub open spec fn tbl_get<V>(s: Seq<(u64, V)>, k: u64) -> Option<V> {
    if tbl_has(s, k) {
        Some(s[tbl_index(s, k)].1)
    } else {
        None
    }
}

/// The keys, in entry order.
pub open spec fn tbl_keys<V>(s: Seq<(u64, V)>) -> Seq<u64> {
    s.map_values(|p: (u64, V)| p.0)
}

/// No two entries share a key.
pub open spec fn tbl_unique<V>(s: Seq<(u64, V)>) -> bool {
    forall|i: int, j: int| 0 <= i < j < s.len() ==> s[i].0 != s[j].0
}

/// With unique keys, an entry's position determines the lookup result.
pub proof fn lemma_get_at<V>(s: Seq<(u64, V)>, j: int)
    requires
        tbl_unique(s),
        0 <= j < s.len(),
    ensures
        tbl_has(s, s[j].0),
        tbl_index(s, s[j].0) == j,
        tbl_get(s, s[j].0) == Some(s[j].1),
{
    let k = s[j].0;
    assert(tbl_has(s, k));
    let i = tbl_index(s, k);
    if i < j {
        assert(s[i].0 != s[j].0);
    } else if j < i {
        assert(s[j].0 != s[i].0);
    }
}

proof fn lemma_push<V>(s: Seq<(u64, V)>, k: u64, v: V)
    requires
        tbl_unique(s),
        !tbl_has(s, k),
    ensures
        tbl_unique(s.push((k, v))),
        tbl_get(s.push((k, v)), k) == Some(v),
        forall|k2: u64| k2 != k ==> tbl_get(s.push((k, v)), k2) == tbl_get(s, k2),
{
    let s2 = s.push((k, v));
    assert forall|i: int, j: int| 0 <= i < j < s2.len() implies s2[i].0 != s2[j].0 by {
        if j < s.len() {
            assert(s[i].0 != s[j].0);
        } else {
            assert(s2[j].0 == k);
            assert(tbl_has(s, s[i].0));
        }
    }
    lemma_get_at(s2, s.len() as int);
    assert forall|k2: u64| k2 != k implies tbl_get(s2, k2) == tbl_get(s, k2) by {
        if tbl_has(s, k2) {
            let i = tbl_index(s, k2);
            lemma_get_at(s, i);
            lemma_get_at(s2, i);
        } else {
            if tbl_has(s2, k2) {
                let i = tbl_index(s2, k2);
                assert(0 <= i < s2.len() && s2[i].0 == k2);
                assert(i < s.len());
            }
        }
    }
}

proof fn lemma_update<V>(s: Seq<(u64, V)>, i: int, v: V)
    requires
        tbl_unique(s),
        0 <= i < s.len(),
    ensures
        tbl_unique(s.update(i, (s[i].0, v))),
        tbl_get(s.update(i, (s[i].0, v)), s[i].0) == Some(v),
        forall|k2: u64|
            k2 != s[i].0 ==> tbl_get(s.update(i, (s[i].0, v)), k2) == tbl_get(s, k2),
{
    let k = s[i].0;
    let s2 = s.update(i, (k, v));
    assert(forall|j: int| 0 <= j < s.len() ==> s2[j].0 == s[j].0);
    lemma_get_at(s2, i);
    assert forall|k2: u64| k2 != k implies tbl_get(s2, k2) == tbl_get(s, k2) by {
        if tbl_has(s, k2) {
            let j = tbl_index(s, k2);
            lemma_get_at(s, j);
            assert(j != i);
            lemma_get_at(s2, j);
        } else {
            if tbl_has(s2, k2) {
                let j = tbl_index(s2, k2);
                assert(s[j].0 == k2);
            }
        }
    }
}

proof fn lemma_remove<V>(s: Seq<(u64, V)>, i: int)
    requires
        tbl_unique(s),
        0 <= i < s.len(),
    ensures
        tbl_unique(s.remove(i)),
        !tbl_has(s.remove(i), s[i].0),
        forall|k2: u64| k2 != s[i].0 ==> tbl_get(s.remove(i), k2) == tbl_get(s, k2),
{
    let k = s[i].0;
    let s2 = s.remove(i);
    assert(forall|j: int| 0 <= j < i ==> s2[j] == s[j]);
    assert(forall|j: int| i <= j < s2.len() ==> s2[j] == s[j + 1]);
    assert forall|a: int, b: int| 0 <= a < b < s2.len() implies s2[a].0 != s2[b].0 by {
        let a0 = if a < i { a } else { a + 1 };
        let b0 = if b < i { b } else { b + 1 };
        assert(s[a0].0 != s[b0].0);
    }
    assert forall|j: int| 0 <= j < s2.len() implies s2[j].0 != k by {
        let j0 = if j < i { j } else { j + 1 };
        assert(s2[j].0 == s[j0].0);
        if j0 < i {
            assert(s[j0].0 != s[i].0);
        } else {
            assert(s[i].0 != s[j0].0);
        }
    }
    assert forall|k2: u64| k2 != k implies tbl_get(s2, k2) == tbl_get(s, k2) by {
        if tbl_has(s, k2) {
            let j = tbl_index(s, k2);
            lemma_get_at(s, j);
            assert(j != i);
            let j2 = if j < i { j } else { j - 1 };
            assert(s2[j2].0 == k2 && s2[j2].1 == s[j].1);
            lemma_get_at(s2, j2);
        } else {
            if tbl_has(s2, k2) {
                let j = tbl_index(s2, k2);
                let j0 = if j < i { j } else { j + 1 };
                assert(s[j0].0 == k2);
            }
        }
    }
}

/// The table itself. Its view is the entry sequence.
#[derive(PartialEq, Eq, Debug)]
pub struct Table<V> {
    entries: Vec<(u64, V)>,
}

impl<V> View for Table<V> {
    type V = Seq<(u64, V)>;

    closed spec fn view(&self) -> Seq<(u64, V)> {
        self.entries@
    }
}

impl<V> Table<V> {
    /// Well-formed: keys are unique.
    pub open spec fn wf(self) -> bool {
        tbl_unique(self@)
    }

    pub fn new() -> (r: Table<V>)
        ensures
            r@ =~= Seq::<(u64, V)>::empty(),
            r.wf(),
    {
        Table { entries: Vec::new() }
    }

    pub fn len(&self) -> (r: usize)
        ensures
            r == self@.len(),
    {
        self.entries.len()
    }

    /// The position of the entry with key `k`, if any.
    fn find(&self, k: u64) -> (r: Option<usize>)
        ensures
            r matches Some(i) ==> i < self@.len() && self@[i as int].0 == k,
            r is None ==> !tbl_has(self@, k),
    {
        let n = self.entries.len();
        let mut i: usize = 0;
        while i < n
            invariant
                n == self.entries.len(),
                i <= n,
                forall|j: int| 0 <= j < i ==> (#[trigger] self.entries@[j].0) != k,
            decreases n - i,
        {
            if self.entries[i].0 == k {
                return Some(i);
            }
            i += 1;
        }
        None
    }

    pub fn contains(&self, k: u64) -> (r: bool)
        requires
            self.wf(),
        ensures
            r == tbl_has(self@, k),
    {
        match self.find(k) {
            Some(i) => {
                proof {
                    lemma_get_at(self@, i as int);
                }
                true
            },
            None => false,
        }
    }

    pub fn get(&self, k: u64) -> (r: Option<&V>)
        requires
            self.wf(),
        ensures
            (r is Some) == tbl_has(self@, k),
            r matches Some(v) ==> tbl_get(self@, k) == Some(*v),
    {
        match self.find(k) {
            Some(i) => {
                proof {
                    lemma_get_at(self@, i as int);
                }
                Some(&self.entries[i].1)
            },
            None => None,
        }
    }

    /// Insert `v` under `k`, replacing any previous value in place; a fresh
    /// key is appended at the end.
    pub fn set(&mut self, k: u64, v: V)
        requires
            old(self).wf(),
        ensures
            final(self).wf(),
            tbl_get(final(self)@, k) == Some(v),
            forall|k2: u64| k2 != k ==> tbl_get(final(self)@, k2) == tbl_get(old(self)@, k2),
            tbl_has(old(self)@, k) ==> final(self)@ == old(self)@.update(
                tbl_index(old(self)@, k),
                (k, v),
            ),
            !tbl_has(old(self)@, k) ==> final(self)@ == old(self)@.push((k, v)),
    {
        match self.find(k) {
            Some(i) => {
                proof {
                    lemma_get_at(self@, i as int);
                    lemma_update(self@, i as int, v);
                }
                self.entries.set(i, (k, v));
            },
            None => {
                proof {
                    lemma_push(self@, k, v);
                }
                self.entries.push((k, v));
            },
        }
    }

    /// Remove the entry under `k` and hand its value back.
    pub fn remove(&mut self, k: u64) -> (r: Option<V>)
        requires
            old(self).wf(),
        ensures
            final(self).wf(),
            r == tbl_get(old(self)@, k),
            !tbl_has(final(self)@, k),
            forall|k2: u64| k2 != k ==> tbl_get(final(self)@, k2) == tbl_get(old(self)@, k2),
            tbl_has(old(self)@, k) ==> final(self)@ == old(self)@.remove(
                tbl_index(old(self)@, k),
            ),
            !tbl_has(old(self)@, k) ==> final(self)@ == old(self)@,
    {
        match self.find(k) {
            Some(i) => {
                proof {
                    lemma_get_at(self@, i as int);
                    lemma_remove(self@, i as int);
                }
                Some(self.entries.remove(i).1)
            },
            None => None,
        }
    }

    /// All keys, in entry order.
    pub fn keys(&self) -> (r: Vec<u64>)
        ensures
            r@ == tbl_keys(self@),
    {
        let n = self.entries.len();
        let mut r: Vec<u64> = Vec::new();
        let mut i: usize = 0;
        while i < n
            invariant
                n == self.entries.len(),
                i <= n,
                r@.len() == i,
                forall|j: int| 0 <= j < i ==> r@[j] == (#[trigger] self.entries@[j]).0,
            decreases n - i,
        {
            r.push(self.entries[i].0);
            i += 1;
        }
        proof {
            assert(r@ =~= tbl_keys(self@));
        }
        r
    }

    /// Whether the keys are unique (well-formedness, decided at run time).
    pub fn check_unique(&self) -> (r: bool)
        ensures
            r == self.wf(),
    {
        let n = self.entries.len();
        let mut i: usize = 0;
        while i < n
            invariant
                n == self.entries@.len(),
                i <= n,
                forall|x: int, y: int|
                    0 <= x < y < i ==> (#[trigger] self.entries@[x]).0 != (
                    #[trigger] self.entries@[y]).0,
            decreases n - i,
        {
            let mut j: usize = 0;
            while j < i
                invariant
                    n == self.entries@.len(),
                    j <= i <= n,
                    i < n,
                    forall|x: int| 0 <= x < j ==> (#[trigger] self.entries@[x]).0 != self.entries@[i as int].0,
                decreases i - j,
            {
                if self.entries[j].0 == self.entries[i].0 {
                    return false;
                }
                j += 1;
            }
            i += 1;
        }
        true
    }

    /// The entry at a position.
    pub fn entry_at(&self, i: usize) -> (r: &(u64, V))
        requires
            i < self@.len(),
        ensures
            *r == self@[i as int],
    {
        &self.entries[i]
    }

    /// Remove and return the most recently appended entry.
    pub fn pop(&mut self) -> (r: Option<(u64, V)>)
        requires
            old(self).wf(),
        ensures
            final(self).wf(),
            old(self)@.len() == 0 ==> r is None && final(self)@ == old(self)@,
            old(self)@.len() > 0 ==> r == Some(old(self)@.last()) && final(self)@ == old(
                self,
            )@.drop_last(),
    {
        let r = self.entries.pop();
        proof {
            if old(self)@.len() > 0 {
                assert(self@ =~= old(self)@.drop_last());
                assert forall|i: int, j: int| 0 <= i < j < self@.len() implies self@[i].0
                    != self@[j].0 by {
                    assert(old(self)@[i].0 != old(self)@[j].0);
                }
            }
        }
        r
    }
}

impl<V: Copy> Table<V> {
    /// An owned copy of a table of copyable values.
    pub fn duplicate(&self) -> (r: Table<V>)
        ensures
            r@ == self@,
    {
        let n = self.entries.len();
        let mut entries: Vec<(u64, V)> = Vec::new();
        let mut i: usize = 0;
        while i < n
            invariant
                n == self.entries@.len(),
                i <= n,
                entries@ =~= self.entries@.take(i as int),
            decreases n - i,
        {
            entries.push(self.entries[i]);
            proof {
                assert(entries@ =~= self.entries@.take(i as int + 1));
            }
            i += 1;
        }
        proof {
            assert(self.entries@.take(n as int) =~= self.entries@);
        }
        Table { entries }
    }
}

} // verus!
