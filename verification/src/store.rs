//! Verified keyed storage.
//!
//! The contracts keep their persistent rows in small association tables whose
//! mathematical content is a `Map` (or a `Set` for pure membership records).
//! `Table` is keyed by one identifier, `PairTable` by two, and `TripleSet`
//! records membership of identifier triples. Every operation states its exact
//! effect on the abstract map, so the contract modules never reason about the
//! underlying vectors.

use vstd::prelude::*;

verus! {

/// No two entries of the association list carry the same key.
pub open spec fn distinct_keys<V>(s: Seq<(u64, V)>) -> bool {
    forall|i: int, j: int| 0 <= i < j < s.len() ==> (#[trigger] s[i]).0 != (#[trigger] s[j]).0
}

/// The map an association list denotes: later entries win, though the tables
/// below keep their keys distinct so order never matters.
pub open spec fn assoc_map<V>(s: Seq<(u64, V)>) -> Map<u64, V>
    decreases s.len(),
{
    if s.len() == 0 {
        Map::empty()
    } else {
        assoc_map(s.drop_last()).insert(s.last().0, s.last().1)
    }
}

pub proof fn lemma_assoc_map_dom<V>(s: Seq<(u64, V)>, k: u64)
    ensures
        assoc_map(s).contains_key(k) <==> (exists|i: int| 0 <= i < s.len() && (#[trigger] s[i]).0 == k),
    decreases s.len(),
{
    if s.len() == 0 {
    } else {
        lemma_assoc_map_dom(s.drop_last(), k);
        if s.last().0 == k {
            assert(s[s.len() - 1].0 == k);
        } else {
            if exists|i: int| 0 <= i < s.len() && (#[trigger] s[i]).0 == k {
                let i = choose|i: int| 0 <= i < s.len() && (#[trigger] s[i]).0 == k;
                assert(s.drop_last()[i].0 == k);
            }
        }
    }
}

pub proof fn lemma_assoc_map_at<V>(s: Seq<(u64, V)>, i: int)
    requires
        distinct_keys(s),
        0 <= i < s.len(),
    ensures
        assoc_map(s).contains_key(s[i].0),
        assoc_map(s)[s[i].0] == s[i].1,
    decreases s.len(),
{
    if i == s.len() - 1 {
    } else {
        lemma_assoc_map_at(s.drop_last(), i);
        assert(s.drop_last()[i] == s[i]);
        assert(s[s.len() - 1].0 != s[i].0);
    }
}

pub proof fn lemma_assoc_map_update<V>(s: Seq<(u64, V)>, i: int, v: V)
    requires
        distinct_keys(s),
        0 <= i < s.len(),
    ensures
        assoc_map(s.update(i, (s[i].0, v))) =~= assoc_map(s).insert(s[i].0, v),
        distinct_keys(s.update(i, (s[i].0, v))),
    decreases s.len(),
{
    let k = s[i].0;
    let t = s.update(i, (k, v));
    if i == s.len() - 1 {
        assert(t.drop_last() =~= s.drop_last());
        assert(t.last() == (k, v));
        assert(assoc_map(s.drop_last()).insert(k, s[i].1).insert(k, v)
            =~= assoc_map(s.drop_last()).insert(k, v));
    } else {
        lemma_assoc_map_update(s.drop_last(), i, v);
        assert(t.drop_last() =~= s.drop_last().update(i, (k, v)));
        assert(t.last() == s.last());
        assert(s[s.len() - 1].0 != k);
        assert(assoc_map(s.drop_last()).insert(k, v).insert(s.last().0, s.last().1)
            =~= assoc_map(s.drop_last()).insert(s.last().0, s.last().1).insert(k, v));
    }
}

pub proof fn lemma_assoc_map_remove<V>(s: Seq<(u64, V)>, i: int)
    requires
        distinct_keys(s),
        0 <= i < s.len(),
    ensures
        assoc_map(s.remove(i)) =~= assoc_map(s).remove(s[i].0),
        distinct_keys(s.remove(i)),
    decreases s.len(),
{
    let k = s[i].0;
    if i == s.len() - 1 {
        assert(s.remove(i) =~= s.drop_last());
        lemma_assoc_map_dom(s.drop_last(), k);
        assert(forall|j: int| 0 <= j < s.len() - 1 ==> (#[trigger] s.drop_last()[j]).0 != k);
        assert(!assoc_map(s.drop_last()).contains_key(k));
        assert(assoc_map(s.drop_last()).insert(k, s[i].1).remove(k) =~= assoc_map(s.drop_last()));
    } else {
        lemma_assoc_map_remove(s.drop_last(), i);
        assert(s.remove(i).drop_last() =~= s.drop_last().remove(i));
        assert(s.remove(i).last() == s.last());
        assert(s.last().0 != k);
        assert(assoc_map(s.drop_last()).remove(k).insert(s.last().0, s.last().1)
            =~= assoc_map(s.drop_last()).insert(s.last().0, s.last().1).remove(k));
    }
}

/// A keyed row store: one `u64` key, one value, keys unique.
pub struct Table<V> {
    entries: Vec<(u64, V)>,
}

impl<V> View for Table<V> {
    type V = Map<u64, V>;

    closed spec fn view(&self) -> Map<u64, V> {
        assoc_map(self.entries@)
    }
}

impl<V> Table<V> {
    /// The table's internal shape is sound; every method preserves it.
    pub closed spec fn wf(&self) -> bool {
        distinct_keys(self.entries@)
    }

    pub fn new() -> (t: Self)
        ensures
            t.wf(),
            t@ == Map::<u64, V>::empty(),
    {
        Table { entries: Vec::new() }
    }

    fn find(&self, k: u64) -> (r: Option<usize>)
        ensures
            match r {
                Some(i) => i < self.entries@.len() && self.entries@[i as int].0 == k,
                None => forall|j: int|
                    0 <= j < self.entries@.len() ==> (#[trigger] self.entries@[j]).0 != k,
            },
    {
        let mut i: usize = 0;
        while i < self.entries.len()
            invariant
                i <= self.entries@.len(),
                forall|j: int| 0 <= j < i ==> (#[trigger] self.entries@[j]).0 != k,
            decreases self.entries@.len() - i,
        {
            if self.entries[i].0 == k {
                return Some(i);
            }
            i = i + 1;
        }
        None
    }

    pub fn contains_key(&self, k: u64) -> (r: bool)
        requires
            self.wf(),
        ensures
            r == self@.contains_key(k),
    {
        proof {
            lemma_assoc_map_dom(self.entries@, k);
        }
        self.find(k).is_some()
    }

    pub fn get(&self, k: u64) -> (r: Option<&V>)
        requires
            self.wf(),
        ensures
            match r {
                Some(v) => self@.contains_key(k) && *v == self@[k],
                None => !self@.contains_key(k),
            },
    {
        proof {
            lemma_assoc_map_dom(self.entries@, k);
        }
        match self.find(k) {
            Some(i) => {
                proof {
                    lemma_assoc_map_at(self.entries@, i as int);
                }
                Some(&self.entries[i].1)
            },
            None => None,
        }
    }

    pub fn insert(&mut self, k: u64, v: V)
        requires
            old(self).wf(),
        ensures
            final(self).wf(),
            final(self)@ == old(self)@.insert(k, v),
    {
        proof {
            lemma_assoc_map_dom(self.entries@, k);
        }
        match self.find(k) {
            Some(i) => {
                proof {
                    lemma_assoc_map_update(self.entries@, i as int, v);
                }
                self.entries.set(i, (k, v));
            },
            None => {
                let ghost s = self.entries@;
                self.entries.push((k, v));
                proof {
                    assert(self.entries@.drop_last() =~= s);
                }
            },
        }
    }

    /// Remove the row under `k` and hand its value back.
    pub fn take(&mut self, k: u64) -> (r: Option<V>)
        requires
            old(self).wf(),
        ensures
            final(self).wf(),
            match r {
                Some(v) => old(self)@.contains_key(k) && v == old(self)@[k]
                    && final(self)@ == old(self)@.remove(k),
                None => !old(self)@.contains_key(k) && final(self)@ == old(self)@,
            },
    {
        proof {
            lemma_assoc_map_dom(self.entries@, k);
        }
        match self.find(k) {
            Some(i) => {
                proof {
                    lemma_assoc_map_at(self.entries@, i as int);
                    lemma_assoc_map_remove(self.entries@, i as int);
                }
                let (_, v) = self.entries.remove(i);
                Some(v)
            },
            None => None,
        }
    }

    /// Remove the row under `k` if it exists.
    pub fn remove(&mut self, k: u64)
        requires
            old(self).wf(),
        ensures
            final(self).wf(),
            final(self)@ == old(self)@.remove(k),
    {
        let r = self.take(k);
        proof {
            if r is None {
                assert(self@ =~= old(self)@.remove(k));
            }
        }
    }
}


/// No two entries carry the same key pair.
pub open spec fn distinct_pair_keys<V>(s: Seq<(u64, u64, V)>) -> bool {
    forall|i: int, j: int| 0 <= i < j < s.len()
        ==> ((#[trigger] s[i]).0, s[i].1) != ((#[trigger] s[j]).0, s[j].1)
}

/// The map a pair-keyed association list denotes.
pub open spec fn pair_assoc_map<V>(s: Seq<(u64, u64, V)>) -> Map<(u64, u64), V>
    decreases s.len(),
{
    if s.len() == 0 {
        Map::empty()
    } else {
        pair_assoc_map(s.drop_last()).insert((s.last().0, s.last().1), s.last().2)
    }
}

pub proof fn lemma_pair_assoc_map_dom<V>(s: Seq<(u64, u64, V)>, k: (u64, u64))
    ensures
        pair_assoc_map(s).contains_key(k)
            <==> (exists|i: int| 0 <= i < s.len() && ((#[trigger] s[i]).0, s[i].1) == k),
    decreases s.len(),
{
    if s.len() == 0 {
    } else {
        lemma_pair_assoc_map_dom(s.drop_last(), k);
        if (s.last().0, s.last().1) == k {
            assert((s[s.len() - 1].0, s[s.len() - 1].1) == k);
        } else {
            if exists|i: int| 0 <= i < s.len() && ((#[trigger] s[i]).0, s[i].1) == k {
                let i = choose|i: int| 0 <= i < s.len() && ((#[trigger] s[i]).0, s[i].1) == k;
                assert((s.drop_last()[i].0, s.drop_last()[i].1) == k);
            }
        }
    }
}

pub proof fn lemma_pair_assoc_map_at<V>(s: Seq<(u64, u64, V)>, i: int)
    requires
        distinct_pair_keys(s),
        0 <= i < s.len(),
    ensures
        pair_assoc_map(s).contains_key((s[i].0, s[i].1)),
        pair_assoc_map(s)[(s[i].0, s[i].1)] == s[i].2,
    decreases s.len(),
{
    if i == s.len() - 1 {
    } else {
        lemma_pair_assoc_map_at(s.drop_last(), i);
        assert(s.drop_last()[i] == s[i]);
        assert((s[s.len() - 1].0, s[s.len() - 1].1) != (s[i].0, s[i].1));
    }
}

pub proof fn lemma_pair_assoc_map_update<V>(s: Seq<(u64, u64, V)>, i: int, v: V)
    requires
        distinct_pair_keys(s),
        0 <= i < s.len(),
    ensures
        pair_assoc_map(s.update(i, (s[i].0, s[i].1, v)))
            =~= pair_assoc_map(s).insert((s[i].0, s[i].1), v),
        distinct_pair_keys(s.update(i, (s[i].0, s[i].1, v))),
    decreases s.len(),
{
    let k = (s[i].0, s[i].1);
    let t = s.update(i, (s[i].0, s[i].1, v));
    if i == s.len() - 1 {
        assert(t.drop_last() =~= s.drop_last());
        assert(t.last() == (s[i].0, s[i].1, v));
        assert(pair_assoc_map(s.drop_last()).insert(k, s[i].2).insert(k, v)
            =~= pair_assoc_map(s.drop_last()).insert(k, v));
    } else {
        lemma_pair_assoc_map_update(s.drop_last(), i, v);
        assert(t.drop_last() =~= s.drop_last().update(i, (s[i].0, s[i].1, v)));
        assert(t.last() == s.last());
        assert((s[s.len() - 1].0, s[s.len() - 1].1) != k);
        assert(pair_assoc_map(s.drop_last()).insert(k, v).insert((s.last().0, s.last().1), s.last().2)
            =~= pair_assoc_map(s.drop_last()).insert((s.last().0, s.last().1), s.last().2).insert(k, v));
    }
}

pub proof fn lemma_pair_assoc_map_remove<V>(s: Seq<(u64, u64, V)>, i: int)
    requires
        distinct_pair_keys(s),
        0 <= i < s.len(),
    ensures
        pair_assoc_map(s.remove(i)) =~= pair_assoc_map(s).remove((s[i].0, s[i].1)),
        distinct_pair_keys(s.remove(i)),
    decreases s.len(),
{
    let k = (s[i].0, s[i].1);
    if i == s.len() - 1 {
        assert(s.remove(i) =~= s.drop_last());
        lemma_pair_assoc_map_dom(s.drop_last(), k);
        assert(forall|j: int|
            0 <= j < s.len() - 1 ==> ((#[trigger] s.drop_last()[j]).0, s.drop_last()[j].1) != k);
        assert(!pair_assoc_map(s.drop_last()).contains_key(k));
        assert(pair_assoc_map(s.drop_last()).insert(k, s[i].2).remove(k)
            =~= pair_assoc_map(s.drop_last()));
    } else {
        lemma_pair_assoc_map_remove(s.drop_last(), i);
        assert(s.remove(i).drop_last() =~= s.drop_last().remove(i));
        assert(s.remove(i).last() == s.last());
        assert((s.last().0, s.last().1) != k);
        assert(pair_assoc_map(s.drop_last()).remove(k).insert((s.last().0, s.last().1), s.last().2)
            =~= pair_assoc_map(s.drop_last()).insert((s.last().0, s.last().1), s.last().2).remove(k));
    }
}

/// A row store keyed by a pair of identifiers.
pub struct PairTable<V> {
    entries: Vec<(u64, u64, V)>,
}

impl<V> View for PairTable<V> {
    type V = Map<(u64, u64), V>;

    closed spec fn view(&self) -> Map<(u64, u64), V> {
        pair_assoc_map(self.entries@)
    }
}

impl<V> PairTable<V> {
    /// The table's internal shape is sound; every method preserves it.
    pub closed spec fn wf(&self) -> bool {
        distinct_pair_keys(self.entries@)
    }

    pub fn new() -> (t: Self)
        ensures
            t.wf(),
            t@ == Map::<(u64, u64), V>::empty(),
    {
        PairTable { entries: Vec::new() }
    }

    fn find(&self, a: u64, b: u64) -> (r: Option<usize>)
        ensures
            match r {
                Some(i) => i < self.entries@.len()
                    && (self.entries@[i as int].0, self.entries@[i as int].1) == (a, b),
                None => forall|j: int| 0 <= j < self.entries@.len()
                    ==> ((#[trigger] self.entries@[j]).0, self.entries@[j].1) != (a, b),
            },
    {
        let mut i: usize = 0;
        while i < self.entries.len()
            invariant
                i <= self.entries@.len(),
                forall|j: int| 0 <= j < i
                    ==> ((#[trigger] self.entries@[j]).0, self.entries@[j].1) != (a, b),
            decreases self.entries@.len() - i,
        {
            if self.entries[i].0 == a && self.entries[i].1 == b {
                return Some(i);
            }
            i = i + 1;
        }
        None
    }

    pub fn contains_key(&self, a: u64, b: u64) -> (r: bool)
        requires
            self.wf(),
        ensures
            r == self@.contains_key((a, b)),
    {
        proof {
            lemma_pair_assoc_map_dom(self.entries@, (a, b));
        }
        self.find(a, b).is_some()
    }

    pub fn get(&self, a: u64, b: u64) -> (r: Option<&V>)
        requires
            self.wf(),
        ensures
            match r {
                Some(v) => self@.contains_key((a, b)) && *v == self@[(a, b)],
                None => !self@.contains_key((a, b)),
            },
    {
        proof {
            lemma_pair_assoc_map_dom(self.entries@, (a, b));
        }
        match self.find(a, b) {
            Some(i) => {
                proof {
                    lemma_pair_assoc_map_at(self.entries@, i as int);
                }
                Some(&self.entries[i].2)
            },
            None => None,
        }
    }

    pub fn insert(&mut self, a: u64, b: u64, v: V)
        requires
            old(self).wf(),
        ensures
            final(self).wf(),
            final(self)@ == old(self)@.insert((a, b), v),
    {
        proof {
            lemma_pair_assoc_map_dom(self.entries@, (a, b));
        }
        match self.find(a, b) {
            Some(i) => {
                proof {
                    lemma_pair_assoc_map_update(self.entries@, i as int, v);
                }
                self.entries.set(i, (a, b, v));
            },
            None => {
                let ghost s = self.entries@;
                self.entries.push((a, b, v));
                proof {
                    assert(self.entries@.drop_last() =~= s);
                }
            },
        }
    }

    /// Remove the row under `(a, b)` if it exists.
    pub fn remove(&mut self, a: u64, b: u64)
        requires
            old(self).wf(),
        ensures
            final(self).wf(),
            final(self)@ == old(self)@.remove((a, b)),
    {
        proof {
            lemma_pair_assoc_map_dom(self.entries@, (a, b));
        }
        match self.find(a, b) {
            Some(i) => {
                proof {
                    lemma_pair_assoc_map_remove(self.entries@, i as int);
                }
                let _ = self.entries.remove(i);
            },
            None => {
                proof {
                    assert(self@ =~= old(self)@.remove((a, b)));
                }
            },
        }
    }
}

/// The set a sequence of identifier triples denotes.
pub open spec fn triple_elems(s: Seq<(u64, u64, u64)>) -> Set<(u64, u64, u64)>
    decreases s.len(),
{
    if s.len() == 0 {
        Set::empty()
    } else {
        triple_elems(s.drop_last()).insert(s.last())
    }
}

pub proof fn lemma_triple_elems_contains(s: Seq<(u64, u64, u64)>, k: (u64, u64, u64))
    ensures
        triple_elems(s).contains(k) <==> (exists|i: int| 0 <= i < s.len() && (#[trigger] s[i]) == k),
    decreases s.len(),
{
    if s.len() == 0 {
    } else {
        lemma_triple_elems_contains(s.drop_last(), k);
        if s.last() == k {
            assert(s[s.len() - 1] == k);
        } else {
            if exists|i: int| 0 <= i < s.len() && (#[trigger] s[i]) == k {
                let i = choose|i: int| 0 <= i < s.len() && (#[trigger] s[i]) == k;
                assert(s.drop_last()[i] == k);
            }
        }
    }
}

/// A membership record over identifier triples. Rows are only ever added,
/// never removed: the recorded facts are monotonic.
pub struct TripleSet {
    entries: Vec<(u64, u64, u64)>,
}

impl View for TripleSet {
    type V = Set<(u64, u64, u64)>;

    closed spec fn view(&self) -> Set<(u64, u64, u64)> {
        triple_elems(self.entries@)
    }
}

impl TripleSet {
    pub fn new() -> (t: Self)
        ensures
            t@ == Set::<(u64, u64, u64)>::empty(),
    {
        TripleSet { entries: Vec::new() }
    }

    pub fn contains(&self, a: u64, b: u64, c: u64) -> (r: bool)
        ensures
            r == self@.contains((a, b, c)),
    {
        let mut i: usize = 0;
        while i < self.entries.len()
            invariant
                i <= self.entries@.len(),
                forall|j: int| 0 <= j < i ==> (#[trigger] self.entries@[j]) != (a, b, c),
            decreases self.entries@.len() - i,
        {
            let e = &self.entries[i];
            if e.0 == a && e.1 == b && e.2 == c {
                proof {
                    lemma_triple_elems_contains(self.entries@, (a, b, c));
                    assert(self.entries@[i as int] == (a, b, c));
                }
                return true;
            }
            i = i + 1;
        }
        proof {
            lemma_triple_elems_contains(self.entries@, (a, b, c));
        }
        false
    }

    pub fn insert(&mut self, a: u64, b: u64, c: u64)
        ensures
            final(self)@ == old(self)@.insert((a, b, c)),
    {
        let ghost s = self.entries@;
        self.entries.push((a, b, c));
        proof {
            assert(self.entries@.drop_last() =~= s);
        }
    }
}

} // verus!
