//! Small verified maps backed by association lists.
//!
//! The storage-tier models keep their state in these maps: [`UMap`]
//! keys by user ID, [`SMap`] by string (for username and address
//! lookups). Both are specified by a mathematical `Map` view.

use vstd::prelude::*;

use crate::text::str_eq;

verus! {

/// No two entries share a key.
pub open spec fn ukeys_unique<T>(s: Seq<(u64, T)>) -> bool {
    forall|i: int, j: int| 0 <= i < j < s.len() ==> (#[trigger] s[i]).0 != (#[trigger] s[j]).0
}

/// The map an association list denotes; later entries win.
pub open spec fn umap_of<T>(s: Seq<(u64, T)>) -> Map<u64, T>
    decreases s.len(),
{
    if s.len() == 0 {
        Map::empty()
    } else {
        umap_of(s.drop_last()).insert(s.last().0, s.last().1)
    }
}

proof fn lemma_umap_contains<T>(s: Seq<(u64, T)>, k: u64)
    ensures
        umap_of(s).contains_key(k) <==> exists|i: int| 0 <= i < s.len() && (#[trigger] s[i]).0 == k,
    decreases s.len(),
{
    if s.len() == 0 {
    } else {
        let t = s.drop_last();
        lemma_umap_contains(t, k);
        if s.last().0 == k {
            assert(s[s.len() - 1].0 == k);
        } else if umap_of(t).contains_key(k) {
            let i = choose|i: int| 0 <= i < t.len() && (#[trigger] t[i]).0 == k;
            assert(s[i].0 == k);
        } else if exists|i: int| 0 <= i < s.len() && (#[trigger] s[i]).0 == k {
            let i = choose|i: int| 0 <= i < s.len() && (#[trigger] s[i]).0 == k;
            assert(i < s.len() - 1);
            assert(t[i].0 == k);
        }
    }
}

proof fn lemma_umap_value<T>(s: Seq<(u64, T)>, i: int)
    requires
        ukeys_unique(s),
        0 <= i < s.len(),
    ensures
        umap_of(s).contains_key(s[i].0),
        umap_of(s)[s[i].0] == s[i].1,
    decreases s.len(),
{
    let t = s.drop_last();
    if i == s.len() - 1 {
    } else {
        assert(ukeys_unique(t));
        assert(t[i] == s[i]);
        lemma_umap_value(t, i);
        assert(s[i].0 != s.last().0);
    }
}

proof fn lemma_umap_push<T>(s: Seq<(u64, T)>, k: u64, v: T)
    ensures
        umap_of(s.push((k, v))) == umap_of(s).insert(k, v),
{
    assert(s.push((k, v)).drop_last() =~= s);
    assert(s.push((k, v)).last() == (k, v));
}

proof fn lemma_umap_remove_at<T>(s: Seq<(u64, T)>, i: int)
    requires
        ukeys_unique(s),
        0 <= i < s.len(),
    ensures
        ukeys_unique(s.remove(i)),
        umap_of(s.remove(i)) == umap_of(s).remove(s[i].0),
    decreases s.len(),
{
    let k = s[i].0;
    let t = s.drop_last();
    assert(ukeys_unique(t));
    if i == s.len() - 1 {
        assert(s.remove(i) =~= t);
        lemma_umap_contains(t, k);
        assert(!umap_of(t).contains_key(k));
        assert(umap_of(t) =~= umap_of(t).insert(k, s[i].1).remove(k));
    } else {
        let x = s.last();
        lemma_umap_remove_at(t, i);
        assert(s.remove(i) =~= t.remove(i).push(x));
        lemma_umap_push(t.remove(i), x.0, x.1);
        assert(k != x.0);
        assert(umap_of(t).remove(k).insert(x.0, x.1) =~= umap_of(t).insert(x.0, x.1).remove(k));
    }
}

/// A map from user IDs to values, backed by an association list.
pub struct UMap<T> {
    pub entries: Vec<(u64, T)>,
}

impl<T> View for UMap<T> {
    type V = Map<u64, T>;

    open spec fn view(&self) -> Map<u64, T> {
        umap_of(self.entries@)
    }
}

impl<T> UMap<T> {
    /// The association list holds no duplicate keys.
    pub open spec fn wf(&self) -> bool {
        ukeys_unique(self.entries@)
    }

    /// An empty map.
    pub fn new() -> (r: Self)
        ensures
            r.wf(),
            r@ == Map::<u64, T>::empty(),
    {
        let r = UMap { entries: Vec::new() };
        proof {
            assert(r@ =~= Map::<u64, T>::empty());
        }
        r
    }

    fn find(&self, k: u64) -> (r: Option<usize>)
        ensures
            match r {
                Some(i) => i < self.entries@.len() && self.entries@[i as int].0 == k,
                None => forall|j: int|
                    0 <= j < self.entries@.len() ==> (#[trigger] self.entries@[j]).0 != k,
            },
    {
        let n = self.entries.len();
        let mut i: usize = 0;
        while i < n
            invariant
                0 <= i <= n,
                n == self.entries@.len(),
                forall|j: int| 0 <= j < i ==> (#[trigger] self.entries@[j]).0 != k,
            decreases n - i,
        {
            if self.entries[i].0 == k {
                return Some(i);
            }
            i += 1;
        }
        None
    }

    /// Whether the map holds an entry for `k`.
    pub fn contains_key(&self, k: u64) -> (r: bool)
        requires
            self.wf(),
        ensures
            r == self@.contains_key(k),
    {
        proof {
            lemma_umap_contains(self.entries@, k);
        }
        match self.find(k) {
            Some(_) => true,
            None => false,
        }
    }

    /// The value stored under `k`, if any.
    pub fn get(&self, k: u64) -> (r: Option<&T>)
        requires
            self.wf(),
        ensures
            match r {
                Some(v) => self@.contains_key(k) && *v == self@[k],
                None => !self@.contains_key(k),
            },
    {
        proof {
            lemma_umap_contains(self.entries@, k);
        }
        match self.find(k) {
            Some(i) => {
                proof {
                    lemma_umap_value(self.entries@, i as int);
                }
                Some(&self.entries[i].1)
            },
            None => None,
        }
    }

    /// Stores `v` under `k`, returning the value previously stored
    /// there, if any.
    pub fn insert(&mut self, k: u64, v: T) -> (prev: Option<T>)
        requires
            old(self).wf(),
        ensures
            final(self).wf(),
            final(self)@ == old(self)@.insert(k, v),
            match prev {
                Some(x) => old(self)@.contains_key(k) && x == old(self)@[k],
                None => !old(self)@.contains_key(k),
            },
    {
        proof {
            lemma_umap_contains(self.entries@, k);
        }
        match self.find(k) {
            Some(i) => {
                proof {
                    lemma_umap_value(self.entries@, i as int);
                    lemma_umap_remove_at(self.entries@, i as int);
                }
                let pair = self.entries.remove(i);
                let ghost mid = self.entries@;
                self.entries.push((k, v));
                proof {
                    lemma_umap_push(mid, k, v);
                    assert(umap_of(mid).insert(k, v) =~= old(self)@.insert(k, v));
                    assert forall|a: int, b: int|
                        0 <= a < b < self.entries@.len() implies (#[trigger] self.entries@[a]).0
                        != (#[trigger] self.entries@[b]).0 by {
                        if b == self.entries@.len() - 1 {
                            assert(self.entries@[a] == mid[a]);
                        }
                    }
                }
                Some(pair.1)
            },
            None => {
                let ghost pre = self.entries@;
                self.entries.push((k, v));
                proof {
                    lemma_umap_push(pre, k, v);
                    assert forall|a: int, b: int|
                        0 <= a < b < self.entries@.len() implies (#[trigger] self.entries@[a]).0
                        != (#[trigger] self.entries@[b]).0 by {
                        if b == self.entries@.len() - 1 {
                            assert(self.entries@[a] == pre[a]);
                        }
                    }
                }
                None
            },
        }
    }

    /// Every entry of the association list is the map's value at its
    /// key, and every key of the map is spelled by some entry.
    pub proof fn lemma_entries(&self)
        requires
            self.wf(),
        ensures
            forall|i: int|
                0 <= i < self.entries@.len() ==> self@.contains_key(
                    (#[trigger] self.entries@[i]).0,
                ) && self@[self.entries@[i].0] == self.entries@[i].1,
            forall|k: u64| #[trigger]
                self@.contains_key(k) ==> exists|i: int|
                    0 <= i < self.entries@.len() && (#[trigger] self.entries@[i]).0 == k,
    {
        assert forall|i: int|
            0 <= i < self.entries@.len() implies self@.contains_key(
            (#[trigger] self.entries@[i]).0,
        ) && self@[self.entries@[i].0] == self.entries@[i].1 by {
            lemma_umap_value(self.entries@, i);
        }
        assert forall|k: u64| #[trigger]
            self@.contains_key(k) implies exists|i: int|
                0 <= i < self.entries@.len() && (#[trigger] self.entries@[i]).0 == k by {
            lemma_umap_contains(self.entries@, k);
        }
    }

    /// Removes the entry under `k`, returning the value that was
    /// stored there, if any.
    pub fn remove(&mut self, k: u64) -> (prev: Option<T>)
        requires
            old(self).wf(),
        ensures
            final(self).wf(),
            final(self)@ == old(self)@.remove(k),
            match prev {
                Some(x) => old(self)@.contains_key(k) && x == old(self)@[k],
                None => !old(self)@.contains_key(k),
            },
    {
        proof {
            lemma_umap_contains(self.entries@, k);
        }
        match self.find(k) {
            Some(i) => {
                proof {
                    lemma_umap_value(self.entries@, i as int);
                    lemma_umap_remove_at(self.entries@, i as int);
                }
                let pair = self.entries.remove(i);
                Some(pair.1)
            },
            None => {
                proof {
                    assert(old(self)@ =~= old(self)@.remove(k));
                }
                None
            },
        }
    }
}

/// No two entries spell the same key.
pub open spec fn skeys_unique<T>(s: Seq<(String, T)>) -> bool {
    forall|i: int, j: int| 0 <= i < j < s.len() ==> (#[trigger] s[i]).0@ != (#[trigger] s[j]).0@
}

/// The map a string-keyed association list denotes; later entries win.
pub open spec fn smap_of<T>(s: Seq<(String, T)>) -> Map<Seq<char>, T>
    decreases s.len(),
{
    if s.len() == 0 {
        Map::empty()
    } else {
        smap_of(s.drop_last()).insert(s.last().0@, s.last().1)
    }
}

proof fn lemma_smap_contains<T>(s: Seq<(String, T)>, k: Seq<char>)
    ensures
        smap_of(s).contains_key(k) <==> exists|i: int| 0 <= i < s.len() && (#[trigger] s[i]).0@
            == k,
    decreases s.len(),
{
    if s.len() == 0 {
    } else {
        let t = s.drop_last();
        lemma_smap_contains(t, k);
        if s.last().0@ == k {
            assert(s[s.len() - 1].0@ == k);
        } else if smap_of(t).contains_key(k) {
            let i = choose|i: int| 0 <= i < t.len() && (#[trigger] t[i]).0@ == k;
            assert(s[i].0@ == k);
        } else if exists|i: int| 0 <= i < s.len() && (#[trigger] s[i]).0@ == k {
            let i = choose|i: int| 0 <= i < s.len() && (#[trigger] s[i]).0@ == k;
            assert(i < s.len() - 1);
            assert(t[i].0@ == k);
        }
    }
}

proof fn lemma_smap_value<T>(s: Seq<(String, T)>, i: int)
    requires
        skeys_unique(s),
        0 <= i < s.len(),
    ensures
        smap_of(s).contains_key(s[i].0@),
        smap_of(s)[s[i].0@] == s[i].1,
    decreases s.len(),
{
    let t = s.drop_last();
    if i == s.len() - 1 {
    } else {
        assert(skeys_unique(t));
        assert(t[i] == s[i]);
        lemma_smap_value(t, i);
        assert(s[i].0@ != s.last().0@);
    }
}

proof fn lemma_smap_push<T>(s: Seq<(String, T)>, k: String, v: T)
    ensures
        smap_of(s.push((k, v))) == smap_of(s).insert(k@, v),
{
    assert(s.push((k, v)).drop_last() =~= s);
    assert(s.push((k, v)).last() == (k, v));
}

proof fn lemma_smap_remove_at<T>(s: Seq<(String, T)>, i: int)
    requires
        skeys_unique(s),
        0 <= i < s.len(),
    ensures
        skeys_unique(s.remove(i)),
        smap_of(s.remove(i)) == smap_of(s).remove(s[i].0@),
    decreases s.len(),
{
    let k = s[i].0@;
    let t = s.drop_last();
    assert(skeys_unique(t));
    if i == s.len() - 1 {
        assert(s.remove(i) =~= t);
        lemma_smap_contains(t, k);
        assert(!smap_of(t).contains_key(k));
        assert(smap_of(t) =~= smap_of(t).insert(k, s[i].1).remove(k));
    } else {
        let x = s.last();
        lemma_smap_remove_at(t, i);
        assert(s.remove(i) =~= t.remove(i).push(x));
        lemma_smap_push(t.remove(i), x.0, x.1);
        assert(k != x.0@);
        assert(smap_of(t).remove(k).insert(x.0@, x.1) =~= smap_of(t).insert(x.0@, x.1).remove(k));
    }
}

/// A map from strings to values, backed by an association list. Its
/// view is keyed by character sequences.
pub struct SMap<T> {
    pub entries: Vec<(String, T)>,
}

impl<T> View for SMap<T> {
    type V = Map<Seq<char>, T>;

    open spec fn view(&self) -> Map<Seq<char>, T> {
        smap_of(self.entries@)
    }
}

impl<T> SMap<T> {
    /// The association list holds no duplicate keys.
    pub open spec fn wf(&self) -> bool {
        skeys_unique(self.entries@)
    }

    /// An empty map.
    pub fn new() -> (r: Self)
        ensures
            r.wf(),
            r@ == Map::<Seq<char>, T>::empty(),
    {
        let r = SMap { entries: Vec::new() };
        proof {
            assert(r@ =~= Map::<Seq<char>, T>::empty());
        }
        r
    }

    fn find(&self, k: &str) -> (r: Option<usize>)
        ensures
            match r {
                Some(i) => i < self.entries@.len() && self.entries@[i as int].0@ == k@,
                None => forall|j: int|
                    0 <= j < self.entries@.len() ==> (#[trigger] self.entries@[j]).0@ != k@,
            },
    {
        let n = self.entries.len();
        let mut i: usize = 0;
        while i < n
            invariant
                0 <= i <= n,
                n == self.entries@.len(),
                forall|j: int| 0 <= j < i ==> (#[trigger] self.entries@[j]).0@ != k@,
            decreases n - i,
        {
            if str_eq(self.entries[i].0.as_str(), k) {
                return Some(i);
            }
            i += 1;
        }
        None
    }

    /// Whether the map holds an entry spelled `k`.
    pub fn contains_key(&self, k: &str) -> (r: bool)
        requires
            self.wf(),
        ensures
            r == self@.contains_key(k@),
    {
        proof {
            lemma_smap_contains(self.entries@, k@);
        }
        match self.find(k) {
            Some(_) => true,
            None => false,
        }
    }

    /// The value stored under `k`, if any.
    pub fn get(&self, k: &str) -> (r: Option<&T>)
        requires
            self.wf(),
        ensures
            match r {
                Some(v) => self@.contains_key(k@) && *v == self@[k@],
                None => !self@.contains_key(k@),
            },
    {
        proof {
            lemma_smap_contains(self.entries@, k@);
        }
        match self.find(k) {
            Some(i) => {
                proof {
                    lemma_smap_value(self.entries@, i as int);
                }
                Some(&self.entries[i].1)
            },
            None => None,
        }
    }

    /// Stores `v` under `k`, returning the value previously stored
    /// there, if any.
    pub fn insert(&mut self, k: &str, v: T) -> (prev: Option<T>)
        requires
            old(self).wf(),
        ensures
            final(self).wf(),
            final(self)@ == old(self)@.insert(k@, v),
            match prev {
                Some(x) => old(self)@.contains_key(k@) && x == old(self)@[k@],
                None => !old(self)@.contains_key(k@),
            },
    {
        proof {
            lemma_smap_contains(self.entries@, k@);
        }
        match self.find(k) {
            Some(i) => {
                proof {
                    lemma_smap_value(self.entries@, i as int);
                    lemma_smap_remove_at(self.entries@, i as int);
                }
                let pair = self.entries.remove(i);
                let ghost mid = self.entries@;
                self.entries.push((k.to_owned(), v));
                proof {
                    lemma_smap_push(mid, self.entries@.last().0, v);
                    assert(smap_of(mid).insert(k@, v) =~= old(self)@.insert(k@, v));
                    assert forall|a: int, b: int|
                        0 <= a < b < self.entries@.len() implies (#[trigger] self.entries@[a]).0@
                        != (#[trigger] self.entries@[b]).0@ by {
                        if b == self.entries@.len() - 1 {
                            assert(self.entries@[a] == mid[a]);
                        }
                    }
                }
                Some(pair.1)
            },
            None => {
                let ghost pre = self.entries@;
                self.entries.push((k.to_owned(), v));
                proof {
                    lemma_smap_push(pre, self.entries@.last().0, v);
                    assert forall|a: int, b: int|
                        0 <= a < b < self.entries@.len() implies (#[trigger] self.entries@[a]).0@
                        != (#[trigger] self.entries@[b]).0@ by {
                        if b == self.entries@.len() - 1 {
                            assert(self.entries@[a] == pre[a]);
                        }
                    }
                }
                None
            },
        }
    }

    /// Removes the entry under `k`, returning the value that was
    /// stored there, if any.
    pub fn remove(&mut self, k: &str) -> (prev: Option<T>)
        requires
            old(self).wf(),
        ensures
            final(self).wf(),
            final(self)@ == old(self)@.remove(k@),
            match prev {
                Some(x) => old(self)@.contains_key(k@) && x == old(self)@[k@],
                None => !old(self)@.contains_key(k@),
            },
    {
        proof {
            lemma_smap_contains(self.entries@, k@);
        }
        match self.find(k) {
            Some(i) => {
                proof {
                    lemma_smap_value(self.entries@, i as int);
                    lemma_smap_remove_at(self.entries@, i as int);
                }
                let pair = self.entries.remove(i);
                Some(pair.1)
            },
            None => {
                proof {
                    assert(old(self)@ =~= old(self)@.remove(k@));
                }
                None
            },
        }
    }
}

} // verus!
