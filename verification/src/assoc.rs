//! A small map kept as a vector of key/value pairs with unique keys.
use vstd::prelude::*;

verus! {

/// Keys that can be compared for equality of their views.
pub trait KeyEq: View + Sized {
    fn key_eq(&self, other: &Self) -> (r: bool)
        ensures
            r == (self@ == other@),
    ;
}

impl KeyEq for u64 {
    fn key_eq(&self, other: &Self) -> (r: bool) {
        *self == *other
    }
}

/// A map from keys (compared by view) to values.
#[derive(Debug, PartialEq)]
pub struct AssocList<K, V> {
    pub entries: Vec<(K, V)>,
}

/// Index of an entry whose key has view `k`.
pub open spec fn has_key_at<K: View, V>(s: Seq<(K, V)>, k: K::V, i: int) -> bool {
    0 <= i < s.len() && s[i].0@ == k
}

pub open spec fn unique_keys<K: View, V>(s: Seq<(K, V)>) -> bool {
    forall|i: int, j: int| 0 <= i < s.len() && 0 <= j < s.len() && i != j ==> s[i].0@ != s[j].0@
}

pub open spec fn assoc_view<K: View, V>(s: Seq<(K, V)>) -> Map<K::V, V> {
    Map::new(
        |k: K::V| exists|i: int| has_key_at(s, k, i),
        |k: K::V| s[choose|i: int| has_key_at(s, k, i)].1,
    )
}

pub proof fn lemma_assoc_at<K: View, V>(s: Seq<(K, V)>, i: int)
    requires
        unique_keys(s),
        0 <= i < s.len(),
    ensures
        assoc_view(s).contains_key(s[i].0@),
        assoc_view(s)[s[i].0@] == s[i].1,
{
    let k = s[i].0@;
    assert(has_key_at(s, k, i));
    let j = choose|j: int| has_key_at(s, k, j);
    assert(j == i);
}

/// Appending an entry whose key is new adds that key to the view.
pub proof fn lemma_assoc_push<K: View, V>(t: Seq<(K, V)>, e: (K, V))
    requires
        unique_keys(t.push(e)),
    ensures
        assoc_view(t.push(e)) == assoc_view(t).insert(e.0@, e.1),
{
    let s = t.push(e);
    let n = t.len() as int;
    assert forall|key: K::V| #[trigger] assoc_view(s).contains_key(key)
        == assoc_view(t).insert(e.0@, e.1).contains_key(key) by {
        if key == e.0@ {
            assert(has_key_at(s, key, n));
        } else {
            if exists|j: int| has_key_at(s, key, j) {
                let j = choose|j: int| has_key_at(s, key, j);
                assert(has_key_at(t, key, j));
            }
            if exists|j: int| has_key_at(t, key, j) {
                let j = choose|j: int| has_key_at(t, key, j);
                assert(has_key_at(s, key, j));
            }
        }
    }
    assert forall|key: K::V| #[trigger] assoc_view(s).contains_key(key) implies assoc_view(s)[key]
        == assoc_view(t).insert(e.0@, e.1)[key] by {
        let j = choose|j: int| has_key_at(s, key, j);
        lemma_assoc_at(s, j);
        if key == e.0@ {
            assert(has_key_at(s, key, n));
            assert(j == n);
        } else {
            assert forall|a: int, b: int|
                0 <= a < t.len() && 0 <= b < t.len() && a != b implies t[a].0@ != t[b].0@ by {
                assert(s[a] == t[a] && s[b] == t[b]);
            }
            assert(j < n);
            assert(t[j] == s[j]);
            lemma_assoc_at(t, j);
        }
    }
    assert(assoc_view(s) =~= assoc_view(t).insert(e.0@, e.1));
}

impl<K: KeyEq, V> AssocList<K, V> {
    pub open spec fn wf(&self) -> bool {
        unique_keys(self.entries@)
    }

    pub open spec fn view(&self) -> Map<K::V, V> {
        assoc_view(self.entries@)
    }

    pub fn new() -> (r: Self)
        ensures
            r.wf(),
            r.view() == Map::<K::V, V>::empty(),
    {
        let r = AssocList { entries: Vec::new() };
        assert(r.view() =~= Map::<K::V, V>::empty());
        r
    }

    /// Position of the entry for `k`, if any.
    pub fn find(&self, k: &K) -> (r: Option<usize>)
        requires
            self.wf(),
        ensures
            r matches Some(i) ==> has_key_at(self.entries@, k@, i as int),
            r is None <==> !self.view().contains_key(k@),
    {
        let n = self.entries.len();
        for i in 0..n
            invariant
                n == self.entries@.len(),
                forall|j: int| 0 <= j < i ==> self.entries@[j].0@ != k@,
        {
            if self.entries[i].0.key_eq(k) {
                assert(has_key_at(self.entries@, k@, i as int));
                return Some(i);
            }
        }
        None
    }

    pub fn contains_key(&self, k: &K) -> (r: bool)
        requires
            self.wf(),
        ensures
            r == self.view().contains_key(k@),
    {
        self.find(k).is_some()
    }

    pub fn get(&self, k: &K) -> (r: Option<&V>)
        requires
            self.wf(),
        ensures
            r matches Some(v) ==> self.view().contains_key(k@) && *v == self.view()[k@],
            r is None <==> !self.view().contains_key(k@),
    {
        match self.find(k) {
            Some(i) => {
                proof {
                    lemma_assoc_at(self.entries@, i as int);
                }
                Some(&self.entries[i].1)
            },
            None => None,
        }
    }

    pub fn is_empty(&self) -> (r: bool)
        requires
            self.wf(),
        ensures
            r == (self.view() == Map::<K::V, V>::empty()),
    {
        if self.entries.len() == 0 {
            assert(self.view() =~= Map::<K::V, V>::empty());
            true
        } else {
            proof {
                lemma_assoc_at(self.entries@, 0);
                assert(!Map::<K::V, V>::empty().contains_key(self.entries@[0].0@));
            }
            false
        }
    }

    /// Sets the value for `k`, replacing any earlier one.
    pub fn insert(&mut self, k: K, v: V)
        requires
            old(self).wf(),
        ensures
            final(self).wf(),
            final(self).view() == old(self).view().insert(k@, v),
    {
        let ghost old_s = self.entries@;
        let ghost kv = k@;
        match self.find(&k) {
            Some(i) => {
                self.entries.set(i, (k, v));
                proof {
                    let s = self.entries@;
                    assert forall|a: int, b: int|
                        0 <= a < s.len() && 0 <= b < s.len() && a != b implies s[a].0@ != s[b].0@ by {
                        assert(old_s[a].0@ == s[a].0@ || a == i);
                        assert(old_s[b].0@ == s[b].0@ || b == i);
                    }
                    assert forall|key: K::V| #[trigger] self.view().contains_key(key)
                        == assoc_view(old_s).insert(kv, v).contains_key(key) by {
                        if key == kv {
                            assert(has_key_at(s, key, i as int));
                        } else {
                            if exists|j: int| has_key_at(s, key, j) {
                                let j = choose|j: int| has_key_at(s, key, j);
                                assert(has_key_at(old_s, key, j));
                            }
                            if exists|j: int| has_key_at(old_s, key, j) {
                                let j = choose|j: int| has_key_at(old_s, key, j);
                                assert(has_key_at(s, key, j));
                            }
                        }
                    }
                    assert forall|key: K::V| #[trigger] self.view().contains_key(key) implies self.view()[key]
                        == assoc_view(old_s).insert(kv, v)[key] by {
                        let j = choose|j: int| has_key_at(s, key, j);
                        lemma_assoc_at(s, j);
                        if key != kv {
                            lemma_assoc_at(old_s, j);
                        }
                    }
                    assert(self.view() =~= assoc_view(old_s).insert(kv, v));
                }
            },
            None => {
                self.entries.push((k, v));
                proof {
                    let s = self.entries@;
                    let n = old_s.len() as int;
                    assert forall|a: int, b: int|
                        0 <= a < s.len() && 0 <= b < s.len() && a != b implies s[a].0@ != s[b].0@ by {
                        if a == n {
                            assert(!has_key_at(old_s, kv, b));
                        } else if b == n {
                            assert(!has_key_at(old_s, kv, a));
                        } else {
                            assert(s[a] == old_s[a] && s[b] == old_s[b]);
                        }
                    }
                    assert forall|key: K::V| #[trigger] self.view().contains_key(key)
                        == assoc_view(old_s).insert(kv, v).contains_key(key) by {
                        if key == kv {
                            assert(has_key_at(s, key, n));
                        } else {
                            if exists|j: int| has_key_at(s, key, j) {
                                let j = choose|j: int| has_key_at(s, key, j);
                                assert(has_key_at(old_s, key, j));
                            }
                            if exists|j: int| has_key_at(old_s, key, j) {
                                let j = choose|j: int| has_key_at(old_s, key, j);
                                assert(has_key_at(s, key, j));
                            }
                        }
                    }
                    assert forall|key: K::V| #[trigger] self.view().contains_key(key) implies self.view()[key]
                        == assoc_view(old_s).insert(kv, v)[key] by {
                        let j = choose|j: int| has_key_at(s, key, j);
                        lemma_assoc_at(s, j);
                        if key != kv {
                            lemma_assoc_at(old_s, j);
                        }
                    }
                    assert(self.view() =~= assoc_view(old_s).insert(kv, v));
                }
            },
        }
    }

    /// Removes the entry for `k` and gives back its value.
    pub fn remove(&mut self, k: &K) -> (r: Option<V>)
        requires
            old(self).wf(),
        ensures
            final(self).wf(),
            final(self).view() == old(self).view().remove(k@),
            r matches Some(v) ==> old(self).view().contains_key(k@) && v == old(self).view()[k@],
            r is None <==> !old(self).view().contains_key(k@),
    {
        let ghost old_s = self.entries@;
        match self.find(k) {
            Some(i) => {
                proof {
                    lemma_assoc_at(old_s, i as int);
                }
                let (_, v) = self.entries.remove(i);
                proof {
                    let s = self.entries@;
                    assert forall|a: int| 0 <= a < s.len() implies #[trigger] s[a] == old_s[if a < i {
                        a
                    } else {
                        a + 1
                    }] by {}
                    assert forall|a: int, b: int|
                        0 <= a < s.len() && 0 <= b < s.len() && a != b implies s[a].0@ != s[b].0@ by {
                        let oa = if a < i { a } else { a + 1 };
                        let ob = if b < i { b } else { b + 1 };
                        assert(s[a] == old_s[oa]);
                        assert(s[b] == old_s[ob]);
                    }
                    assert forall|key: K::V| #[trigger] self.view().contains_key(key)
                        == assoc_view(old_s).remove(k@).contains_key(key) by {
                        if exists|j: int| has_key_at(s, key, j) {
                            let j = choose|j: int| has_key_at(s, key, j);
                            let oj = if j < i { j } else { j + 1 };
                            assert(has_key_at(old_s, key, oj));
                            assert(oj != i);
                        }
                        if key != k@ && exists|j: int| has_key_at(old_s, key, j) {
                            let j = choose|j: int| has_key_at(old_s, key, j);
                            assert(j != i);
                            let sj = if j < i { j } else { j - 1 };
                            assert(has_key_at(s, key, sj));
                        }
                    }
                    assert forall|key: K::V| #[trigger] self.view().contains_key(key) implies self.view()[key]
                        == assoc_view(old_s).remove(k@)[key] by {
                        let j = choose|j: int| has_key_at(s, key, j);
                        lemma_assoc_at(s, j);
                        let oj = if j < i { j } else { j + 1 };
                        lemma_assoc_at(old_s, oj);
                    }
                    assert(self.view() =~= assoc_view(old_s).remove(k@));
                }
                Some(v)
            },
            None => {
                assert(self.view() =~= assoc_view(old_s).remove(k@));
                None
            },
        }
    }
}

} // verus!
