//! A map keyed by strings that keeps its entries in the order of first
//! insertion.
use vstd::prelude::*;

verus! {

/// The value stored under `k` in `entries`: that of the last entry with
/// key `k`.
pub open spec fn lookup<V>(entries: Seq<(String, V)>, k: Seq<char>) -> Option<V>
    decreases entries.len(),
{
    if entries.len() == 0 {
        None
    } else if entries.last().0@ == k {
        Some(entries.last().1)
    } else {
        lookup(entries.drop_last(), k)
    }
}

/// No entry after index `i` has key `k`.
pub open spec fn last_with_key<V>(s: Seq<(String, V)>, i: int, k: Seq<char>) -> bool {
    forall|j: int| i < j < s.len() ==> (#[trigger] s[j]).0@ != k
}

proof fn lemma_lookup_absent<V>(s: Seq<(String, V)>, k: Seq<char>)
    requires
        forall|i: int| 0 <= i < s.len() ==> (#[trigger] s[i]).0@ != k,
    ensures
        lookup(s, k) is None,
    decreases s.len(),
{
    if s.len() > 0 {
        assert(s.last() == s[s.len() - 1]);
        assert forall|i: int| 0 <= i < s.drop_last().len() implies (#[trigger] s.drop_last()[i]).0@
            != k by {
            assert(s.drop_last()[i] == s[i]);
        }
        lemma_lookup_absent(s.drop_last(), k);
    }
}

proof fn lemma_lookup_at<V>(s: Seq<(String, V)>, i: int)
    requires
        0 <= i < s.len(),
        last_with_key(s, i, s[i].0@),
    ensures
        lookup(s, s[i].0@) == Some(s[i].1),
    decreases s.len(),
{
    if i != s.len() - 1 {
        let d = s.drop_last();
        assert(s[s.len() - 1].0@ != s[i].0@);
        assert(d[i] == s[i]);
        assert forall|j: int| i < j < d.len() implies (#[trigger] d[j]).0@ != d[i].0@ by {
            assert(d[j] == s[j]);
        }
        lemma_lookup_at(d, i);
    }
}

proof fn lemma_lookup_update<V>(s: Seq<(String, V)>, i: int, e: (String, V), k: Seq<char>)
    requires
        0 <= i < s.len(),
        e.0@ == s[i].0@,
        last_with_key(s, i, e.0@),
    ensures
        lookup(s.update(i, e), k) == (if k == e.0@ {
            Some(e.1)
        } else {
            lookup(s, k)
        }),
    decreases s.len(),
{
    let u = s.update(i, e);
    let d = s.drop_last();
    if i == s.len() - 1 {
        assert(u.drop_last() =~= d);
        assert(u.last() == e);
    } else {
        assert(u.drop_last() =~= d.update(i, e));
        assert(u.last() == s.last());
        assert(d[i] == s[i]);
        assert forall|j: int| i < j < d.len() implies (#[trigger] d[j]).0@ != e.0@ by {
            assert(d[j] == s[j]);
        }
        lemma_lookup_update(d, i, e, k);
        assert(s[s.len() - 1].0@ != e.0@);
    }
}

/// No key occurs in two entries.
pub open spec fn keys_unique<V>(s: Seq<(String, V)>) -> bool {
    forall|i: int, j: int| 0 <= i < j < s.len() ==> (#[trigger] s[i]).0@ != (#[trigger] s[j]).0@
}

/// The keys of `s`.
pub open spec fn key_set<V>(s: Seq<(String, V)>) -> Set<Seq<char>>
    decreases s.len(),
{
    if s.len() == 0 {
        Set::empty()
    } else {
        key_set(s.drop_last()).insert(s.last().0@)
    }
}

proof fn lemma_key_set<V>(s: Seq<(String, V)>)
    ensures
        key_set(s).finite(),
        forall|q: Seq<char>| #[trigger] key_set(s).contains(q) <==> lookup(s, q) is Some,
        keys_unique(s) ==> key_set(s).len() == s.len(),
    decreases s.len(),
{
    if s.len() > 0 {
        let d = s.drop_last();
        lemma_key_set(d);
        if keys_unique(s) {
            assert(keys_unique(d)) by {
                assert forall|i: int, j: int| 0 <= i < j < d.len() implies (#[trigger] d[i]).0@
                    != (#[trigger] d[j]).0@ by {
                    assert(d[i] == s[i] && d[j] == s[j]);
                }
            }
            assert forall|i: int| 0 <= i < d.len() implies (#[trigger] d[i]).0@ != s.last().0@ by {
                assert(d[i] == s[i]);
                assert(s.last() == s[s.len() - 1]);
            }
            lemma_lookup_absent(d, s.last().0@);
        }
    }
}

proof fn lemma_key_in_set<V>(s: Seq<(String, V)>, i: int)
    requires
        0 <= i < s.len(),
    ensures
        key_set(s).contains(s[i].0@),
    decreases s.len(),
{
    if i < s.len() - 1 {
        assert(s.drop_last()[i] == s[i]);
        lemma_key_in_set(s.drop_last(), i);
    }
}

proof fn lemma_unique_after_update<V>(s: Seq<(String, V)>, i: int, e: (String, V))
    requires
        keys_unique(s),
        0 <= i < s.len(),
        e.0@ == s[i].0@,
    ensures
        keys_unique(s.update(i, e)),
{
    let u = s.update(i, e);
    assert forall|a: int, b: int| 0 <= a < b < u.len() implies (#[trigger] u[a]).0@ != (#[trigger] u[b]).0@ by {
        assert(u[a].0@ == s[a].0@ && u[b].0@ == s[b].0@);
    }
}

/// The contents of a map of strings, as character sequences.
pub open spec fn str_view(m: StringMap<String>) -> Map<Seq<char>, Seq<char>> {
    m@.map_values(|v: String| v@)
}

/// A map from strings to values of type `V`, holding its entries in the
/// order in which their keys were first inserted. The methods keep each
/// key in one entry.
#[derive(Debug, Clone, PartialEq, Eq)]
pub struct StringMap<V> {
    entries: Vec<(String, V)>,
}

impl<V> View for StringMap<V> {
    type V = Map<Seq<char>, V>;

    closed spec fn view(&self) -> Map<Seq<char>, V> {
        Map::new(
            |k: Seq<char>| lookup(self.entries@, k) is Some,
            |k: Seq<char>| lookup(self.entries@, k)->0,
        )
    }
}

impl<V> Default for StringMap<V> {
    fn default() -> (r: StringMap<V>)
        ensures
            r@ == Map::<Seq<char>, V>::empty(),
            r.wf(),
    {
        StringMap::new()
    }
}

impl StringMap<String> {
    /// Stores a copy of `value` under a copy of `key`.
    pub fn put(&mut self, key: &str, value: &str)
        ensures
            str_view(*final(self)) == str_view(*old(self)).insert(key@, value@),
            old(self).wf() ==> final(self).wf(),
    {
        self.insert(key.to_owned(), value.to_owned());
        assert(str_view(*self) =~= str_view(*old(self)).insert(key@, value@));
    }
}

impl<V> StringMap<V> {
    /// Each key is held in one entry, as every method keeps it.
    pub closed spec fn wf(&self) -> bool {
        keys_unique(self.entries@)
    }

    /// The entries in the order of first insertion.
    pub closed spec fn entry_seq(&self) -> Seq<(String, V)> {
        self.entries@
    }

    /// An empty map.
    pub fn new() -> (r: StringMap<V>)
        ensures
            r@ == Map::<Seq<char>, V>::empty(),
            r.entry_seq().len() == 0,
            r.wf(),
    {
        let r = StringMap { entries: Vec::new() };
        assert(r@ =~= Map::<Seq<char>, V>::empty());
        r
    }

    /// The index of the last entry with key `key`.
    fn find(&self, key: &str) -> (r: Option<usize>)
        ensures
            match r {
                Some(i) => i < self.entries@.len() && self.entries@[i as int].0@ == key@
                    && last_with_key(self.entries@, i as int, key@),
                None => forall|j: int|
                    0 <= j < self.entries@.len() ==> (#[trigger] self.entries@[j]).0@ != key@,
            },
    {
        let k = key.to_owned();
        let mut i: usize = self.entries.len();
        while i > 0
            invariant
                k@ == key@,
                i <= self.entries@.len(),
                forall|j: int| i <= j < self.entries@.len() ==> (#[trigger] self.entries@[j]).0@ != key@,
            decreases i,
        {
            if self.entries[i - 1].0 == k {
                return Some(i - 1);
            }
            i -= 1;
        }
        None
    }

    /// The value stored under `key`, if any.
    pub fn get(&self, key: &str) -> (r: Option<&V>)
        ensures
            self@.contains_key(key@) <==> r is Some,
            self@.contains_key(key@) ==> *r->0 == self@[key@],
    {
        match self.find(key) {
            Some(i) => {
                proof {
                    lemma_lookup_at(self.entries@, i as int);
                }
                Some(&self.entries[i].1)
            },
            None => {
                proof {
                    lemma_lookup_absent(self.entries@, key@);
                }
                None
            },
        }
    }

    /// Stores `value` under `key`, replacing any value stored there before.
    pub fn insert(&mut self, key: String, value: V)
        ensures
            final(self)@ == old(self)@.insert(key@, value),
            old(self).wf() ==> final(self).wf(),
    {
        let ghost k = key@;
        let ghost before = self.entries@;
        match self.find(key.as_str()) {
            Some(i) => {
                self.entries.set(i, (key, value));
                proof {
                    if keys_unique(before) {
                        lemma_unique_after_update(before, i as int, (key, value));
                        assert(self.entries@ == before.update(i as int, (key, value)));
                    }
                    assert forall|q: Seq<char>| #[trigger] lookup(self.entries@, q) == (if q == k {
                        Some(value)
                    } else {
                        lookup(before, q)
                    }) by {
                        lemma_lookup_update(before, i as int, (key, value), q);
                    }
                }
            },
            None => {
                self.entries.push((key, value));
                proof {
                    assert forall|a: int, b: int| 0 <= a < b < self.entries@.len() && keys_unique(before) implies (#[trigger] self.entries@[a]).0@ != (#[trigger] self.entries@[b]).0@ by {
                        assert(self.entries@[a] == before[a]);
                        if b < before.len() {
                            assert(self.entries@[b] == before[b]);
                        }
                    }
                    assert forall|q: Seq<char>| #[trigger] lookup(self.entries@, q) == (if q == k {
                        Some(value)
                    } else {
                        lookup(before, q)
                    }) by {
                        assert(self.entries@.drop_last() =~= before);
                    }
                }
            },
        }
        assert(self@ =~= old(self)@.insert(k, value));
    }

    /// Removes the value stored under `key`, if any.
    pub fn remove(&mut self, key: &str)
        ensures
            final(self)@ == old(self)@.remove(key@),
            old(self).wf() ==> final(self).wf(),
    {
        let ghost before = self.entries@;
        let k = key.to_owned();
        let mut kept: Vec<(String, V)> = Vec::new();
        let mut rest: Vec<(String, V)> = Vec::new();
        std::mem::swap(&mut self.entries, &mut rest);
        let ghost all = rest@;
        assert(before == all);
        assert(lookup(kept@, key@) is None);
        assert forall|q: Seq<char>| #[trigger] lookup(kept@, q) == (if q == key@ {
            None
        } else {
            lookup(all.take(0), q)
        }) by {
            assert(all.take(0) =~= kept@);
        }
        assert(rest@ =~= all.subrange(0, all.len() as int));
        let total = rest.len();
        let mut n: usize = 0;
        while rest.len() > 0
            invariant
                k@ == key@,
                total == all.len(),
                n + rest@.len() == total,
                rest@ == all.subrange(n as int, all.len() as int),
                keys_unique(all) ==> keys_unique(kept@),
                forall|q: Seq<char>| #[trigger] lookup(kept@, q) == (if q == key@ {
                    None
                } else {
                    lookup(all.take(n as int), q)
                }),
            decreases rest.len(),
        {
            let e = rest.remove(0);
            proof {
                assert(e == all[n as int]);
                assert(rest@ =~= all.subrange(n + 1, all.len() as int));
                assert(all.take(n + 1).drop_last() =~= all.take(n as int));
            }
            let ghost prev = kept@;
            let ghost ek = e.0@;
            let ghost ev = e.1;
            if !(e.0 == k) {
                let ghost t = all.take(n as int);
                proof {
                    assert(ek == all[n as int].0@);
                    if keys_unique(all) {
                        assert forall|j: int| 0 <= j < t.len() implies (#[trigger] t[j]).0@ != ek by {
                            assert(t[j] == all[j]);
                            assert(all[j].0@ != all[n as int].0@);
                        }
                        lemma_lookup_absent(t, ek);
                    }
                    lemma_key_set(prev);
                }
                kept.push(e);
                assert(kept@.drop_last() =~= prev);
                proof {
                    assert(kept@[prev.len() as int].0@ == ek);
                    if keys_unique(all) {
                        assert forall|a: int, b: int| 0 <= a < b < kept@.len() implies (#[trigger] kept@[a]).0@ != (#[trigger] kept@[b]).0@ by {
                            assert(kept@[a] == prev[a]);
                            if b < prev.len() {
                                assert(kept@[b] == prev[b]);
                            } else {
                                let q = prev[a].0@;
                                lemma_key_in_set(prev, a);
                                assert(lookup(prev, q) is Some);
                                assert(lookup(prev, q) == (if q == key@ { None } else { lookup(t, q) }));
                                assert(lookup(t, ek) is None);
                            }
                        }
                    }
                }
            }
            proof {
                let t = all.take(n + 1);
                assert(t.last() == all[n as int]);
                assert forall|q: Seq<char>| #[trigger] lookup(kept@, q) == (if q == key@ {
                    None
                } else {
                    lookup(t, q)
                }) by {
                    assert(lookup(prev, q) == (if q == key@ {
                        None
                    } else {
                        lookup(all.take(n as int), q)
                    }));
                }
            }
            n += 1;
        }
        assert(all.take(n as int) =~= all);
        self.entries = kept;
        assert(self@ =~= old(self)@.remove(key@));
    }

    /// The number of entries: the number of keys.
    pub fn len(&self) -> (r: usize)
        ensures
            r == self.entry_seq().len(),
            self@.dom().finite(),
            self.wf() ==> r == self@.dom().len(),
    {
        proof {
            lemma_key_set(self.entries@);
            assert(self@.dom() =~= key_set(self.entries@));
        }
        self.entries.len()
    }

    /// Whether the map holds no key.
    pub fn is_empty(&self) -> (r: bool)
        ensures
            r <==> self@ == Map::<Seq<char>, V>::empty(),
    {
        if self.entries.len() == 0 {
            assert(self@ =~= Map::<Seq<char>, V>::empty());
            true
        } else {
            let last = self.entries.len() - 1;
            proof {
                lemma_lookup_at(self.entries@, last as int);
                assert(self@.contains_key(self.entries@[last as int].0@));
            }
            false
        }
    }

    /// The entries in the order of first insertion.
    pub fn entries(&self) -> (r: &Vec<(String, V)>)
        ensures
            r@ == self.entry_seq(),
    {
        &self.entries
    }
}

} // verus!
