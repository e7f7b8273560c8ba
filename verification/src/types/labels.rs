//! String-to-string maps, as objects carry them for labels and annotations.

use crate::text::{
    lemma_str_lt_irreflexive, lemma_str_lt_total, lemma_str_lt_transitive, str_lt, string_eq,
    string_lt,
};
use vstd::prelude::*;

verus! {

/// Whether the keys of `e` rise strictly from entry to entry.
pub open spec fn keys_rise(e: Seq<(Seq<char>, Seq<char>)>) -> bool {
    forall|i: int, j: int| 0 <= i < j < e.len() ==> str_lt(#[trigger] e[i].0, #[trigger] e[j].0)
}

/// Whether some entry of `e` has the key `k`.
pub open spec fn has_key(e: Seq<(Seq<char>, Seq<char>)>, k: Seq<char>) -> bool {
    exists|i: int| 0 <= i < e.len() && (#[trigger] e[i]).0 == k
}

/// The place of an entry of `e` with the key `k`, where there is one.
pub open spec fn index_of(e: Seq<(Seq<char>, Seq<char>)>, k: Seq<char>) -> int {
    choose|i: int| 0 <= i < e.len() && (#[trigger] e[i]).0 == k
}

/// The map that the entries of `e` make up.
pub open spec fn map_of(e: Seq<(Seq<char>, Seq<char>)>) -> Map<Seq<char>, Seq<char>> {
    Map::new(|k: Seq<char>| has_key(e, k), |k: Seq<char>| e[index_of(e, k)].1)
}

/// With rising keys, each entry is what the map holds under its key.
pub proof fn lemma_map_of_entry(e: Seq<(Seq<char>, Seq<char>)>, i: int)
    requires
        keys_rise(e),
        0 <= i < e.len(),
    ensures
        map_of(e).dom().contains(e[i].0),
        map_of(e)[e[i].0] == e[i].1,
{
    let k = e[i].0;
    assert(has_key(e, k));
    let j = index_of(e, k);
    if j != i {
        lemma_str_lt_irreflexive(k);
        if j < i {
            assert(str_lt(e[j].0, e[i].0));
        } else {
            assert(str_lt(e[i].0, e[j].0));
        }
    }
}

/// With rising keys, the map has as many entries as the list.
pub proof fn lemma_map_of_len(e: Seq<(Seq<char>, Seq<char>)>)
    requires
        keys_rise(e),
    ensures
        map_of(e).dom().finite(),
        map_of(e).dom().len() == e.len(),
    decreases e.len(),
{
    if e.len() == 0 {
        assert(map_of(e).dom() =~= Set::<Seq<char>>::empty());
    } else {
        let before = e.drop_last();
        let k = e.last().0;
        assert(keys_rise(before)) by {
            assert forall|i: int, j: int| 0 <= i < j < before.len() implies str_lt(
                #[trigger] before[i].0,
                #[trigger] before[j].0,
            ) by {
                assert(before[i] == e[i] && before[j] == e[j]);
            }
        }
        lemma_map_of_len(before);
        assert(!has_key(before, k)) by {
            if has_key(before, k) {
                let j = index_of(before, k);
                assert(before[j] == e[j]);
                assert(str_lt(e[j].0, e[e.len() - 1].0));
                lemma_str_lt_irreflexive(k);
            }
        }
        assert(map_of(e).dom() =~= map_of(before).dom().insert(k)) by {
            assert forall|q: Seq<char>| has_key(e, q) <==> (q == k || has_key(before, q)) by {
                if has_key(e, q) {
                    let j = index_of(e, q);
                    if j < before.len() {
                        assert(before[j].0 == q);
                    }
                }
                if has_key(before, q) {
                    let j = index_of(before, q);
                    assert(e[j].0 == q);
                }
                if q == k {
                    assert(e[e.len() - 1].0 == q);
                }
            }
        }
    }
}

/// A copy of a list of pairs of strings.
pub fn clone_pairs(v: &Vec<(String, String)>) -> (r: Vec<(String, String)>)
    ensures
        r@.len() == v@.len(),
        r.deep_view() == v.deep_view(),
{
    let mut r: Vec<(String, String)> = Vec::new();
    let mut i: usize = 0;
    while i < v.len()
        invariant
            i <= v.len(),
            r@.len() == i,
            r.deep_view() == v.deep_view().take(i as int),
        decreases v.len() - i,
    {
        let ghost prev = r@;
        let k = v[i].0.clone();
        let x = v[i].1.clone();
        r.push((k, x));
        proof {
            assert(r@ == prev.push((k, x)));
            assert forall|j: int| 0 <= j < r.len() implies #[trigger] r.deep_view()[j]
                == v.deep_view()[j] by {
                if j < i {
                    assert(r@[j] == prev[j]);
                    assert(v.deep_view().take(i as int)[j] == v.deep_view()[j]);
                } else {
                    assert(r@[j] == (k, x));
                    assert(v@[j].0 == k && v@[j].1 == x);
                }
            }
            assert(r.deep_view() =~= v.deep_view().take(i + 1));
        }
        i += 1;
    }
    assert(v.deep_view().take(v.len() as int) =~= v.deep_view());
    r
}

/// A map from strings to strings. Its entries are kept in the order of their
/// keys, so that two maps with the same contents are the same value.
#[derive(Debug, PartialEq, Eq)]
pub struct Labels {
    entries: Vec<(String, String)>,
}

impl DeepView for Labels {
    type V = Map<Seq<char>, Seq<char>>;

    closed spec fn deep_view(&self) -> Map<Seq<char>, Seq<char>> {
        map_of(self.entries.deep_view())
    }
}

impl View for Labels {
    type V = Map<Seq<char>, Seq<char>>;

    open spec fn view(&self) -> Map<Seq<char>, Seq<char>> {
        self.deep_view()
    }
}

impl Clone for Labels {
    fn clone(&self) -> (r: Self)
        ensures
            r@ == self@,
            r.pairs() == self.pairs(),
    {
        proof {
            use_type_invariant(self);
        }
        Labels { entries: clone_pairs(&self.entries) }
    }
}

impl Labels {
    /// The entries as pairs of key and value, in the order of the keys.
    pub closed spec fn pairs(&self) -> Seq<(Seq<char>, Seq<char>)> {
        self.entries.deep_view()
    }

    /// The invariant of the type: keys rise strictly, so none occurs twice.
    #[verifier::type_invariant]
    closed spec fn wf(&self) -> bool {
        keys_rise(self.entries.deep_view())
    }

    /// The view is the map that the entries make up.
    pub proof fn lemma_view(&self)
        ensures
            self@ == map_of(self.pairs()),
    {
    }

    /// The map without entries.
    pub fn new() -> (r: Self)
        ensures
            r@ == Map::<Seq<char>, Seq<char>>::empty(),
            r.pairs() == Seq::<(Seq<char>, Seq<char>)>::empty(),
    {
        let r = Labels { entries: Vec::new() };
        assert(r.entries.deep_view() =~= Seq::<(Seq<char>, Seq<char>)>::empty());
        assert(r@ =~= Map::<Seq<char>, Seq<char>>::empty());
        r
    }

    /// The number of entries.
    pub fn len(&self) -> (n: usize)
        ensures
            n == self.pairs().len(),
            self@.dom().finite(),
            n == self@.dom().len(),
    {
        proof {
            use_type_invariant(self);
            lemma_map_of_len(self.entries.deep_view());
        }
        self.entries.len()
    }

    /// The value under `key`, if the map has one.
    pub fn get(&self, key: &str) -> (r: Option<String>)
        ensures
            r.deep_view() == (if self@.dom().contains(key@) {
                Some(self@[key@])
            } else {
                None
            }),
    {
        proof {
            use_type_invariant(self);
        }
        let ghost e = self.entries.deep_view();
        let mut i: usize = 0;
        while i < self.entries.len()
            invariant
                i <= self.entries.len(),
                e == self.entries.deep_view(),
                keys_rise(e),
                forall|k: int| 0 <= k < i ==> (#[trigger] e[k]).0 != key@,
            decreases self.entries.len() - i,
        {
            if string_eq(self.entries[i].0.as_str(), key) {
                proof {
                    lemma_map_of_entry(e, i as int);
                }
                return Some(self.entries[i].1.clone());
            }
            i += 1;
        }
        None
    }

    /// Puts `value` under `key`, in place of what was there.
    pub fn insert(&mut self, key: String, value: String)
        ensures
            final(self)@ == old(self)@.insert(key@, value@),
    {
        proof {
            use_type_invariant(&*self);
        }
        let ghost e = self.entries.deep_view();
        let mut i: usize = 0;
        while i < self.entries.len() && string_lt(self.entries[i].0.as_str(), key.as_str())
            invariant
                i <= self.entries.len(),
                e == self.entries.deep_view(),
                forall|k: int| 0 <= k < i ==> str_lt((#[trigger] e[k]).0, key@),
            decreases self.entries.len() - i,
        {
            i += 1;
        }
        if i < self.entries.len() && string_eq(self.entries[i].0.as_str(), key.as_str()) {
            let mut entries = clone_pairs(&self.entries);
            entries.set(i, (key, value));
            proof {
                let f = entries.deep_view();
                assert(f =~= e.update(i as int, (key@, value@)));
                assert(keys_rise(f)) by {
                    assert forall|a: int, b: int| 0 <= a < b < f.len() implies str_lt(
                        #[trigger] f[a].0,
                        #[trigger] f[b].0,
                    ) by {
                        assert(f[a].0 == e[a].0 && f[b].0 == e[b].0);
                    }
                }
                assert(map_of(f) =~= map_of(e).insert(key@, value@)) by {
                    assert forall|q: Seq<char>| has_key(f, q) <==> (q == key@ || has_key(e, q)) by {
                        if has_key(f, q) {
                            let j = index_of(f, q);
                            assert(e[j].0 == q);
                        }
                        if has_key(e, q) {
                            let j = index_of(e, q);
                            assert(f[j].0 == q);
                        }
                        if q == key@ {
                            assert(f[i as int].0 == q);
                        }
                    }
                    assert forall|q: Seq<char>| has_key(f, q) implies map_of(f)[q] == map_of(
                        e,
                    ).insert(key@, value@)[q] by {
                        let j = index_of(f, q);
                        lemma_map_of_entry(f, j);
                        if q != key@ {
                            assert(j != i);
                            assert(e[j] == f[j]);
                            lemma_map_of_entry(e, j);
                        } else {
                            if j != i {
                                lemma_str_lt_irreflexive(q);
                                if j < i {
                                    assert(str_lt(f[j].0, f[i as int].0));
                                } else {
                                    assert(str_lt(f[i as int].0, f[j].0));
                                }
                            }
                        }
                    }
                }
            }
            *self = Labels { entries };
        } else {
            proof {
                if i < e.len() {
                    lemma_str_lt_total(e[i as int].0, key@);
                }
            }
            let mut entries = clone_pairs(&self.entries);
            entries.insert(i, (key, value));
            proof {
                let f = entries.deep_view();
                assert(f =~= e.insert(i as int, (key@, value@)));
                assert(keys_rise(f)) by {
                    assert forall|a: int, b: int| 0 <= a < b < f.len() implies str_lt(
                        #[trigger] f[a].0,
                        #[trigger] f[b].0,
                    ) by {
                        if b < i {
                            assert(f[a] == e[a] && f[b] == e[b]);
                        } else if b == i {
                            assert(f[a] == e[a]);
                        } else if a == i {
                            assert(f[b] == e[b - 1]);
                            if b - 1 > i {
                                assert(str_lt(e[i as int].0, e[b - 1].0));
                                lemma_str_lt_transitive(key@, e[i as int].0, e[b - 1].0);
                            }
                        } else if a < i {
                            assert(f[a] == e[a] && f[b] == e[b - 1]);
                            lemma_str_lt_transitive(e[a].0, key@, e[i as int].0);
                            if b - 1 > i {
                                assert(str_lt(e[a].0, e[b - 1].0));
                            }
                        } else {
                            assert(f[a] == e[a - 1] && f[b] == e[b - 1]);
                        }
                    }
                }
                assert(map_of(f) =~= map_of(e).insert(key@, value@)) by {
                    assert forall|q: Seq<char>| has_key(f, q) <==> (q == key@ || has_key(e, q)) by {
                        if has_key(f, q) {
                            let j = index_of(f, q);
                            if j < i {
                                assert(e[j].0 == q);
                            } else if j > i {
                                assert(e[j - 1].0 == q);
                            }
                        }
                        if has_key(e, q) {
                            let j = index_of(e, q);
                            if j < i {
                                assert(f[j].0 == q);
                            } else {
                                assert(f[j + 1].0 == q);
                            }
                        }
                        if q == key@ {
                            assert(f[i as int].0 == q);
                        }
                    }
                    assert forall|q: Seq<char>| has_key(f, q) implies map_of(f)[q] == map_of(
                        e,
                    ).insert(key@, value@)[q] by {
                        let j = index_of(f, q);
                        lemma_map_of_entry(f, j);
                        lemma_map_of_entry(f, i as int);
                        if q != key@ {
                            if j < i {
                                assert(e[j] == f[j]);
                                lemma_map_of_entry(e, j);
                            } else {
                                assert(e[j - 1] == f[j]);
                                lemma_map_of_entry(e, j - 1);
                            }
                        }
                    }
                }
            }
            *self = Labels { entries };
        }
    }

    /// The map with the one entry `key`, `value`.
    pub fn single(key: String, value: String) -> (r: Self)
        ensures
            r@ == Map::<Seq<char>, Seq<char>>::empty().insert(key@, value@),
            r.pairs() == seq![(key@, value@)],
    {
        let mut entries: Vec<(String, String)> = Vec::new();
        entries.push((key, value));
        let r = Labels { entries };
        proof {
            let f = r.entries.deep_view();
            assert(f =~= seq![(key@, value@)]);
            lemma_map_of_entry(f, 0);
            assert(map_of(f) =~= Map::<Seq<char>, Seq<char>>::empty().insert(key@, value@)) by {
                assert forall|q: Seq<char>| has_key(f, q) implies q == key@ by {
                    let j = index_of(f, q);
                }
            }
        }
        r
    }

    /// The entries as pairs of key and value, in the order of the keys:
    /// each key once, and with it the value that the map holds under it.
    pub fn to_vec(&self) -> (r: Vec<(String, String)>)
        ensures
            r.deep_view() == self.pairs(),
            keys_rise(r.deep_view()),
            map_of(r.deep_view()) == self@,
    {
        proof {
            use_type_invariant(self);
        }
        clone_pairs(&self.entries)
    }
}

} // verus!
