//! A map from strings to strings that keeps its keys in increasing order, as container
//! labels and environment variables are kept.

use vstd::prelude::*;

use crate::order::{lemma_lex_transitive, lemma_lex_trichotomy, lex_lt, lex_order, strictly_sorted, LexOrder};
use crate::text::chars_of;

verus! {

/// Keys and values in increasing key order; no key occurs twice.
#[derive(Debug, PartialEq, Eq)]
pub struct StringMap {
    entries: Vec<(String, String)>,
}

/// The keys of a list of entries.
pub open spec fn entry_keys(e: Seq<(String, String)>) -> Seq<Seq<char>> {
    e.map_values(|p: (String, String)| p.0@)
}

/// The entries as pairs of character sequences.
pub open spec fn entry_pairs(e: Seq<(String, String)>) -> Seq<(Seq<char>, Seq<char>)> {
    e.map_values(|p: (String, String)| (p.0@, p.1@))
}

/// The map that a list of entries with distinct keys stands for.
pub open spec fn entries_map(e: Seq<(Seq<char>, Seq<char>)>) -> Map<Seq<char>, Seq<char>>
    decreases e.len(),
{
    if e.len() == 0 {
        Map::empty()
    } else {
        entries_map(e.drop_last()).insert(e.last().0, e.last().1)
    }
}

/// What an entry list with distinct keys maps each of its keys to, and that it maps
/// nothing else.
pub proof fn lemma_entries_map(e: Seq<(Seq<char>, Seq<char>)>)
    requires
        forall|i: int, j: int| 0 <= i < j < e.len() ==> #[trigger] e[i].0 != #[trigger] e[j].0,
    ensures
        forall|i: int| 0 <= i < e.len() ==> entries_map(e).contains_key(#[trigger] e[i].0) && entries_map(e)[e[i].0] == e[i].1,
        forall|k: Seq<char>| #[trigger] entries_map(e).contains_key(k) ==> exists|i: int| 0 <= i < e.len() && e[i].0 == k,
    decreases e.len(),
{
    if e.len() > 0 {
        let d = e.drop_last();
        lemma_entries_map(d);
        assert forall|i: int| 0 <= i < e.len() implies entries_map(e).contains_key(#[trigger] e[i].0) && entries_map(e)[e[i].0] == e[i].1 by {
            if i < e.len() - 1 {
                assert(d[i] == e[i]);
                assert(e[i].0 != e[e.len() - 1].0);
            }
        }
        assert forall|k: Seq<char>| #[trigger] entries_map(e).contains_key(k) implies exists|i: int| 0 <= i < e.len() && e[i].0 == k by {
            if k != e.last().0 {
                assert(entries_map(d).contains_key(k));
                let i = choose|i: int| 0 <= i < d.len() && d[i].0 == k;
                assert(e[i].0 == k);
            } else {
                assert(e[e.len() - 1].0 == k);
            }
        }
    }
}

impl StringMap {
    #[verifier::type_invariant]
    spec fn keys_sorted(self) -> bool {
        strictly_sorted(entry_keys(self.entries@))
    }

    /// The entries, in increasing key order.
    pub closed spec fn pairs(&self) -> Seq<(Seq<char>, Seq<char>)> {
        entry_pairs(self.entries@)
    }

    /// The map from keys to values.
    pub open spec fn view(&self) -> Map<Seq<char>, Seq<char>> {
        entries_map(self.pairs())
    }

    proof fn lemma_view(&self)
        requires
            strictly_sorted(entry_keys(self.entries@)),
        ensures
            strictly_sorted(entry_keys(self.entries@)),
            forall|i: int| 0 <= i < self.entries@.len() ==> self.view().contains_key(#[trigger] self.entries@[i].0@) && self.view()[self.entries@[i].0@] == self.entries@[i].1@,
            forall|k: Seq<char>| #[trigger] self.view().contains_key(k) ==> exists|i: int| 0 <= i < self.entries@.len() && self.entries@[i].0@ == k,
            self.view().dom().finite(),
            self.view().len() == self.entries@.len(),
            forall|a: int, b: int| 0 <= a < b < self.pairs().len() ==> #[trigger] self.pairs()[a].0 != #[trigger] self.pairs()[b].0,
    {
        let p = self.pairs();
        let keys = entry_keys(self.entries@);
        assert forall|i: int, j: int| 0 <= i < j < p.len() implies #[trigger] p[i].0 != #[trigger] p[j].0 by {
            assert(lex_lt(keys[i], keys[j]));
            lemma_lex_trichotomy(keys[i], keys[j]);
        }
        lemma_entries_map(p);
        assert forall|i: int| 0 <= i < self.entries@.len() implies self.view().contains_key(#[trigger] self.entries@[i].0@) && self.view()[self.entries@[i].0@] == self.entries@[i].1@ by {
            assert(p[i].0 == self.entries@[i].0@);
        }
        assert forall|k: Seq<char>| #[trigger] self.view().contains_key(k) implies exists|i: int| 0 <= i < self.entries@.len() && self.entries@[i].0@ == k by {
            let i = choose|i: int| 0 <= i < p.len() && p[i].0 == k;
            assert(self.entries@[i].0@ == k);
        }
        lemma_entries_map_len(p);
    }

    /// An empty map.
    pub fn new() -> (m: Self)
        ensures
            m@ == Map::<Seq<char>, Seq<char>>::empty(),
    {
        let m = StringMap { entries: Vec::new() };
        assert(m.pairs() =~= Seq::<(Seq<char>, Seq<char>)>::empty());
        m
    }

    /// The number of keys.
    pub fn len(&self) -> (n: usize)
        ensures
            n == self@.len(),
    {
        proof {
            use_type_invariant(&*self);
            self.lemma_view();
        }
        self.entries.len()
    }

    /// Whether the map has no key.
    pub fn is_empty(&self) -> (b: bool)
        ensures
            b == (self@.len() == 0),
    {
        proof {
            use_type_invariant(&*self);
            self.lemma_view();
        }
        self.entries.len() == 0
    }

    /// The index of `key`, or the index before which it would stand.
    fn position(&self, key: &[char]) -> (r: (usize, bool))
        ensures
            r.0 <= self.entries@.len(),
            r.1 ==> r.0 < self.entries@.len() && self.entries@[r.0 as int].0@ == key@,
            !r.1 ==> forall|i: int| 0 <= i < self.entries@.len() ==> self.entries@[i].0@ != key@,
            forall|i: int| 0 <= i < r.0 ==> lex_lt(#[trigger] self.entries@[i].0@, key@),
            forall|i: int| r.0 <= i < self.entries@.len() && !r.1 ==> lex_lt(key@, #[trigger] self.entries@[i].0@),
    {
        proof {
            use_type_invariant(self);
        }
        let ghost keys = entry_keys(self.entries@);
        let mut i: usize = 0;
        while i < self.entries.len()
            invariant
                i <= self.entries@.len(),
                keys == entry_keys(self.entries@),
                strictly_sorted(keys),
                forall|k: int| 0 <= k < i ==> lex_lt(#[trigger] self.entries@[k].0@, key@),
            decreases self.entries.len() - i,
        {
            let kc = chars_of(self.entries[i].0.as_str());
            match lex_order(&kc, key) {
                LexOrder::Before => {
                    i = i + 1;
                },
                LexOrder::Same => {
                    return (i, true);
                },
                LexOrder::After => {
                    proof {
                        assert forall|k: int| i <= k < self.entries@.len() implies lex_lt(key@, #[trigger] self.entries@[k].0@) by {
                            if k > i {
                                assert(keys[i as int] == self.entries@[i as int].0@);
                                assert(keys[k] == self.entries@[k].0@);
                                lemma_lex_transitive(key@, keys[i as int], keys[k]);
                            }
                        }
                        assert forall|k: int| 0 <= k < self.entries@.len() implies self.entries@[k].0@ != key@ by {
                            if k < i {
                                lemma_lex_trichotomy(self.entries@[k].0@, key@);
                            } else {
                                lemma_lex_trichotomy(key@, self.entries@[k].0@);
                            }
                        }
                    }
                    return (i, false);
                },
            }
        }
        proof {
            assert forall|k: int| 0 <= k < self.entries@.len() implies self.entries@[k].0@ != key@ by {
                lemma_lex_trichotomy(self.entries@[k].0@, key@);
            }
        }
        (i, false)
    }

    /// The value of `key`, if it has one.
    pub fn get(&self, key: &str) -> (r: Option<String>)
        ensures
            match r {
                Some(v) => self@.contains_key(key@) && v@ == self@[key@],
                None => !self@.contains_key(key@),
            },
    {
        proof {
            use_type_invariant(&*self);
            self.lemma_view();
        }
        let kc = chars_of(key);
        let (i, found) = self.position(&kc);
        if found {
            Some(self.entries[i].1.clone())
        } else {
            None
        }
    }

    /// Whether `key` has a value.
    pub fn contains_key(&self, key: &str) -> (b: bool)
        ensures
            b == self@.contains_key(key@),
    {
        proof {
            use_type_invariant(&*self);
            self.lemma_view();
        }
        let kc = chars_of(key);
        let (_i, found) = self.position(&kc);
        found
    }

    /// Gives `key` the value `value`, replacing any value it had.
    pub fn insert(&mut self, key: String, value: String)
        ensures
            final(self)@ == old(self)@.insert(key@, value@),
    {
        proof {
            use_type_invariant(&*self);
            self.lemma_view();
        }
        let kc = chars_of(key.as_str());
        let (i, found) = self.position(&kc);
        let mut e: Vec<(String, String)> = Vec::new();
        std::mem::swap(&mut e, &mut self.entries);
        let ghost old_e = e@;
        if found {
            e.set(i, (key, value));
        } else {
            e.insert(i, (key, value));
        }
        proof {
            let nk = entry_keys(e@);
            let ok = entry_keys(old_e);
            assert forall|a: int, b: int| 0 <= a < b < nk.len() implies lex_lt(#[trigger] nk[a], #[trigger] nk[b]) by {
                if found {
                    assert(ok[a] == old_e[a].0@);
                    assert(ok[b] == old_e[b].0@);
                } else {
                    if b < i {
                        assert(nk[a] == ok[a]);
                        assert(nk[b] == ok[b]);
                    } else if a > i {
                        assert(nk[a] == ok[a - 1]);
                        assert(nk[b] == ok[b - 1]);
                    } else if a == i {
                        assert(nk[b] == old_e[b - 1].0@);
                    } else if b == i {
                        assert(nk[a] == old_e[a].0@);
                    } else {
                        assert(nk[a] == old_e[a].0@);
                        assert(nk[b] == old_e[b - 1].0@);
                        lemma_lex_transitive(nk[a], key@, nk[b]);
                    }
                }
            }
        }
        self.entries = e;
        proof {
            use_type_invariant(&*self);
            self.lemma_view();
            let nv = self@;
            let ov = old(self)@;
            assert forall|k: Seq<char>| nv.contains_key(k) <==> ov.insert(key@, value@).contains_key(k) by {
                if nv.contains_key(k) {
                    let j = choose|j: int| 0 <= j < self.entries@.len() && self.entries@[j].0@ == k;
                    if k != key@ {
                        if found {
                            assert(old_e[j].0@ == k);
                        } else if j < i {
                            assert(old_e[j].0@ == k);
                        } else {
                            assert(old_e[j - 1].0@ == k);
                        }
                    }
                }
                if ov.contains_key(k) && k != key@ {
                    let j = choose|j: int| 0 <= j < old_e.len() && old_e[j].0@ == k;
                    if found || j < i {
                        assert(self.entries@[j].0@ == k);
                    } else {
                        assert(self.entries@[j + 1].0@ == k);
                    }
                }
                if k == key@ {
                    assert(self.entries@[i as int].0@ == k);
                }
            }
            assert forall|k: Seq<char>| nv.contains_key(k) implies nv[k] == ov.insert(key@, value@)[k] by {
                if k == key@ {
                    assert(self.entries@[i as int].0@ == k);
                } else {
                    let j = choose|j: int| 0 <= j < old_e.len() && old_e[j].0@ == k;
                    if found || j < i {
                        assert(self.entries@[j] == old_e[j]);
                    } else {
                        assert(self.entries@[j + 1] == old_e[j]);
                    }
                }
            }
            assert(nv =~= ov.insert(key@, value@));
        }
    }

    /// Removes `key` and its value, if it has one.
    pub fn remove(&mut self, key: &str)
        ensures
            final(self)@ == old(self)@.remove(key@),
    {
        proof {
            use_type_invariant(&*self);
            self.lemma_view();
        }
        let kc = chars_of(key);
        let (i, found) = self.position(&kc);
        if !found {
            assert(self@ =~= old(self)@.remove(key@));
            return;
        }
        let mut e: Vec<(String, String)> = Vec::new();
        std::mem::swap(&mut e, &mut self.entries);
        let ghost old_e = e@;
        e.remove(i);
        proof {
            let nk = entry_keys(e@);
            let ok = entry_keys(old_e);
            assert(strictly_sorted(ok));
            assert forall|a: int, b: int| 0 <= a < b < nk.len() implies lex_lt(#[trigger] nk[a], #[trigger] nk[b]) by {
                if b < i {
                    assert(nk[a] == ok[a]);
                    assert(nk[b] == ok[b]);
                } else if a >= i {
                    assert(nk[a] == ok[a + 1]);
                    assert(nk[b] == ok[b + 1]);
                } else {
                    assert(nk[a] == ok[a]);
                    assert(nk[b] == ok[b + 1]);
                }
            }
        }
        self.entries = e;
        proof {
            use_type_invariant(&*self);
            self.lemma_view();
            let nv = self@;
            let ov = old(self)@;
            assert forall|k: Seq<char>| nv.contains_key(k) <==> ov.remove(key@).contains_key(k) by {
                if nv.contains_key(k) {
                    let ok = entry_keys(old_e);
                    let j = choose|j: int| 0 <= j < self.entries@.len() && self.entries@[j].0@ == k;
                    let jj = if j < i { j } else { j + 1 };
                    assert(old_e[jj].0@ == k);
                    assert(ok[jj] == k);
                    assert(ok[i as int] == key@);
                    if jj < i {
                        assert(lex_lt(ok[jj], ok[i as int]));
                        lemma_lex_trichotomy(ok[jj], ok[i as int]);
                    } else {
                        assert(lex_lt(ok[i as int], ok[jj]));
                        lemma_lex_trichotomy(ok[i as int], ok[jj]);
                    }
                }
                if ov.contains_key(k) && k != key@ {
                    let j = choose|j: int| 0 <= j < old_e.len() && old_e[j].0@ == k;
                    if j < i {
                        assert(self.entries@[j].0@ == k);
                    } else {
                        assert(j != i);
                        assert(self.entries@[j - 1].0@ == k);
                    }
                }
            }
            assert forall|k: Seq<char>| nv.contains_key(k) implies nv[k] == ov.remove(key@)[k] by {
                let j = choose|j: int| 0 <= j < self.entries@.len() && self.entries@[j].0@ == k;
                if j < i {
                    assert(self.entries@[j] == old_e[j]);
                } else {
                    assert(self.entries@[j] == old_e[j + 1]);
                }
            }
            assert(nv =~= ov.remove(key@));
        }
    }

    /// Adds every entry of `other`, its values replacing those of the same keys.
    pub fn extend(&mut self, other: &StringMap)
        ensures
            final(self)@ == old(self)@.union_prefer_right(other@),
    {
        proof {
            use_type_invariant(other);
            other.lemma_view();
        }
        let mut i: usize = 0;
        while i < other.entries.len()
            invariant
                i <= other.entries@.len(),
                self@ == old(self)@.union_prefer_right(entries_map(other.pairs().take(i as int))),
                forall|a: int, b: int| 0 <= a < b < other.pairs().len() ==> #[trigger] other.pairs()[a].0 != #[trigger] other.pairs()[b].0,
            decreases other.entries.len() - i,
        {
            let k = other.entries[i].0.clone();
            let v = other.entries[i].1.clone();
            let ghost before = self@;
            self.insert(k, v);
            proof {
                let t = other.pairs().take(i + 1);
                assert(t.drop_last() =~= other.pairs().take(i as int));
                assert(entries_map(t) == entries_map(other.pairs().take(i as int)).insert(other.pairs()[i as int].0, other.pairs()[i as int].1));
                assert(self@ =~= old(self)@.union_prefer_right(entries_map(t)));
            }
            i = i + 1;
        }
        assert(other.pairs().take(other.entries@.len() as int) =~= other.pairs());
    }

    /// The keys and values, in increasing key order.
    pub fn entries(&self) -> (r: &Vec<(String, String)>)
        ensures
            entry_pairs(r@) == self.pairs(),
            strictly_sorted(entry_keys(r@)),
            forall|i: int| 0 <= i < r@.len() ==> self@.contains_key(#[trigger] r@[i].0@) && self@[r@[i].0@] == r@[i].1@,
            forall|k: Seq<char>| #[trigger] self@.contains_key(k) ==> exists|i: int| 0 <= i < r@.len() && r@[i].0@ == k,
    {
        proof {
            use_type_invariant(&*self);
            self.lemma_view();
        }
        &self.entries
    }
}

impl Clone for StringMap {
    /// A map with the same entries.
    fn clone(&self) -> (r: Self)
        ensures
            r@ == self@,
            r.pairs() == self.pairs(),
    {
        proof {
            use_type_invariant(self);
        }
        let mut e: Vec<(String, String)> = Vec::new();
        let mut i: usize = 0;
        while i < self.entries.len()
            invariant
                i <= self.entries@.len(),
                entry_pairs(e@) == entry_pairs(self.entries@.take(i as int)),
                strictly_sorted(entry_keys(self.entries@)),
            decreases self.entries.len() - i,
        {
            let k = self.entries[i].0.clone();
            let v = self.entries[i].1.clone();
            e.push((k, v));
            assert(entry_pairs(self.entries@.take(i + 1)) =~= entry_pairs(self.entries@.take(i as int)).push((self.entries@[i as int].0@, self.entries@[i as int].1@)));
            assert(entry_pairs(e@) =~= entry_pairs(self.entries@.take(i + 1)));
            i = i + 1;
        }
        assert(self.entries@.take(self.entries@.len() as int) =~= self.entries@);
        assert(entry_keys(e@) =~= entry_keys(self.entries@)) by {
            assert forall|j: int| 0 <= j < e@.len() implies entry_keys(e@)[j] == entry_keys(self.entries@)[j] by {
                assert(entry_pairs(e@)[j] == entry_pairs(self.entries@)[j]);
            }
        }
        StringMap { entries: e }
    }
}

/// An entry list with distinct keys maps as many keys as it has entries.
proof fn lemma_entries_map_len(e: Seq<(Seq<char>, Seq<char>)>)
    requires
        forall|i: int, j: int| 0 <= i < j < e.len() ==> #[trigger] e[i].0 != #[trigger] e[j].0,
    ensures
        entries_map(e).dom().finite(),
        entries_map(e).len() == e.len(),
    decreases e.len(),
{
    if e.len() > 0 {
        let d = e.drop_last();
        lemma_entries_map_len(d);
        lemma_entries_map(d);
        if entries_map(d).contains_key(e.last().0) {
            let i = choose|i: int| 0 <= i < d.len() && d[i].0 == e.last().0;
            assert(e[i].0 == e[e.len() - 1].0);
        }
    }
}

} // verus!
