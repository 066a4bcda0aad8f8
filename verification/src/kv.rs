//! A string-keyed map with unique keys, kept in insertion order.
use vstd::prelude::*;
use crate::text::{chars_eq, chars_of};

verus! {

/// Whether no two entries of `s` share a key.
pub open spec fn keys_distinct(s: Seq<(Seq<char>, Seq<char>)>) -> bool {
    forall|i: int, j: int| 0 <= i < j < s.len() ==> s[i].0 != s[j].0
}

/// Whether some entry of `s` has key `k`.
pub open spec fn has_key(s: Seq<(Seq<char>, Seq<char>)>, k: Seq<char>) -> bool {
    exists|i: int| 0 <= i < s.len() && s[i].0 == k
}

/// The map that the entries `s` describe.
pub open spec fn entries_map(s: Seq<(Seq<char>, Seq<char>)>) -> Map<Seq<char>, Seq<char>> {
    Map::new(
        |k: Seq<char>| has_key(s, k),
        |k: Seq<char>| s[choose|i: int| 0 <= i < s.len() && s[i].0 == k].1,
    )
}

/// The view of a sequence of string pairs.
pub open spec fn pairs_view(v: Seq<(String, String)>) -> Seq<(Seq<char>, Seq<char>)> {
    v.map_values(|p: (String, String)| (p.0@, p.1@))
}

/// A map from strings to strings. Each key occurs at most once.
#[derive(Debug)]
pub struct StringMap {
    entries: Vec<(String, String)>,
}

impl View for StringMap {
    type V = Map<Seq<char>, Seq<char>>;

    open spec fn view(&self) -> Map<Seq<char>, Seq<char>> {
        entries_map(self.pairs())
    }
}

impl StringMap {
    /// The entries, in insertion order.
    pub closed spec fn pairs(&self) -> Seq<(Seq<char>, Seq<char>)> {
        pairs_view(self.entries@)
    }

    #[verifier::type_invariant]
    spec fn wf(&self) -> bool {
        keys_distinct(pairs_view(self.entries@))
    }

    /// A copy of this map with the same entries in the same order.
    pub fn duplicate(&self) -> (r: StringMap)
        ensures
            r.pairs() == self.pairs(),
            r@ == self@,
    {
        proof {
            use_type_invariant(self);
        }
        let mut entries: Vec<(String, String)> = Vec::new();
        let mut i: usize = 0;
        while i < self.entries.len()
            invariant
                i <= self.entries.len(),
                entries@ == self.entries@.subrange(0, i as int),
            decreases self.entries.len() - i,
        {
            let k = self.entries[i].0.clone();
            let v = self.entries[i].1.clone();
            entries.push((k, v));
            i = i + 1;
            assert(entries@ =~= self.entries@.subrange(0, i as int));
        }
        assert(entries@ =~= self.entries@);
        StringMap { entries }
    }

    /// The empty map.
    pub fn new() -> (r: StringMap)
        ensures
            r@ == Map::<Seq<char>, Seq<char>>::empty(),
            r.pairs() == Seq::<(Seq<char>, Seq<char>)>::empty(),
    {
        let r = StringMap { entries: Vec::new() };
        assert(r@ =~= Map::<Seq<char>, Seq<char>>::empty());
        assert(r.pairs() =~= Seq::<(Seq<char>, Seq<char>)>::empty());
        r
    }

    /// The number of entries.
    pub fn len(&self) -> (r: usize)
        ensures
            r == self.pairs().len(),
    {
        self.entries.len()
    }

    /// The entries, in insertion order.
    pub fn entries(&self) -> (r: &Vec<(String, String)>)
        ensures
            pairs_view(r@) == self.pairs(),
            keys_distinct(self.pairs()),
    {
        proof {
            use_type_invariant(self);
        }
        &self.entries
    }

    /// The map with the same keys, in the same order, whose `i`-th value is
    /// `values[i]`.
    pub fn with_values(&self, values: Vec<String>) -> (r: StringMap)
        requires
            values@.len() == self.pairs().len(),
        ensures
            r.pairs().len() == self.pairs().len(),
            forall|i: int| 0 <= i < r.pairs().len() ==> #[trigger] r.pairs()[i] == (self.pairs()[i].0, values@[i]@),
    {
        proof {
            use_type_invariant(self);
        }
        let mut entries: Vec<(String, String)> = Vec::new();
        let mut i: usize = 0;
        while i < self.entries.len()
            invariant
                values@.len() == self.entries@.len(),
                i <= self.entries.len(),
                entries@.len() == i,
                forall|j: int| 0 <= j < i ==> #[trigger] entries@[j].0@ == self.entries@[j].0@
                    && entries@[j].1@ == values@[j]@,
            decreases self.entries.len() - i,
        {
            entries.push((self.entries[i].0.clone(), values[i].clone()));
            i = i + 1;
        }
        assert(keys_distinct(pairs_view(entries@))) by {
            assert forall|a: int, b: int| 0 <= a < b < pairs_view(entries@).len() implies
                pairs_view(entries@)[a].0 != pairs_view(entries@)[b].0 by {
                assert(pairs_view(self.entries@)[a].0 != pairs_view(self.entries@)[b].0);
            }
        }
        StringMap { entries }
    }

    /// The position of key `k`, if present.
    fn find(&self, k: &str) -> (r: Option<usize>)
        ensures
            r matches Some(i) ==> i < self.pairs().len() && self.pairs()[i as int].0 == k@,
            r is None ==> !has_key(self.pairs(), k@),
    {
        let kc = chars_of(k);
        let mut i: usize = 0;
        while i < self.entries.len()
            invariant
                kc@ == k@,
                i <= self.entries.len(),
                forall|j: int| 0 <= j < i ==> self.pairs()[j].0 != k@,
            decreases self.entries.len() - i,
        {
            let ec = chars_of(self.entries[i].0.as_str());
            if chars_eq(ec.as_slice(), kc.as_slice()) {
                return Some(i);
            }
            i = i + 1;
        }
        None
    }

    /// The value stored under `k`, if any.
    pub fn get(&self, k: &str) -> (r: Option<&String>)
        ensures
            r is Some <==> self@.dom().contains(k@),
            r matches Some(v) ==> v@ == self@[k@],
    {
        proof {
            use_type_invariant(self);
        }
        match self.find(k) {
            Some(i) => {
                proof {
                    let s = self.pairs();
                    let c = choose|j: int| 0 <= j < s.len() && s[j].0 == k@;
                    assert(s[c].0 == s[i as int].0);
                }
                Some(&self.entries[i].1)
            },
            None => None,
        }
    }

    /// Sets the value stored under `k` to `v`.
    pub fn insert(&mut self, k: String, v: String)
        ensures
            final(self)@ == old(self)@.insert(k@, v@),
    {
        proof {
            use_type_invariant(&*self);
        }
        let ghost old_pairs = self.pairs();
        match self.find(k.as_str()) {
            Some(i) => {
                let ghost kk = k@;
                let mut e: Vec<(String, String)> = Vec::new();
                std::mem::swap(&mut e, &mut self.entries);
                e.set(i, (k, v));
                assert(keys_distinct(pairs_view(e@))) by {
                    assert(pairs_view(e@) =~= old_pairs.update(i as int, (kk, v@)));
                }
                std::mem::swap(&mut e, &mut self.entries);
                proof {
                    let s = self.pairs();
                    assert(s =~= old_pairs.update(i as int, (kk, v@)));
                    assert(entries_map(s) =~= entries_map(old_pairs).insert(kk, v@)) by {
                        assert forall|key: Seq<char>| #[trigger] has_key(s, key) implies
                            entries_map(s)[key] == entries_map(old_pairs).insert(kk, v@)[key] by {
                            let c = choose|j: int| 0 <= j < s.len() && s[j].0 == key;
                            if key != kk {
                                let c2 = choose|j: int| 0 <= j < old_pairs.len() && old_pairs[j].0 == key;
                                assert(old_pairs[c].0 == key);
                            }
                        }
                        assert forall|key: Seq<char>| has_key(old_pairs, key) || key == kk implies
                            #[trigger] has_key(s, key) by {
                            if key == kk {
                                assert(s[i as int].0 == key);
                            } else {
                                let c2 = choose|j: int| 0 <= j < old_pairs.len() && old_pairs[j].0 == key;
                                assert(s[c2].0 == key);
                            }
                        }
                    }
                }
            },
            None => {
                let ghost kk = k@;
                let mut e: Vec<(String, String)> = Vec::new();
                std::mem::swap(&mut e, &mut self.entries);
                e.push((k, v));
                assert(keys_distinct(pairs_view(e@))) by {
                    assert(pairs_view(e@) =~= old_pairs.push((kk, v@)));
                }
                std::mem::swap(&mut e, &mut self.entries);
                proof {
                    let s = self.pairs();
                    assert(s =~= old_pairs.push((kk, v@)));
                    assert(entries_map(s) =~= entries_map(old_pairs).insert(kk, v@)) by {
                        assert forall|key: Seq<char>| #[trigger] has_key(s, key) implies
                            entries_map(s)[key] == entries_map(old_pairs).insert(kk, v@)[key] by {
                            let c = choose|j: int| 0 <= j < s.len() && s[j].0 == key;
                            if key != kk {
                                let c2 = choose|j: int| 0 <= j < old_pairs.len() && old_pairs[j].0 == key;
                                assert(s[c2].0 == key);
                            } else {
                                assert(s[old_pairs.len() as int].0 == key);
                            }
                        }
                        assert forall|key: Seq<char>| has_key(old_pairs, key) || key == kk implies
                            #[trigger] has_key(s, key) by {
                            if key == kk {
                                assert(s[old_pairs.len() as int].0 == key);
                            } else {
                                let c2 = choose|j: int| 0 <= j < old_pairs.len() && old_pairs[j].0 == key;
                                assert(s[c2].0 == key);
                            }
                        }
                    }
                }
            },
        }
    }

    /// Removes the entry stored under `k`, if any.
    pub fn remove(&mut self, k: &str)
        ensures
            final(self)@ == old(self)@.remove(k@),
    {
        proof {
            use_type_invariant(&*self);
        }
        let ghost old_pairs = self.pairs();
        match self.find(k) {
            Some(i) => {
                let mut e: Vec<(String, String)> = Vec::new();
                std::mem::swap(&mut e, &mut self.entries);
                let _ = e.remove(i);
                assert(keys_distinct(pairs_view(e@))) by {
                    assert(pairs_view(e@) =~= old_pairs.remove(i as int));
                }
                std::mem::swap(&mut e, &mut self.entries);
                proof {
                    let s = self.pairs();
                    assert(s =~= old_pairs.remove(i as int));
                    assert(entries_map(s) =~= entries_map(old_pairs).remove(k@)) by {
                        assert forall|key: Seq<char>| #[trigger] has_key(s, key) implies
                            key != k@ && has_key(old_pairs, key)
                            && entries_map(s)[key] == entries_map(old_pairs)[key] by {
                            let c = choose|j: int| 0 <= j < s.len() && s[j].0 == key;
                            let oc = if c < i { c } else { c + 1 };
                            assert(old_pairs[oc].0 == key);
                            let c2 = choose|j: int| 0 <= j < old_pairs.len() && old_pairs[j].0 == key;
                        }
                        assert forall|key: Seq<char>| has_key(old_pairs, key) && key != k@ implies
                            #[trigger] has_key(s, key) by {
                            let c2 = choose|j: int| 0 <= j < old_pairs.len() && old_pairs[j].0 == key;
                            if c2 < i {
                                assert(s[c2].0 == key);
                            } else {
                                assert(s[c2 - 1].0 == key);
                            }
                        }
                    }
                }
            },
            None => {
                assert(entries_map(old_pairs) =~= entries_map(old_pairs).remove(k@));
            },
        }
    }
}

/// With distinct keys, the value the map holds for the key of entry `i` is
/// the value of that entry.
pub proof fn lemma_entry_in_map(s: Seq<(Seq<char>, Seq<char>)>, i: int)
    requires
        keys_distinct(s),
        0 <= i < s.len(),
    ensures
        entries_map(s).dom().contains(s[i].0),
        entries_map(s)[s[i].0] == s[i].1,
{
    let k = s[i].0;
    assert(has_key(s, k));
    let c = choose|j: int| 0 <= j < s.len() && s[j].0 == k;
    if c != i {
        if c < i {
            assert(s[c].0 != s[i].0);
        } else {
            assert(s[i].0 != s[c].0);
        }
    }
}

/// Every key of the map is the key of some entry.
pub proof fn lemma_map_key_entry(s: Seq<(Seq<char>, Seq<char>)>, k: Seq<char>)
    requires
        keys_distinct(s),
        entries_map(s).dom().contains(k),
    ensures
        exists|i: int| 0 <= i < s.len() && s[i].0 == k && entries_map(s)[k] == s[i].1,
{
    let i = choose|i: int| 0 <= i < s.len() && s[i].0 == k;
    lemma_entry_in_map(s, i);
}

/// With distinct keys, the map of the first `i + 1` entries is that of the
/// first `i` with entry `i` added.
pub proof fn lemma_prefix_step(s: Seq<(Seq<char>, Seq<char>)>, i: int)
    requires
        keys_distinct(s),
        0 <= i < s.len(),
    ensures
        entries_map(s.subrange(0, i + 1)) == entries_map(s.subrange(0, i)).insert(s[i].0, s[i].1),
{
    let a = s.subrange(0, i);
    let b = s.subrange(0, i + 1);
    assert(keys_distinct(b));
    assert(keys_distinct(a));
    assert forall|k: Seq<char>| #[trigger] has_key(b, k) <==> (has_key(a, k) || k == s[i].0) by {
        if has_key(b, k) {
            let j = choose|j: int| 0 <= j < b.len() && b[j].0 == k;
            if j < i {
                assert(a[j].0 == k);
            }
        }
        if has_key(a, k) {
            let j = choose|j: int| 0 <= j < a.len() && a[j].0 == k;
            assert(b[j].0 == k);
        }
        if k == s[i].0 {
            assert(b[i].0 == k);
        }
    }
    assert forall|k: Seq<char>| has_key(b, k) implies
        #[trigger] entries_map(b)[k] == entries_map(a).insert(s[i].0, s[i].1)[k] by {
        if k == s[i].0 {
            lemma_entry_in_map(b, i);
        } else {
            let j = choose|j: int| 0 <= j < a.len() && a[j].0 == k;
            lemma_entry_in_map(a, j);
            lemma_entry_in_map(b, j);
        }
    }
    assert(entries_map(b) =~= entries_map(a).insert(s[i].0, s[i].1));
}

/// Entries with the keys of `a`, in order, whose values are those of `a`
/// put through `f`, describe the map of `a` with its values put through `f`.
pub proof fn lemma_pointwise_values(
    a: Seq<(Seq<char>, Seq<char>)>,
    b: Seq<(Seq<char>, Seq<char>)>,
    f: spec_fn(Seq<char>) -> Seq<char>,
)
    requires
        keys_distinct(a),
        a.len() == b.len(),
        forall|i: int| 0 <= i < b.len() ==> #[trigger] b[i] == (a[i].0, f(a[i].1)),
    ensures
        entries_map(b) == entries_map(a).map_values(f),
{
    assert forall|k: Seq<char>| has_key(a, k) <==> #[trigger] has_key(b, k) by {
        if has_key(a, k) {
            let i = choose|i: int| 0 <= i < a.len() && a[i].0 == k;
            assert(b[i].0 == k);
        }
        if has_key(b, k) {
            let i = choose|i: int| 0 <= i < b.len() && b[i].0 == k;
            assert(a[i].0 == k);
        }
    }
    assert forall|k: Seq<char>| #[trigger] has_key(b, k) implies
        entries_map(b)[k] == f(entries_map(a)[k]) by {
        let i = choose|i: int| 0 <= i < b.len() && b[i].0 == k;
        let j = choose|j: int| 0 <= j < a.len() && a[j].0 == k;
        assert(a[i].0 == k);
        assert(i == j);
    }
    assert(entries_map(b) =~= entries_map(a).map_values(f));
}

} // verus!
