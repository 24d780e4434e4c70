//! A map keyed by strings that keeps its entries in key order, as the
//! `BTreeMap<String, _>` tables of the protocol do.
use vstd::prelude::*;
use crate::text::{
    lemma_text_lt_irreflexive, lemma_text_lt_total, lemma_text_lt_transitive, text_less, text_lt,
};

verus! {

/// The keys of `p` strictly increase.
pub open spec fn sorted_keys<V>(p: Seq<(Seq<char>, V)>) -> bool {
    forall|i: int, j: int| 0 <= i < j < p.len() ==> text_lt(#[trigger] p[i].0, #[trigger] p[j].0)
}

/// `k` is the key of an entry of `p`.
pub open spec fn has_key<V>(p: Seq<(Seq<char>, V)>, k: Seq<char>) -> bool {
    exists|i: int| 0 <= i < p.len() && #[trigger] p[i].0 == k
}

/// The position of an entry of `p` with key `k`, where there is one.
pub open spec fn key_index<V>(p: Seq<(Seq<char>, V)>, k: Seq<char>) -> int {
    choose|i: int| 0 <= i < p.len() && #[trigger] p[i].0 == k
}

/// The map that the entries `p` stand for.
pub open spec fn pairs_map<V>(p: Seq<(Seq<char>, V)>) -> Map<Seq<char>, V> {
    Map::new(
        |k: Seq<char>| has_key(p, k),
        |k: Seq<char>| p[key_index(p, k)].1,
    )
}

/// In sorted entries, two positions hold two different keys.
pub proof fn lemma_sorted_distinct<V>(p: Seq<(Seq<char>, V)>, i: int, j: int)
    requires
        sorted_keys(p),
        0 <= i < p.len(),
        0 <= j < p.len(),
        i != j,
    ensures
        p[i].0 != p[j].0,
{
    if i < j {
        assert(text_lt(p[i].0, p[j].0));
        if p[i].0 == p[j].0 {
            lemma_text_lt_irreflexive(p[i].0);
        }
    } else {
        assert(text_lt(p[j].0, p[i].0));
        if p[i].0 == p[j].0 {
            lemma_text_lt_irreflexive(p[i].0);
        }
    }
}

/// In sorted entries, the map has each entry's key, with that entry's value.
pub proof fn lemma_pairs_map_at<V>(p: Seq<(Seq<char>, V)>, i: int)
    requires
        sorted_keys(p),
        0 <= i < p.len(),
    ensures
        pairs_map(p).dom().contains(p[i].0),
        pairs_map(p)[p[i].0] == p[i].1,
{
    let k = p[i].0;
    assert(has_key(p, k));
    let j = key_index(p, k);
    if j != i {
        lemma_sorted_distinct(p, i, j);
    }
    assert(pairs_map(p)[k] == p[j].1);
}

/// The map after inserting `(k, v)` at position `q` of `p`, where `q` keeps the
/// keys sorted.
pub proof fn lemma_insert_at<V>(p: Seq<(Seq<char>, V)>, q: int, k: Seq<char>, v: V)
    requires
        sorted_keys(p),
        0 <= q <= p.len(),
        forall|i: int| 0 <= i < q ==> text_lt(#[trigger] p[i].0, k),
        forall|i: int| q <= i < p.len() ==> text_lt(k, #[trigger] p[i].0),
    ensures
        sorted_keys(p.insert(q, (k, v))),
        pairs_map(p.insert(q, (k, v))) == pairs_map(p).insert(k, v),
{
    let r = p.insert(q, (k, v));
    assert forall|i: int, j: int| 0 <= i < j < r.len() implies text_lt(#[trigger] r[i].0, #[trigger] r[j].0) by {
        if j < q {
            assert(r[i] == p[i] && r[j] == p[j]);
        } else if j == q {
            assert(r[i] == p[i]);
        } else if i < q {
            assert(r[i] == p[i] && r[j] == p[j - 1]);
            lemma_text_lt_transitive(p[i].0, k, p[j - 1].0);
        } else if i == q {
            assert(r[j] == p[j - 1]);
        } else {
            assert(r[i] == p[i - 1] && r[j] == p[j - 1]);
        }
    }
    let m = pairs_map(p).insert(k, v);
    assert forall|x: Seq<char>| #[trigger] pairs_map(r).dom().contains(x) <==> m.dom().contains(x) by {
        if has_key(r, x) {
            let j = choose|j: int| 0 <= j < r.len() && #[trigger] r[j].0 == x;
            if j < q {
                assert(p[j].0 == x);
            } else if j > q {
                assert(p[j - 1].0 == x);
            }
        }
        if has_key(p, x) {
            let j = choose|j: int| 0 <= j < p.len() && #[trigger] p[j].0 == x;
            if j < q {
                assert(r[j].0 == x);
            } else {
                assert(r[j + 1].0 == x);
            }
        }
        if x == k {
            assert(r[q].0 == x);
        }
    }
    assert forall|x: Seq<char>| #[trigger] pairs_map(r).dom().contains(x) implies pairs_map(r)[x] == m[x] by {
        let j = choose|j: int| 0 <= j < r.len() && #[trigger] r[j].0 == x;
        lemma_pairs_map_at(r, j);
        if j < q {
            assert(r[j] == p[j]);
            lemma_pairs_map_at(p, j);
            if x == k {
                lemma_text_lt_irreflexive(k);
            }
        } else if j > q {
            assert(r[j] == p[j - 1]);
            lemma_pairs_map_at(p, j - 1);
            if x == k {
                lemma_text_lt_irreflexive(k);
            }
        }
    }
    assert(pairs_map(r) =~= m);
}

/// The map after replacing the value of the entry at `q` of `p`.
pub proof fn lemma_update_at<V>(p: Seq<(Seq<char>, V)>, q: int, v: V)
    requires
        sorted_keys(p),
        0 <= q < p.len(),
    ensures
        sorted_keys(p.update(q, (p[q].0, v))),
        pairs_map(p.update(q, (p[q].0, v))) == pairs_map(p).insert(p[q].0, v),
{
    let k = p[q].0;
    let r = p.update(q, (k, v));
    assert forall|i: int, j: int| 0 <= i < j < r.len() implies text_lt(#[trigger] r[i].0, #[trigger] r[j].0) by {
        assert(r[i].0 == p[i].0 && r[j].0 == p[j].0);
    }
    let m = pairs_map(p).insert(k, v);
    assert forall|x: Seq<char>| #[trigger] pairs_map(r).dom().contains(x) <==> m.dom().contains(x) by {
        if has_key(r, x) {
            let j = choose|j: int| 0 <= j < r.len() && #[trigger] r[j].0 == x;
            assert(p[j].0 == x);
        }
        if has_key(p, x) {
            let j = choose|j: int| 0 <= j < p.len() && #[trigger] p[j].0 == x;
            assert(r[j].0 == x);
        }
        if x == k {
            assert(r[q].0 == x);
        }
    }
    assert forall|x: Seq<char>| #[trigger] pairs_map(r).dom().contains(x) implies pairs_map(r)[x] == m[x] by {
        let j = choose|j: int| 0 <= j < r.len() && #[trigger] r[j].0 == x;
        lemma_pairs_map_at(r, j);
        if j != q {
            lemma_pairs_map_at(p, j);
            lemma_sorted_distinct(p, j, q);
        }
    }
    assert(pairs_map(r) =~= m);
}

/// The map after removing the entry at `q` of `p`.
pub proof fn lemma_remove_at<V>(p: Seq<(Seq<char>, V)>, q: int)
    requires
        sorted_keys(p),
        0 <= q < p.len(),
    ensures
        sorted_keys(p.remove(q)),
        pairs_map(p.remove(q)) == pairs_map(p).remove(p[q].0),
{
    let k = p[q].0;
    let r = p.remove(q);
    assert forall|i: int, j: int| 0 <= i < j < r.len() implies text_lt(#[trigger] r[i].0, #[trigger] r[j].0) by {
        if j < q {
            assert(r[i] == p[i] && r[j] == p[j]);
        } else if i < q {
            assert(r[i] == p[i] && r[j] == p[j + 1]);
        } else {
            assert(r[i] == p[i + 1] && r[j] == p[j + 1]);
        }
    }
    let m = pairs_map(p).remove(k);
    assert forall|x: Seq<char>| #[trigger] pairs_map(r).dom().contains(x) <==> m.dom().contains(x) by {
        if has_key(r, x) {
            let j = choose|j: int| 0 <= j < r.len() && #[trigger] r[j].0 == x;
            if j < q {
                assert(p[j].0 == x);
                lemma_sorted_distinct(p, j, q);
            } else {
                assert(p[j + 1].0 == x);
                lemma_sorted_distinct(p, j + 1, q);
            }
        }
        if has_key(p, x) && x != k {
            let j = choose|j: int| 0 <= j < p.len() && #[trigger] p[j].0 == x;
            if j < q {
                assert(r[j].0 == x);
            } else {
                assert(j != q);
                assert(r[j - 1].0 == x);
            }
        }
    }
    assert forall|x: Seq<char>| #[trigger] pairs_map(r).dom().contains(x) implies pairs_map(r)[x] == m[x] by {
        let j = choose|j: int| 0 <= j < r.len() && #[trigger] r[j].0 == x;
        lemma_pairs_map_at(r, j);
        if j < q {
            lemma_pairs_map_at(p, j);
        } else {
            lemma_pairs_map_at(p, j + 1);
        }
    }
    assert(pairs_map(r) =~= m);
}

/// A map from strings to values whose entries stay sorted by key.
#[derive(Debug)]
pub struct TextMap<V> {
    entries: Vec<(String, V)>,
}

impl<V> TextMap<V> {
    /// The entries, keys by their text, in key order.
    pub closed spec fn pairs(&self) -> Seq<(Seq<char>, V)> {
        self.entries@.map_values(|e: (String, V)| (e.0@, e.1))
    }

    /// The values in key order.
    pub open spec fn value_seq(&self) -> Seq<V> {
        self.pairs().map_values(|e: (Seq<char>, V)| e.1)
    }

    #[verifier::type_invariant]
    closed spec fn inv(&self) -> bool {
        sorted_keys(self.pairs())
    }

    /// An empty map.
    pub fn new() -> (m: Self)
        ensures
            m@ == Map::<Seq<char>, V>::empty(),
            m.pairs().len() == 0,
    {
        let m = TextMap { entries: Vec::new() };
        assert(m.pairs() =~= Seq::empty());
        assert(pairs_map(m.pairs()) =~= Map::empty());
        m
    }

    /// The number of entries.
    pub fn len(&self) -> (n: usize)
        ensures
            n == self.pairs().len(),
            n == self@.dom().len(),
            self@.dom().finite(),
            sorted_keys(self.pairs()),
    {
        proof {
            use_type_invariant(self);
            lemma_pairs_map_len(self.pairs());
        }
        self.entries.len()
    }

    /// The key of the entry at position `i` in key order.
    pub fn key_at(&self, i: usize) -> (k: &String)
        requires
            i < self.pairs().len(),
        ensures
            k@ == self.pairs()[i as int].0,
            self@.dom().contains(k@),
            self@[k@] == self.pairs()[i as int].1,
    {
        proof {
            use_type_invariant(self);
            lemma_pairs_map_at(self.pairs(), i as int);
        }
        &self.entries[i].0
    }

    /// The value of the entry at position `i` in key order.
    pub fn value_at(&self, i: usize) -> (v: &V)
        requires
            i < self.pairs().len(),
        ensures
            *v == self.pairs()[i as int].1,
            self@.dom().contains(self.pairs()[i as int].0),
            *v == self@[self.pairs()[i as int].0],
    {
        proof {
            use_type_invariant(self);
            lemma_pairs_map_at(self.pairs(), i as int);
        }
        &self.entries[i].1
    }

    /// The first position whose key does not sort before `key`.
    fn lower_bound(&self, key: &str) -> (q: usize)
        ensures
            q <= self.pairs().len(),
            forall|i: int| 0 <= i < q ==> text_lt(#[trigger] self.pairs()[i].0, key@),
            q < self.pairs().len() ==> !text_lt(self.pairs()[q as int].0, key@),
    {
        proof {
            use_type_invariant(self);
        }
        let n = self.entries.len();
        let mut q: usize = 0;
        while q < n
            invariant
                n == self.pairs().len(),
                q <= n,
                forall|i: int| 0 <= i < q ==> text_lt(#[trigger] self.pairs()[i].0, key@),
            decreases n - q,
        {
            if !text_less(self.entries[q].0.as_str(), key) {
                return q;
            }
            q = q + 1;
        }
        q
    }

    /// The position of `key`, if it is a key of the map.
    fn position(&self, key: &str) -> (r: Option<usize>)
        ensures
            match r {
                Some(q) => q < self.pairs().len() && self.pairs()[q as int].0 == key@,
                None => !self@.dom().contains(key@),
            },
    {
        proof {
            use_type_invariant(self);
        }
        let q = self.lower_bound(key);
        if q < self.entries.len() && !text_less(key, self.entries[q].0.as_str()) {
            proof {
                let kq = self.pairs()[q as int].0;
                if kq != key@ {
                    lemma_text_lt_total(kq, key@);
                }
            }
            Some(q)
        } else {
            proof {
                if has_key(self.pairs(), key@) {
                    let j = choose|j: int| 0 <= j < self.pairs().len() && #[trigger] self.pairs()[j].0 == key@;
                    if j < q {
                        lemma_text_lt_irreflexive(key@);
                    } else if j > q {
                        assert(text_lt(self.pairs()[q as int].0, self.pairs()[j].0));
                        if !text_lt(self.pairs()[q as int].0, key@) {
                            if self.pairs()[q as int].0 != key@ {
                                lemma_text_lt_total(self.pairs()[q as int].0, key@);
                            }
                        }
                        lemma_text_lt_irreflexive(key@);
                    } else {
                        lemma_text_lt_irreflexive(key@);
                    }
                }
            }
            None
        }
    }

    /// Whether `key` is a key of the map.
    pub fn contains_key(&self, key: &str) -> (b: bool)
        ensures
            b == self@.dom().contains(key@),
    {
        proof {
            use_type_invariant(self);
        }
        match self.position(key) {
            Some(q) => {
                proof {
                    lemma_pairs_map_at(self.pairs(), q as int);
                }
                true
            },
            None => false,
        }
    }

    /// The value stored under `key`.
    pub fn get(&self, key: &str) -> (r: Option<&V>)
        ensures
            match r {
                Some(v) => self@.dom().contains(key@) && *v == self@[key@],
                None => !self@.dom().contains(key@),
            },
    {
        proof {
            use_type_invariant(self);
        }
        match self.position(key) {
            Some(q) => {
                proof {
                    lemma_pairs_map_at(self.pairs(), q as int);
                }
                Some(&self.entries[q].1)
            },
            None => None,
        }
    }

    /// Stores `value` under `key`, replacing what was there; hands back the
    /// value that was replaced.
    pub fn insert(&mut self, key: String, value: V) -> (old_value: Option<V>)
        ensures
            final(self)@ == old(self)@.insert(key@, value),
            match old_value {
                Some(v) => old(self)@.dom().contains(key@) && v == old(self)@[key@],
                None => !old(self)@.dom().contains(key@),
            },
    {
        proof {
            use_type_invariant(&*self);
        }
        let q = self.lower_bound(key.as_str());
        let mut entries: Vec<(String, V)> = Vec::new();
        std::mem::swap(&mut entries, &mut self.entries);
        let ghost p = entries@.map_values(|e: (String, V)| (e.0@, e.1));
        assert(p == old(self).pairs());
        if q < entries.len() && !text_less(key.as_str(), entries[q].0.as_str()) {
            proof {
                let kq = p[q as int].0;
                if kq != key@ {
                    lemma_text_lt_total(kq, key@);
                }
                lemma_pairs_map_at(p, q as int);
                lemma_update_at(p, q as int, value);
            }
            let (k, old_v) = entries.remove(q);
            entries.insert(q, (k, value));
            assert(entries@.map_values(|e: (String, V)| (e.0@, e.1)) =~= p.update(q as int, (p[q as int].0, value)));
            self.entries = entries;
            Some(old_v)
        } else {
            proof {
                assert forall|i: int| q <= i < p.len() implies text_lt(key@, #[trigger] p[i].0) by {
                    assert(!text_lt(p[q as int].0, key@));
                    if p[q as int].0 != key@ {
                        lemma_text_lt_total(p[q as int].0, key@);
                    } else {
                        assert(text_lt(key@, p[q as int].0));
                        lemma_text_lt_irreflexive(key@);
                    }
                    if i > q {
                        lemma_text_lt_transitive(key@, p[q as int].0, p[i].0);
                    }
                }
                lemma_insert_at(p, q as int, key@, value);
                if has_key(p, key@) {
                    let j = choose|j: int| 0 <= j < p.len() && #[trigger] p[j].0 == key@;
                    if j < q {
                        lemma_text_lt_irreflexive(key@);
                    } else {
                        lemma_text_lt_irreflexive(key@);
                    }
                }
            }
            let ghost kv = key@;
            entries.insert(q, (key, value));
            assert(entries@.map_values(|e: (String, V)| (e.0@, e.1)) =~= p.insert(q as int, (kv, value)));
            self.entries = entries;
            None
        }
    }

    /// Takes the entry under `key` out of the map and hands back its value.
    pub fn remove(&mut self, key: &str) -> (r: Option<V>)
        ensures
            final(self)@ == old(self)@.remove(key@),
            match r {
                Some(v) => old(self)@.dom().contains(key@) && v == old(self)@[key@],
                None => !old(self)@.dom().contains(key@),
            },
    {
        proof {
            use_type_invariant(&*self);
        }
        match self.position(key) {
            Some(q) => {
                let mut entries: Vec<(String, V)> = Vec::new();
                std::mem::swap(&mut entries, &mut self.entries);
                let ghost p = entries@.map_values(|e: (String, V)| (e.0@, e.1));
                proof {
                    lemma_pairs_map_at(p, q as int);
                    lemma_remove_at(p, q as int);
                }
                let (_k, v) = entries.remove(q);
                assert(entries@.map_values(|e: (String, V)| (e.0@, e.1)) =~= p.remove(q as int));
                self.entries = entries;
                Some(v)
            },
            None => {
                assert(old(self)@.remove(key@) =~= old(self)@);
                None
            },
        }
    }

    /// Removes every entry.
    pub fn clear(&mut self)
        ensures
            final(self)@ == Map::<Seq<char>, V>::empty(),
    {
        self.entries = Vec::new();
        assert(self.pairs() =~= Seq::empty());
        assert(pairs_map(self.pairs()) =~= Map::empty());
    }
}

impl<V: Clone> Clone for TextMap<V> {
    /// The same keys, in the same order, each with a clone of its value.
    fn clone(&self) -> (r: Self)
        ensures
            r.pairs().len() == self.pairs().len(),
            forall|i: int| 0 <= i < self.pairs().len() ==> #[trigger] r.pairs()[i].0 == self.pairs()[i].0
                && cloned::<V>(self.pairs()[i].1, r.pairs()[i].1),
            r@.dom() == self@.dom(),
            forall|k: Seq<char>| #[trigger] self@.dom().contains(k) ==> cloned::<V>(self@[k], r@[k]),
    {
        proof {
            use_type_invariant(self);
        }
        let n = self.entries.len();
        let mut entries: Vec<(String, V)> = Vec::new();
        let mut i: usize = 0;
        while i < n
            invariant
                n == self.pairs().len(),
                i <= n,
                entries@.len() == i,
                forall|j: int| 0 <= j < i ==> #[trigger] entries@[j].0@ == self.pairs()[j].0
                    && cloned::<V>(self.pairs()[j].1, entries@[j].1),
            decreases n - i,
        {
            let k = self.entries[i].0.clone();
            let v = self.entries[i].1.clone();
            entries.push((k, v));
            i = i + 1;
        }
        let r = TextMap { entries };
        let ghost p = self.pairs();
        let ghost q = r.pairs();
        proof {
            assert forall|a: int, b: int| 0 <= a < b < q.len() implies text_lt(#[trigger] q[a].0, #[trigger] q[b].0) by {
                assert(q[a].0 == p[a].0 && q[b].0 == p[b].0);
            }
            assert forall|k: Seq<char>| #[trigger] pairs_map(q).dom().contains(k) <==> pairs_map(p).dom().contains(k) by {
                if has_key(q, k) {
                    let j = choose|j: int| 0 <= j < q.len() && #[trigger] q[j].0 == k;
                    assert(p[j].0 == k);
                }
                if has_key(p, k) {
                    let j = choose|j: int| 0 <= j < p.len() && #[trigger] p[j].0 == k;
                    assert(q[j].0 == k);
                }
            }
            assert(pairs_map(q).dom() =~= pairs_map(p).dom());
            assert forall|k: Seq<char>| #[trigger] pairs_map(p).dom().contains(k) implies cloned::<V>(pairs_map(p)[k], pairs_map(q)[k]) by {
                let j = choose|j: int| 0 <= j < p.len() && #[trigger] p[j].0 == k;
                lemma_pairs_map_at(p, j);
                assert(q[j].0 == k);
                lemma_pairs_map_at(q, j);
            }
        }
        r
    }
}

impl<V> View for TextMap<V> {
    type V = Map<Seq<char>, V>;

    open spec fn view(&self) -> Map<Seq<char>, V> {
        pairs_map(self.pairs())
    }
}

/// A sorted entry list has as many entries as its map has keys.
pub proof fn lemma_pairs_map_len<V>(p: Seq<(Seq<char>, V)>)
    requires
        sorted_keys(p),
    ensures
        pairs_map(p).dom().finite(),
        pairs_map(p).dom().len() == p.len(),
    decreases p.len(),
{
    if p.len() == 0 {
        assert(pairs_map(p).dom() =~= Set::empty());
    } else {
        let q = p.drop_last();
        assert(sorted_keys(q));
        lemma_pairs_map_len(q);
        let k = p.last().0;
        assert(q.insert(q.len() as int, (k, p.last().1)) =~= p);
        assert forall|i: int| 0 <= i < q.len() implies text_lt(#[trigger] q[i].0, k) by {
            assert(q[i] == p[i]);
        }
        lemma_insert_at(q, q.len() as int, k, p.last().1);
        if pairs_map(q).dom().contains(k) {
            let j = choose|j: int| 0 <= j < q.len() && #[trigger] q[j].0 == k;
            assert(q[j] == p[j]);
            lemma_sorted_distinct(p, j, p.len() - 1);
        }
        assert(pairs_map(p).dom() =~= pairs_map(q).dom().insert(k));
    }
}

} // verus!
