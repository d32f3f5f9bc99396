//! A small association list: the map type behind every table of the host.
//!
//! The tables of the host are indexed by names, by keys and by seed
//! addresses. Each of them is a vector of pairs in which no key occurs
//! twice, and its meaning is the finite map of those pairs.

use vstd::prelude::*;

verus! {

/// A value that can index a table: it has a view, and an executable equality
/// that agrees with equality of views.
pub trait MapKey: View + Sized {
    /// Whether two keys stand for the same index.
    fn same(&self, other: &Self) -> (r: bool)
        ensures
            r == (self@ == other@),
    ;
}

/// The finite map that a sequence of pairs stands for.
pub open spec fn pairs_map<K: View, V: View>(s: Seq<(K, V)>) -> Map<K::V, V::V>
    decreases s.len(),
{
    if s.len() == 0 {
        Map::empty()
    } else {
        let front = pairs_map(s.drop_last());
        let last = s.last();
        if front.contains_key(last.0@) {
            front
        } else {
            front.insert(last.0@, last.1@)
        }
    }
}

/// A key is in the map exactly when some pair carries it.
pub proof fn lemma_pairs_map_domain<K: View, V: View>(s: Seq<(K, V)>, k: K::V)
    ensures
        pairs_map(s).contains_key(k) <==> exists|i: int| 0 <= i < s.len() && (#[trigger] s[i]).0@ == k,
    decreases s.len(),
{
    if s.len() > 0 {
        let front = s.drop_last();
        lemma_pairs_map_domain(front, k);
        if pairs_map(s).contains_key(k) {
            if pairs_map(front).contains_key(k) {
                let i = choose|i: int| 0 <= i < front.len() && (#[trigger] front[i]).0@ == k;
                assert(s[i].0@ == k);
            } else {
                assert(s[s.len() - 1].0@ == k);
            }
        }
        if exists|i: int| 0 <= i < s.len() && (#[trigger] s[i]).0@ == k {
            let i = choose|i: int| 0 <= i < s.len() && (#[trigger] s[i]).0@ == k;
            if i < front.len() {
                assert(front[i].0@ == k);
            }
        }
    }
}

/// The first pair that carries a key gives the key's value.
pub proof fn lemma_pairs_map_first<K: View, V: View>(s: Seq<(K, V)>, i: int)
    requires
        0 <= i < s.len(),
        forall|j: int| 0 <= j < i ==> (#[trigger] s[j]).0@ != s[i].0@,
    ensures
        pairs_map(s).contains_key(s[i].0@),
        pairs_map(s)[s[i].0@] == s[i].1@,
    decreases s.len(),
{
    let front = s.drop_last();
    if i == s.len() - 1 {
        lemma_pairs_map_domain(front, s[i].0@);
        if pairs_map(front).contains_key(s[i].0@) {
            let j = choose|j: int| 0 <= j < front.len() && (#[trigger] front[j]).0@ == s[i].0@;
            assert(s[j].0@ == s[i].0@);
        }
    } else {
        assert(front[i] == s[i]);
        assert forall|j: int| 0 <= j < i implies (#[trigger] front[j]).0@ != front[i].0@ by {
            assert(front[j] == s[j]);
        }
        lemma_pairs_map_first(front, i);
    }
}

/// Replacing the value of the first pair that carries a key updates the map
/// at that key and nowhere else.
pub proof fn lemma_pairs_map_update<K: View, V: View>(s: Seq<(K, V)>, i: int, e: (K, V))
    requires
        0 <= i < s.len(),
        e.0@ == s[i].0@,
        forall|j: int| 0 <= j < i ==> (#[trigger] s[j]).0@ != s[i].0@,
    ensures
        pairs_map(s.update(i, e)) == pairs_map(s).insert(e.0@, e.1@),
    decreases s.len(),
{
    let front = s.drop_last();
    let t = s.update(i, e);
    if i == s.len() - 1 {
        assert(t.drop_last() == front);
        lemma_pairs_map_domain(front, e.0@);
        if pairs_map(front).contains_key(e.0@) {
            let j = choose|j: int| 0 <= j < front.len() && (#[trigger] front[j]).0@ == e.0@;
            assert(s[j].0@ == s[i].0@);
        }
        assert(pairs_map(t) =~= pairs_map(s).insert(e.0@, e.1@));
    } else {
        assert(front[i] == s[i]);
        assert forall|j: int| 0 <= j < i implies (#[trigger] front[j]).0@ != front[i].0@ by {
            assert(front[j] == s[j]);
        }
        lemma_pairs_map_update(front, i, e);
        lemma_pairs_map_first(front, i);
        assert(t.drop_last() == front.update(i, e));
        assert(t.last() == s.last());
        assert(pairs_map(t) =~= pairs_map(s).insert(e.0@, e.1@));
    }
}

/// Taking out a pair that carries a key changes the map at most at that key.
pub proof fn lemma_pairs_map_remove<K: View, V: View>(s: Seq<(K, V)>, i: int)
    requires
        0 <= i < s.len(),
    ensures
        pairs_map(s.remove(i)).remove(s[i].0@) == pairs_map(s).remove(s[i].0@),
    decreases s.len(),
{
    let front = s.drop_last();
    let k = s[i].0@;
    if i == s.len() - 1 {
        assert(s.remove(i) == front);
        assert(pairs_map(front).remove(k) =~= pairs_map(s).remove(k));
    } else {
        assert(front[i] == s[i]);
        lemma_pairs_map_remove(front, i);
        let t = s.remove(i);
        assert(t.drop_last() == front.remove(i));
        assert(t.last() == s.last());
        let a = pairs_map(front.remove(i));
        let b = pairs_map(front);
        assert(a.remove(k) == b.remove(k));
        assert(forall|x: K::V| x != k ==> (a.remove(k).contains_key(x) <==> a.contains_key(x)));
        assert(forall|x: K::V| x != k ==> (b.remove(k).contains_key(x) <==> b.contains_key(x)));
        assert(forall|x: K::V|
            x != k && a.contains_key(x) ==> a.remove(k)[x] == a[x] && b.remove(k)[x] == b[x]);
        assert(pairs_map(t).remove(k) =~= pairs_map(s).remove(k));
    }
}

/// Whether no key occurs twice in a sequence of pairs.
pub open spec fn keys_distinct<K: View, V: View>(s: Seq<(K, V)>) -> bool {
    forall|i: int, j: int|
        0 <= i < j < s.len() ==> (#[trigger] s[i]).0@ != (#[trigger] s[j]).0@
}

/// A finite map held as a vector of pairs, each key once.
pub struct AssocList<K: MapKey, V: View> {
    pub(crate) entries: Vec<(K, V)>,
}

impl<K: MapKey, V: View> View for AssocList<K, V> {
    type V = Map<K::V, V::V>;

    closed spec fn view(&self) -> Map<K::V, V::V> {
        pairs_map(self.entries@)
    }
}

impl<K: MapKey, V: View> AssocList<K, V> {
    /// No key occurs twice.
    #[verifier::type_invariant]
    pub closed spec fn inv(&self) -> bool {
        keys_distinct(self.entries@)
    }

    /// The empty map.
    pub fn new() -> (r: Self)
        ensures
            r@ == Map::<K::V, V::V>::empty(),
    {
        AssocList { entries: Vec::new() }
    }

    /// The place of the pair that carries `key`, if there is one.
    pub(crate) fn position(&self, key: &K) -> (r: Option<usize>)
        ensures
            r is Some <==> self@.contains_key(key@),
            r is Some ==> r.unwrap() < self.entries.len()
                && self.entries[r.unwrap() as int].0@ == key@
                && self.entries[r.unwrap() as int].1@ == self@[key@],
            r is None ==> forall|j: int|
                0 <= j < self.entries.len() ==> (#[trigger] self.entries[j]).0@ != key@,
    {
        let mut i: usize = 0;
        while i < self.entries.len()
            invariant
                i <= self.entries.len(),
                forall|j: int| 0 <= j < i ==> (#[trigger] self.entries[j]).0@ != key@,
            decreases self.entries.len() - i,
        {
            if self.entries[i].0.same(key) {
                proof {
                    lemma_pairs_map_first(self.entries@, i as int);
                }
                return Some(i);
            }
            i += 1;
        }
        proof {
            lemma_pairs_map_domain::<K, V>(self.entries@, key@);
        }
        None
    }

    /// The value under `key`, if there is one.
    pub fn get(&self, key: &K) -> (r: Option<&V>)
        ensures
            r is Some <==> self@.contains_key(key@),
            r is Some ==> r.unwrap()@ == self@[key@],
    {
        match self.position(key) {
            Some(i) => Some(&self.entries[i].1),
            None => None,
        }
    }

    /// Whether there is a value under `key`.
    pub fn contains_key(&self, key: &K) -> (r: bool)
        ensures
            r == self@.contains_key(key@),
    {
        self.position(key).is_some()
    }

    /// Puts `value` under `key`, in place of whatever was there.
    pub fn insert(&mut self, key: K, value: V)
        ensures
            final(self)@ == old(self)@.insert(key@, value@),
    {
        proof {
            use_type_invariant(&*self);
        }
        match self.position(&key) {
            Some(i) => {
                proof {
                    let s = self.entries@;
                    assert forall|j: int| 0 <= j < i implies (#[trigger] s[j]).0@
                        != s[i as int].0@ by {}
                    lemma_pairs_map_update(s, i as int, (key, value));
                    let t = s.update(i as int, (key, value));
                    assert(keys_distinct(t)) by {
                        assert forall|a: int, b: int| 0 <= a < b < t.len() implies (
                        #[trigger] t[a]).0@ != (#[trigger] t[b]).0@ by {
                            assert(t[a].0@ == s[a].0@);
                            assert(t[b].0@ == s[b].0@);
                        }
                    }
                }
                let mut pairs: Vec<(K, V)> = Vec::new();
                std::mem::swap(&mut self.entries, &mut pairs);
                pairs.set(i, (key, value));
                std::mem::swap(&mut self.entries, &mut pairs);
            },
            None => {
                proof {
                    let s = self.entries@;
                    let t = s.push((key, value));
                    assert(t.drop_last() == s);
                    assert(keys_distinct(t)) by {
                        assert forall|a: int, b: int| 0 <= a < b < t.len() implies (
                        #[trigger] t[a]).0@ != (#[trigger] t[b]).0@ by {
                            assert(t[a] == s[a]);
                            if b < s.len() {
                                assert(t[b] == s[b]);
                            }
                        }
                    }
                }
                let mut pairs: Vec<(K, V)> = Vec::new();
                std::mem::swap(&mut self.entries, &mut pairs);
                pairs.push((key, value));
                std::mem::swap(&mut self.entries, &mut pairs);
            },
        }
    }

    /// Takes away whatever is under `key` and hands it out.
    pub fn remove(&mut self, key: &K) -> (r: Option<V>)
        ensures
            final(self)@ == old(self)@.remove(key@),
            r is Some <==> old(self)@.contains_key(key@),
            r is Some ==> r.unwrap()@ == old(self)@[key@],
    {
        proof {
            use_type_invariant(&*self);
        }
        match self.position(key) {
            Some(i) => {
                proof {
                    let s = self.entries@;
                    let t = s.remove(i as int);
                    lemma_pairs_map_remove(s, i as int);
                    assert(keys_distinct(t)) by {
                        assert forall|a: int, b: int| 0 <= a < b < t.len() implies (
                        #[trigger] t[a]).0@ != (#[trigger] t[b]).0@ by {
                            let a0 = if a < i { a } else { a + 1 };
                            let b0 = if b < i { b } else { b + 1 };
                            assert(t[a] == s[a0]);
                            assert(t[b] == s[b0]);
                        }
                    }
                    assert forall|j: int| 0 <= j < t.len() implies (#[trigger] t[j]).0@
                        != key@ by {
                        let j0 = if j < i { j } else { j + 1 };
                        assert(t[j] == s[j0]);
                    }
                    lemma_pairs_map_domain::<K, V>(t, key@);
                    assert(pairs_map(t).remove(key@) =~= pairs_map(t));
                }
                let mut pairs: Vec<(K, V)> = Vec::new();
                std::mem::swap(&mut self.entries, &mut pairs);
                let taken = pairs.remove(i);
                std::mem::swap(&mut self.entries, &mut pairs);
                Some(taken.1)
            },
            None => {
                assert(self@.remove(key@) =~= self@);
                None
            },
        }
    }

    /// How many keys the map holds.
    pub fn len(&self) -> (r: usize)
        ensures
            r == self@.dom().len(),
    {
        proof {
            use_type_invariant(self);
            lemma_pairs_map_len::<K, V>(self.entries@);
        }
        self.entries.len()
    }
}

impl<V: View + Copy> AssocList<String, V> {
    /// A copy of the map.
    pub fn duplicate(&self) -> (r: Self)
        ensures
            r@ == self@,
    {
        proof {
            use_type_invariant(self);
        }
        let mut out: Vec<(String, V)> = Vec::new();
        let mut i: usize = 0;
        while i < self.entries.len()
            invariant
                i <= self.entries.len(),
                out@ == self.entries@.take(i as int),
            decreases self.entries.len() - i,
        {
            let name = self.entries[i].0.clone();
            let value = self.entries[i].1;
            out.push((name, value));
            assert(self.entries@.take(i + 1) == self.entries@.take(i as int).push(
                self.entries@[i as int],
            ));
            i += 1;
        }
        assert(self.entries@.take(i as int) == self.entries@);
        AssocList { entries: out }
    }
}

/// Pairs with distinct keys stand for a map with as many keys as there are
/// pairs.
pub proof fn lemma_pairs_map_len<K: View, V: View>(s: Seq<(K, V)>)
    requires
        keys_distinct(s),
    ensures
        pairs_map(s).dom().finite(),
        pairs_map(s).dom().len() == s.len(),
    decreases s.len(),
{
    if s.len() > 0 {
        let front = s.drop_last();
        assert(keys_distinct(front)) by {
            assert forall|a: int, b: int| 0 <= a < b < front.len() implies (
            #[trigger] front[a]).0@ != (#[trigger] front[b]).0@ by {
                assert(front[a] == s[a]);
                assert(front[b] == s[b]);
            }
        }
        lemma_pairs_map_len(front);
        lemma_pairs_map_domain(front, s.last().0@);
        if pairs_map(front).contains_key(s.last().0@) {
            let j = choose|j: int| 0 <= j < front.len() && (#[trigger] front[j]).0@ == s.last().0@;
            assert(front[j] == s[j]);
            assert(s[j].0@ != s[s.len() - 1].0@);
        }
        assert(pairs_map(s).dom() =~= pairs_map(front).dom().insert(s.last().0@));
    } else {
        assert(pairs_map(s).dom() =~= Set::<K::V>::empty());
    }
}

} // verus!
