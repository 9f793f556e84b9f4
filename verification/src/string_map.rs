//! A map from strings, kept in the order of its keys.
use vstd::prelude::*;

use crate::text;
use crate::text::{str_eq, str_lt};

verus! {

/// A map from strings to values of `V`. Walking it goes through the keys in
/// increasing order.
#[derive(Debug, PartialEq, Eq)]
pub struct StringMap<V> {
    entries: Vec<(String, V)>,
}

/// The keys of the entries.
pub open spec fn keys_of<V>(s: Seq<(String, V)>) -> Seq<Seq<char>> {
    Seq::new(s.len(), |i: int| s[i].0@)
}

/// Keys in increasing order, none of them twice.
pub open spec fn increasing(s: Seq<Seq<char>>) -> bool {
    forall|i: int, j: int| 0 <= i < j < s.len() ==> text::lt(#[trigger] s[i], #[trigger] s[j])
}

/// The map that the entries stand for.
pub open spec fn map_of<V>(s: Seq<(String, V)>) -> Map<Seq<char>, V>
    decreases s.len(),
{
    if s.len() == 0 {
        Map::empty()
    } else {
        map_of(s.drop_last()).insert(s.last().0@, s.last().1)
    }
}

/// With increasing keys, the map has the key of each entry, with its value, and
/// no other.
pub proof fn map_of_entries<V>(s: Seq<(String, V)>)
    requires
        increasing(keys_of(s)),
    ensures
        forall|i: int|
            0 <= i < s.len() ==> map_of(s).dom().contains((#[trigger] s[i]).0@) && map_of(
                s,
            )[s[i].0@] == s[i].1,
        forall|k: Seq<char>| #[trigger]
            map_of(s).dom().contains(k) ==> exists|i: int| 0 <= i < s.len() && s[i].0@ == k,
        map_of(s).dom().finite(),
        map_of(s).dom().len() == s.len(),
    decreases s.len(),
{
    if s.len() > 0 {
        let t = s.drop_last();
        assert(keys_of(t) =~= keys_of(s).drop_last());
        map_of_entries(t);
        assert forall|i: int| 0 <= i < t.len() implies (#[trigger] s[i]).0@ != s.last().0@ by {
            assert(text::lt(keys_of(s)[i], keys_of(s)[s.len() - 1]));
            text::lt_irreflexive(s.last().0@);
        }
        assert forall|i: int| 0 <= i < s.len() implies map_of(s).dom().contains(
            (#[trigger] s[i]).0@,
        ) && map_of(s)[s[i].0@] == s[i].1 by {
            if i < t.len() {
                assert(t[i] == s[i]);
            }
        }
        assert forall|k: Seq<char>| #[trigger] map_of(s).dom().contains(k) implies exists|i: int|
            0 <= i < s.len() && s[i].0@ == k by {
            if k == s.last().0@ {
                assert(s[s.len() - 1].0@ == k);
            } else {
                assert(map_of(t).dom().contains(k));
                let i = choose|i: int| 0 <= i < t.len() && t[i].0@ == k;
                assert(s[i].0@ == k);
            }
        }
        assert(!map_of(t).dom().contains(s.last().0@));
    }
}

/// The entries with one more, at the place where its key belongs.
pub proof fn map_of_insert<V>(s: Seq<(String, V)>, at: int, e: (String, V))
    requires
        increasing(keys_of(s)),
        0 <= at <= s.len(),
        forall|i: int| 0 <= i < at ==> text::lt((#[trigger] s[i]).0@, e.0@),
        forall|i: int| at <= i < s.len() ==> text::lt(e.0@, (#[trigger] s[i]).0@),
    ensures
        increasing(keys_of(s.insert(at, e))),
        map_of(s.insert(at, e)) == map_of(s).insert(e.0@, e.1),
        keys_of(s.insert(at, e)) == keys_of(s).insert(at, e.0@),
    decreases s.len(),
{
    let t = s.insert(at, e);
    let ks = keys_of(s);
    let kt = keys_of(t);
    assert(kt =~= ks.insert(at, e.0@));
    assert forall|i: int, j: int| 0 <= i < j < kt.len() implies text::lt(
        #[trigger] kt[i],
        #[trigger] kt[j],
    ) by {
        if i < at && j == at {
            assert(text::lt(s[i].0@, e.0@));
        } else if i == at {
            assert(text::lt(e.0@, s[j - 1].0@));
        } else {
            let i0 = if i < at {
                i
            } else {
                i - 1
            };
            let j0 = if j < at {
                j
            } else {
                j - 1
            };
            assert(text::lt(ks[i0], ks[j0]));
        }
    }
    if at == s.len() {
        assert(t.drop_last() =~= s);
    } else {
        let s1 = s.drop_last();
        assert(keys_of(s1) =~= ks.drop_last());
        assert forall|i: int| 0 <= i < at implies text::lt((#[trigger] s1[i]).0@, e.0@) by {
            assert(text::lt(s[i].0@, e.0@));
        }
        assert forall|i: int| at <= i < s1.len() implies text::lt(e.0@, (#[trigger] s1[i]).0@) by {
            assert(text::lt(e.0@, s[i].0@));
        }
        map_of_insert(s1, at, e);
        assert(t.drop_last() =~= s1.insert(at, e));
        assert(t.last() == s.last());
        assert(text::lt(e.0@, s[s.len() - 1].0@));
        text::lt_irreflexive(e.0@);
        assert(map_of(t) =~= map_of(s).insert(e.0@, e.1));
    }
}

/// The entries with one of them replaced by another of the same key.
pub proof fn map_of_update<V>(s: Seq<(String, V)>, at: int, e: (String, V))
    requires
        increasing(keys_of(s)),
        0 <= at < s.len(),
        s[at].0@ == e.0@,
    ensures
        increasing(keys_of(s.update(at, e))),
        map_of(s.update(at, e)) == map_of(s).insert(e.0@, e.1),
        keys_of(s.update(at, e)) == keys_of(s),
    decreases s.len(),
{
    let t = s.update(at, e);
    assert(keys_of(t) =~= keys_of(s));
    if at == s.len() - 1 {
        assert(t.drop_last() =~= s.drop_last());
        assert(map_of(t) =~= map_of(s).insert(e.0@, e.1));
    } else {
        let s1 = s.drop_last();
        assert(keys_of(s1) =~= keys_of(s).drop_last());
        map_of_update(s1, at, e);
        assert(t.drop_last() =~= s1.update(at, e));
        assert(text::lt(keys_of(s)[at], keys_of(s)[s.len() - 1]));
        text::lt_irreflexive(e.0@);
        assert(map_of(t) =~= map_of(s).insert(e.0@, e.1));
    }
}

/// The entries without one of them.
pub proof fn map_of_remove<V>(s: Seq<(String, V)>, at: int)
    requires
        increasing(keys_of(s)),
        0 <= at < s.len(),
    ensures
        increasing(keys_of(s.remove(at))),
        map_of(s.remove(at)) == map_of(s).remove(s[at].0@),
        keys_of(s.remove(at)) == keys_of(s).remove(at),
    decreases s.len(),
{
    let t = s.remove(at);
    let ks = keys_of(s);
    let kt = keys_of(t);
    assert(kt =~= ks.remove(at));
    assert forall|i: int, j: int| 0 <= i < j < kt.len() implies text::lt(
        #[trigger] kt[i],
        #[trigger] kt[j],
    ) by {
        let i0 = if i < at {
            i
        } else {
            i + 1
        };
        let j0 = if j < at {
            j
        } else {
            j + 1
        };
        assert(text::lt(ks[i0], ks[j0]));
    }
    let s1 = s.drop_last();
    assert(keys_of(s1) =~= ks.drop_last());
    if at == s.len() - 1 {
        assert(t =~= s1);
        map_of_entries(s1);
        assert(!map_of(s1).dom().contains(s.last().0@)) by {
            if map_of(s1).dom().contains(s.last().0@) {
                let i = choose|i: int| 0 <= i < s1.len() && s1[i].0@ == s.last().0@;
                assert(text::lt(ks[i], ks[s.len() - 1]));
                text::lt_irreflexive(s.last().0@);
            }
        }
        assert(map_of(t) =~= map_of(s).remove(s[at].0@));
    } else {
        map_of_remove(s1, at);
        assert(t.drop_last() =~= s1.remove(at));
        assert(t.last() == s.last());
        assert(text::lt(ks[at], ks[s.len() - 1]));
        text::lt_irreflexive(s[at].0@);
        assert(map_of(t) =~= map_of(s).remove(s[at].0@));
    }
}

/// The place of a key among increasing keys, or where it belongs.
fn place<V>(entries: &Vec<(String, V)>, k: &str) -> (r: (usize, bool))
    requires
        increasing(keys_of(entries@)),
    ensures
        r.0 <= entries.len(),
        r.1 ==> r.0 < entries.len() && entries@[r.0 as int].0@ == k@,
        !r.1 ==> (forall|i: int| 0 <= i < r.0 ==> text::lt((#[trigger] entries@[i]).0@, k@)) && (
        forall|i: int| r.0 <= i < entries.len() ==> text::lt(k@, (#[trigger] entries@[i]).0@)),
{
    let mut i: usize = 0;
    while i < entries.len()
        invariant
            i <= entries.len(),
            increasing(keys_of(entries@)),
            forall|j: int| 0 <= j < i ==> text::lt((#[trigger] entries@[j]).0@, k@),
        decreases entries.len() - i,
    {
        if str_eq(entries[i].0.as_str(), k) {
            return (i, true);
        }
        if !str_lt(entries[i].0.as_str(), k) {
            proof {
                text::lt_total(entries@[i as int].0@, k@);
                assert forall|j: int| i <= j < entries.len() implies text::lt(
                    k@,
                    (#[trigger] entries@[j]).0@,
                ) by {
                    if j > i {
                        assert(text::lt(keys_of(entries@)[i as int], keys_of(entries@)[j]));
                        text::lt_transitive(k@, entries@[i as int].0@, entries@[j].0@);
                    }
                }
            }
            return (i, false);
        }
        i = i + 1;
    }
    (i, false)
}

/// A key that belongs between the entries is not one of theirs.
proof fn absent<V>(s: Seq<(String, V)>, at: int, k: Seq<char>)
    requires
        increasing(keys_of(s)),
        0 <= at <= s.len(),
        forall|i: int| 0 <= i < at ==> text::lt((#[trigger] s[i]).0@, k),
        forall|i: int| at <= i < s.len() ==> text::lt(k, (#[trigger] s[i]).0@),
    ensures
        !map_of(s).dom().contains(k),
{
    map_of_entries(s);
    if map_of(s).dom().contains(k) {
        let i = choose|i: int| 0 <= i < s.len() && s[i].0@ == k;
        text::lt_irreflexive(k);
    }
}

impl<V> StringMap<V> {
    #[verifier::type_invariant]
    spec fn ordered(self) -> bool {
        increasing(keys_of(self.entries@))
    }

    /// The map that this stands for.
    pub closed spec fn view(&self) -> Map<Seq<char>, V> {
        map_of(self.entries@)
    }

    /// The keys, in increasing order.
    pub closed spec fn order(&self) -> Seq<Seq<char>> {
        keys_of(self.entries@)
    }

    /// A map without entries.
    pub fn new() -> (r: Self)
        ensures
            r@ == Map::<Seq<char>, V>::empty(),
            r.order() == Seq::<Seq<char>>::empty(),
    {
        let entries: Vec<(String, V)> = Vec::new();
        assert(keys_of(entries@) =~= seq![]);
        StringMap { entries }
    }

    /// How many entries there are. The keys are in increasing order, each of them
    /// once.
    pub fn len(&self) -> (r: usize)
        ensures
            r == self.order().len(),
            r == self@.dom().len(),
            increasing(self.order()),
            self.order().to_set() == self@.dom(),
            self@.dom().finite(),
    {
        proof {
            use_type_invariant(self);
            map_of_entries(self.entries@);
            assert forall|k: Seq<char>| self.order().to_set().contains(k)
                == self@.dom().contains(k) by {
                if self@.dom().contains(k) {
                    let i = choose|i: int|
                        0 <= i < self.entries@.len() && self.entries@[i].0@ == k;
                    assert(self.order()[i] == k);
                }
                if self.order().to_set().contains(k) {
                    let i = choose|i: int| 0 <= i < self.order().len() && self.order()[i] == k;
                    assert(self.entries@[i].0@ == k);
                }
            }
            assert(self.order().to_set() =~= self@.dom());
        }
        self.entries.len()
    }

    /// Tells whether there are no entries.
    pub fn is_empty(&self) -> (r: bool)
        ensures
            r == (self.order().len() == 0),
            r == (self@.dom().len() == 0),
            self@.dom().finite(),
    {
        self.len() == 0
    }

    /// The key at place `i`.
    pub fn key_at(&self, i: usize) -> (r: &str)
        requires
            i < self.order().len(),
        ensures
            r@ == self.order()[i as int],
            self@.dom().contains(r@),
    {
        proof {
            use_type_invariant(self);
            map_of_entries(self.entries@);
        }
        self.entries[i].0.as_str()
    }

    /// The value at place `i`.
    pub fn value_at(&self, i: usize) -> (r: &V)
        requires
            i < self.order().len(),
        ensures
            *r == self@[self.order()[i as int]],
            self@.dom().contains(self.order()[i as int]),
    {
        proof {
            use_type_invariant(self);
            map_of_entries(self.entries@);
        }
        &self.entries[i].1
    }

    /// The value of a key.
    pub fn get(&self, k: &str) -> (r: Option<&V>)
        ensures
            match r {
                Some(v) => self@.dom().contains(k@) && *v == self@[k@],
                None => !self@.dom().contains(k@),
            },
    {
        proof {
            use_type_invariant(self);
            map_of_entries(self.entries@);
        }
        let p = place(&self.entries, k);
        if p.1 {
            Some(&self.entries[p.0].1)
        } else {
            proof {
                absent(self.entries@, p.0 as int, k@);
            }
            None
        }
    }

    /// Tells whether there is an entry for a key.
    pub fn contains_key(&self, k: &str) -> (r: bool)
        ensures
            r == self@.dom().contains(k@),
    {
        match self.get(k) {
            Some(_) => true,
            None => false,
        }
    }

    /// Sets the value of a key, and gives back the one it had.
    pub fn insert(&mut self, k: String, v: V) -> (r: Option<V>)
        ensures
            final(self)@ == old(self)@.insert(k@, v),
            match r {
                Some(x) => old(self)@.dom().contains(k@) && x == old(self)@[k@],
                None => !old(self)@.dom().contains(k@),
            },
    {
        proof {
            use_type_invariant(&*self);
            map_of_entries(self.entries@);
        }
        let mut entries: Vec<(String, V)> = Vec::new();
        std::mem::swap(&mut entries, &mut self.entries);
        let p = place(&entries, k.as_str());
        let ghost before = entries@;
        if p.1 {
            proof {
                map_of_update(entries@, p.0 as int, (k, v));
            }
            let was = entries.remove(p.0);
            entries.insert(p.0, (k, v));
            assert(entries@ =~= before.update(p.0 as int, (k, v)));
            self.entries = entries;
            Some(was.1)
        } else {
            proof {
                absent(before, p.0 as int, k@);
                map_of_insert(before, p.0 as int, (k, v));
            }
            entries.insert(p.0, (k, v));
            self.entries = entries;
            None
        }
    }

    /// Takes out the entry of a key.
    pub fn remove(&mut self, k: &str) -> (r: Option<V>)
        ensures
            final(self)@ == old(self)@.remove(k@),
            match r {
                Some(x) => old(self)@.dom().contains(k@) && x == old(self)@[k@],
                None => !old(self)@.dom().contains(k@),
            },
    {
        proof {
            use_type_invariant(&*self);
            map_of_entries(self.entries@);
        }
        let mut entries: Vec<(String, V)> = Vec::new();
        std::mem::swap(&mut entries, &mut self.entries);
        let p = place(&entries, k);
        let ghost before = entries@;
        if p.1 {
            proof {
                map_of_remove(before, p.0 as int);
            }
            let was = entries.remove(p.0);
            self.entries = entries;
            Some(was.1)
        } else {
            proof {
                absent(before, p.0 as int, k@);
                assert(map_of(before).remove(k@) =~= map_of(before));
            }
            self.entries = entries;
            None
        }
    }

    /// Takes out every entry.
    pub fn clear(&mut self)
        ensures
            final(self)@ == Map::<Seq<char>, V>::empty(),
    {
        let entries: Vec<(String, V)> = Vec::new();
        assert(keys_of(entries@) =~= seq![]);
        self.entries = entries;
    }
}

/// Increasing sequences with the same elements are the same sequence: the order of
/// a map follows from its keys.
pub proof fn increasing_unique(a: Seq<Seq<char>>, b: Seq<Seq<char>>)
    requires
        increasing(a),
        increasing(b),
        a.to_set() == b.to_set(),
    ensures
        a == b,
    decreases a.len(),
{
    if a.len() == 0 {
        if b.len() > 0 {
            assert(b.to_set().contains(b[0]));
            assert(a.to_set().contains(b[0]));
        }
        assert(a =~= b);
    } else if b.len() == 0 {
        assert(a.to_set().contains(a[0]));
        assert(b.to_set().contains(a[0]));
    } else {
        let x = a.last();
        let y = b.last();
        assert(a.to_set().contains(a[a.len() - 1]));
        assert(b.to_set().contains(b[b.len() - 1]));
        assert(b.to_set().contains(x) && a.to_set().contains(y));
        let i = choose|i: int| 0 <= i < b.len() && b[i] == x;
        let j = choose|j: int| 0 <= j < a.len() && a[j] == y;
        if x != y {
            assert(text::lt(b[i], b[b.len() - 1]));
            assert(text::lt(a[j], a[a.len() - 1]));
            text::lt_transitive(x, y, x);
            text::lt_irreflexive(x);
        }
        let a1 = a.drop_last();
        let b1 = b.drop_last();
        assert forall|k: Seq<char>| a1.to_set().contains(k) == b1.to_set().contains(k) by {
            if a1.to_set().contains(k) {
                let p = choose|p: int| 0 <= p < a1.len() && a1[p] == k;
                assert(a[p] == k);
                assert(a.to_set().contains(k));
                assert(b.to_set().contains(k));
                let q = choose|q: int| 0 <= q < b.len() && b[q] == k;
                if q == b.len() - 1 {
                    assert(text::lt(a[p], a[a.len() - 1]));
                    text::lt_irreflexive(k);
                }
                assert(b1[q] == k);
            }
            if b1.to_set().contains(k) {
                let p = choose|p: int| 0 <= p < b1.len() && b1[p] == k;
                assert(b[p] == k);
                assert(b.to_set().contains(k));
                assert(a.to_set().contains(k));
                let q = choose|q: int| 0 <= q < a.len() && a[q] == k;
                if q == a.len() - 1 {
                    assert(text::lt(b[p], b[b.len() - 1]));
                    text::lt_irreflexive(k);
                }
                assert(a1[q] == k);
            }
        }
        assert(a1.to_set() =~= b1.to_set());
        increasing_unique(a1, b1);
        assert(a =~= a1.push(x));
        assert(b =~= b1.push(y));
    }
}

/// The texts of a map.
pub open spec fn texts(m: Map<Seq<char>, String>) -> Map<Seq<char>, Seq<char>> {
    m.map_values(|s: String| s@)
}

impl Clone for StringMap<String> {
    fn clone(&self) -> (r: Self)
        ensures
            texts(r@) == texts(self@),
    {
        let n: usize = self.len();
        let mut out: StringMap<String> = StringMap::new();
        let mut i: usize = 0;
        while i < n
            invariant
                i <= n,
                n == self.order().len(),
                increasing(self.order()),
                self.order().to_set() == self@.dom(),
                forall|k: Seq<char>| #[trigger]
                    out@.dom().contains(k) == self.order().take(i as int).contains(k),
                forall|k: Seq<char>| #[trigger]
                    out@.dom().contains(k) ==> self@.dom().contains(k) && out@[k]@ == self@[k]@,
            decreases n - i,
        {
            let k = self.key_at(i);
            let v = self.value_at(i);
            let _ = out.insert(k.to_owned(), v.clone());
            proof {
                let a = self.order().take(i as int);
                let b = self.order().take(i + 1);
                assert(b =~= a.push(k@));
                assert forall|q: Seq<char>| #[trigger] out@.dom().contains(q) == b.contains(q) by {
                    if b.contains(q) {
                        let j = choose|j: int| 0 <= j < b.len() && b[j] == q;
                        if j < i {
                            assert(a[j] == q);
                        }
                    }
                    if a.contains(q) {
                        let j = choose|j: int| 0 <= j < a.len() && a[j] == q;
                        assert(b[j] == q);
                    }
                    assert(b[i as int] == k@);
                }
            }
            i = i + 1;
        }
        proof {
            assert(self.order().take(n as int) =~= self.order());
            assert forall|k: Seq<char>| self@.dom().contains(k) == out@.dom().contains(k) by {
                assert(self.order().to_set().contains(k) == self.order().contains(k));
            }
            assert(texts(out@) =~= texts(self@));
        }
        out
    }
}

} // verus!
