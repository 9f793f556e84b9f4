//! Requests that are being handled, by their identities.
use vstd::prelude::*;

use crate::json::JsonView;
use crate::jsonrpc::RequestId;
use crate::wire::Wire;

verus! {

/// Values by the identities of requests.
#[derive(Debug)]
pub struct RequestTable<C> {
    entries: Vec<(RequestId, C)>,
}

/// There is an entry for an identity.
pub open spec fn listed<C>(s: Seq<(RequestId, C)>, k: JsonView) -> bool {
    exists|i: int| 0 <= i < s.len() && (#[trigger] s[i]).0.wire() == k
}

/// The value of an identity.
pub open spec fn value<C>(s: Seq<(RequestId, C)>, k: JsonView) -> C {
    s[choose|i: int| 0 <= i < s.len() && (#[trigger] s[i]).0.wire() == k].1
}

/// No identity has two entries.
pub open spec fn distinct<C>(s: Seq<(RequestId, C)>) -> bool {
    forall|i: int, j: int|
        0 <= i < s.len() && 0 <= j < s.len() && (#[trigger] s[i]).0.wire() == (
        #[trigger] s[j]).0.wire() ==> i == j
}

/// The map that entries stand for.
pub open spec fn map_of<C>(s: Seq<(RequestId, C)>) -> Map<JsonView, C> {
    Map::new(|k: JsonView| listed(s, k), |k: JsonView| value(s, k))
}

/// The value of an entry is that of its identity.
proof fn value_at<C>(s: Seq<(RequestId, C)>, i: int)
    requires
        distinct(s),
        0 <= i < s.len(),
    ensures
        listed(s, s[i].0.wire()),
        value(s, s[i].0.wire()) == s[i].1,
{
    let k = s[i].0.wire();
    let j = choose|j: int| 0 <= j < s.len() && (#[trigger] s[j]).0.wire() == k;
    assert(s[j].0.wire() == s[i].0.wire());
}

/// The entries without one of them.
proof fn without<C>(s: Seq<(RequestId, C)>, i: int)
    requires
        distinct(s),
        0 <= i < s.len(),
    ensures
        distinct(s.remove(i)),
        map_of(s.remove(i)) == map_of(s).remove(s[i].0.wire()),
{
    let t = s.remove(i);
    let gone = s[i].0.wire();
    assert forall|a: int, b: int|
        0 <= a < t.len() && 0 <= b < t.len() && (#[trigger] t[a]).0.wire() == (
        #[trigger] t[b]).0.wire() implies a == b by {
        let a0 = if a < i {
            a
        } else {
            a + 1
        };
        let b0 = if b < i {
            b
        } else {
            b + 1
        };
        assert(s[a0].0.wire() == s[b0].0.wire());
    }
    assert forall|k: JsonView| listed(t, k) == (listed(s, k) && k != gone) && (listed(t, k) ==> value(t, k)
        == value(s, k)) by {
        if listed(t, k) {
            let j = choose|j: int| 0 <= j < t.len() && (#[trigger] t[j]).0.wire() == k;
            let j0 = if j < i {
                j
            } else {
                j + 1
            };
            assert(s[j0].0.wire() == k);
            value_at(s, j0);
            value_at(t, j);
            if k == gone {
                assert(s[j0].0.wire() == s[i].0.wire());
            }
        }
        if listed(s, k) && k != gone {
            let j = choose|j: int| 0 <= j < s.len() && (#[trigger] s[j]).0.wire() == k;
            let j0 = if j < i {
                j
            } else {
                j - 1
            };
            assert(t[j0].0.wire() == k);
        }
    }
    assert(map_of(t) =~= map_of(s).remove(gone));
}

/// The entries with one more.
proof fn extended<C>(s: Seq<(RequestId, C)>, e: (RequestId, C))
    requires
        distinct(s),
        !listed(s, e.0.wire()),
    ensures
        distinct(s.push(e)),
        map_of(s.push(e)) == map_of(s).insert(e.0.wire(), e.1),
{
    let t = s.push(e);
    let n = s.len() as int;
    assert forall|a: int, b: int|
        0 <= a < t.len() && 0 <= b < t.len() && (#[trigger] t[a]).0.wire() == (
        #[trigger] t[b]).0.wire() implies a == b by {
        if a < n && b < n {
            assert(s[a].0.wire() == s[b].0.wire());
        } else if a < n {
            assert(s[a].0.wire() == e.0.wire());
        } else if b < n {
            assert(s[b].0.wire() == e.0.wire());
        }
    }
    value_at(t, n);
    assert forall|k: JsonView| listed(t, k) == (listed(s, k) || k == e.0.wire()) && (listed(s, k) ==> value(
        t,
        k,
    ) == value(s, k)) by {
        if listed(s, k) {
            let j = choose|j: int| 0 <= j < s.len() && (#[trigger] s[j]).0.wire() == k;
            assert(t[j].0.wire() == k);
            value_at(t, j);
            value_at(s, j);
        }
        if listed(t, k) && k != e.0.wire() {
            let j = choose|j: int| 0 <= j < t.len() && (#[trigger] t[j]).0.wire() == k;
            assert(s[j].0.wire() == k);
        }
    }
    assert(map_of(t) =~= map_of(s).insert(e.0.wire(), e.1));
}

impl<C> RequestTable<C> {
    #[verifier::type_invariant]
    spec fn apart(self) -> bool {
        distinct(self.entries@)
    }

    /// The values, by the forms of the identities.
    pub closed spec fn view(&self) -> Map<JsonView, C> {
        map_of(self.entries@)
    }

    /// A table without entries.
    pub fn new() -> (r: Self)
        ensures
            r@ == Map::<JsonView, C>::empty(),
    {
        let r = RequestTable { entries: Vec::new() };
        assert(r@ =~= Map::empty());
        r
    }

    fn place(entries: &Vec<(RequestId, C)>, id: &RequestId) -> (r: Option<usize>)
        ensures
            match r {
                Some(i) => i < entries.len() && entries@[i as int].0.wire() == id.wire(),
                None => !listed(entries@, id.wire()),
            },
    {
        let mut i: usize = 0;
        while i < entries.len()
            invariant
                i <= entries.len(),
                forall|k: int| 0 <= k < i ==> (#[trigger] entries@[k]).0.wire() != id.wire(),
            decreases entries.len() - i,
        {
            if entries[i].0.same(id) {
                return Some(i);
            }
            i = i + 1;
        }
        None
    }

    /// The value of an identity.
    pub fn get(&self, id: &RequestId) -> (r: Option<&C>)
        ensures
            match r {
                Some(c) => self@.dom().contains(id.wire()) && *c == self@[id.wire()],
                None => !self@.dom().contains(id.wire()),
            },
    {
        proof {
            use_type_invariant(self);
        }
        match Self::place(&self.entries, id) {
            Some(i) => {
                proof {
                    value_at(self.entries@, i as int);
                }
                Some(&self.entries[i].1)
            },
            None => None,
        }
    }

    /// Takes out the value of an identity.
    pub fn remove(&mut self, id: &RequestId) -> (r: Option<C>)
        ensures
            final(self)@ == old(self)@.remove(id.wire()),
            match r {
                Some(c) => old(self)@.dom().contains(id.wire()) && c == old(self)@[id.wire()],
                None => !old(self)@.dom().contains(id.wire()),
            },
    {
        proof {
            use_type_invariant(&*self);
        }
        let mut entries: Vec<(RequestId, C)> = Vec::new();
        std::mem::swap(&mut entries, &mut self.entries);
        match Self::place(&entries, id) {
            Some(i) => {
                proof {
                    value_at(entries@, i as int);
                    without(entries@, i as int);
                }
                let e = entries.remove(i);
                self.entries = entries;
                Some(e.1)
            },
            None => {
                assert(map_of(entries@).remove(id.wire()) =~= map_of(entries@));
                self.entries = entries;
                None
            },
        }
    }

    /// Sets the value of an identity.
    pub fn insert(&mut self, id: RequestId, value: C)
        ensures
            final(self)@ == old(self)@.insert(id.wire(), value),
    {
        let _ = self.remove(&id);
        assert(!self@.dom().contains(id.wire()));
        proof {
            use_type_invariant(&*self);
        }
        let mut entries: Vec<(RequestId, C)> = Vec::new();
        std::mem::swap(&mut entries, &mut self.entries);
        proof {
            extended(entries@, (id, value));
            assert(old(self)@.remove(id.wire()).insert(id.wire(), value) =~= old(self)@.insert(
                id.wire(),
                value,
            ));
        }
        entries.push((id, value));
        self.entries = entries;
    }
}

} // verus!
