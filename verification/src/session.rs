//! The requests of one side of a session that wait for their answers.
use vstd::prelude::*;

use std::collections::HashMap;

use crate::error::McpError;
use crate::json::{Json, JsonView};
use crate::jsonrpc::{RequestId, Response, RpcError};
use crate::types::meta::ProgressToken;
use crate::wire::Wire;

verus! {

/// For how many milliseconds progress is still told of a request that has been
/// answered: the word of it travels by another way than the answer, and may come
/// later.
pub const PROGRESS_GRACE: u64 = 5000;

/// What came of waiting for an answer.
pub enum WaitOutcome {
    /// The peer answered.
    Answered(Result<Json, RpcError>),
    /// The one that was to be told of the answer is gone.
    Dropped,
    /// No answer came in time.
    TimedOut,
}

/// The requests that wait. `T` is what is told of an answer, `P` what is told of
/// progress.
pub struct PendingRequests<T, P> {
    next: i64,
    waiting: HashMap<i64, T>,
    progress: HashMap<i64, P>,
    recent: Vec<(u64, i64, P)>,
}

/// The number of a request, where its identity is one.
pub open spec fn numbered(id: JsonView) -> Option<i64> {
    match id.whole() {
        Some(n) => Some(n as i64),
        None => None,
    }
}

/// What is told of a response: its error, or its result, which is null where it has
/// none.
pub open spec fn told(response: Response, outcome: Result<Json, RpcError>) -> bool {
    match response.error {
        Some(e) => outcome == Err::<Json, RpcError>(e),
        None => match (response.result, outcome) {
            (Some(j), Ok(v)) => v == j,
            (None, Ok(v)) => v@ is Null,
            (_, Err(_)) => false,
        },
    }
}

/// Those that are told of progress and whose time has not run out.
pub open spec fn fresh<P>(s: Seq<(u64, i64, P)>, now: u64) -> Seq<(u64, i64, P)> {
    s.filter(|e: (u64, i64, P)| now - e.0 < PROGRESS_GRACE)
}

/// The last that is told of the progress of a request, and whose time has not run
/// out.
pub open spec fn latest<P>(s: Seq<(u64, i64, P)>, id: i64, now: u64) -> Option<P>
    decreases s.len(),
{
    if s.len() == 0 {
        None
    } else if s.last().1 == id && now - s.last().0 < PROGRESS_GRACE {
        Some(s.last().2)
    } else {
        latest(s.drop_last(), id, now)
    }
}

impl<T, P> Default for PendingRequests<T, P> {
    fn default() -> (r: Self)
        ensures
            r.next_number() == 1,
            r.waiting() == Map::<i64, T>::empty(),
            r.listening() == Map::<i64, P>::empty(),
            r.lingering() == Seq::<(u64, i64, P)>::empty(),
    {
        PendingRequests::new()
    }
}

impl<T, P> PendingRequests<T, P> {
    /// The number that the next request gets.
    pub closed spec fn next_number(&self) -> i64 {
        self.next
    }

    /// The requests that wait.
    pub closed spec fn waiting(&self) -> Map<i64, T> {
        self.waiting@
    }

    /// How many requests wait.
    pub open spec fn count(&self) -> nat {
        self.waiting().dom().len()
    }

    /// Those that are told of the progress of a request that waits.
    pub closed spec fn listening(&self) -> Map<i64, P> {
        self.progress@
    }

    /// Those that are still told of the progress of a request that was answered, each
    /// with the time of the answer.
    pub closed spec fn lingering(&self) -> Seq<(u64, i64, P)> {
        self.recent@
    }

    /// Who is told of the progress of a request: while it waits, and for a while after.
    pub open spec fn told_of(&self, id: JsonView, now: u64) -> Option<P> {
        match numbered(id) {
            Some(n) => if self.listening().dom().contains(n) {
                Some(self.listening()[n])
            } else {
                latest(self.lingering(), n, now)
            },
            None => None,
        }
    }

    /// One more request waits than before, under the next number.
    pub open spec fn registers(&self, before: &Self, waiter: T, progress: Option<P>) -> bool {
        &&& self.next_number() == if before.next_number() == i64::MAX {
            i64::MIN
        } else {
            (before.next_number() + 1) as i64
        }
        &&& self.waiting() == before.waiting().insert(before.next_number(), waiter)
        &&& self.listening() == match progress {
            Some(p) => before.listening().insert(before.next_number(), p),
            None => before.listening(),
        }
        &&& self.lingering() == before.lingering()
    }

    /// The request with this identity waits no longer. Its progress is told only for a
    /// while longer, and that of those whose time has run out no more.
    pub open spec fn retires(&self, before: &Self, id: JsonView, now: u64) -> bool {
        &&& self.next_number() == before.next_number()
        &&& match numbered(id) {
            Some(n) => {
                &&& self.waiting() == before.waiting().remove(n)
                &&& self.listening() == before.listening().remove(n)
                &&& self.lingering() == if before.listening().dom().contains(n) {
                    fresh(before.lingering(), now).push((now, n, before.listening()[n]))
                } else {
                    fresh(before.lingering(), now)
                }
            },
            None => {
                &&& self.waiting() == before.waiting()
                &&& self.listening() == before.listening()
                &&& self.lingering() == fresh(before.lingering(), now)
            },
        }
    }

    /// No request waits any more, and nobody is told of progress.
    pub open spec fn is_cleared(&self, before: &Self) -> bool {
        &&& self.next_number() == before.next_number()
        &&& self.waiting() == Map::<i64, T>::empty()
        &&& self.listening() == Map::<i64, P>::empty()
        &&& self.lingering() == Seq::<(u64, i64, P)>::empty()
    }

    /// Who waits for the answer to the request with this identity.
    pub open spec fn waiter_of(&self, id: JsonView) -> Option<T> {
        match numbered(id) {
            Some(n) => if self.waiting().dom().contains(n) {
                Some(self.waiting()[n])
            } else {
                None
            },
            None => None,
        }
    }

    /// No request waits, and the first will have the number 1.
    pub fn new() -> (r: Self)
        ensures
            r.next_number() == 1,
            r.waiting() == Map::<i64, T>::empty(),
            r.listening() == Map::<i64, P>::empty(),
            r.lingering() == Seq::<(u64, i64, P)>::empty(),
    {
        PendingRequests {
            next: 1,
            waiting: HashMap::new(),
            progress: HashMap::new(),
            recent: Vec::new(),
        }
    }

    /// The number of an identity, where it is one.
    fn number_of(id: &RequestId) -> (r: Option<i64>)
        ensures
            r == numbered(id.wire()),
    {
        match id {
            RequestId::Number(n) => Some(*n),
            RequestId::String(_) => None,
        }
    }

    /// Progress of the request is told only for a while longer.
    fn retire_progress(&mut self, n: i64, now: u64)
        ensures
            final(self).next_number() == old(self).next_number(),
            final(self).waiting() == old(self).waiting(),
            final(self).listening() == old(self).listening().remove(n),
            final(self).lingering() == if old(self).listening().dom().contains(n) {
                fresh(old(self).lingering(), now).push((now, n, old(self).listening()[n]))
            } else {
                fresh(old(self).lingering(), now)
            },
    {
        let removed = self.progress.remove(&n);
        self.drop_stale(now);
        match removed {
            Some(p) => {
                self.recent.push((now, n, p));
            },
            None => {
                assert(old(self).listening().remove(n) =~= old(self).listening());
            },
        }
    }

    /// Drops those whose time has run out.
    fn drop_stale(&mut self, now: u64)
        ensures
            final(self).next_number() == old(self).next_number(),
            final(self).waiting() == old(self).waiting(),
            final(self).listening() == old(self).listening(),
            final(self).lingering() == fresh(old(self).lingering(), now),
    {
        let mut old_recent: Vec<(u64, i64, P)> = Vec::new();
        std::mem::swap(&mut old_recent, &mut self.recent);
        let ghost all = old_recent@;
        let mut kept: Vec<(u64, i64, P)> = Vec::new();
        let ghost pred = |e: (u64, i64, P)| now - e.0 < PROGRESS_GRACE;
        assert(all.take(0) =~= seq![]);
        reveal(Seq::filter);
        let n: usize = old_recent.len();
        let mut i: usize = 0;
        while i < n
            invariant
                i <= n,
                n == all.len(),
                old_recent@ == all.skip(i as int),
                pred == (|e: (u64, i64, P)| now - e.0 < PROGRESS_GRACE),
                kept@ == all.take(i as int).filter(pred),
            decreases n - i,
        {
            let e = old_recent.remove(0);
            proof {
                reveal(Seq::filter);
                let t = all.take(i + 1);
                assert(t.drop_last() =~= all.take(i as int));
                assert(t.last() == e);
                assert(old_recent@ =~= all.skip(i + 1));
            }
            if now < e.0 || now - e.0 < PROGRESS_GRACE {
                kept.push(e);
            }
            i = i + 1;
        }
        assert(all.take(n as int) =~= all);
        self.recent = kept;
    }

    /// Gives the next number.
    pub fn next_id(&mut self) -> (r: RequestId)
        ensures
            r == RequestId::Number(old(self).next_number()),
            final(self).next_number() == if old(self).next_number() == i64::MAX {
                i64::MIN
            } else {
                (old(self).next_number() + 1) as i64
            },
            final(self).waiting() == old(self).waiting(),
            final(self).listening() == old(self).listening(),
            final(self).lingering() == old(self).lingering(),
    {
        let n: i64 = self.next;
        self.next = if n == i64::MAX {
            i64::MIN
        } else {
            n + 1
        };
        RequestId::Number(n)
    }

    /// Adds a request that waits, with what is told of its answer and of its progress.
    pub fn register(&mut self, waiter: T, progress: Option<P>) -> (r: RequestId)
        ensures
            r == RequestId::Number(old(self).next_number()),
            final(self).registers(&*old(self), waiter, progress),
            final(self).count() == old(self).count() + if old(self).waiting().dom().contains(
                old(self).next_number(),
            ) {
                0int
            } else {
                1
            },
    {
        let n: i64 = self.next;
        let id = self.next_id();
        match progress {
            Some(p) => {
                let _ = self.progress.insert(n, p);
            },
            None => {},
        }
        let _ = self.waiting.insert(n, waiter);
        id
    }

    /// Takes out a request that has been answered, and gives what is to be told of it.
    pub fn complete(&mut self, id: &RequestId, now: u64) -> (r: Option<T>)
        ensures
            final(self).retires(&*old(self), id.wire(), now),
            r == old(self).waiter_of(id.wire()),
            final(self).count() == old(self).count() - if r is Some {
                1int
            } else {
                0
            },
    {
        match Self::number_of(id) {
            Some(n) => {
                self.retire_progress(n, now);
                let r = self.waiting.remove(&n);
                assert(r is None ==> old(self).waiting().remove(n) =~= old(self).waiting());
                r
            },
            None => {
                self.drop_stale(now);
                None
            },
        }
    }

    /// Forgets a request.
    pub fn remove(&mut self, id: &RequestId, now: u64)
        ensures
            final(self).retires(&*old(self), id.wire(), now),
    {
        let _ = self.complete(id, now);
    }

    /// Who is told of the progress that a token stands for: of a request that waits, or
    /// of one that was answered a moment ago.
    pub fn progress_callback(&self, token: &ProgressToken, now: u64) -> (r: Option<&P>)
        ensures
            match r {
                Some(p) => self.told_of(token.request(), now) == Some(*p),
                None => self.told_of(token.request(), now) is None,
            },
    {
        let id = token.to_request_id();
        match Self::number_of(&id) {
            None => None,
            Some(n) => {
                match self.progress.get(&n) {
                    Some(p) => {
                        return Some(p);
                    },
                    None => {},
                }
                let mut i: usize = self.recent.len();
                assert(self.recent@.take(i as int) =~= self.recent@);
                while i > 0
                    invariant
                        i <= self.recent.len(),
                        latest(self.recent@, n, now) == latest(
                            self.recent@.take(i as int),
                            n,
                            now,
                        ),
                        numbered(token.request()) == Some(n),
                        !self.listening().dom().contains(n),
                    decreases i,
                {
                    let ghost t = self.recent@.take(i as int);
                    assert(t.drop_last() =~= self.recent@.take(i - 1));
                    assert(t.last() == self.recent@[i - 1]);
                    let e = &self.recent[i - 1];
                    if e.1 == n && (now < e.0 || now - e.0 < PROGRESS_GRACE) {
                        return Some(&e.2);
                    }
                    i = i - 1;
                }
                None
            },
        }
    }

    /// How many requests wait.
    pub fn len(&self) -> (r: usize)
        ensures
            r == self.count(),
            self.waiting().dom().finite(),
    {
        self.waiting.len()
    }

    /// Tells whether no request waits.
    pub fn is_empty(&self) -> (r: bool)
        ensures
            r == (self.count() == 0),
            r == (self.waiting() == Map::<i64, T>::empty()),
            self.waiting().dom().finite(),
    {
        proof {
            if self.count() == 0 {
                self.waiting().dom().lemma_len0_is_empty();
                assert(self.waiting() =~= Map::<i64, T>::empty());
            }
        }
        self.waiting.len() == 0
    }

    /// How many are told of progress.
    pub fn progress_len(&self) -> (r: usize)
        ensures
            r == self.listening().dom().len(),
            self.listening().dom().finite(),
    {
        self.progress.len()
    }

    /// Takes out every request, and gives what is to be told that they failed.
    pub fn fail_all(&mut self) -> (r: HashMap<i64, T>)
        ensures
            r@ == old(self).waiting(),
            final(self).is_cleared(&*old(self)),
    {
        let mut all: HashMap<i64, T> = HashMap::new();
        std::mem::swap(&mut all, &mut self.waiting);
        self.progress.clear();
        self.recent = Vec::new();
        all
    }

    /// The result of a request, by what came of waiting for it. A request that was not
    /// answered is forgotten.
    pub fn settle(
        &mut self,
        id: &RequestId,
        outcome: WaitOutcome,
        timeout_ms: u64,
        now: u64,
    ) -> (r: Result<Json, McpError>)
        ensures
            match outcome {
                WaitOutcome::Answered(Ok(v)) => r == Ok::<Json, McpError>(v),
                WaitOutcome::Answered(Err(e)) => r == Err::<Json, McpError>(McpError::Rpc(e)),
                WaitOutcome::Dropped => r == Err::<Json, McpError>(McpError::Closed),
                WaitOutcome::TimedOut => r == Err::<Json, McpError>(McpError::Timeout(timeout_ms)),
            },
            outcome is Answered ==> *final(self) == *old(self),
            !(outcome is Answered) ==> final(self).retires(&*old(self), id.wire(), now),
    {
        match outcome {
            WaitOutcome::Answered(Ok(v)) => Ok(v),
            WaitOutcome::Answered(Err(e)) => Err(McpError::Rpc(e)),
            WaitOutcome::Dropped => {
                self.remove(id, now);
                Err(McpError::Closed)
            },
            WaitOutcome::TimedOut => {
                self.remove(id, now);
                Err(McpError::Timeout(timeout_ms))
            },
        }
    }
}

/// Numbers are given in turn from 1 on: after `k` requests the next number is `k + 1`,
/// which no earlier request had.
pub open spec fn numbers_given(next: int, given: Set<i64>) -> bool {
    1 <= next && forall|n: i64| given.contains(n) ==> 1 <= n < next
}

/// A number that is given is new, as long as the numbers last.
pub proof fn number_is_new(next: i64, given: Set<i64>)
    requires
        numbers_given(next as int, given),
        next < i64::MAX,
    ensures
        !given.contains(next),
        numbers_given(next + 1, given.insert(next)),
{
}

/// The answer to a request reaches the one who asked, whatever else waits.
pub proof fn answer_reaches_asker<T, P>(
    before: PendingRequests<T, P>,
    after: PendingRequests<T, P>,
    waiter: T,
    progress: Option<P>,
    other: RequestId,
)
    requires
        after.registers(&before, waiter, progress),
    ensures
        after.waiter_of(RequestId::Number(before.next_number()).wire()) == Some(waiter),
        numbered(other.wire()) != Some(before.next_number()) ==> after.waiter_of(other.wire())
            == before.waiter_of(other.wire()),
{
}

/// A request is answered once: a second answer to it reaches nobody, and the others
/// wait on.
pub proof fn answered_once<T, P>(
    before: PendingRequests<T, P>,
    after: PendingRequests<T, P>,
    id: RequestId,
    now: u64,
    other: RequestId,
)
    requires
        after.retires(&before, id.wire(), now),
    ensures
        after.waiter_of(id.wire()) is None,
        numbered(other.wire()) != numbered(id.wire()) ==> after.waiter_of(other.wire())
            == before.waiter_of(other.wire()),
{
}

/// Completing a request that waits makes one less wait, and leaves every other as it is. To
/// complete it again, or to complete one that never waited, changes nothing of those that
/// wait.
pub proof fn completing_counts_down<T, P>(
    before: PendingRequests<T, P>,
    after: PendingRequests<T, P>,
    later: PendingRequests<T, P>,
    id: RequestId,
    now: u64,
    again: u64,
)
    requires
        after.retires(&before, id.wire(), now),
        later.retires(&after, id.wire(), again),
    ensures
        before.waiter_of(id.wire()) is Some ==> after.count() == before.count() - 1,
        before.waiter_of(id.wire()) is None ==> after.waiting() == before.waiting(),
        after.waiter_of(id.wire()) is None,
        later.waiting() == after.waiting(),
        forall|n: i64| #[trigger]
            before.waiting().dom().contains(n) && numbered(id.wire()) != Some(n)
                ==> after.waiting().dom().contains(n) && after.waiting()[n]
                == before.waiting()[n],
{
    assert(before.waiting@.dom().finite());
    match numbered(id.wire()) {
        Some(n) => {
            assert(after.waiting().remove(n) =~= after.waiting());
            if !before.waiting().dom().contains(n) {
                assert(before.waiting().remove(n) =~= before.waiting());
            }
        },
        None => {},
    }
}

/// Registering a request under a number that no other has makes one more wait.
pub proof fn registering_counts_up<T, P>(
    before: PendingRequests<T, P>,
    after: PendingRequests<T, P>,
    waiter: T,
    progress: Option<P>,
)
    requires
        after.registers(&before, waiter, progress),
        !before.waiting().dom().contains(before.next_number()),
    ensures
        after.count() == before.count() + 1,
{
    assert(before.waiting@.dom().finite());
}

/// The token that is sent for a request stands for that request, so one who is to hear
/// of its progress does.
pub proof fn token_stands_for_request(n: i64, t: ProgressToken)
    requires
        t.wire() == RequestId::Number(n).wire(),
    ensures
        t.request() == RequestId::Number(n).wire(),
        numbered(t.request()) == Some(n),
{
}

} // verus!
