//! Bounded report queues shared by the mock services: how a submission is
//! admitted, coalesced, dropped or refused under each scheduler policy, and
//! how reports are drained.
use vstd::prelude::*;
use std::collections::VecDeque;
use crate::service_abi::{SubmitOutcome, SubmitPolicy};

verus! {

/// Single-threaded report queue used by the mock services.
pub struct LocalQueue<T> {
    inner: VecDeque<T>,
}

impl<T> View for LocalQueue<T> {
    type V = Seq<T>;

    closed spec fn view(&self) -> Seq<T> {
        self.inner@
    }
}

impl<T> LocalQueue<T> {
    /// Creates a new empty queue with room reserved for `capacity` reports.
    pub fn with_capacity(capacity: usize) -> (r: Self)
        ensures
            r@ == Seq::<T>::empty(),
    {
        LocalQueue { inner: VecDeque::with_capacity(capacity) }
    }

    /// Number of queued reports.
    pub fn len(&self) -> (r: usize)
        ensures
            r == self@.len(),
    {
        self.inner.len()
    }

    /// Appends one report at the back.
    pub fn push_back(&mut self, value: T)
        ensures
            final(self)@ == old(self)@.push(value),
    {
        self.inner.push_back(value);
    }

    /// Removes the report at the front, if any.
    pub fn pop_front(&mut self) -> (r: Option<T>)
        ensures
            old(self)@.len() == 0 ==> r is None && final(self)@ == old(self)@,
            old(self)@.len() > 0 ==> r == Some(old(self)@[0]) && final(self)@ == old(self)@.subrange(
                1,
                old(self)@.len() as int,
            ),
    {
        self.inner.pop_front()
    }
}

/// Number of queued reports a coalescing submission of `needed` reports
/// evicts from the front: as many as it takes to fit, at most all of them.
pub open spec fn coalesce_evictions(len: int, capacity: int, needed: int) -> int {
    if len + needed <= capacity {
        0
    } else if len + needed - capacity <= len {
        len + needed - capacity
    } else {
        len
    }
}

/// Outcome of submitting `needed` reports to a queue holding `len` under
/// `policy` with room for `capacity`.
pub open spec fn submit_outcome(len: int, capacity: int, policy: SubmitPolicy, needed: int) -> SubmitOutcome {
    match policy {
        SubmitPolicy::BestEffort => if len + needed > capacity {
            SubmitOutcome::Dropped
        } else {
            SubmitOutcome::Accepted
        },
        SubmitPolicy::Coalesce => {
            let evicted = coalesce_evictions(len, capacity, needed);
            if len - evicted + needed > capacity {
                SubmitOutcome::WouldBlock
            } else if evicted > 0 {
                SubmitOutcome::Coalesced
            } else {
                SubmitOutcome::Accepted
            }
        },
        _ => if len + needed > capacity {
            SubmitOutcome::WouldBlock
        } else {
            SubmitOutcome::Accepted
        },
    }
}

/// Queue contents that remain ahead of the new reports: a coalescing
/// submission evicts from the front, every other policy keeps all.
pub open spec fn submit_kept<T>(q: Seq<T>, capacity: int, policy: SubmitPolicy, needed: int) -> Seq<T> {
    match policy {
        SubmitPolicy::Coalesce => q.subrange(coalesce_evictions(q.len() as int, capacity, needed), q.len() as int),
        _ => q,
    }
}

/// Whether a submission of `needed` reports to a queue holding `len` under
/// `policy` is admitted (accepted or coalesced).
pub fn submit_admits(len: usize, capacity: usize, policy: SubmitPolicy, needed: usize) -> (r: bool)
    requires
        len + needed <= usize::MAX,
    ensures
        r == outcome_enqueues(submit_outcome(len as int, capacity as int, policy, needed as int)),
{
    match policy {
        SubmitPolicy::Coalesce => {
            let evicted = if len + needed <= capacity {
                0
            } else if len + needed - capacity <= len {
                len + needed - capacity
            } else {
                len
            };
            len - evicted + needed <= capacity
        },
        _ => len + needed <= capacity,
    }
}

/// Whether a submission outcome enqueues the new reports.
pub open spec fn outcome_enqueues(o: SubmitOutcome) -> bool {
    o == SubmitOutcome::Accepted || o == SubmitOutcome::Coalesced
}

/// Appends `reports` to the back of `queue`.
fn extend_queue<Rep>(queue: &mut LocalQueue<Rep>, reports: Vec<Rep>)
    ensures
        final(queue)@ == old(queue)@ + reports@,
{
    let mut rest = reports;
    let ghost all = rest@;
    let ghost start = queue@;
    let ghost moved: int = 0;
    while rest.len() > 0
        invariant
            0 <= moved <= all.len(),
            rest@ == all.subrange(moved, all.len() as int),
            queue@ == start + all.subrange(0, moved),
        decreases rest@.len(),
    {
        let item = rest.remove(0);
        proof {
            assert(all.subrange(0, moved + 1) == all.subrange(0, moved).push(item));
            moved = moved + 1;
        }
        queue.push_back(item);
    }
    assert(all.subrange(0, moved) == all);
}

/// Attempts to push reports into a bounded queue following `policy`.
///
/// Best-effort submissions that do not fit are dropped; coalescing ones evict
/// queued reports from the front until they fit (answering `Coalesced` when
/// they had to) and would block only when even an empty queue is too small;
/// `Must` and `Lossless` submissions that do not fit would block. The reports
/// are only materialised when they are enqueued.
pub fn try_submit_queue<Rep, F: FnOnce() -> Vec<Rep>>(
    queue: &mut LocalQueue<Rep>,
    capacity: usize,
    policy: SubmitPolicy,
    needed: usize,
    materialise: F,
) -> (r: SubmitOutcome)
    requires
        old(queue)@.len() + needed <= usize::MAX,
        call_requires(materialise, ()),
    ensures
        r == submit_outcome(old(queue)@.len() as int, capacity as int, policy, needed as int),
        outcome_enqueues(r) ==> exists|reps: Vec<Rep>|
            call_ensures(materialise, (), reps) && final(queue)@ == submit_kept(
                old(queue)@,
                capacity as int,
                policy,
                needed as int,
            ) + reps@,
        !outcome_enqueues(r) ==> final(queue)@ == submit_kept(old(queue)@, capacity as int, policy, needed as int),
{
    let ghost q0 = queue@;
    match policy {
        SubmitPolicy::BestEffort => {
            if queue.len() + needed > capacity {
                return SubmitOutcome::Dropped;
            }
        },
        SubmitPolicy::Coalesce => {
            let mut coalesced = false;
            let mut evicted: usize = 0;
            while queue.len() + needed > capacity && queue.len() > 0
                invariant
                    evicted <= q0.len(),
                    queue@ == q0.subrange(evicted as int, q0.len() as int),
                    coalesced == (evicted > 0),
                    q0.len() + needed <= usize::MAX,
                    evicted <= coalesce_evictions(q0.len() as int, capacity as int, needed as int),
                decreases queue@.len(),
            {
                queue.pop_front();
                evicted = evicted + 1;
                coalesced = true;
            }
            assert(evicted == coalesce_evictions(q0.len() as int, capacity as int, needed as int));
            if queue.len() + needed > capacity {
                return SubmitOutcome::WouldBlock;
            }
            let reports = materialise();
            let ghost made = reports;
            extend_queue(queue, reports);
            assert(call_ensures(materialise, (), made));
            assert(q0.subrange(evicted as int, q0.len() as int) == submit_kept(q0, capacity as int, policy, needed as int));
            assert(queue@ == submit_kept(q0, capacity as int, policy, needed as int) + made@);
            return if coalesced {
                SubmitOutcome::Coalesced
            } else {
                SubmitOutcome::Accepted
            };
        },
        SubmitPolicy::Must | SubmitPolicy::Lossless => {
            if queue.len() + needed > capacity {
                return SubmitOutcome::WouldBlock;
            }
        },
    }
    let reports = materialise();
    let ghost made = reports;
    extend_queue(queue, reports);
    assert(call_ensures(materialise, (), made));
    assert(queue@ == submit_kept(q0, capacity as int, policy, needed as int) + made@);
    SubmitOutcome::Accepted
}

/// Drains up to `max` reports from the front of the queue, oldest first.
pub fn drain_queue<Rep>(queue: &mut LocalQueue<Rep>, max: usize) -> (r: Vec<Rep>)
    ensures
        r@ == old(queue)@.subrange(0, if max < old(queue)@.len() { max as int } else { old(queue)@.len() as int }),
        final(queue)@ == old(queue)@.subrange(
            if max < old(queue)@.len() { max as int } else { old(queue)@.len() as int },
            old(queue)@.len() as int,
        ),
{
    let mut out: Vec<Rep> = Vec::new();
    if max == 0 {
        return out;
    }
    let limit = if max < queue.len() { max } else { queue.len() };
    let ghost q0 = queue@;
    let mut taken: usize = 0;
    while taken < limit
        invariant
            limit <= q0.len(),
            taken <= limit,
            out@ == q0.subrange(0, taken as int),
            queue@ == q0.subrange(taken as int, q0.len() as int),
        decreases limit - taken,
    {
        if let Some(rep) = queue.pop_front() {
            out.push(rep);
        }
        taken = taken + 1;
    }
    out
}

} // verus!
