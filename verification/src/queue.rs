//! Bounded-concurrency admission control for inference requests.
//!
//! The queue decides admission only: tasks enter a FIFO of pending work,
//! a task begins execution exactly when a concurrency slot is free, and
//! every finished execution — success or failure — frees its slot.  The
//! channels that carry requests and results between tasks live outside the
//! library and drive these transitions.

use vstd::prelude::*;
use crate::request::InferenceRequest;

verus! {

/// One queued unit of work: a request paired with the ticket that its
/// single-use result slot is keyed by.
#[derive(Debug, Clone)]
pub struct QueueTask {
    pub id: u64,
    pub request: InferenceRequest,
}

/// The admission-control state: how many tasks run now, the cap, and the
/// pending tasks in arrival order.
#[derive(Debug)]
pub struct InferenceQueue {
    max_concurrent: usize,
    active: usize,
    pending: Vec<QueueTask>,
    next_id: u64,
}

impl InferenceQueue {
    /// The configured concurrency cap.
    pub closed spec fn spec_cap(&self) -> nat {
        self.max_concurrent as nat
    }

    /// How many tasks are executing now.
    pub closed spec fn spec_active(&self) -> nat {
        self.active as nat
    }

    /// The pending tasks, in arrival order.
    pub closed spec fn spec_pending(&self) -> Seq<QueueTask> {
        self.pending@
    }

    /// The ticket the next submission will get.
    pub closed spec fn spec_next_id(&self) -> u64 {
        self.next_id
    }

    /// Well-formedness: the in-flight count never exceeds the cap, and
    /// pending tickets grow strictly along the FIFO and stay below the
    /// next ticket, so every ticket names at most one pending task.
    pub closed spec fn wf(&self) -> bool {
        &&& self.active <= self.max_concurrent
        &&& forall|i: int, j: int|
            0 <= i < j < self.pending@.len() ==> self.pending@[i].id < self.pending@[j].id
        &&& forall|i: int|
            0 <= i < self.pending@.len() ==> (#[trigger] self.pending@[i]).id < self.next_id
    }

    /// A fresh queue with the given cap: nothing pending, nothing active.
    pub fn new(max_concurrent: usize) -> (r: InferenceQueue)
        ensures
            r.wf(),
            r.spec_cap() == max_concurrent,
            r.spec_active() == 0,
            r.spec_pending().len() == 0,
            r.spec_next_id() == 0,
    {
        InferenceQueue { max_concurrent, active: 0, pending: Vec::new(), next_id: 0 }
    }

    /// Appends a request to the FIFO and returns the ticket its result
    /// slot is keyed by.  Admission is decided later, by [`Self::start_next`].
    pub fn enqueue(&mut self, request: InferenceRequest) -> (id: u64)
        requires
            old(self).wf(),
            old(self).spec_next_id() < u64::MAX,
        ensures
            final(self).wf(),
            id == old(self).spec_next_id(),
            final(self).spec_pending() == old(self).spec_pending().push(
                QueueTask { id, request },
            ),
            final(self).spec_active() == old(self).spec_active(),
            final(self).spec_cap() == old(self).spec_cap(),
            final(self).spec_next_id() == old(self).spec_next_id() + 1,
    {
        let id = self.next_id;
        self.next_id = id + 1;
        self.pending.push(QueueTask { id, request });
        id
    }

    /// Begins the next pending task if a concurrency slot is free: the
    /// first task leaves the FIFO and the in-flight count grows by one.
    /// With the cap reached, or nothing pending, nothing begins.
    pub fn start_next(&mut self) -> (r: Option<QueueTask>)
        requires
            old(self).wf(),
        ensures
            final(self).wf(),
            final(self).spec_cap() == old(self).spec_cap(),
            final(self).spec_next_id() == old(self).spec_next_id(),
            old(self).spec_active() >= old(self).spec_cap() || old(self).spec_pending().len() == 0
                ==> r is None && *final(self) == *old(self),
            old(self).spec_active() < old(self).spec_cap() && old(self).spec_pending().len() > 0
                ==> {
                &&& r is Some
                &&& r->0 == old(self).spec_pending()[0]
                &&& final(self).spec_pending() == old(self).spec_pending().drop_first()
                &&& final(self).spec_active() == old(self).spec_active() + 1
            },
    {
        if self.active >= self.max_concurrent || self.pending.len() == 0 {
            return None;
        }
        let task = self.pending.remove(0);
        self.active = self.active + 1;
        proof {
            assert(self.pending@ =~= old(self).pending@.drop_first());
        }
        Some(task)
    }

    /// Frees the slot of one finished execution, whether it succeeded or
    /// failed; the FIFO is untouched.
    pub fn finish_task(&mut self)
        requires
            old(self).wf(),
            old(self).spec_active() > 0,
        ensures
            final(self).wf(),
            final(self).spec_active() == old(self).spec_active() - 1,
            final(self).spec_pending() == old(self).spec_pending(),
            final(self).spec_cap() == old(self).spec_cap(),
            final(self).spec_next_id() == old(self).spec_next_id(),
    {
        self.active = self.active - 1;
    }

    /// Drops a pending task before it has begun execution, without side
    /// effects on the in-flight count.  Returns whether the ticket named a
    /// pending task.
    pub fn cancel_pending(&mut self, id: u64) -> (r: bool)
        requires
            old(self).wf(),
        ensures
            final(self).wf(),
            final(self).spec_active() == old(self).spec_active(),
            final(self).spec_cap() == old(self).spec_cap(),
            final(self).spec_next_id() == old(self).spec_next_id(),
            r == exists|k: int|
                0 <= k < old(self).spec_pending().len()
                    && (#[trigger] old(self).spec_pending()[k]).id == id,
            !r ==> *final(self) == *old(self),
            r ==> exists|k: int|
                {
                    &&& 0 <= k < old(self).spec_pending().len()
                    &&& (#[trigger] old(self).spec_pending()[k]).id == id
                    &&& final(self).spec_pending() == old(self).spec_pending().remove(k)
                },
    {
        let n = self.pending.len();
        let mut i: usize = 0;
        while i < n
            invariant
                n == self.pending@.len(),
                0 <= i <= n,
                old(self).wf(),
                *self == *old(self),
                forall|k: int| 0 <= k < i ==> (#[trigger] self.pending@[k]).id != id,
            decreases n - i,
        {
            if self.pending[i].id == id {
                self.pending.remove(i);
                proof {
                    assert(old(self).spec_pending()[i as int].id == id);
                    let orig = old(self).pending@;
                    let m = orig.len() as int;
                    assert(self.pending@ =~= orig.subrange(0, i as int) + orig.subrange(
                        i as int + 1,
                        m,
                    ));
                    assert(self.pending@.len() == m - 1);
                    assert forall|a: int| 0 <= a < m - 1 implies #[trigger] self.pending@[a] == (
                    if a < i as int {
                        orig[a]
                    } else {
                        orig[a + 1]
                    }) by {
                        if a < i as int {
                            assert(self.pending@[a] == orig.subrange(0, i as int)[a]);
                        } else {
                            assert(self.pending@[a] == orig.subrange(i as int + 1, m)[a - i]);
                        }
                    }
                    old(self).pending@.remove_ensures(i as int);
                    assert forall|a: int, b: int|
                        0 <= a < b < self.pending@.len() implies self.pending@[a].id
                        < self.pending@[b].id by {
                        if a < i as int {
                            assert(self.pending@[a] == old(self).pending@[a]);
                        } else {
                            assert(self.pending@[a] == old(self).pending@[a + 1]);
                        }
                        if b < i as int {
                            assert(self.pending@[b] == old(self).pending@[b]);
                        } else {
                            assert(self.pending@[b] == old(self).pending@[b + 1]);
                        }
                    }
                    assert forall|a: int|
                        0 <= a < self.pending@.len() implies (#[trigger] self.pending@[a]).id
                        < self.next_id by {
                        if a < i as int {
                            assert(self.pending@[a] == old(self).pending@[a]);
                        } else {
                            assert(self.pending@[a] == old(self).pending@[a + 1]);
                        }
                    }
                }
                return true;
            }
            i = i + 1;
        }
        false
    }

    /// The ticket the next submission will get; tickets below `u64::MAX`
    /// are still available.
    pub fn next_ticket(&self) -> (r: u64)
        ensures
            r == self.spec_next_id(),
    {
        self.next_id
    }

    /// The current in-flight count.
    pub fn active_count(&self) -> (r: usize)
        ensures
            r == self.spec_active(),
    {
        self.active
    }

    /// Whether the in-flight count is below the cap, so one more request
    /// could begin at once.
    pub fn can_accept(&self) -> (r: bool)
        ensures
            r == (self.spec_active() < self.spec_cap()),
    {
        self.active < self.max_concurrent
    }
}

/// Admission is bounded: in every well-formed queue state at most the
/// configured cap of tasks executes simultaneously, and — by the contract
/// of [`InferenceQueue::start_next`] — a further task begins only when the
/// count is strictly below the cap, hence only after a running task has
/// freed its slot.
pub proof fn lemma_bounded_concurrency(q: InferenceQueue)
    requires
        q.wf(),
    ensures
        q.spec_active() <= q.spec_cap(),
{
}

} // verus!
