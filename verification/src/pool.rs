//! Bookkeeping state machine of the fixed-size worker pool.
//!
//! The pool dispatches each accepted connection as one job. This module
//! holds the verified core of that dispatcher: which job ids are queued,
//! which are running on a worker and which have finished. The surrounding
//! program drives one real thread per worker and reports every transition
//! here; the invariant proves the dispatch discipline itself — bounded
//! concurrency, strict FIFO dequeue, and no job lost or run twice.

use vstd::prelude::*;
use vstd::seq_lib::lemma_seq_contains_after_push;

verus! {

/// True when no element of `a` occurs in `b`.
pub open spec fn disjoint_ids(a: Seq<u64>, b: Seq<u64>) -> bool {
    forall|x: u64| a.contains(x) ==> !b.contains(x)
}

/// True when every element of `s` lies below `bound`.
pub open spec fn ids_below(s: Seq<u64>, bound: u64) -> bool {
    forall|i: int| 0 <= i < s.len() ==> s[i] < bound
}

/// The dispatcher's ledger: every submitted job id sits in the pending
/// queue, on a worker, or among the finished jobs.
pub struct Pool {
    worker_count: usize,
    next_id: u64,
    accepting: bool,
    queue: Vec<u64>,
    running: Vec<u64>,
    completed: Vec<u64>,
}

impl Pool {
    /// The fixed number of workers, set at construction.
    pub closed spec fn spec_worker_count(self) -> usize {
        self.worker_count
    }

    /// The id the next submitted job will get; ids are handed out in
    /// submission order, so this also counts the submissions so far.
    pub closed spec fn spec_next_id(self) -> u64 {
        self.next_id
    }

    /// Whether the pool still accepts new jobs.
    pub closed spec fn spec_accepting(self) -> bool {
        self.accepting
    }

    /// The ids of the submitted jobs no worker has picked up yet, oldest
    /// first.
    pub closed spec fn spec_queue(self) -> Seq<u64> {
        self.queue@
    }

    /// The ids of the jobs currently running on a worker.
    pub closed spec fn spec_running(self) -> Seq<u64> {
        self.running@
    }

    /// The ids of the jobs that have finished, in completion order.
    pub closed spec fn spec_completed(self) -> Seq<u64> {
        self.completed@
    }

    /// True when the pool tracks `id` somewhere: pending, running or
    /// finished.
    pub open spec fn tracks(self, id: u64) -> bool {
        self.spec_queue().contains(id) || self.spec_running().contains(id)
            || self.spec_completed().contains(id)
    }

    /// The dispatch invariant. Never more jobs running than workers; no id
    /// listed twice anywhere; and every id handed out so far is tracked in
    /// exactly one place.
    pub open spec fn inv(self) -> bool {
        &&& self.spec_worker_count() >= 1
        &&& self.spec_running().len() <= self.spec_worker_count()
        &&& self.spec_queue().no_duplicates()
        &&& self.spec_running().no_duplicates()
        &&& self.spec_completed().no_duplicates()
        &&& disjoint_ids(self.spec_queue(), self.spec_running())
        &&& disjoint_ids(self.spec_queue(), self.spec_completed())
        &&& disjoint_ids(self.spec_running(), self.spec_completed())
        &&& ids_below(self.spec_queue(), self.spec_next_id())
        &&& ids_below(self.spec_running(), self.spec_next_id())
        &&& ids_below(self.spec_completed(), self.spec_next_id())
        &&& forall|id: u64| id < self.spec_next_id() ==> #[trigger] self.tracks(id)
    }

    /// A fresh pool with the given number of workers: nothing submitted,
    /// nothing running, accepting jobs.
    pub fn new(worker_count: usize) -> (p: Pool)
        requires
            worker_count >= 1,
        ensures
            p.inv(),
            p.spec_worker_count() == worker_count,
            p.spec_accepting(),
            p.spec_next_id() == 0,
            p.spec_queue() == Seq::<u64>::empty(),
            p.spec_running() == Seq::<u64>::empty(),
            p.spec_completed() == Seq::<u64>::empty(),
    {
        Pool {
            worker_count,
            next_id: 0,
            accepting: true,
            queue: Vec::new(),
            running: Vec::new(),
            completed: Vec::new(),
        }
    }

    /// Submits one job and returns its id: the job goes to the back of the
    /// queue and nothing else moves. A closed pool accepts nothing and
    /// stays exactly as it is.
    pub fn submit(&mut self) -> (r: Option<u64>)
        requires
            old(self).inv(),
            old(self).spec_next_id() < u64::MAX,
        ensures
            final(self).inv(),
            old(self).spec_accepting() ==> r == Some(old(self).spec_next_id())
                && final(self).spec_queue() == old(self).spec_queue().push(old(self).spec_next_id())
                && final(self).spec_next_id() == old(self).spec_next_id() + 1,
            !old(self).spec_accepting() ==> r is None && *final(self) == *old(self),
            final(self).spec_running() == old(self).spec_running(),
            final(self).spec_completed() == old(self).spec_completed(),
            final(self).spec_accepting() == old(self).spec_accepting(),
            final(self).spec_worker_count() == old(self).spec_worker_count(),
    {
        if !self.accepting {
            return None;
        }
        let id = self.next_id;
        self.queue.push(id);
        self.next_id = self.next_id + 1;
        proof {
            broadcast use lemma_seq_contains_after_push;

            assert(forall|i: int|
                0 <= i < old(self).queue@.len() ==> self.queue@[i] == old(self).queue@[i]);
            assert forall|x: u64| x < self.next_id implies #[trigger] self.tracks(x) by {
                if x < old(self).next_id {
                    assert(old(self).tracks(x));
                } else {
                    assert(self.queue@[old(self).queue@.len() as int] == id);
                }
            }
        }
        Some(id)
    }

    /// Hands the oldest pending job to an idle worker and returns its id.
    /// Returns nothing — and changes nothing — exactly when the queue is
    /// empty or all workers are busy; dequeue order is submission order.
    pub fn start_job(&mut self) -> (r: Option<u64>)
        requires
            old(self).inv(),
        ensures
            final(self).inv(),
            old(self).spec_queue().len() > 0 && old(self).spec_running().len()
                < old(self).spec_worker_count() ==> r == Some(old(self).spec_queue()[0])
                && final(self).spec_queue() == old(self).spec_queue().drop_first()
                && final(self).spec_running() == old(self).spec_running().push(
                old(self).spec_queue()[0],
            ),
            old(self).spec_queue().len() == 0 || old(self).spec_running().len()
                >= old(self).spec_worker_count() ==> r is None && *final(self) == *old(self),
            final(self).spec_completed() == old(self).spec_completed(),
            final(self).spec_accepting() == old(self).spec_accepting(),
            final(self).spec_next_id() == old(self).spec_next_id(),
            final(self).spec_worker_count() == old(self).spec_worker_count(),
    {
        if self.queue.len() == 0 || self.running.len() >= self.worker_count {
            return None;
        }
        let id = self.queue.remove(0);
        self.running.push(id);
        proof {
            broadcast use lemma_seq_contains_after_push;

            assert(self.queue@ =~= old(self).queue@.drop_first());
            assert(old(self).queue@[0] == id);
            assert forall|x: u64| self.queue@.contains(x) implies old(self).queue@.contains(x)
                && x != id by {
                let k = choose|k: int| 0 <= k < self.queue@.len() && self.queue@[k] == x;
                assert(old(self).queue@[k + 1] == x);
            }
            assert(!old(self).running@.contains(id));
            assert(self.running@.no_duplicates()) by {
                assert(forall|j: int| 0 <= j < old(self).running@.len()
                    ==> self.running@[j] == old(self).running@[j]);
            }
            assert forall|x: u64| x < self.next_id implies #[trigger] self.tracks(x) by {
                assert(old(self).tracks(x));
                if old(self).queue@.contains(x) {
                    let i = choose|i: int| 0 <= i < old(self).queue@.len() && old(self).queue@[i]
                        == x;
                    if i == 0 {
                        assert(self.running@.contains(x));
                    } else {
                        assert(self.queue@[i - 1] == x);
                    }
                }
            }
        }
        Some(id)
    }

    /// Records that a worker finished the job `id`, successfully or not:
    /// the id moves from the running list to the completed list, and the
    /// pool is affected by nothing else — in particular not by `ok`, so a
    /// failed job frees its worker exactly as a successful one does.
    pub fn finish_job(&mut self, id: u64, ok: bool)
        requires
            old(self).inv(),
            old(self).spec_running().contains(id),
        ensures
            final(self).inv(),
            finish_step(*old(self), id, *final(self)),
    {
        let mut i: usize = 0;
        let running_len = self.running.len();
        while i < running_len && self.running[i] != id
            invariant
                i <= running_len,
                running_len == self.running@.len(),
                self.running@.contains(id),
                forall|j: int| 0 <= j < i ==> self.running@[j] != id,
            decreases running_len - i,
        {
            i = i + 1;
        }
        proof {
            if i >= running_len {
                let w = choose|w: int| 0 <= w < self.running@.len() && self.running@[w] == id;
                assert(false);
            }
            old(self).running@.index_of_first_ensures(id);
            assert(old(self).running@.index_of_first(id) == Some(i as int));
        }
        let removed = self.running.remove(i);
        self.completed.push(removed);
        proof {
            broadcast use lemma_seq_contains_after_push;

            assert(self.running@ == old(self).running@.remove_value(id));
            assert(forall|x: u64| self.running@.contains(x) ==> old(self).running@.contains(x))
                by {
                assert(forall|j: int|
                    0 <= j < self.running@.len() ==> #[trigger] self.running@[j] == if j < i {
                        old(self).running@[j]
                    } else {
                        old(self).running@[j + 1]
                    });
            }
            assert(self.running@.no_duplicates()) by {
                assert(forall|j: int|
                    0 <= j < self.running@.len() ==> #[trigger] self.running@[j] == if j < i {
                        old(self).running@[j]
                    } else {
                        old(self).running@[j + 1]
                    });
            }
            assert forall|x: u64| x < self.next_id implies #[trigger] self.tracks(x) by {
                assert(old(self).tracks(x));
                if old(self).running@.contains(x) {
                    let w = choose|w: int|
                        0 <= w < old(self).running@.len() && old(self).running@[w] == x;
                    if w == i {
                        assert(self.completed@.contains(x));
                    } else if w < i {
                        assert(self.running@[w] == x);
                    } else {
                        assert(self.running@[w - 1] == x);
                    }
                }
            }
        }
    }

    /// Stops accepting new jobs; everything already submitted stays where
    /// it is. Closing an already closed pool changes nothing.
    pub fn close(&mut self)
        requires
            old(self).inv(),
        ensures
            final(self).inv(),
            !final(self).spec_accepting(),
            final(self).spec_queue() == old(self).spec_queue(),
            final(self).spec_running() == old(self).spec_running(),
            final(self).spec_completed() == old(self).spec_completed(),
            final(self).spec_next_id() == old(self).spec_next_id(),
            final(self).spec_worker_count() == old(self).spec_worker_count(),
    {
        self.accepting = false;
        proof {
            assert forall|x: u64| x < self.next_id implies #[trigger] self.tracks(x) by {
                assert(old(self).tracks(x));
            }
        }
    }

    /// The fixed number of workers.
    pub fn worker_count(&self) -> (r: usize)
        ensures
            r == self.spec_worker_count(),
    {
        self.worker_count
    }

    /// How many jobs wait in the queue.
    pub fn pending_count(&self) -> (r: usize)
        ensures
            r == self.spec_queue().len(),
    {
        self.queue.len()
    }

    /// How many jobs are running right now.
    pub fn running_count(&self) -> (r: usize)
        ensures
            r == self.spec_running().len(),
    {
        self.running.len()
    }

    /// How many jobs have finished.
    pub fn completed_count(&self) -> (r: usize)
        ensures
            r == self.spec_completed().len(),
    {
        self.completed.len()
    }

    /// Whether the pool still accepts new jobs.
    pub fn is_accepting(&self) -> (r: bool)
        ensures
            r == self.spec_accepting(),
    {
        self.accepting
    }

    /// How many jobs have been submitted so far.
    pub fn submitted_count(&self) -> (r: u64)
        ensures
            r == self.spec_next_id(),
    {
        self.next_id
    }

    /// Whether the job `id` is running on a worker right now.
    pub fn is_running(&self, id: u64) -> (r: bool)
        ensures
            r == self.spec_running().contains(id),
    {
        let len = self.running.len();
        let mut i: usize = 0;
        while i < len
            invariant
                i <= len,
                len == self.running@.len(),
                forall|j: int| 0 <= j < i ==> self.running@[j] != id,
            decreases len - i,
        {
            if self.running[i] == id {
                return true;
            }
            i = i + 1;
        }
        false
    }
}

/// How `finish_job` moves the pool from `pre` to `post`: `id` leaves the
/// running list for the completed list, and every other part of the state
/// is kept. The job's outcome does not appear here at all.
pub open spec fn finish_step(pre: Pool, id: u64, post: Pool) -> bool {
    &&& post.spec_running() == pre.spec_running().remove_value(id)
    &&& post.spec_completed() == pre.spec_completed().push(id)
    &&& post.spec_queue() == pre.spec_queue()
    &&& post.spec_next_id() == pre.spec_next_id()
    &&& post.spec_accepting() == pre.spec_accepting()
    &&& post.spec_worker_count() == pre.spec_worker_count()
}

/// Never more jobs running than workers: in every pool state that satisfies
/// the invariant, the number of running jobs is bounded by the worker count
/// fixed at construction.
pub proof fn lemma_bounded_concurrency(p: Pool)
    requires
        p.inv(),
    ensures
        p.spec_running().len() <= p.spec_worker_count(),
{
}

/// Every submitted job is tracked in exactly one place: for each id the
/// pool has handed out, exactly one of the pending queue, the running list
/// and the completed list holds it — no job is lost, duplicated, or run
/// twice.
pub proof fn lemma_exactly_once(p: Pool, id: u64)
    requires
        p.inv(),
        id < p.spec_next_id(),
    ensures
        p.spec_queue().contains(id) || p.spec_running().contains(id) || p.spec_completed().contains(
            id,
        ),
        !(p.spec_queue().contains(id) && p.spec_running().contains(id)),
        !(p.spec_queue().contains(id) && p.spec_completed().contains(id)),
        !(p.spec_running().contains(id) && p.spec_completed().contains(id)),
{
    assert(p.tracks(id));
}

/// A job that fails is completed like any other: `finish_step` does not
/// depend on the job's outcome, and after it the failed job's worker is
/// free again, the queue is untouched and the pool still accepts work — so
/// one failing job cannot keep later jobs from being processed.
pub proof fn lemma_failed_job_keeps_pool_serving(pre: Pool, id: u64, post: Pool)
    requires
        pre.inv(),
        pre.spec_running().contains(id),
        finish_step(pre, id, post),
    ensures
        post.spec_running().len() < pre.spec_worker_count(),
        post.spec_queue() == pre.spec_queue(),
        post.spec_accepting() == pre.spec_accepting(),
{
    pre.spec_running().index_of_first_ensures(id);
}

} // verus!
