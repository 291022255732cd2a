//! A bounded work queue served by a fixed set of workers.
//!
//! The pool decides; the caller runs it. Each worker asks `next` for work,
//! performs the item it gets, and reports back with `finish`. A worker holds
//! at most one item at a time, so no more items are in flight than there are
//! workers, however many are submitted.

use std::collections::VecDeque;
use vstd::prelude::*;

verus! {

/// What became of a submitted item.
#[derive(Debug, PartialEq, Eq)]
pub enum Submission {
    /// The item waits in the queue.
    Queued,
    /// The queue is at capacity: the item is handed back, to be offered again
    /// once a worker has taken something.
    Full(String),
    /// The pool was closed: the item is handed back for good.
    Closed(String),
}

/// What a worker that asks for work is told to do.
#[derive(Debug, PartialEq, Eq)]
pub enum WorkerStep {
    /// Perform this item, then call `finish`.
    Run(String),
    /// Nothing queued yet: ask again after the next submission or close.
    Wait,
    /// Closed and drained: the worker stops.
    Exit,
}

/// The number of occupied slots.
pub open spec fn busy_count(slots: Seq<Option<String>>) -> nat
    decreases slots.len(),
{
    if slots.len() == 0 {
        0
    } else {
        busy_count(slots.drop_last()) + if slots.last() is Some {
            1nat
        } else {
            0nat
        }
    }
}

/// No more slots are occupied than there are slots.
pub proof fn lemma_busy_at_most_slots(slots: Seq<Option<String>>)
    ensures
        busy_count(slots) <= slots.len(),
    decreases slots.len(),
{
    if slots.len() > 0 {
        lemma_busy_at_most_slots(slots.drop_last());
    }
}

pub struct WorkerPool {
    queue: VecDeque<String>,
    capacity: usize,
    slots: Vec<Option<String>>,
    closed: bool,
    accepted: Ghost<Seq<String>>,
    handed_out: Ghost<Seq<String>>,
}

impl WorkerPool {
    /// Items waiting, oldest first.
    pub closed spec fn queued(&self) -> Seq<String> {
        self.queue@
    }

    /// The item each worker is performing, if any.
    pub closed spec fn slots(&self) -> Seq<Option<String>> {
        self.slots@
    }

    pub closed spec fn capacity(&self) -> nat {
        self.capacity as nat
    }

    pub closed spec fn is_closed(&self) -> bool {
        self.closed
    }

    /// Every item queued so far, in order.
    pub closed spec fn accepted(&self) -> Seq<String> {
        self.accepted@
    }

    /// Every item handed to a worker so far, in order.
    pub closed spec fn handed_out(&self) -> Seq<String> {
        self.handed_out@
    }

    pub open spec fn workers(&self) -> nat {
        self.slots().len()
    }

    pub open spec fn in_flight(&self) -> nat {
        busy_count(self.slots())
    }

    pub closed spec fn wf(&self) -> bool {
        &&& self.slots@.len() >= 1
        &&& self.capacity >= 1
        &&& self.queue@.len() <= self.capacity
        &&& self.accepted@ == self.handed_out@ + self.queue@
    }

    /// A pool of `workers` idle workers and a queue of `capacity` places.
    pub fn new(workers: usize, capacity: usize) -> (r: WorkerPool)
        requires
            workers >= 1,
            capacity >= 1,
        ensures
            r.wf(),
            r.workers() == workers,
            r.capacity() == capacity,
            r.queued() == Seq::<String>::empty(),
            forall|w: int| 0 <= w < workers ==> r.slots()[w] is None,
            !r.is_closed(),
            r.accepted() == Seq::<String>::empty(),
            r.handed_out() == Seq::<String>::empty(),
    {
        let mut slots: Vec<Option<String>> = Vec::new();
        let mut i: usize = 0;
        while i < workers
            invariant
                i <= workers,
                slots@.len() == i,
                forall|w: int| 0 <= w < i ==> slots@[w] is None,
            decreases workers - i,
        {
            slots.push(None);
            i += 1;
        }
        let r = WorkerPool {
            queue: VecDeque::new(),
            capacity,
            slots,
            closed: false,
            accepted: Ghost(Seq::empty()),
            handed_out: Ghost(Seq::empty()),
        };
        assert(r.accepted@ =~= r.handed_out@ + r.queue@);
        r
    }

    /// Offers one item.
    pub fn submit(&mut self, item: String) -> (r: Submission)
        requires
            old(self).wf(),
        ensures
            final(self).wf(),
            final(self).slots() == old(self).slots(),
            final(self).capacity() == old(self).capacity(),
            final(self).is_closed() == old(self).is_closed(),
            old(self).is_closed() ==> r == Submission::Closed(item) && final(self).queued()
                == old(self).queued(),
            !old(self).is_closed() && old(self).queued().len() == old(self).capacity() ==> r
                == Submission::Full(item) && final(self).queued() == old(self).queued(),
            !old(self).is_closed() && old(self).queued().len() < old(self).capacity() ==> r
                == Submission::Queued && final(self).queued() == old(self).queued().push(item),
            final(self).handed_out() == old(self).handed_out(),
            r == Submission::Queued ==> final(self).accepted() == old(self).accepted().push(item),
            r != Submission::Queued ==> final(self).accepted() == old(self).accepted(),
    {
        if self.closed {
            Submission::Closed(item)
        } else if self.queue.len() >= self.capacity {
            Submission::Full(item)
        } else {
            let ghost it = item;
            self.queue.push_back(item);
            self.accepted = Ghost(self.accepted@.push(it));
            assert(self.accepted@ =~= self.handed_out@ + self.queue@);
            Submission::Queued
        }
    }

    /// Hands an idle worker the oldest queued item; an idle worker of an empty
    /// pool waits while it is open and exits once it is closed.
    pub fn next(&mut self, worker: usize) -> (r: WorkerStep)
        requires
            old(self).wf(),
            worker < old(self).workers(),
            old(self).slots()[worker as int] is None,
        ensures
            final(self).wf(),
            final(self).capacity() == old(self).capacity(),
            final(self).is_closed() == old(self).is_closed(),
            old(self).queued().len() > 0 ==> r == WorkerStep::Run(old(self).queued()[0])
                && final(self).queued() == old(self).queued().drop_first() && final(self).slots()
                == old(self).slots().update(worker as int, Some(old(self).queued()[0])),
            old(self).queued().len() == 0 ==> final(self).queued() == old(self).queued()
                && final(self).slots() == old(self).slots(),
            old(self).queued().len() == 0 && old(self).is_closed() ==> r == WorkerStep::Exit,
            old(self).queued().len() == 0 && !old(self).is_closed() ==> r == WorkerStep::Wait,
            final(self).accepted() == old(self).accepted(),
            old(self).queued().len() > 0 ==> final(self).handed_out() == old(self).handed_out().push(
                old(self).queued()[0],
            ),
            old(self).queued().len() == 0 ==> final(self).handed_out() == old(self).handed_out(),
    {
        match self.queue.pop_front() {
            Some(item) => {
                self.slots.set(worker, Some(item.clone()));
                assert(self.queue@ =~= old(self).queue@.drop_first());
                self.handed_out = Ghost(self.handed_out@.push(item));
                assert(self.accepted@ =~= self.handed_out@ + self.queue@);
                WorkerStep::Run(item)
            },
            None => {
                if self.closed {
                    WorkerStep::Exit
                } else {
                    WorkerStep::Wait
                }
            },
        }
    }

    /// Marks the worker's item as done, success or failure alike.
    pub fn finish(&mut self, worker: usize)
        requires
            old(self).wf(),
            worker < old(self).workers(),
        ensures
            final(self).wf(),
            final(self).queued() == old(self).queued(),
            final(self).capacity() == old(self).capacity(),
            final(self).is_closed() == old(self).is_closed(),
            final(self).slots() == old(self).slots().update(worker as int, None),
            final(self).accepted() == old(self).accepted(),
            final(self).handed_out() == old(self).handed_out(),
    {
        self.slots.set(worker, None);
    }

    /// Refuses further submissions; queued items are still handed out.
    pub fn close(&mut self)
        requires
            old(self).wf(),
        ensures
            final(self).wf(),
            final(self).is_closed(),
            final(self).queued() == old(self).queued(),
            final(self).slots() == old(self).slots(),
            final(self).capacity() == old(self).capacity(),
            final(self).accepted() == old(self).accepted(),
            final(self).handed_out() == old(self).handed_out(),
    {
        self.closed = true;
    }

    /// Items being performed now; never more than the workers.
    pub fn in_flight_count(&self) -> (r: usize)
        requires
            self.wf(),
        ensures
            r as nat == self.in_flight(),
            r as nat <= self.workers(),
    {
        let mut n: usize = 0;
        let mut i: usize = 0;
        while i < self.slots.len()
            invariant
                i <= self.slots@.len(),
                n as nat == busy_count(self.slots@.subrange(0, i as int)),
                n <= i,
            decreases self.slots@.len() - i,
        {
            assert(self.slots@.subrange(0, i + 1).drop_last() =~= self.slots@.subrange(
                0,
                i as int,
            ));
            if self.slots[i].is_some() {
                n += 1;
            }
            i += 1;
        }
        assert(self.slots@.subrange(0, i as int) =~= self.slots@);
        n
    }

    /// Closed, nothing queued and every worker idle.
    pub fn is_drained(&self) -> (r: bool)
        requires
            self.wf(),
        ensures
            r == (self.is_closed() && self.queued().len() == 0 && self.in_flight() == 0),
    {
        self.closed && self.queue.len() == 0 && self.in_flight_count() == 0
    }
}

/// However many items are submitted, the items in flight never outnumber the
/// workers: each worker holds at most one.
pub proof fn lemma_in_flight_bounded(pool: &WorkerPool)
    ensures
        pool.in_flight() <= pool.workers(),
{
    lemma_busy_at_most_slots(pool.slots());
}

/// Nothing submitted is lost or repeated: once the queue is empty, every
/// queued item has been handed to a worker exactly once, in the order it was
/// queued. A closed pool whose workers have all exited is in that state.
pub proof fn lemma_empty_queue_handed_out_all(pool: &WorkerPool)
    requires
        pool.wf(),
        pool.queued().len() == 0,
    ensures
        pool.handed_out() == pool.accepted(),
{
    assert(pool.handed_out() + pool.queued() =~= pool.handed_out());
}

} // verus!
