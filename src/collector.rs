//! The single writer that keeps every record and the running statistics.

use vstd::prelude::*;
use crate::aggregator::{
    aggregate, empty_state, has_room, lemma_aggregate_push, records_report, AggState, Aggregator,
};
use crate::ops::Operation;

verus! {

/// A record refused because the collector was closed; the record is handed back.
pub struct Closed(pub Operation);

/// Keeps each collected record, in order of arrival, and the statistics per
/// kind over them. After `close` it accepts nothing more.
pub struct Collector {
    ops: Vec<Operation>,
    aggregator: Aggregator,
    closed: bool,
}

impl Collector {
    /// The records collected so far, in order of arrival.
    pub closed spec fn operations(&self) -> Seq<Operation> {
        self.ops@
    }

    pub closed spec fn is_closed(&self) -> bool {
        self.closed
    }

    pub closed spec fn wf(&self) -> bool {
        &&& self.aggregator.wf()
        &&& forall|k| #[trigger] self.aggregator.entry(k) == aggregate(self.ops@, k)
        &&& forall|i: int| 0 <= i < self.ops@.len() ==> (#[trigger] self.ops@[i]).wf()
    }

    /// The statistics of one kind over the records collected so far.
    pub open spec fn stats(&self, kind: crate::ops::OperationType) -> Option<AggState> {
        aggregate(self.operations(), kind)
    }

    /// Whether `op` can be taken without a counter of its kind overflowing.
    pub open spec fn has_room_for(&self, op: Operation) -> bool {
        has_room(
            match self.stats(op.op_type) {
                Some(s) => s,
                None => empty_state(),
            },
            op,
        )
    }

    /// An open collector with no record.
    pub fn new() -> (r: Collector)
        ensures
            r.wf(),
            r.operations() == Seq::<Operation>::empty(),
            !r.is_closed(),
    {
        let r = Collector { ops: Vec::new(), aggregator: Aggregator::new(), closed: false };
        assert forall|k| #[trigger] r.aggregator.entry(k) == aggregate(r.ops@, k) by {
            assert(crate::aggregator::of_kind(r.ops@, k) =~= Seq::empty());
        }
        r
    }

    /// Whether `op` can be collected without a counter overflowing.
    pub fn can_collect(&self, op: &Operation) -> (r: bool)
        requires
            self.wf(),
            op.wf(),
        ensures
            r == self.has_room_for(*op),
    {
        self.aggregator.can_insert(op)
    }

    /// Takes one record: kept and aggregated while open, handed back once closed.
    pub fn collect(&mut self, op: Operation) -> (r: Result<(), Closed>)
        requires
            old(self).wf(),
            op.wf(),
            !old(self).is_closed() ==> old(self).has_room_for(op),
        ensures
            final(self).wf(),
            final(self).is_closed() == old(self).is_closed(),
            old(self).is_closed() ==> r == Err::<(), Closed>(Closed(op)),
            old(self).is_closed() ==> final(self).operations() == old(self).operations(),
            !old(self).is_closed() ==> r is Ok,
            !old(self).is_closed() ==> final(self).operations() == old(self).operations().push(op),
    {
        if self.closed {
            return Err(Closed(op));
        }
        let ghost before = self.ops@;
        self.aggregator.insert(op.cloned());
        self.ops.push(op);
        assert forall|k| #[trigger] self.aggregator.entry(k) == aggregate(self.ops@, k) by {
            lemma_aggregate_push(before, op, k);
        }
        assert forall|i: int| 0 <= i < self.ops@.len() implies (#[trigger] self.ops@[i]).wf() by {
            if i < before.len() {
                assert(self.ops@[i] == before[i]);
            }
        }
        Ok(())
    }

    /// A copy of the records collected so far.
    pub fn get_operations(&self) -> (r: Vec<Operation>)
        ensures
            r@ == self.operations(),
    {
        let mut r: Vec<Operation> = Vec::new();
        let mut i: usize = 0;
        while i < self.ops.len()
            invariant
                i <= self.ops@.len(),
                r@ == self.ops@.subrange(0, i as int),
            decreases self.ops@.len() - i,
        {
            r.push(self.ops[i].cloned());
            i += 1;
            assert(r@ =~= self.ops@.subrange(0, i as int));
        }
        assert(r@ =~= self.ops@);
        r
    }

    /// Stops accepting records. Everything collected before stays, so closing
    /// twice is the same as closing once.
    pub fn close(&mut self)
        requires
            old(self).wf(),
        ensures
            final(self).wf(),
            final(self).is_closed(),
            final(self).operations() == old(self).operations(),
    {
        self.closed = true;
    }

    /// The report over everything collected so far.
    pub fn display_aggregated(&self) -> (r: String)
        requires
            self.wf(),
        ensures
            r@ == records_report(self.operations()),
    {
        let r = self.aggregator.display();
        assert(self.aggregator.entry(crate::ops::OperationType::Get) == aggregate(
            self.ops@,
            crate::ops::OperationType::Get,
        ));
        assert(self.aggregator.entry(crate::ops::OperationType::Put) == aggregate(
            self.ops@,
            crate::ops::OperationType::Put,
        ));
        assert(self.aggregator.entry(crate::ops::OperationType::List) == aggregate(
            self.ops@,
            crate::ops::OperationType::List,
        ));
        assert(self.aggregator.entry(crate::ops::OperationType::Delete) == aggregate(
            self.ops@,
            crate::ops::OperationType::Delete,
        ));
        r
    }
}

impl Default for Collector {
    fn default() -> (r: Collector)
        ensures
            r.wf(),
            r.operations() == Seq::<Operation>::empty(),
            !r.is_closed(),
    {
        Collector::new()
    }
}

} // verus!
