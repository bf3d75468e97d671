//! The buffer of click events between the request path and the bulk load.
//!
//! Events are appended one by one. The buffer is drained as a whole, either
//! by the append that makes it reach its threshold or by a tick of the flush
//! timer. A drain takes the buffered sequence and leaves an empty buffer in
//! one step, so that every event ends up in exactly one batch.

use crate::metrics::Metric;
use vstd::prelude::*;

verus! {

/// The number of buffered events at which an append drains the buffer.
pub const BUFFER_SIZE: usize = 1000;

/// The number of seconds between two ticks of the flush timer.
pub const FLUSH_INTERVAL_SECS: u64 = 10;

/// The buffer and what was drained from it, after one operation.
pub struct Drained {
    /// What stays buffered.
    pub remaining: Seq<Metric>,
    /// The batch handed to the bulk load, if the operation drained one.
    pub batch: Option<Seq<Metric>>,
}

/// An append: the event joins the buffer, and the buffer is drained where it
/// thereby reaches the threshold.
pub open spec fn after_append(buffered: Seq<Metric>, threshold: nat, event: Metric) -> Drained {
    let grown = buffered.push(event);
    if grown.len() >= threshold {
        Drained { remaining: Seq::empty(), batch: Some(grown) }
    } else {
        Drained { remaining: grown, batch: None }
    }
}

/// A tick of the flush timer: whatever is buffered is drained, whatever its
/// length; an empty buffer gives no batch.
pub open spec fn after_tick(buffered: Seq<Metric>) -> Drained {
    if buffered.len() == 0 {
        Drained { remaining: buffered, batch: None }
    } else {
        Drained { remaining: Seq::empty(), batch: Some(buffered) }
    }
}

/// One operation on the buffer.
pub enum BufferOp {
    /// A request appends an event.
    Append(Metric),
    /// The flush timer fires.
    Tick,
}

/// The buffer and every batch drained from it, after a run of operations.
pub struct Run {
    /// What stays buffered.
    pub remaining: Seq<Metric>,
    /// The drained batches, oldest first.
    pub batches: Seq<Seq<Metric>>,
}

/// One operation on the buffer.
pub open spec fn after_op(buffered: Seq<Metric>, threshold: nat, op: BufferOp) -> Drained {
    match op {
        BufferOp::Append(event) => after_append(buffered, threshold, event),
        BufferOp::Tick => after_tick(buffered),
    }
}

/// The operations in order, each on the buffer that the one before left.
pub open spec fn after_ops(buffered: Seq<Metric>, threshold: nat, ops: Seq<BufferOp>) -> Run
    decreases ops.len(),
{
    if ops.len() == 0 {
        Run { remaining: buffered, batches: Seq::empty() }
    } else {
        let before = after_ops(buffered, threshold, ops.drop_last());
        let last = after_op(before.remaining, threshold, ops.last());
        Run {
            remaining: last.remaining,
            batches: match last.batch {
                Some(batch) => before.batches.push(batch),
                None => before.batches,
            },
        }
    }
}

/// The events that the operations append, in order.
pub open spec fn appended(ops: Seq<BufferOp>) -> Seq<Metric>
    decreases ops.len(),
{
    if ops.len() == 0 {
        Seq::empty()
    } else {
        match ops.last() {
            BufferOp::Append(event) => appended(ops.drop_last()).push(event),
            BufferOp::Tick => appended(ops.drop_last()),
        }
    }
}

/// One append for each of the events, in order.
pub open spec fn appends(events: Seq<Metric>) -> Seq<BufferOp> {
    Seq::new(events.len(), |i: int| BufferOp::Append(events[i]))
}

/// Appends that stay below the threshold drain nothing.
proof fn lemma_appends_below_threshold(events: Seq<Metric>, threshold: nat)
    requires
        events.len() < threshold,
    ensures
        after_ops(Seq::empty(), threshold, appends(events)) == (Run {
            remaining: events,
            batches: Seq::empty(),
        }),
    decreases events.len(),
{
    if events.len() > 0 {
        lemma_appends_below_threshold(events.drop_last(), threshold);
        assert(appends(events).drop_last() =~= appends(events.drop_last()));
        assert(events.drop_last().push(events.last()) =~= events);
    } else {
        assert(events =~= Seq::empty());
    }
}

/// As many appends as the threshold says, to an empty buffer, drain it
/// exactly once: the one batch holds the appended events in their order, and
/// nothing stays buffered.
pub proof fn law_threshold_appends_drain_once(events: Seq<Metric>)
    requires
        events.len() >= 1,
    ensures
        after_ops(Seq::empty(), events.len(), appends(events)) == (Run {
            remaining: Seq::empty(),
            batches: seq![events],
        }),
{
    lemma_appends_below_threshold(events.drop_last(), events.len());
    assert(appends(events).drop_last() =~= appends(events.drop_last()));
    assert(events.drop_last().push(events.last()) =~= events);
    assert(Seq::<Seq<Metric>>::empty().push(events) =~= seq![events]);
}

/// Whatever way appends and ticks interleave, no event is lost and none is
/// drained twice: the batches in the order of their draining, followed by
/// what is still buffered, are the events in the order of their appending.
pub proof fn law_every_event_in_one_batch(
    buffered: Seq<Metric>,
    threshold: nat,
    ops: Seq<BufferOp>,
)
    ensures
        after_ops(buffered, threshold, ops).batches.flatten() + after_ops(
            buffered,
            threshold,
            ops,
        ).remaining == buffered + appended(ops),
    decreases ops.len(),
{
    broadcast use Seq::lemma_flatten_push;

    if ops.len() == 0 {
        assert(Seq::<Seq<Metric>>::empty().flatten() =~= Seq::empty());
        assert(Seq::<Metric>::empty() + buffered =~= buffered + Seq::<Metric>::empty());
    } else {
        law_every_event_in_one_batch(buffered, threshold, ops.drop_last());
        let before = after_ops(buffered, threshold, ops.drop_last());
        let now = after_ops(buffered, threshold, ops);
        match ops.last() {
            BufferOp::Append(event) => {
                assert(now.batches.flatten() + now.remaining =~= (before.batches.flatten()
                    + before.remaining).push(event));
                assert((buffered + appended(ops.drop_last())).push(event) =~= buffered
                    + appended(ops));
            },
            BufferOp::Tick => {
                assert(now.batches.flatten() + now.remaining =~= before.batches.flatten()
                    + before.remaining);
            },
        }
    }
}

/// No batch is empty: a drain that finds nothing buffered hands nothing on.
pub proof fn law_batches_nonempty(buffered: Seq<Metric>, threshold: nat, ops: Seq<BufferOp>)
    ensures
        forall|i: int|
            0 <= i < after_ops(buffered, threshold, ops).batches.len() ==> (
            #[trigger] after_ops(buffered, threshold, ops).batches[i]).len() > 0,
    decreases ops.len(),
{
    if ops.len() > 0 {
        law_batches_nonempty(buffered, threshold, ops.drop_last());
        let before = after_ops(buffered, threshold, ops.drop_last());
        let last = after_op(before.remaining, threshold, ops.last());
        let now = after_ops(buffered, threshold, ops);
        assert forall|i: int| 0 <= i < now.batches.len() implies (#[trigger] now.batches[i]).len()
            > 0 by {
            if i < before.batches.len() {
                assert(now.batches[i] == before.batches[i]);
            } else {
                assert(last.batch == Some(now.batches[i]));
            }
        }
    }
}

/// The shared buffer of click events.
pub struct EventBuffer {
    events: Vec<Metric>,
    threshold: usize,
}

impl View for EventBuffer {
    type V = Seq<Metric>;

    /// The buffered events, oldest first.
    closed spec fn view(&self) -> Seq<Metric> {
        self.events@
    }
}

impl EventBuffer {
    #[verifier::type_invariant]
    spec fn well_formed(self) -> bool {
        self.events@.len() == 0 || self.events@.len() < self.threshold
    }

    /// The length at which an append drains the buffer.
    pub closed spec fn threshold(&self) -> nat {
        self.threshold as nat
    }

    /// An empty buffer that is drained when it holds `threshold` events.
    pub fn new(threshold: usize) -> (buffer: Self)
        ensures
            buffer@ == Seq::<Metric>::empty(),
            buffer.threshold() == threshold,
    {
        EventBuffer { events: Vec::new(), threshold }
    }

    /// The number of buffered events.
    pub fn len(&self) -> (count: usize)
        ensures
            count == self@.len(),
            count == 0 || count < self.threshold(),
    {
        proof {
            use_type_invariant(self);
        }
        self.events.len()
    }

    /// Takes the buffered events and leaves an empty buffer, in one step.
    pub fn drain(&mut self) -> (batch: Vec<Metric>)
        ensures
            batch@ == old(self)@,
            final(self)@ == Seq::<Metric>::empty(),
            final(self).threshold() == old(self).threshold(),
    {
        let mut batch: Vec<Metric> = Vec::new();
        std::mem::swap(&mut batch, &mut self.events);
        batch
    }

    /// Appends `event`. Where the buffer thereby reaches its threshold it is
    /// drained, and the batch is returned for the bulk load.
    pub fn append(&mut self, event: Metric) -> (batch: Option<Vec<Metric>>)
        ensures
            final(self).threshold() == old(self).threshold(),
            final(self)@ == after_append(old(self)@, old(self).threshold(), event).remaining,
            match batch {
                Some(events) => Some(events@) == after_append(
                    old(self)@,
                    old(self).threshold(),
                    event,
                ).batch,
                None => after_append(old(self)@, old(self).threshold(), event).batch is None,
            },
    {
        proof {
            use_type_invariant(&*self);
        }
        let mut events: Vec<Metric> = Vec::new();
        std::mem::swap(&mut events, &mut self.events);
        events.push(event);
        if events.len() >= self.threshold {
            Some(events)
        } else {
            self.events = events;
            None
        }
    }

    /// The flush timer fired: drains whatever is buffered. An empty buffer
    /// gives no batch, so that no bulk load is started for it.
    pub fn tick(&mut self) -> (batch: Option<Vec<Metric>>)
        ensures
            final(self).threshold() == old(self).threshold(),
            final(self)@ == after_tick(old(self)@).remaining,
            match batch {
                Some(events) => Some(events@) == after_tick(old(self)@).batch,
                None => after_tick(old(self)@).batch is None,
            },
    {
        if self.events.len() == 0 {
            None
        } else {
            Some(self.drain())
        }
    }
}

} // verus!
