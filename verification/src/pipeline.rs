//! The pipeline as a whole: the bounded channel between the actors, and the
//! deterministic tick-by-tick run the actors' contracts compose into.
//!
//! The embedding program wires the real pipeline: a monitor task and a stats
//! task joined by a bounded channel, supervised by a handle that resolves as
//! soon as either task exits. [`ObsChannel`] states the channel discipline
//! those tasks rely on — FIFO order, and refusal (backpressure) exactly when
//! the buffer is at capacity — and [`run_ticks`] plays the whole pipeline
//! forward over a given schedule of reading batches, proving what aggregate
//! is emitted after every tick.

use vstd::prelude::*;
use std::collections::VecDeque;
use crate::metrics::MetricsSink;
use crate::monitor::SysMonitor;
use crate::obs::{ClosedContext, CpuStats, ObsView, Observation, detached_span, samples_of};
use crate::stats::{AggregateEvent, SysStats, aggregate_spec};
use crate::window::window_after;

verus! {

/// The mathematical values of buffered observations, oldest first.
pub open spec fn obs_views(buffer: Seq<Observation>) -> Seq<ObsView> {
    buffer.map_values(|o: Observation| o@)
}

/// The mathematical value of an [`ObsChannel`].
pub ghost struct ChannelView {
    /// Buffered observations, oldest first.
    pub queued: Seq<ObsView>,
    /// The channel's fixed capacity.
    pub capacity: usize,
}

/// A bounded FIFO buffer of observations: the discipline of the channel
/// between the monitor and the stats processor.
///
/// A send is accepted exactly when the buffer is below capacity; a send into
/// a full buffer is refused with the observation handed back untouched —
/// backpressure, never a drop. Receiving takes the oldest observation, so
/// production order equals consumption order.
pub struct ObsChannel {
    buffer: VecDeque<Observation>,
    capacity: usize,
}

impl View for ObsChannel {
    type V = ChannelView;

    closed spec fn view(&self) -> ChannelView {
        ChannelView { queued: obs_views(self.buffer@), capacity: self.capacity }
    }
}

impl ObsChannel {
    /// The buffer never outgrows its capacity, which is at least one.
    pub open spec fn wf(&self) -> bool {
        &&& self@.queued.len() <= self@.capacity
        &&& self@.capacity >= 1
    }

    /// An empty channel of the given capacity.
    pub fn new(capacity: usize) -> (r: ObsChannel)
        requires
            capacity >= 1,
        ensures
            r.wf(),
            r@.queued == Seq::<ObsView>::empty(),
            r@.capacity == capacity,
    {
        let r = ObsChannel { buffer: VecDeque::with_capacity(capacity), capacity };
        proof {
            assert(r@.queued =~= Seq::<ObsView>::empty());
        }
        r
    }

    /// How many observations are buffered now.
    pub fn len(&self) -> (r: usize)
        ensures
            r == self@.queued.len(),
    {
        self.buffer.len()
    }

    /// Offer one observation: appended when the buffer is below capacity,
    /// refused — handed back untouched, nothing dropped — exactly when the
    /// buffer is full. A refused send is the point where a real sender
    /// suspends until the consumer receives.
    pub fn try_send(&mut self, obs: Observation) -> (r: Result<(), Observation>)
        requires
            old(self).wf(),
        ensures
            final(self).wf(),
            final(self)@.capacity == old(self)@.capacity,
            r is Err <==> old(self)@.queued.len() == old(self)@.capacity,
            match r {
                Ok(()) => final(self)@.queued == old(self)@.queued.push(obs@),
                Err(back) => final(self)@.queued == old(self)@.queued && back@ == obs@,
            },
    {
        if self.buffer.len() == self.capacity {
            Err(obs)
        } else {
            let ghost before = obs_views(self.buffer@);
            let ghost v = obs@;
            self.buffer.push_back(obs);
            proof {
                assert(obs_views(self.buffer@) =~= before.push(v));
            }
            Ok(())
        }
    }

    /// Take the oldest buffered observation, if any: FIFO, so consumption
    /// order equals production order.
    pub fn try_recv(&mut self) -> (r: Option<Observation>)
        ensures
            final(self)@.capacity == old(self)@.capacity,
            match r {
                Some(obs) => {
                    &&& old(self)@.queued.len() > 0
                    &&& obs@ == old(self)@.queued[0]
                    &&& final(self)@.queued == old(self)@.queued.skip(1)
                },
                None => {
                    &&& old(self)@.queued.len() == 0
                    &&& final(self)@.queued == old(self)@.queued
                },
            },
    {
        let r = self.buffer.pop_front();
        proof {
            if old(self)@.queued.len() > 0 {
                assert(obs_views(self.buffer@) =~= obs_views(old(self).buffer@).skip(1));
            }
        }
        r
    }
}

/// The mathematical values of a schedule of reading batches, one per tick.
pub open spec fn tick_batches(batches: Seq<Vec<CpuStats>>) -> Seq<Seq<crate::obs::CpuSample>> {
    batches.map_values(|v: Vec<CpuStats>| samples_of(v@))
}

/// Play the pipeline forward over a fixed schedule: each tick, the monitor
/// binds that tick's batch into an observation, the stats processor folds a
/// copy of the readings into its window (capacity `capacity`) and emits the
/// aggregate, and the observation is disposed — its context closed, its
/// carrier accounted for.
///
/// The first returned vector holds the aggregate emitted after each tick:
/// the aggregate after tick `k` is computed over exactly the
/// `min(k + 1, capacity)` most recent batches. The second holds the
/// disposal receipts: one closed context per tick, carrying the very id the
/// tick's context was opened with — every context opened during the run is
/// closed with its carrier, none survives it, and none closes twice.
pub fn run_ticks(batches: &Vec<Vec<CpuStats>>, capacity: usize, metrics: &mut MetricsSink) -> (r: (
    Vec<AggregateEvent>,
    Vec<ClosedContext>,
))
    requires
        capacity >= 1,
        batches@.len() <= u64::MAX,
        old(metrics)@.made + batches@.len() <= u64::MAX,
        old(metrics)@.disposed + batches@.len() <= u64::MAX,
    ensures
        r.0@.len() == batches@.len(),
        forall|k: int|
            0 <= k < batches@.len() ==> r.0@[k] == aggregate_spec(
                window_after(tick_batches(batches@).take(k + 1), capacity as int),
            ),
        r.1@.len() == batches@.len(),
        forall|k: int| 0 <= k < batches@.len() ==> r.1@[k].id == k as u64,
        final(metrics)@.made == old(metrics)@.made + batches@.len(),
        final(metrics)@.disposed == old(metrics)@.disposed + batches@.len(),
{
    let ghost tb = tick_batches(batches@);
    // The interval below only paces the real timer; a deterministic replay
    // ticks immediately.
    let mut monitor = SysMonitor::new(5);
    let mut stats = SysStats::with_window_capacity(capacity, false);
    let mut events: Vec<AggregateEvent> = Vec::new();
    let mut receipts: Vec<ClosedContext> = Vec::new();
    let mut i: usize = 0;
    while i < batches.len()
        invariant
            i <= batches@.len(),
            batches@.len() <= u64::MAX,
            tb == tick_batches(batches@),
            tb.len() == batches@.len(),
            stats.wf(),
            stats@.capacity == capacity,
            capacity >= 1,
            stats@.window == window_after(tb.take(i as int), capacity as int),
            monitor.counter_spec() == i as u64,
            events@.len() == i,
            forall|k: int|
                0 <= k < i ==> events@[k] == aggregate_spec(
                    window_after(tb.take(k + 1), capacity as int),
                ),
            receipts@.len() == i,
            forall|k: int| 0 <= k < i ==> receipts@[k].id == k as u64,
            metrics@.made == old(metrics)@.made + i,
            metrics@.disposed == old(metrics)@.disposed + i,
            old(metrics)@.made + batches@.len() <= u64::MAX,
            old(metrics)@.disposed + batches@.len() <= u64::MAX,
        decreases batches@.len() - i,
    {
        let readings: Vec<CpuStats> = batches[i].clone();
        proof {
            assert(samples_of(readings@) =~= tb[i as int]);
        }
        let span = detached_span();
        let obs = monitor.take_observation(readings, span, metrics);
        let event = stats.process_observation(&obs);
        events.push(event);
        let closed = obs.dispose(
            || {
            },
            metrics,
        );
        receipts.push(closed);
        proof {
            assert(tb.take(i + 1).drop_last() =~= tb.take(i as int));
            assert(tb.take(i + 1).last() == tb[i as int]);
        }
        i = i + 1;
    }
    proof {
        assert(tb.take(batches@.len() as int) =~= tb);
    }
    (events, receipts)
}

} // verus!
