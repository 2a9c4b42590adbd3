//! The monitor: the producer side of the pipeline.
//!
//! On every tick of a fixed interval, the embedding program samples the
//! opaque provider (a set of named CPU readings — possibly empty when
//! sampling failed this tick), opens a fresh trace span as a child of
//! whatever context is active at tick time, and hands both to
//! [`SysMonitor::take_observation`], which binds them into an
//! [`Observation`] and steps the per-process correlation counter. The
//! embedding program then sends the observation on the bounded outbound
//! channel and exits its loop cleanly when the receiving side is gone.

use vstd::prelude::*;
use crate::metrics::{MetricsSink, construction_updates};
use crate::obs::{CpuStats, Observation, TraceContext, samples_of};

verus! {

/// The correlation counter after one more observation: one step up, wrapping
/// at the top. Wrapping is acceptable — ids serve correlation, not
/// uniqueness.
pub open spec fn next_counter(c: u64) -> u64 {
    if c == u64::MAX {
        0
    } else {
        (c + 1) as u64
    }
}

/// The producer's state: the sampling interval it was configured with and
/// the monotonically increasing (wrapping) id for the next observation.
pub struct SysMonitor {
    interval_millis: u64,
    counter: u64,
}

impl SysMonitor {
    /// A monitor that observes every `interval_millis` milliseconds,
    /// starting its correlation ids at zero.
    pub fn new(interval_millis: u64) -> (r: SysMonitor)
        ensures
            r.interval_millis_spec() == interval_millis,
            r.counter_spec() == 0,
    {
        SysMonitor { interval_millis, counter: 0 }
    }

    /// The configured sampling interval in milliseconds.
    pub closed spec fn interval_millis_spec(self) -> u64 {
        self.interval_millis
    }

    /// The id the next observation will carry.
    pub closed spec fn counter_spec(self) -> u64 {
        self.counter
    }

    /// The configured sampling interval in milliseconds. The embedding timer
    /// fires at this fixed rate, not drift-corrected against processing time.
    pub fn interval_millis(&self) -> (r: u64)
        ensures
            r == self.interval_millis_spec(),
    {
        self.interval_millis
    }

    /// The id the next observation will carry: the id to open this tick's
    /// span with, before calling [`SysMonitor::take_observation`].
    pub fn observation_id(&self) -> (r: u64)
        ensures
            r == self.counter_spec(),
    {
        self.counter
    }

    /// One tick's observation: bind the readings sampled within `span` to a
    /// context carrying this tick's id, report the construction to the
    /// metrics collaborator, and step the counter (wrapping). The returned
    /// observation is what goes out on the channel; if sending it fails
    /// because the receiver is gone, the producer loop ends cleanly.
    pub fn take_observation(
        &mut self,
        readings: Vec<CpuStats>,
        span: tracing::Span,
        metrics: &mut MetricsSink,
    ) -> (obs: Observation)
        requires
            old(metrics)@.made < u64::MAX,
        ensures
            obs@.cpus == samples_of(readings@),
            obs@.context_id == old(self).counter_spec(),
            final(self).counter_spec() == next_counter(old(self).counter_spec()),
            final(self).interval_millis_spec() == old(self).interval_millis_spec(),
            final(metrics)@.made == old(metrics)@.made + 1,
            final(metrics)@.disposed == old(metrics)@.disposed,
            final(metrics)@.emitted == old(metrics)@.emitted + construction_updates(
                samples_of(readings@),
            ),
    {
        let context = TraceContext::new(self.counter, span);
        let obs = Observation::new(readings, context, metrics);
        self.counter = if self.counter == u64::MAX {
            0
        } else {
            self.counter + 1
        };
        obs
    }
}

} // verus!
