//! An actor-style observation pipeline: a monitor samples named CPU readings
//! on a fixed interval, wraps each batch together with its own trace span into
//! an [`Observation`], and a stats processor aggregates the most recent
//! batches over a fixed-depth sliding window.
//!
//! The crate verifies the pipeline's logic: the unit-of-work lifecycle of an
//! [`Observation`] (metrics reported once on construction, span closed and the
//! liveness gauge decremented once on disposal), the FIFO eviction of the
//! sliding window, and the windowed aggregation with its empty-window guard.
//! The asynchronous plumbing (timers, channels, task supervision) lives with
//! the embedding program, which drives the step functions defined here.

use vstd::prelude::*;

pub mod metrics;
pub mod monitor;
pub mod obs;
pub mod pipeline;
pub mod stats;
pub mod window;

pub use metrics::{Instrument, MetricUpdate, MetricsSink};
pub use monitor::SysMonitor;
pub use obs::{ClosedContext, CpuStats, Observation, TraceContext, detached_span};
pub use pipeline::{ObsChannel, run_ticks};
pub use stats::{AggregateEvent, SysStats, WindowStats};
pub use window::SlidingWindow;

verus! {

/// Capacity of the channel between the monitor and the stats processor.
/// Intentionally tight, so that a slow stats processor throttles the monitor.
pub const PIPE_CHANNEL_CAPACITY: usize = 2;

/// Number of historical observation batches kept for aggregation.
pub const WINDOW_CAPACITY: usize = 10;

} // verus!
