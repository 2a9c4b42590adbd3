//! The stats processor: windowed aggregation over recent reading batches.

use vstd::prelude::*;
use crate::obs::{CpuSample, CpuStats, Observation, samples_of};
use crate::window::{SlidingWindow, window_push};
use crate::WINDOW_CAPACITY;

verus! {

/// The sum of the usage values of one batch.
pub open spec fn batch_usage_total(batch: Seq<CpuSample>) -> int
    decreases batch.len(),
{
    if batch.len() == 0 {
        0
    } else {
        batch_usage_total(batch.drop_last()) + batch.last().usage
    }
}

/// The sum of the frequency values of one batch.
pub open spec fn batch_frequency_total(batch: Seq<CpuSample>) -> int
    decreases batch.len(),
{
    if batch.len() == 0 {
        0
    } else {
        batch_frequency_total(batch.drop_last()) + batch.last().frequency
    }
}

/// The number of readings in the whole window.
pub open spec fn window_reading_count(w: Seq<Seq<CpuSample>>) -> int
    decreases w.len(),
{
    if w.len() == 0 {
        0
    } else {
        window_reading_count(w.drop_last()) + w.last().len()
    }
}

/// The sum of the usage values over the whole window.
pub open spec fn window_usage_total(w: Seq<Seq<CpuSample>>) -> int
    decreases w.len(),
{
    if w.len() == 0 {
        0
    } else {
        window_usage_total(w.drop_last()) + batch_usage_total(w.last())
    }
}

/// The sum of the frequency values over the whole window.
pub open spec fn window_frequency_total(w: Seq<Seq<CpuSample>>) -> int
    decreases w.len(),
{
    if w.len() == 0 {
        0
    } else {
        window_frequency_total(w.drop_last()) + batch_frequency_total(w.last())
    }
}

/// `x`, held to what a 64-bit total can carry.
pub open spec fn sat64(x: int) -> u64 {
    if x > u64::MAX {
        u64::MAX
    } else {
        x as u64
    }
}

/// The statistics of one non-empty window, as exact totals. The averages the
/// reference behaviour reports — mean readings per batch, average usage,
/// average frequency — are quotients of these fields; [`WindowStats`] offers
/// them as exact integer divisions.
///
/// Totals saturate at `u64::MAX`; real readings stay far below that.
#[derive(Clone, Copy, Debug, PartialEq, Eq, Structural)]
pub struct WindowStats {
    /// How many batches the window held.
    pub batch_count: u64,
    /// How many readings those batches held together.
    pub reading_count: u64,
    /// Sum of the usage values (hundredths of a percent).
    pub total_usage: u64,
    /// Sum of the frequency values (MHz).
    pub total_frequency: u64,
}

impl WindowStats {
    /// Mean readings per batch, rounded down.
    pub fn mean_readings_per_batch(&self) -> (r: u64)
        requires
            self.batch_count > 0,
        ensures
            r == self.reading_count / self.batch_count,
    {
        self.reading_count / self.batch_count
    }

    /// Average usage in hundredths of a percent, rounded down.
    pub fn average_usage(&self) -> (r: u64)
        requires
            self.reading_count > 0,
        ensures
            r == self.total_usage / self.reading_count,
    {
        self.total_usage / self.reading_count
    }

    /// Average frequency in MHz, rounded down.
    pub fn average_frequency_mhz(&self) -> (r: u64)
        requires
            self.reading_count > 0,
        ensures
            r == self.total_frequency / self.reading_count,
    {
        self.total_frequency / self.reading_count
    }
}

/// One structured aggregate emission: either the statistics of a non-empty
/// window, or the explicit marker that there was nothing to aggregate — the
/// empty window is a defined edge case, never a division by zero.
#[derive(Clone, Copy, Debug, PartialEq, Eq, Structural)]
pub enum AggregateEvent {
    /// The window held no readings; no statistic is defined.
    NoData,
    /// The window held at least one reading.
    Stats(WindowStats),
}

/// What aggregation over window contents `w` must emit: `NoData` exactly when
/// the flattened window is empty, otherwise the exact (saturated) totals.
pub open spec fn aggregate_spec(w: Seq<Seq<CpuSample>>) -> AggregateEvent {
    if window_reading_count(w) == 0 {
        AggregateEvent::NoData
    } else {
        AggregateEvent::Stats(
            WindowStats {
                batch_count: sat64(w.len() as int),
                reading_count: sat64(window_reading_count(w)),
                total_usage: sat64(window_usage_total(w)),
                total_frequency: sat64(window_frequency_total(w)),
            },
        )
    }
}

/// `a + b`, saturating at `u64::MAX`.
fn sat_add(a: u64, b: u64) -> (r: u64)
    ensures
        r == sat64(a + b),
{
    if a > u64::MAX - b {
        u64::MAX
    } else {
        a + b
    }
}

/// The mathematical value of a [`SysStats`] processor.
pub ghost struct StatsView {
    /// The window contents, oldest batch first.
    pub window: Seq<Seq<CpuSample>>,
    /// The window capacity.
    pub capacity: usize,
    /// Whether arriving observations are still forwarded downstream.
    pub forwarding: bool,
}

/// The stats processor: keeps the sliding window of recent batches and
/// recomputes the aggregate on every arriving observation.
///
/// The processor holds decisions and history only. The embedding program owns
/// the channel endpoints, drives [`SysStats::process_observation`] for each
/// received observation — inside that observation's own trace context — and
/// consults [`SysStats::forwarding`] before forwarding the observation
/// itself, unchanged, to the downstream consumer.
pub struct SysStats {
    window: SlidingWindow,
    forwarding: bool,
}

impl View for SysStats {
    type V = StatsView;

    closed spec fn view(&self) -> StatsView {
        StatsView {
            window: self.window@.entries,
            capacity: self.window@.capacity,
            forwarding: self.forwarding,
        }
    }
}

impl SysStats {
    /// The window never outgrows its capacity, which is at least one.
    pub open spec fn wf(&self) -> bool {
        &&& self@.window.len() <= self@.capacity
        &&& self@.capacity >= 1
    }

    /// A fresh processor with an empty window of the given capacity.
    /// `downstream` says whether a downstream consumer is configured.
    pub fn with_window_capacity(capacity: usize, downstream: bool) -> (r: SysStats)
        requires
            capacity >= 1,
        ensures
            r.wf(),
            r@.window == Seq::<Seq<CpuSample>>::empty(),
            r@.capacity == capacity,
            r@.forwarding == downstream,
    {
        SysStats { window: SlidingWindow::new(capacity), forwarding: downstream }
    }

    /// A fresh processor with the reference window depth.
    /// `downstream` says whether a downstream consumer is configured.
    pub fn new(downstream: bool) -> (r: SysStats)
        ensures
            r.wf(),
            r@.window == Seq::<Seq<CpuSample>>::empty(),
            r@.capacity == WINDOW_CAPACITY,
            r@.forwarding == downstream,
    {
        SysStats::with_window_capacity(WINDOW_CAPACITY, downstream)
    }

    /// Compute the aggregate over the current window contents: the explicit
    /// `NoData` marker for an empty window, otherwise the exact totals.
    pub fn run_stats(&self) -> (e: AggregateEvent)
        ensures
            e == aggregate_spec(self@.window),
    {
        let ghost w = self@.window;
        let mut batches: u64 = 0;
        let mut readings: u64 = 0;
        let mut usage: u64 = 0;
        let mut frequency: u64 = 0;
        let n = self.window.len();
        let mut i: usize = 0;
        while i < n
            invariant
                n == w.len(),
                w == self@.window,
                i <= n,
                batches == sat64(w.take(i as int).len() as int),
                readings == sat64(window_reading_count(w.take(i as int))),
                usage == sat64(window_usage_total(w.take(i as int))),
                frequency == sat64(window_frequency_total(w.take(i as int))),
            decreases n - i,
        {
            let batch = self.window.batch(i);
            let ghost b = w[i as int];
            let ghost w_read = window_reading_count(w.take(i as int));
            let ghost w_use = window_usage_total(w.take(i as int));
            let ghost w_freq = window_frequency_total(w.take(i as int));
            let m = batch.len();
            let mut j: usize = 0;
            while j < m
                invariant
                    m == batch@.len(),
                    samples_of(batch@) == b,
                    b.len() == m,
                    j <= m,
                    w_read == window_reading_count(w.take(i as int)),
                    w_use == window_usage_total(w.take(i as int)),
                    w_freq == window_frequency_total(w.take(i as int)),
                    readings == sat64(w_read + j),
                    usage == sat64(w_use + batch_usage_total(b.take(j as int))),
                    frequency == sat64(w_freq + batch_frequency_total(b.take(j as int))),
                decreases m - j,
            {
                proof {
                    lemma_window_totals_nonneg(w.take(i as int));
                    lemma_batch_totals_nonneg(b.take(j as int));
                    assert(b.take(j + 1).drop_last() =~= b.take(j as int));
                    assert(b.take(j + 1).last() == b[j as int]);
                    assert(samples_of(batch@)[j as int] == batch@[j as int]@);
                    lemma_sat64_add(w_read + j, 1);
                    lemma_sat64_add(w_use + batch_usage_total(b.take(j as int)), b[j as int].usage);
                    lemma_sat64_add(
                        w_freq + batch_frequency_total(b.take(j as int)),
                        b[j as int].frequency,
                    );
                }
                readings = sat_add(readings, 1);
                usage = sat_add(usage, batch[j].usage);
                frequency = sat_add(frequency, batch[j].frequency);
                j = j + 1;
            }
            proof {
                assert(b.take(m as int) =~= b);
                assert(w.take(i + 1).drop_last() =~= w.take(i as int));
                assert(w.take(i + 1).last() == b);
                assert(w.take(i as int).len() == i as int);
                lemma_sat64_add(i as int, 1);
            }
            batches = sat_add(batches, 1);
            i = i + 1;
        }
        proof {
            assert(w.take(n as int) =~= w);
            lemma_window_totals_nonneg(w);
        }
        if readings == 0 {
            AggregateEvent::NoData
        } else {
            AggregateEvent::Stats(
                WindowStats {
                    batch_count: batches,
                    reading_count: readings,
                    total_usage: usage,
                    total_frequency: frequency,
                },
            )
        }
    }

    /// One arriving observation: a copy of its readings (never the
    /// observation, never its context) enters the window — the oldest batch
    /// leaving first if the window is full — and the aggregate over the new
    /// window contents is emitted. The caller runs this inside the
    /// observation's own trace context and emits the returned event there.
    pub fn process_observation(&mut self, obs: &Observation) -> (e: AggregateEvent)
        requires
            old(self).wf(),
        ensures
            final(self).wf(),
            final(self)@.capacity == old(self)@.capacity,
            final(self)@.forwarding == old(self)@.forwarding,
            final(self)@.window == window_push(
                old(self)@.window,
                old(self)@.capacity as int,
                obs@.cpus,
            ),
            e == aggregate_spec(final(self)@.window),
    {
        let copy: Vec<CpuStats> = obs.cpus().clone();
        proof {
            assert(samples_of(copy@) =~= obs@.cpus);
        }
        self.window.push(copy);
        self.run_stats()
    }

    /// Whether arriving observations are still forwarded downstream.
    pub fn forwarding(&self) -> (r: bool)
        ensures
            r == self@.forwarding,
    {
        self.forwarding
    }

    /// The downstream receiver is gone: stop forwarding from now on.
    /// Aggregation itself continues untouched.
    pub fn note_forward_failure(&mut self)
        ensures
            final(self)@.forwarding == false,
            final(self)@.window == old(self)@.window,
            final(self)@.capacity == old(self)@.capacity,
    {
        self.forwarding = false;
    }
}

/// The totals of one batch are sums of unsigned values.
proof fn lemma_batch_totals_nonneg(b: Seq<CpuSample>)
    ensures
        batch_usage_total(b) >= 0,
        batch_frequency_total(b) >= 0,
    decreases b.len(),
{
    if b.len() > 0 {
        lemma_batch_totals_nonneg(b.drop_last());
    }
}

/// The totals of a window are sums of unsigned values.
proof fn lemma_window_totals_nonneg(w: Seq<Seq<CpuSample>>)
    ensures
        window_reading_count(w) >= 0,
        window_usage_total(w) >= 0,
        window_frequency_total(w) >= 0,
    decreases w.len(),
{
    if w.len() > 0 {
        lemma_window_totals_nonneg(w.drop_last());
        lemma_batch_totals_nonneg(w.last());
    }
}

/// Saturating a running total and then adding saturates the same as adding
/// first.
proof fn lemma_sat64_add(y: int, x: u64)
    requires
        y >= 0,
    ensures
        sat64(sat64(y) + x) == sat64(y + x),
{
}

} // verus!
