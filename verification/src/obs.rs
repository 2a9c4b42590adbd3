//! The observation unit of work: CPU readings bound to a trace context.
//!
//! An [`Observation`] couples one batch of readings with the [`TraceContext`]
//! opened for the sampling event that produced them. The context's lifetime
//! matches the observation's: it is opened strictly before the observation is
//! constructed and closed exactly once, by [`Observation::dispose`], which
//! consumes the observation. Because neither type is cloneable and disposal
//! is the only function that closes a context, a context is closed if and
//! only if its carrier has been disposed; copies of the readings taken out of
//! an observation carry no context and cannot extend its lifetime.

use vstd::prelude::*;
use crate::metrics::{MetricsSink, construction_updates, disposal_updates};

verus! {

/// CPU statistics at a point in time.
///
/// `usage` is the CPU usage in hundredths of a percent, so `1000` stands for
/// 10%. An integer fixed-point representation is used so that window sums and
/// averages are exact.
#[derive(Debug)]
pub struct CpuStats {
    /// CPU name.
    pub name: String,

    /// CPU usage in hundredths of a percent.
    pub usage: u64,

    /// CPU frequency in MHz.
    pub frequency: u64,
}

impl Clone for CpuStats {
    fn clone(&self) -> (r: Self)
        ensures
            r == *self,
    {
        CpuStats { name: self.name.clone(), usage: self.usage, frequency: self.frequency }
    }
}

/// The mathematical value of a [`CpuStats`] reading.
pub ghost struct CpuSample {
    pub name: Seq<char>,
    pub usage: u64,
    pub frequency: u64,
}

impl View for CpuStats {
    type V = CpuSample;

    open spec fn view(&self) -> CpuSample {
        CpuSample { name: self.name@, usage: self.usage, frequency: self.frequency }
    }
}

/// The mathematical values of a batch of readings, in batch order.
pub open spec fn samples_of(readings: Seq<CpuStats>) -> Seq<CpuSample> {
    readings.map_values(|r: CpuStats| r@)
}

#[verifier::external_type_specification]
#[verifier::external_body]
pub struct ExSpan(tracing::Span);

/// An open trace context: one logical unit-of-work scope.
///
/// The span inside it is the handle the trace backend knows; the `id` is the
/// observation id the span was opened with, kept as plain data so that the
/// lifecycle can be stated about it. A `TraceContext` is neither `Clone` nor
/// `Copy`: it is opened once, carried by exactly one owner at a time, and
/// closed exactly once, when the observation holding it is disposed.
pub struct TraceContext {
    id: u64,
    span: tracing::Span,
}

impl TraceContext {
    /// Bind a freshly opened span, carrying `id` for correlation, into a
    /// context handle. The span is expected to be the one opened for this
    /// very sampling event, as a child of whatever context was active then.
    pub fn new(id: u64, span: tracing::Span) -> (r: TraceContext)
        ensures
            r.id_spec() == id,
    {
        TraceContext { id, span }
    }

    /// The correlation id this context was opened with.
    pub closed spec fn id_spec(self) -> u64 {
        self.id
    }

    /// The correlation id this context was opened with.
    pub fn id(&self) -> (r: u64)
        ensures
            r == self.id_spec(),
    {
        self.id
    }

    /// The span handle, e.g. to re-enter it or to parent a child scope on it.
    pub fn span(&self) -> &tracing::Span {
        &self.span
    }
}

/// The receipt for a context that has been closed: produced only by
/// [`Observation::dispose`], exactly once per observation.
pub struct ClosedContext {
    /// The correlation id of the context that was closed.
    pub id: u64,
}

/// The mathematical value of an [`Observation`].
pub ghost struct ObsView {
    /// The readings carried, in sampling order.
    pub cpus: Seq<CpuSample>,
    /// The correlation id of the trace context bound to them.
    pub context_id: u64,
}

/// An observation of CPU stats at a point in time, together with the trace
/// context opened for it: the unit of work of the pipeline.
///
/// The context is part of the data, not ambient state. Whoever processes the
/// observation enters its context through [`Observation::in_scope`]; whoever
/// owns it last closes the context through [`Observation::dispose`]. History
/// kept for aggregation stores copies of the readings only, never the
/// observation, so the context closes when processing ends, however long the
/// data stays in a window.
pub struct Observation {
    cpus: Vec<CpuStats>,
    ctx: TraceContext,
}

impl View for Observation {
    type V = ObsView;

    closed spec fn view(&self) -> ObsView {
        ObsView { cpus: samples_of(self.cpus@), context_id: self.ctx.id }
    }
}

impl Observation {
    /// Bind a batch of readings to the context opened for them, and report
    /// the construction to the metrics collaborator: the "made" counter and
    /// the "live" gauge each go up by one, and every reading lands in the two
    /// histograms. This happens exactly once per observation, here.
    pub fn new(cpus: Vec<CpuStats>, context: TraceContext, metrics: &mut MetricsSink) -> (r:
        Observation)
        requires
            old(metrics)@.made < u64::MAX,
        ensures
            r@.cpus == samples_of(cpus@),
            r@.context_id == context.id_spec(),
            final(metrics)@.made == old(metrics)@.made + 1,
            final(metrics)@.disposed == old(metrics)@.disposed,
            final(metrics)@.emitted == old(metrics)@.emitted + construction_updates(
                samples_of(cpus@),
            ),
    {
        metrics.record_observation(&cpus);
        Observation { cpus, ctx: context }
    }

    /// The carried vector of readings, as a value specifications can name.
    pub closed spec fn cpus_vec(&self) -> Vec<CpuStats> {
        self.cpus
    }

    /// Read-only access to the readings carried.
    pub fn cpus(&self) -> (r: &Vec<CpuStats>)
        ensures
            *r == self.cpus_vec(),
            samples_of(r@) == self@.cpus,
    {
        &self.cpus
    }

    /// The correlation id of the context bound to this observation.
    pub fn context_id(&self) -> (r: u64)
        ensures
            r == self@.context_id,
    {
        self.ctx.id()
    }

    /// The span of the context bound to this observation.
    pub fn span(&self) -> &tracing::Span {
        self.ctx.span()
    }

    /// Relies on tracing::Span::in_scope: `f` runs with the observation's
    /// span as the active context — restored afterwards — and `f`'s result on
    /// the carried readings is returned unchanged.
    #[verifier::external_body]
    pub fn in_scope<F: FnOnce(&Vec<CpuStats>) -> R, R>(&self, f: F) -> (r: R)
        requires
            call_requires(f, (&self.cpus_vec(),)),
        ensures
            call_ensures(f, (&self.cpus_vec(),), r),
    {
        self.ctx.span.in_scope(|| f(&self.cpus))
    }

    /// Dispose of the observation: run `emit` inside the context (the last
    /// event recorded in it), close the context, then report the disposal to
    /// the metrics collaborator — the "live" gauge goes down by one whatever
    /// the trace backend did. Consuming `self` makes this the unique point at
    /// which this observation's context is closed; the returned receipt names
    /// it.
    pub fn dispose<F: FnOnce() -> ()>(self, emit: F, metrics: &mut MetricsSink) -> (r:
        ClosedContext)
        requires
            call_requires(emit, ()),
            old(metrics)@.disposed < u64::MAX,
        ensures
            r.id == self@.context_id,
            final(metrics)@.made == old(metrics)@.made,
            final(metrics)@.disposed == old(metrics)@.disposed + 1,
            final(metrics)@.emitted == old(metrics)@.emitted + disposal_updates(),
    {
        enter_for_disposal(&self.ctx.span, emit);
        let Observation { cpus: _, ctx } = self;
        let TraceContext { id, span } = ctx;
        close_context(span);
        metrics.record_disposal();
        ClosedContext { id }
    }
}

/// Relies on tracing::Span::in_scope: `emit` runs with the span entered, so
/// the disposal event is recorded inside the carrier's own context before the
/// context closes.
#[verifier::external_body]
fn enter_for_disposal<F: FnOnce() -> ()>(span: &tracing::Span, emit: F)
    requires
        call_requires(emit, ()),
{
    span.in_scope(emit)
}

/// The context closes here: the span handle is released, and the trace
/// backend receives the finished span asynchronously, on its own schedule.
fn close_context(span: tracing::Span) {
    let _released = span;
}

/// Relies on tracing::Span::none: a disabled span — entering it is a no-op
/// and nothing is exported for it. Used where a run needs contexts but no
/// subscriber is listening.
#[verifier::external_body]
pub fn detached_span() -> (r: tracing::Span) {
    tracing::Span::none()
}

} // verus!
