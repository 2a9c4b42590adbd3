//! The metrics collaborator, as the pipeline sees it.
//!
//! The pipeline reports to four named instruments. Reporting is modelled
//! explicitly: every call appends a [`MetricUpdate`] to a [`MetricsSink`],
//! which also keeps the running construction and disposal counts, so that the
//! balance of the "observations live" gauge is a proved fact rather than a
//! convention. The embedding program drains the queued updates and forwards
//! them to the process-wide metrics recorder, which is assumed safe for
//! concurrent use.

use vstd::prelude::*;
use crate::obs::{CpuSample, CpuStats, samples_of};

verus! {

/// The four instruments the pipeline reports to.
#[derive(Clone, Copy, Debug, PartialEq, Eq, Structural)]
pub enum Instrument {
    /// Counter: total observations made since startup.
    ObservationsMade,
    /// Gauge: observations currently held in memory.
    ObservationsLive,
    /// Histogram: CPU usage, labelled by CPU name.
    CpuUsage,
    /// Histogram: CPU frequency in MHz, labelled by CPU name.
    CpuFrequency,
}

impl Instrument {
    /// The registered name of this instrument.
    pub open spec fn key_spec(self) -> Seq<char> {
        match self {
            Instrument::ObservationsMade => "my_cute_app.observations_made"@,
            Instrument::ObservationsLive => "my_cute_app.observations_live"@,
            Instrument::CpuUsage => "my_cute_app.cpu_usage"@,
            Instrument::CpuFrequency => "my_cute_app.cpu_frequency_mhz"@,
        }
    }

    /// The registered name of this instrument, for the exporter.
    pub fn key(&self) -> (r: &'static str)
        ensures
            r@ == self.key_spec(),
    {
        match self {
            Instrument::ObservationsMade => "my_cute_app.observations_made",
            Instrument::ObservationsLive => "my_cute_app.observations_live",
            Instrument::CpuUsage => "my_cute_app.cpu_usage",
            Instrument::CpuFrequency => "my_cute_app.cpu_frequency_mhz",
        }
    }
}

/// One fire-and-forget update to an instrument.
#[derive(Debug)]
pub enum MetricUpdate {
    /// Add `amount` to a counter.
    CounterIncrement { instrument: Instrument, amount: u64 },
    /// Raise a gauge by one.
    GaugeIncrement { instrument: Instrument },
    /// Lower a gauge by one.
    GaugeDecrement { instrument: Instrument },
    /// Record `value` in a histogram, labelled with a CPU name.
    HistogramRecord { instrument: Instrument, label: String, value: u64 },
}

/// The mathematical value of a [`MetricUpdate`].
pub ghost enum UpdateModel {
    CounterIncrement { instrument: Instrument, amount: u64 },
    GaugeIncrement { instrument: Instrument },
    GaugeDecrement { instrument: Instrument },
    HistogramRecord { instrument: Instrument, label: Seq<char>, value: u64 },
}

impl View for MetricUpdate {
    type V = UpdateModel;

    open spec fn view(&self) -> UpdateModel {
        match self {
            MetricUpdate::CounterIncrement { instrument, amount } => UpdateModel::CounterIncrement {
                instrument: *instrument,
                amount: *amount,
            },
            MetricUpdate::GaugeIncrement { instrument } => UpdateModel::GaugeIncrement {
                instrument: *instrument,
            },
            MetricUpdate::GaugeDecrement { instrument } => UpdateModel::GaugeDecrement {
                instrument: *instrument,
            },
            MetricUpdate::HistogramRecord { instrument, label, value } => UpdateModel::HistogramRecord {
                instrument: *instrument,
                label: label@,
                value: *value,
            },
        }
    }
}

/// The updates of all queued [`MetricUpdate`]s, in order.
pub open spec fn updates_model(updates: Seq<MetricUpdate>) -> Seq<UpdateModel> {
    updates.map_values(|u: MetricUpdate| u@)
}

/// The two histogram records reported for one CPU reading.
pub open spec fn reading_updates(sample: CpuSample) -> Seq<UpdateModel> {
    seq![
        UpdateModel::HistogramRecord {
            instrument: Instrument::CpuUsage,
            label: sample.name,
            value: sample.usage,
        },
        UpdateModel::HistogramRecord {
            instrument: Instrument::CpuFrequency,
            label: sample.name,
            value: sample.frequency,
        },
    ]
}

/// The histogram records reported for a batch of readings, in batch order.
pub open spec fn histogram_updates(samples: Seq<CpuSample>) -> Seq<UpdateModel>
    decreases samples.len(),
{
    if samples.len() == 0 {
        Seq::empty()
    } else {
        histogram_updates(samples.drop_last()) + reading_updates(samples.last())
    }
}

/// Everything reported when one carrier is constructed: the "made" counter and
/// the "live" gauge go up by one, then each reading lands in the two
/// histograms.
pub open spec fn construction_updates(samples: Seq<CpuSample>) -> Seq<UpdateModel> {
    seq![
        UpdateModel::CounterIncrement { instrument: Instrument::ObservationsMade, amount: 1u64 },
        UpdateModel::GaugeIncrement { instrument: Instrument::ObservationsLive },
    ] + histogram_updates(samples)
}

/// Everything reported when one carrier is disposed.
pub open spec fn disposal_updates() -> Seq<UpdateModel> {
    seq![UpdateModel::GaugeDecrement { instrument: Instrument::ObservationsLive }]
}

/// The change one update makes to the "observations live" gauge.
pub open spec fn gauge_delta(u: UpdateModel) -> int {
    match u {
        UpdateModel::GaugeIncrement { instrument } => if instrument == Instrument::ObservationsLive {
            1
        } else {
            0
        },
        UpdateModel::GaugeDecrement { instrument } => if instrument == Instrument::ObservationsLive {
            -1
        } else {
            0
        },
        _ => 0,
    }
}

/// The value of the "observations live" gauge after a stream of updates,
/// starting from zero.
pub open spec fn live_gauge_value(updates: Seq<UpdateModel>) -> int
    decreases updates.len(),
{
    if updates.len() == 0 {
        0
    } else {
        live_gauge_value(updates.drop_last()) + gauge_delta(updates.last())
    }
}

/// The gauge value of two update streams in a row is the sum of their gauge
/// values.
pub proof fn lemma_live_gauge_concat(a: Seq<UpdateModel>, b: Seq<UpdateModel>)
    ensures
        live_gauge_value(a + b) == live_gauge_value(a) + live_gauge_value(b),
    decreases b.len(),
{
    if b.len() == 0 {
        assert(a + b =~= a);
    } else {
        assert((a + b).drop_last() =~= a + b.drop_last());
        lemma_live_gauge_concat(a, b.drop_last());
    }
}

/// Histogram records leave the gauge alone.
proof fn lemma_reading_updates_gauge(sample: CpuSample)
    ensures
        live_gauge_value(reading_updates(sample)) == 0,
{
    let us = reading_updates(sample);
    let one = seq![us[0]];
    assert(us.drop_last() =~= one);
    assert(one.drop_last() =~= Seq::<UpdateModel>::empty());
    assert(live_gauge_value(Seq::<UpdateModel>::empty()) == 0);
    assert(live_gauge_value(one) == gauge_delta(us[0]));
    assert(live_gauge_value(us) == live_gauge_value(one) + gauge_delta(us[1]));
}

/// A whole batch of histogram records leaves the gauge alone.
proof fn lemma_histogram_updates_gauge(samples: Seq<CpuSample>)
    ensures
        live_gauge_value(histogram_updates(samples)) == 0,
    decreases samples.len(),
{
    if samples.len() > 0 {
        lemma_histogram_updates_gauge(samples.drop_last());
        lemma_reading_updates_gauge(samples.last());
        lemma_live_gauge_concat(
            histogram_updates(samples.drop_last()),
            reading_updates(samples.last()),
        );
    }
}

/// Constructing one carrier moves the gauge up by exactly one, whatever the
/// readings were.
pub proof fn lemma_construction_updates_gauge(samples: Seq<CpuSample>)
    ensures
        live_gauge_value(construction_updates(samples)) == 1,
{
    let pre = seq![
        UpdateModel::CounterIncrement { instrument: Instrument::ObservationsMade, amount: 1u64 },
        UpdateModel::GaugeIncrement { instrument: Instrument::ObservationsLive },
    ];
    let one = seq![pre[0]];
    assert(pre.drop_last() =~= one);
    assert(one.drop_last() =~= Seq::<UpdateModel>::empty());
    assert(live_gauge_value(Seq::<UpdateModel>::empty()) == 0);
    assert(live_gauge_value(one) == gauge_delta(pre[0]));
    assert(live_gauge_value(pre) == live_gauge_value(one) + gauge_delta(pre[1]));
    lemma_histogram_updates_gauge(samples);
    lemma_live_gauge_concat(pre, histogram_updates(samples));
    assert(construction_updates(samples) == pre + histogram_updates(samples));
}

/// Disposing one carrier moves the gauge down by exactly one.
pub proof fn lemma_disposal_updates_gauge()
    ensures
        live_gauge_value(disposal_updates()) == -1,
{
    let us = disposal_updates();
    assert(us.drop_last() =~= Seq::<UpdateModel>::empty());
    assert(live_gauge_value(Seq::<UpdateModel>::empty()) == 0);
    assert(live_gauge_value(us) == live_gauge_value(us.drop_last()) + gauge_delta(us[0]));
}

/// One lifecycle step of some carrier: constructed, with the samples it
/// carried, or disposed.
pub ghost enum LifeEvent {
    Constructed(Seq<CpuSample>),
    Disposed,
}

/// How many of the events are constructions.
pub open spec fn constructed_count(events: Seq<LifeEvent>) -> int
    decreases events.len(),
{
    if events.len() == 0 {
        0
    } else {
        constructed_count(events.drop_last()) + match events.last() {
            LifeEvent::Constructed(_) => 1int,
            LifeEvent::Disposed => 0int,
        }
    }
}

/// How many of the events are disposals.
pub open spec fn disposed_count(events: Seq<LifeEvent>) -> int
    decreases events.len(),
{
    if events.len() == 0 {
        0
    } else {
        disposed_count(events.drop_last()) + match events.last() {
            LifeEvent::Constructed(_) => 0int,
            LifeEvent::Disposed => 1int,
        }
    }
}

/// Everything reported over a whole carrier lifecycle history, in order:
/// each construction contributes its construction updates, each disposal its
/// disposal update.
pub open spec fn lifecycle_emissions(events: Seq<LifeEvent>) -> Seq<UpdateModel>
    decreases events.len(),
{
    if events.len() == 0 {
        Seq::empty()
    } else {
        lifecycle_emissions(events.drop_last()) + match events.last() {
            LifeEvent::Constructed(samples) => construction_updates(samples),
            LifeEvent::Disposed => disposal_updates(),
        }
    }
}

/// The "observations live" gauge balances: after any sequence of carrier
/// constructions and disposals, the gauge computed from everything reported
/// equals the number of constructions minus the number of disposals — at
/// every observation point, since this holds of every prefix of the history.
pub proof fn lemma_live_gauge_balances(events: Seq<LifeEvent>)
    ensures
        live_gauge_value(lifecycle_emissions(events)) == constructed_count(events)
            - disposed_count(events),
    decreases events.len(),
{
    if events.len() > 0 {
        lemma_live_gauge_balances(events.drop_last());
        match events.last() {
            LifeEvent::Constructed(samples) => {
                lemma_construction_updates_gauge(samples);
                lemma_live_gauge_concat(
                    lifecycle_emissions(events.drop_last()),
                    construction_updates(samples),
                );
            },
            LifeEvent::Disposed => {
                lemma_disposal_updates_gauge();
                lemma_live_gauge_concat(
                    lifecycle_emissions(events.drop_last()),
                    disposal_updates(),
                );
            },
        }
    }
}

/// The mathematical value of a [`MetricsSink`].
pub ghost struct SinkView {
    /// Carriers constructed so far.
    pub made: u64,
    /// Carriers disposed so far.
    pub disposed: u64,
    /// Updates reported and not yet drained, in reporting order.
    pub emitted: Seq<UpdateModel>,
}

/// The metrics collaborator: accepts fire-and-forget instrument updates from
/// both actors and queues them for the embedding program's recorder.
///
/// The sink also counts constructions and disposals, so the value the
/// "observations live" gauge should have is always `made - disposed`.
pub struct MetricsSink {
    made: u64,
    disposed: u64,
    emitted: Vec<MetricUpdate>,
}

impl View for MetricsSink {
    type V = SinkView;

    closed spec fn view(&self) -> SinkView {
        SinkView { made: self.made, disposed: self.disposed, emitted: updates_model(self.emitted@) }
    }
}

impl MetricsSink {
    /// A fresh sink: nothing made, nothing disposed, nothing queued.
    pub fn new() -> (r: MetricsSink)
        ensures
            r@.made == 0,
            r@.disposed == 0,
            r@.emitted == Seq::<UpdateModel>::empty(),
    {
        let r = MetricsSink { made: 0, disposed: 0, emitted: Vec::new() };
        proof {
            assert(r@.emitted =~= Seq::<UpdateModel>::empty());
        }
        r
    }

    /// Report the construction of a carrier over `readings`: exactly the
    /// updates of [`construction_updates`], queued in order, and the "made"
    /// count raised by one.
    pub fn record_observation(&mut self, readings: &Vec<CpuStats>)
        requires
            old(self)@.made < u64::MAX,
        ensures
            final(self)@.made == old(self)@.made + 1,
            final(self)@.disposed == old(self)@.disposed,
            final(self)@.emitted == old(self)@.emitted + construction_updates(samples_of(readings@)),
    {
        self.made = self.made + 1;
        self.emitted.push(MetricUpdate::CounterIncrement {
            instrument: Instrument::ObservationsMade,
            amount: 1,
        });
        self.emitted.push(MetricUpdate::GaugeIncrement {
            instrument: Instrument::ObservationsLive,
        });
        let ghost base = updates_model(self.emitted@);
        let ghost samples = samples_of(readings@);
        let mut i: usize = 0;
        while i < readings.len()
            invariant
                i <= readings.len(),
                samples == samples_of(readings@),
                samples.len() == readings@.len(),
                updates_model(self.emitted@) == base + histogram_updates(samples.take(i as int)),
                self.made == old(self)@.made + 1,
                self.disposed == old(self)@.disposed,
            decreases readings.len() - i,
        {
            let ghost before = updates_model(self.emitted@);
            self.emitted.push(MetricUpdate::HistogramRecord {
                instrument: Instrument::CpuUsage,
                label: readings[i].name.clone(),
                value: readings[i].usage,
            });
            self.emitted.push(MetricUpdate::HistogramRecord {
                instrument: Instrument::CpuFrequency,
                label: readings[i].name.clone(),
                value: readings[i].frequency,
            });
            proof {
                assert(updates_model(self.emitted@) =~= before + reading_updates(samples[i as int]));
                assert(samples.take(i + 1).drop_last() =~= samples.take(i as int));
                assert(samples.take(i + 1).last() == samples[i as int]);
                assert(histogram_updates(samples.take(i + 1)) == histogram_updates(
                    samples.take(i as int),
                ) + reading_updates(samples[i as int]));
                assert(updates_model(self.emitted@) =~= base + histogram_updates(
                    samples.take(i + 1),
                ));
            }
            i = i + 1;
        }
        proof {
            assert(samples.take(readings@.len() as int) =~= samples);
            assert(self@.emitted =~= old(self)@.emitted + construction_updates(
                samples_of(readings@),
            ));
        }
    }

    /// Report the disposal of a carrier: the "live" gauge goes down by one and
    /// the "disposed" count goes up by one.
    pub fn record_disposal(&mut self)
        requires
            old(self)@.disposed < u64::MAX,
        ensures
            final(self)@.made == old(self)@.made,
            final(self)@.disposed == old(self)@.disposed + 1,
            final(self)@.emitted == old(self)@.emitted + disposal_updates(),
    {
        self.disposed = self.disposed + 1;
        self.emitted.push(MetricUpdate::GaugeDecrement {
            instrument: Instrument::ObservationsLive,
        });
        proof {
            assert(self@.emitted =~= old(self)@.emitted + disposal_updates());
        }
    }

    /// Carriers constructed so far.
    pub fn made(&self) -> (r: u64)
        ensures
            r == self@.made,
    {
        self.made
    }

    /// Carriers disposed so far.
    pub fn disposed(&self) -> (r: u64)
        ensures
            r == self@.disposed,
    {
        self.disposed
    }

    /// The value the "observations live" gauge should show now.
    pub fn live(&self) -> (r: u64)
        requires
            self@.disposed <= self@.made,
        ensures
            r == self@.made - self@.disposed,
    {
        self.made - self.disposed
    }

    /// Hand the queued updates to the embedding recorder, oldest first,
    /// leaving the queue empty. The lifecycle counts are untouched.
    pub fn drain(&mut self) -> (r: Vec<MetricUpdate>)
        ensures
            updates_model(r@) == old(self)@.emitted,
            final(self)@.emitted == Seq::<UpdateModel>::empty(),
            final(self)@.made == old(self)@.made,
            final(self)@.disposed == old(self)@.disposed,
    {
        let mut taken: Vec<MetricUpdate> = Vec::new();
        core::mem::swap(&mut taken, &mut self.emitted);
        proof {
            assert(self@.emitted =~= Seq::<UpdateModel>::empty());
        }
        taken
    }
}

} // verus!
