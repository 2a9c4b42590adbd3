//! The carrier lifecycle and its metrics accounting.

use metrics_tracing_example::{
    CpuStats, Instrument, MetricUpdate, MetricsSink, Observation, SysMonitor, SysStats,
    TraceContext, detached_span,
};

fn reading(name: &str, usage: u64, frequency: u64) -> CpuStats {
    CpuStats { name: String::from(name), usage, frequency }
}

#[test]
fn live_gauge_equals_made_minus_disposed() {
    let mut sink = MetricsSink::new();
    let a = Observation::new(vec![reading("cpu0", 500, 1800)], TraceContext::new(0, detached_span()), &mut sink);
    let b = Observation::new(vec![], TraceContext::new(1, detached_span()), &mut sink);
    assert_eq!(sink.made(), 2);
    assert_eq!(sink.disposed(), 0);
    assert_eq!(sink.live(), 2);
    a.dispose(|| {}, &mut sink);
    assert_eq!(sink.live(), 1);
    let c = Observation::new(vec![], TraceContext::new(2, detached_span()), &mut sink);
    assert_eq!(sink.live(), 2);
    b.dispose(|| {}, &mut sink);
    c.dispose(|| {}, &mut sink);
    assert_eq!(sink.made(), 3);
    assert_eq!(sink.disposed(), 3);
    assert_eq!(sink.live(), 0);
}

#[test]
fn construction_reports_counter_gauge_and_histograms_in_order() {
    let mut sink = MetricsSink::new();
    let obs = Observation::new(
        vec![reading("cpu0", 1000, 2000), reading("cpu1", 1500, 2400)],
        TraceContext::new(0, detached_span()),
        &mut sink,
    );
    let updates = sink.drain();
    assert_eq!(updates.len(), 6);
    match &updates[0] {
        MetricUpdate::CounterIncrement { instrument, amount } => {
            assert_eq!(*instrument, Instrument::ObservationsMade);
            assert_eq!(*amount, 1);
        }
        other => panic!("expected the made-counter increment first, found {other:?}"),
    }
    match &updates[1] {
        MetricUpdate::GaugeIncrement { instrument } => {
            assert_eq!(*instrument, Instrument::ObservationsLive);
        }
        other => panic!("expected the live-gauge increment second, found {other:?}"),
    }
    match &updates[2] {
        MetricUpdate::HistogramRecord { instrument, label, value } => {
            assert_eq!(*instrument, Instrument::CpuUsage);
            assert_eq!(label, "cpu0");
            assert_eq!(*value, 1000);
        }
        other => panic!("expected a usage histogram record, found {other:?}"),
    }
    match &updates[3] {
        MetricUpdate::HistogramRecord { instrument, label, value } => {
            assert_eq!(*instrument, Instrument::CpuFrequency);
            assert_eq!(label, "cpu0");
            assert_eq!(*value, 2000);
        }
        other => panic!("expected a frequency histogram record, found {other:?}"),
    }
    match &updates[5] {
        MetricUpdate::HistogramRecord { instrument, label, value } => {
            assert_eq!(*instrument, Instrument::CpuFrequency);
            assert_eq!(label, "cpu1");
            assert_eq!(*value, 2400);
        }
        other => panic!("expected a frequency histogram record, found {other:?}"),
    }
    // Draining emptied the queue; disposing then queues exactly the gauge
    // decrement.
    obs.dispose(|| {}, &mut sink);
    let after_disposal = sink.drain();
    assert_eq!(after_disposal.len(), 1);
    match &after_disposal[0] {
        MetricUpdate::GaugeDecrement { instrument } => {
            assert_eq!(*instrument, Instrument::ObservationsLive);
        }
        other => panic!("expected the live-gauge decrement, found {other:?}"),
    }
}

#[test]
fn disposal_closes_the_carried_context() {
    let mut sink = MetricsSink::new();
    let obs = Observation::new(
        vec![reading("cpu0", 700, 2100)],
        TraceContext::new(7, detached_span()),
        &mut sink,
    );
    assert_eq!(obs.context_id(), 7);
    // Window copies of the data do not keep the context: the stats processor
    // below copies the readings, and disposing the carrier afterwards still
    // closes context 7 while the window keeps aggregating the copied data.
    let mut stats = SysStats::new(false);
    stats.process_observation(&obs);
    let disposal_event_ran = std::cell::Cell::new(false);
    let closed = obs.dispose(|| disposal_event_ran.set(true), &mut sink);
    assert_eq!(closed.id, 7);
    assert!(disposal_event_ran.get());
    assert_eq!(sink.live(), 0);
    match stats.run_stats() {
        metrics_tracing_example::AggregateEvent::Stats(s) => {
            assert_eq!(s.reading_count, 1);
            assert_eq!(s.total_usage, 700);
        }
        metrics_tracing_example::AggregateEvent::NoData => {
            panic!("the window still holds the copied batch")
        }
    }
}

#[test]
fn in_scope_hands_the_readings_to_the_closure() {
    let mut sink = MetricsSink::new();
    let obs = Observation::new(
        vec![reading("cpu0", 1000, 2000), reading("cpu1", 1100, 2100)],
        TraceContext::new(0, detached_span()),
        &mut sink,
    );
    let total: u64 = obs.in_scope(|cpus| cpus.iter().map(|c| c.usage).sum());
    assert_eq!(total, 2100);
    obs.dispose(|| {}, &mut sink);
}

#[test]
fn monitor_ids_count_up_from_zero() {
    let mut sink = MetricsSink::new();
    let mut monitor = SysMonitor::new(250);
    assert_eq!(monitor.interval_millis(), 250);
    for expected in 0u64..3 {
        assert_eq!(monitor.observation_id(), expected);
        let obs = monitor.take_observation(vec![], tracing::Span::none(), &mut sink);
        assert_eq!(obs.context_id(), expected);
        obs.dispose(|| {}, &mut sink);
    }
    assert_eq!(monitor.observation_id(), 3);
}

#[test]
fn instrument_keys_match_the_registered_names() {
    assert_eq!(Instrument::ObservationsMade.key(), "my_cute_app.observations_made");
    assert_eq!(Instrument::ObservationsLive.key(), "my_cute_app.observations_live");
    assert_eq!(Instrument::CpuUsage.key(), "my_cute_app.cpu_usage");
    assert_eq!(Instrument::CpuFrequency.key(), "my_cute_app.cpu_frequency_mhz");
}
