//! End-to-end behaviour of the observation pipeline.

use metrics_tracing_example::{
    AggregateEvent, CpuStats, MetricsSink, ObsChannel, SysMonitor, SysStats, TraceContext,
    detached_span, run_ticks,
};

fn reading(name: &str, usage: u64, frequency: u64) -> CpuStats {
    CpuStats { name: String::from(name), usage, frequency }
}

fn stats_of(event: &AggregateEvent) -> (u64, u64, u64, u64) {
    match event {
        AggregateEvent::NoData => panic!("expected stats, found the no-data marker"),
        AggregateEvent::Stats(s) => (s.batch_count, s.reading_count, s.total_usage, s.total_frequency),
    }
}

#[test]
fn twelve_ticks_cap_ten_window_saturates() {
    // One reading per tick: cpu0 at 10.00% and 2000 MHz, for 12 ticks into a
    // window of capacity 10.
    let batches: Vec<Vec<CpuStats>> =
        (0..12).map(|_| vec![reading("cpu0", 1000, 2000)]).collect();
    let mut sink = MetricsSink::new();
    let (events, receipts) = run_ticks(&batches, 10, &mut sink);
    assert_eq!(events.len(), 12);
    for (k, event) in events.iter().enumerate() {
        let expected_batches = std::cmp::min(k as u64 + 1, 10);
        let (batch_count, reading_count, total_usage, total_frequency) = stats_of(event);
        assert_eq!(batch_count, expected_batches);
        assert_eq!(reading_count, expected_batches);
        assert_eq!(total_usage, 1000 * expected_batches);
        assert_eq!(total_frequency, 2000 * expected_batches);
    }
    // Every carrier was constructed and disposed exactly once, and every
    // tick's context was closed under its own id, in order.
    assert_eq!(sink.made(), 12);
    assert_eq!(sink.disposed(), 12);
    assert_eq!(sink.live(), 0);
    let closed_ids: Vec<u64> = receipts.iter().map(|c| c.id).collect();
    assert_eq!(closed_ids, (0..12).collect::<Vec<u64>>());
}

#[test]
fn aggregate_averages_are_exact() {
    let batches: Vec<Vec<CpuStats>> = vec![
        vec![reading("cpu0", 1000, 2000), reading("cpu1", 3000, 2400)],
        vec![reading("cpu0", 2000, 2200)],
    ];
    let mut sink = MetricsSink::new();
    let (events, _receipts) = run_ticks(&batches, 10, &mut sink);
    match &events[1] {
        AggregateEvent::Stats(s) => {
            assert_eq!(s.batch_count, 2);
            assert_eq!(s.reading_count, 3);
            assert_eq!(s.total_usage, 6000);
            assert_eq!(s.total_frequency, 6600);
            assert_eq!(s.average_usage(), 2000);
            assert_eq!(s.average_frequency_mhz(), 2200);
            assert_eq!(s.mean_readings_per_batch(), 1);
        }
        AggregateEvent::NoData => panic!("two batches of readings must aggregate"),
    }
}

#[test]
fn empty_window_emits_no_data_marker() {
    let stats = SysStats::new(false);
    assert_eq!(stats.run_stats(), AggregateEvent::NoData);
}

#[test]
fn empty_batches_emit_no_data_marker() {
    // Sampling may fail silently: a tick then carries no readings, and the
    // aggregate over a window of empty batches is the explicit marker, never
    // a division error.
    let batches: Vec<Vec<CpuStats>> = vec![vec![], vec![]];
    let mut sink = MetricsSink::new();
    let (events, _receipts) = run_ticks(&batches, 10, &mut sink);
    assert_eq!(events, vec![AggregateEvent::NoData, AggregateEvent::NoData]);
}

#[test]
fn window_evicts_oldest_first() {
    let mut stats = SysStats::with_window_capacity(2, false);
    let mut sink = MetricsSink::new();
    let mut monitor = SysMonitor::new(5);
    for usage in [100u64, 200, 300] {
        let obs = monitor.take_observation(
            vec![reading("cpu0", usage, 1000)],
            tracing::Span::none(),
            &mut sink,
        );
        stats.process_observation(&obs);
        obs.dispose(|| {}, &mut sink);
    }
    // The window holds the two most recent batches: 200 and 300.
    let (batch_count, reading_count, total_usage, _) = stats_of(&stats.run_stats());
    assert_eq!(batch_count, 2);
    assert_eq!(reading_count, 2);
    assert_eq!(total_usage, 500);
}

#[test]
fn channel_refuses_third_send_at_capacity_two() {
    let mut sink = MetricsSink::new();
    let mut channel = ObsChannel::new(2);
    let make = |id: u64, sink: &mut MetricsSink| {
        metrics_tracing_example::Observation::new(
            vec![reading("cpu0", 1000, 2000)],
            TraceContext::new(id, detached_span()),
            sink,
        )
    };
    assert!(channel.try_send(make(0, &mut sink)).is_ok());
    assert!(channel.try_send(make(1, &mut sink)).is_ok());
    // The consumer never received: the third send is refused — the producer
    // would suspend here — and the observation is handed back, not dropped.
    let third = make(2, &mut sink);
    let refused = channel.try_send(third);
    let handed_back = match refused {
        Ok(()) => panic!("a full channel must refuse the send"),
        Err(obs) => obs,
    };
    assert_eq!(handed_back.context_id(), 2);
    // After one receive there is room again, and order is FIFO.
    let first = channel.try_recv().expect("two observations are buffered");
    assert_eq!(first.context_id(), 0);
    assert!(channel.try_send(handed_back).is_ok());
    let second = channel.try_recv().expect("still buffered");
    assert_eq!(second.context_id(), 1);
    first.dispose(|| {}, &mut sink);
    second.dispose(|| {}, &mut sink);
    let third_again = channel.try_recv().expect("the resent observation is buffered");
    assert_eq!(third_again.context_id(), 2);
    third_again.dispose(|| {}, &mut sink);
    assert!(channel.try_recv().is_none());
    assert_eq!(sink.live(), 0);
}

#[test]
fn forwarding_stops_after_downstream_failure() {
    let mut stats = SysStats::new(true);
    assert!(stats.forwarding());
    stats.note_forward_failure();
    assert!(!stats.forwarding());
    // Aggregation continues untouched.
    let mut sink = MetricsSink::new();
    let obs = metrics_tracing_example::Observation::new(
        vec![reading("cpu0", 1000, 2000)],
        TraceContext::new(0, detached_span()),
        &mut sink,
    );
    let event = stats.process_observation(&obs);
    obs.dispose(|| {}, &mut sink);
    let (batch_count, _, _, _) = stats_of(&event);
    assert_eq!(batch_count, 1);
    assert!(!stats.forwarding());
}
