use device_metrics::metrics::{CumulativeMetric, DiffMetric, Metric, MetricWriter, SerializeMetric};

#[test]
fn cumulative_counts_every_increment() {
    let mut counter = CumulativeMetric::default();
    assert_eq!(counter.count(), 0);
    for _ in 0..1000 {
        counter.inc();
    }
    assert_eq!(counter.count(), 1000);
}

#[test]
fn cumulative_add_adds_the_value() {
    let mut counter = CumulativeMetric::default();
    counter.add(40);
    counter.add(0);
    counter.add(2);
    assert_eq!(counter.count(), 42);
}

#[test]
fn cumulative_add_stops_at_the_largest_count() {
    let mut counter = CumulativeMetric::default();
    counter.add(u64::MAX - 1);
    assert_eq!(counter.count(), u64::MAX - 1);
    counter.add(5);
    assert_eq!(counter.count(), u64::MAX);
    counter.inc();
    assert_eq!(counter.count(), u64::MAX);
}

#[test]
fn cumulative_reset_keeps_the_total() {
    let mut counter = CumulativeMetric::default();
    counter.add(9);
    counter.reset();
    assert_eq!(counter.count(), 9);
}

#[test]
fn cumulative_snapshot_keeps_the_total() {
    let mut counter = CumulativeMetric::default();
    counter.add(9);
    assert_eq!(counter.snapshot(), 9);
    assert_eq!(counter.snapshot(), 9);
    assert_eq!(counter.count(), 9);
}

#[test]
fn cumulative_serialize_is_the_total_in_decimal() {
    let mut counter = CumulativeMetric::default();
    counter.add(1234);
    assert_eq!(counter.serialize(), Some(b"1234".to_vec()));
    assert_eq!(counter.serialize(), Some(b"1234".to_vec()));
    assert_eq!(counter.count(), 1234);
}

#[test]
fn diff_snapshot_reports_every_increment() {
    let mut counter = DiffMetric::default();
    for _ in 0..1000 {
        counter.inc();
    }
    assert_eq!(counter.snapshot(), 1000);
}

#[test]
fn diff_second_snapshot_is_zero() {
    let mut counter = DiffMetric::default();
    counter.add(17);
    assert_eq!(counter.snapshot(), 17);
    assert_eq!(counter.snapshot(), 0);
    assert_eq!(counter.snapshot(), 0);
}

#[test]
fn diff_snapshot_reports_only_what_came_since() {
    let mut counter = DiffMetric::default();
    counter.add(17);
    assert_eq!(counter.snapshot(), 17);
    counter.add(3);
    counter.inc();
    assert_eq!(counter.snapshot(), 4);
}

#[test]
fn diff_count_is_what_the_next_report_carries() {
    let mut counter = DiffMetric::default();
    assert_eq!(counter.count(), 0);
    counter.add(5);
    assert_eq!(counter.count(), 5);
    assert_eq!(counter.count(), 5);
    assert_eq!(counter.snapshot(), 5);
    assert_eq!(counter.count(), 0);
    counter.inc();
    assert_eq!(counter.count(), 1);
}

#[test]
fn diff_settle_follows_the_outcome() {
    let mut counter = DiffMetric::default();
    counter.add(5);
    counter.settle(false);
    assert_eq!(counter.count(), 5);
    counter.settle(true);
    assert_eq!(counter.count(), 0);
    counter.inc();
    assert_eq!(counter.count(), 1);
}

#[test]
fn cumulative_settle_keeps_the_total() {
    let mut counter = CumulativeMetric::default();
    counter.add(5);
    counter.settle(true);
    counter.settle(false);
    assert_eq!(counter.count(), 5);
}

#[test]
fn diff_reset_changes_nothing() {
    let mut counter = DiffMetric::default();
    counter.add(5);
    counter.reset();
    assert_eq!(counter.count(), 5);
    assert_eq!(counter.snapshot(), 5);
}

#[test]
fn diff_total_stops_at_the_largest_count() {
    let mut counter = DiffMetric::default();
    counter.add(8);
    assert_eq!(counter.snapshot(), 8);
    counter.add(u64::MAX);
    assert_eq!(counter.count(), u64::MAX - 8);
    counter.inc();
    assert_eq!(counter.snapshot(), u64::MAX - 8);
    counter.inc();
    assert_eq!(counter.snapshot(), 0);
}

#[test]
fn diff_serialize_is_the_delta_in_decimal() {
    let mut counter = DiffMetric::default();
    counter.add(42);
    assert_eq!(counter.serialize(), Some(b"42".to_vec()));
    assert_eq!(counter.count(), 0);
    assert_eq!(counter.serialize(), Some(b"0".to_vec()));
    counter.add(100);
    assert_eq!(counter.serialize(), Some(b"100".to_vec()));
}

#[test]
fn null_counter_counts_nothing() {
    let mut counter = ();
    assert_eq!(counter.count(), 0);
    counter.inc();
    counter.add(12);
    counter.inc();
    counter.reset();
    counter.add(u64::MAX);
    assert_eq!(counter.count(), 0);
}

#[test]
fn null_counter_never_reports() {
    let mut counter = ();
    counter.add(3);
    assert_eq!(counter.snapshot(), 0);
    assert_eq!(counter.serialize(), None);
    assert_eq!(counter.count(), 0);
}

#[test]
fn null_writer_writes_nothing() {
    let mut group = ();
    let mut sink: Vec<u8> = Vec::new();
    group.write(&mut sink);
    assert!(sink.is_empty());
    sink.extend_from_slice(b"kept");
    group.write(&mut sink);
    assert_eq!(sink, b"kept".to_vec());
}
