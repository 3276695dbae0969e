use device_metrics::block_device::write_record;
use device_metrics::metrics::{Metric, SerializeMetric};
use vstd::prelude::nat;
use vstd::view::View;

/// A counter of the embedding's own, whose text cannot be produced while
/// `stuck` is set. The ghost items of the traits are never run.
struct Stuck {
    seen: u64,
    stuck: bool,
}

impl View for Stuck {
    type V = (u64, bool);

    fn view(&self) -> (u64, bool) {
        unreachable!()
    }
}

impl Metric for Stuck {
    fn inv(_: (u64, bool)) -> bool {
        unreachable!()
    }

    fn count_spec(_: (u64, bool)) -> nat {
        unreachable!()
    }

    fn add_spec(_: (u64, bool), _: nat) -> (u64, bool) {
        unreachable!()
    }

    fn reset_spec(_: (u64, bool)) -> (u64, bool) {
        unreachable!()
    }

    fn add_never_decreases(_: (u64, bool), _: nat) {
        unreachable!()
    }

    fn add(&mut self, value: u64) {
        self.seen = self.seen.saturating_add(value);
    }

    fn count(&self) -> u64 {
        self.seen
    }

    fn reset(&mut self) {}
}

impl SerializeMetric for Stuck {
    fn can_report(_: (u64, bool)) -> bool {
        unreachable!()
    }

    fn settled(_: (u64, bool)) -> (u64, bool) {
        unreachable!()
    }

    fn settle(&mut self, emitted: bool) {
        if emitted {
            self.seen = 0;
        }
    }

    fn serialize(&mut self) -> Option<Vec<u8>> {
        if self.stuck {
            None
        } else {
            Some(format!("{}", self.snapshot()).into_bytes())
        }
    }
}

fn counters(stuck: [bool; 3]) -> (Stuck, Stuck, Stuck) {
    (
        Stuck { seen: 1, stuck: stuck[0] },
        Stuck { seen: 2, stuck: stuck[1] },
        Stuck { seen: 3, stuck: stuck[2] },
    )
}

#[test]
fn write_gives_up_at_a_stuck_first_counter() {
    let (mut first, mut second, mut third) = counters([true, false, false]);
    let mut sink = b"kept".to_vec();
    write_record(&mut first, &mut second, &mut third, &mut sink);
    assert_eq!(sink, b"kept".to_vec());
    assert_eq!(first.count(), 1);
    assert_eq!(second.count(), 2);
    assert_eq!(third.count(), 3);
}

#[test]
fn write_gives_up_at_a_stuck_second_counter() {
    let (mut first, mut second, mut third) = counters([false, true, false]);
    let mut sink: Vec<u8> = Vec::new();
    write_record(&mut first, &mut second, &mut third, &mut sink);
    assert!(sink.is_empty());
    assert_eq!(first.count(), 0);
    assert_eq!(second.count(), 2);
    assert_eq!(third.count(), 3);
}

#[test]
fn write_gives_up_at_a_stuck_third_counter() {
    let (mut first, mut second, mut third) = counters([false, false, true]);
    let mut sink: Vec<u8> = Vec::new();
    write_record(&mut first, &mut second, &mut third, &mut sink);
    assert!(sink.is_empty());
    assert_eq!(first.count(), 0);
    assert_eq!(second.count(), 0);
    assert_eq!(third.count(), 3);
}

#[test]
fn write_emits_the_record_when_no_counter_is_stuck() {
    let (mut first, mut second, mut third) = counters([false, false, false]);
    let mut sink: Vec<u8> = Vec::new();
    write_record(&mut first, &mut second, &mut third, &mut sink);
    assert_eq!(
        sink,
        b"{\"successful_activation\":1,\"activate_error\":2,\"features_error\":3}".to_vec()
    );
    assert_eq!(first.count(), 0);
    assert_eq!(second.count(), 0);
    assert_eq!(third.count(), 0);
}
