//! A block device that counts its outcomes in a metrics group of any kind.

use vstd::prelude::*;
use crate::json::{append_record, record_bytes};
use crate::metrics::{MetricWriter, SerializeMetric};

verus! {

/// The feature bits that a block device offers.
pub const AVAILABLE_FEATURES: u64 = 123;

/// The three counters of a block device, by name.
pub struct BlockMetricsView<V> {
    pub successful_activation: V,
    pub activate_error: V,
    pub feature_error: V,
}

/// The group `v` once the first `fields` of its counters, in the order in
/// which a record names them, have reported.
pub open spec fn settled_prefix<T: SerializeMetric>(
    v: BlockMetricsView<T::V>,
    fields: nat,
) -> BlockMetricsView<T::V> {
    BlockMetricsView {
        successful_activation: if fields >= 1 {
            T::settled(v.successful_activation)
        } else {
            v.successful_activation
        },
        activate_error: if fields >= 2 {
            T::settled(v.activate_error)
        } else {
            v.activate_error
        },
        feature_error: if fields >= 3 {
            T::settled(v.feature_error)
        } else {
            v.feature_error
        },
    }
}

/// The record that the group reports in state `v`.
pub open spec fn reported_record<T: SerializeMetric>(v: BlockMetricsView<T::V>) -> Seq<u8> {
    record_bytes(
        T::count_spec(v.successful_activation),
        T::count_spec(v.activate_error),
        T::count_spec(v.feature_error),
    )
}

/// How many counters of the group, in the order in which a record names
/// them, report before the first one that cannot.
pub open spec fn reporting_fields<T: SerializeMetric>(v: BlockMetricsView<T::V>) -> nat {
    if !T::can_report(v.successful_activation) {
        0
    } else if !T::can_report(v.activate_error) {
        1
    } else if !T::can_report(v.feature_error) {
        2
    } else {
        3
    }
}

/// The bytes that writing the group emits in state `v`: the record, if all
/// three counters report, and nothing otherwise.
pub open spec fn record_emitted<T: SerializeMetric>(v: BlockMetricsView<T::V>) -> Seq<u8> {
    if reporting_fields::<T>(v) == 3 {
        reported_record::<T>(v)
    } else {
        Seq::empty()
    }
}

/// The group after it was written in state `v`: the counters that reported
/// are settled.
pub open spec fn record_written<T: SerializeMetric>(v: BlockMetricsView<T::V>) -> BlockMetricsView<
    T::V,
> {
    settled_prefix::<T>(v, reporting_fields::<T>(v))
}

/// Reports three counters as one record and appends it to `buffer`. The
/// counters report in the order in which the record names them; if one cannot,
/// the write is given up there and nothing is appended.
pub fn write_record<T: SerializeMetric>(
    successful_activation: &mut T,
    activate_error: &mut T,
    feature_error: &mut T,
    buffer: &mut Vec<u8>,
)
    ensures
        final(buffer)@ == old(buffer)@ + record_emitted::<T>(
            BlockMetricsView {
                successful_activation: old(successful_activation)@,
                activate_error: old(activate_error)@,
                feature_error: old(feature_error)@,
            },
        ),
        (BlockMetricsView {
            successful_activation: final(successful_activation)@,
            activate_error: final(activate_error)@,
            feature_error: final(feature_error)@,
        }) == record_written::<T>(
            BlockMetricsView {
                successful_activation: old(successful_activation)@,
                activate_error: old(activate_error)@,
                feature_error: old(feature_error)@,
            },
        ),
{
    let first = match successful_activation.serialize() {
        Some(text) => text,
        None => {
            return;
        },
    };
    let second = match activate_error.serialize() {
        Some(text) => text,
        None => {
            return;
        },
    };
    let third = match feature_error.serialize() {
        Some(text) => text,
        None => {
            return;
        },
    };
    append_record(buffer, &first, &second, &third);
}

/// The counters that a block device needs, and their writer.
pub trait BlockMetrics: MetricWriter {
    /// The group after a rejected feature negotiation was counted.
    spec fn feature_error_inc_spec(v: Self::V) -> Self::V;

    /// The group after a failed activation was counted.
    spec fn activate_error_inc_spec(v: Self::V) -> Self::V;

    /// The group after a successful activation was counted.
    spec fn successful_activation_inc_spec(v: Self::V) -> Self::V;

    /// Counts a rejected feature negotiation.
    fn feature_error_inc(&mut self)
        ensures
            final(self)@ == Self::feature_error_inc_spec(old(self)@),
    ;

    /// Counts a failed activation.
    fn activate_error_inc(&mut self)
        ensures
            final(self)@ == Self::activate_error_inc_spec(old(self)@),
    ;

    /// Counts a successful activation.
    fn successful_activation_inc(&mut self)
        ensures
            final(self)@ == Self::successful_activation_inc_spec(old(self)@),
    ;
}

/// A block device without metrics: nothing is counted.
impl BlockMetrics for () {
    open spec fn feature_error_inc_spec(v: ()) -> () {
        ()
    }

    open spec fn activate_error_inc_spec(v: ()) -> () {
        ()
    }

    open spec fn successful_activation_inc_spec(v: ()) -> () {
        ()
    }

    fn feature_error_inc(&mut self) {
    }

    fn activate_error_inc(&mut self) {
    }

    fn successful_activation_inc(&mut self) {
    }
}

/// Where a device stands in its life.
pub enum DeviceState {
    /// No features were accepted and no activation was tried.
    Uninitialized,
    /// Features were accepted; no activation was tried.
    FeaturesSet,
    /// Activation was tried at least once.
    Activated,
}

/// The state of a block device whose metrics group has the view `M`.
pub struct BlockDeviceView<M> {
    /// The negotiated feature bits; zero while none were accepted.
    pub features: u64,
    /// The metrics group.
    pub metrics: M,
    /// Whether an activation succeeds.
    pub activate_success: bool,
    /// Whether an activation was tried.
    pub activated: bool,
}

impl<M> BlockDeviceView<M> {
    /// Where the device stands: an activation attempt outweighs the features.
    pub open spec fn state(self) -> DeviceState {
        if self.activated {
            DeviceState::Activated
        } else if self.features == 0 {
            DeviceState::Uninitialized
        } else {
            DeviceState::FeaturesSet
        }
    }
}

/// A block device that counts its outcomes in the metrics group `T`.
pub struct BlockDevice<T: BlockMetrics> {
    features: u64,
    metrics: T,
    activate_success: bool,
    activated: Ghost<bool>,
}

impl<T: BlockMetrics> View for BlockDevice<T> {
    type V = BlockDeviceView<T::V>;

    closed spec fn view(&self) -> BlockDeviceView<T::V> {
        BlockDeviceView {
            features: self.features,
            metrics: self.metrics@,
            activate_success: self.activate_success,
            activated: self.activated@,
        }
    }
}

impl BlockDevice<()> {
    /// A device without metrics.
    pub fn new() -> (device: BlockDevice<()>)
        ensures
            device@ == (BlockDeviceView {
                features: 0,
                metrics: (),
                activate_success: false,
                activated: false,
            }),
    {
        BlockDevice { features: 0, metrics: (), activate_success: false, activated: Ghost(false) }
    }
}

impl<T: BlockMetrics + Default> BlockDevice<T> {
    /// The metrics group itself.
    pub closed spec fn metrics_spec(&self) -> T {
        self.metrics
    }

    /// A device whose metrics group is the default one of its kind.
    pub fn new_with_metrics() -> (device: BlockDevice<T>)
        ensures
            call_ensures(T::default, (), device.metrics_spec()),
            device@ == (BlockDeviceView {
                features: 0,
                metrics: device.metrics_spec()@,
                activate_success: false,
                activated: false,
            }),
    {
        BlockDevice {
            features: 0,
            metrics: T::default(),
            activate_success: false,
            activated: Ghost(false),
        }
    }

    /// The feature bits that the device offers.
    pub fn avail_feature(&self) -> (features: u64)
        ensures
            features == AVAILABLE_FEATURES,
    {
        AVAILABLE_FEATURES
    }

    /// The negotiated feature bits.
    pub fn features(&self) -> (features: u64)
        ensures
            features == self@.features,
    {
        self.features
    }

    /// The metrics group, for reading.
    pub fn metrics(&self) -> (metrics: &T)
        ensures
            *metrics == self.metrics_spec(),
            metrics@ == self@.metrics,
    {
        &self.metrics
    }

    /// Sets whether an activation succeeds.
    pub fn set_activate_success(&mut self, outcome: bool)
        ensures
            final(self)@ == (BlockDeviceView { activate_success: outcome, ..old(self)@ }),
    {
        self.activate_success = outcome;
    }

    /// Negotiates the feature bits `val`. Zero is rejected: the rejection is
    /// counted and the device keeps the bits it had.
    pub fn set_features(&mut self, val: u64)
        ensures
            val == 0 ==> final(self)@ == (BlockDeviceView {
                metrics: T::feature_error_inc_spec(old(self)@.metrics),
                ..old(self)@
            }),
            val != 0 ==> final(self)@ == (BlockDeviceView { features: val, ..old(self)@ }),
            val == 0 ==> final(self)@.state() == old(self)@.state(),
            val != 0 && old(self)@.state() == DeviceState::Uninitialized ==> final(self)@.state()
                == DeviceState::FeaturesSet,
    {
        if val == 0 {
            self.metrics.feature_error_inc();
            return;
        }
        self.features = val;
    }

    /// Tries to activate the device and counts how it went. It can be tried
    /// again any number of times.
    pub fn activate(&mut self)
        ensures
            final(self)@ == (BlockDeviceView {
                metrics: if old(self)@.activate_success {
                    T::successful_activation_inc_spec(old(self)@.metrics)
                } else {
                    T::activate_error_inc_spec(old(self)@.metrics)
                },
                activated: true,
                ..old(self)@
            }),
            final(self)@.state() == DeviceState::Activated,
    {
        if self.activate_success {
            self.metrics.successful_activation_inc();
        } else {
            self.metrics.activate_error_inc();
        }
        self.activated = Ghost(true);
    }

    /// Writes the metrics group to `buf` as one record.
    pub fn flush_metrics(&mut self, buf: &mut Vec<u8>)
        ensures
            final(buf)@ == old(buf)@ + T::emitted(old(self)@.metrics),
            final(self)@ == (BlockDeviceView {
                metrics: T::written(old(self)@.metrics),
                ..old(self)@
            }),
    {
        self.metrics.write(buf);
    }
}

} // verus!
