//! A block device that owns its three counters directly, whatever their kind.

use vstd::prelude::*;
use crate::block_device::{
    record_emitted,
    record_written,
    write_record,
    BlockDeviceView,
    BlockMetrics,
    BlockMetricsView,
    DeviceState,
    AVAILABLE_FEATURES,
};
use crate::json::record_bytes;
use crate::metrics::{CumulativeMetric, Metric, MetricWriter, SerializeMetric};

verus! {

/// The metrics group of a block device: three counters of one kind.
pub struct BlockDeviceMetrics2<T: Metric + Default> {
    pub feature_error: T,
    pub activate_error: T,
    pub successful_activation: T,
}

impl<T: Metric + Default> View for BlockDeviceMetrics2<T> {
    type V = BlockMetricsView<T::V>;

    open spec fn view(&self) -> BlockMetricsView<T::V> {
        BlockMetricsView {
            successful_activation: self.successful_activation@,
            activate_error: self.activate_error@,
            feature_error: self.feature_error@,
        }
    }
}

impl<T: Metric + Default> BlockDeviceMetrics2<T> {
    /// A group of three default counters.
    pub fn new() -> (group: Self)
        ensures
            call_ensures(T::default, (), group.feature_error),
            call_ensures(T::default, (), group.activate_error),
            call_ensures(T::default, (), group.successful_activation),
    {
        Self {
            activate_error: T::default(),
            feature_error: T::default(),
            successful_activation: T::default(),
        }
    }

    /// The counter of rejected feature negotiations.
    pub fn feature_error(&mut self) -> (counter: &mut T)
        ensures
            *counter == old(self).feature_error,
            *final(self) == (BlockDeviceMetrics2 {
                feature_error: *final(counter),
                ..*old(self)
            }),
    {
        &mut self.feature_error
    }

    /// The counter of failed activations.
    pub fn activate_error(&mut self) -> (counter: &mut T)
        ensures
            *counter == old(self).activate_error,
            *final(self) == (BlockDeviceMetrics2 {
                activate_error: *final(counter),
                ..*old(self)
            }),
    {
        &mut self.activate_error
    }

    /// The counter of successful activations.
    pub fn successful_activation(&mut self) -> (counter: &mut T)
        ensures
            *counter == old(self).successful_activation,
            *final(self) == (BlockDeviceMetrics2 {
                successful_activation: *final(counter),
                ..*old(self)
            }),
    {
        &mut self.successful_activation
    }
}

impl<T: Metric + Default> Default for BlockDeviceMetrics2<T> {
    fn default() -> (group: Self)
        ensures
            call_ensures(T::default, (), group.feature_error),
            call_ensures(T::default, (), group.activate_error),
            call_ensures(T::default, (), group.successful_activation),
    {
        Self::new()
    }
}

impl<T: SerializeMetric + Default> MetricWriter for BlockDeviceMetrics2<T> {
    open spec fn emitted(v: BlockMetricsView<T::V>) -> Seq<u8> {
        record_emitted::<T>(v)
    }

    open spec fn written(v: BlockMetricsView<T::V>) -> BlockMetricsView<T::V> {
        record_written::<T>(v)
    }

    fn write(&mut self, buffer: &mut Vec<u8>) {
        write_record(
            &mut self.successful_activation,
            &mut self.activate_error,
            &mut self.feature_error,
            buffer,
        );
    }
}

impl<T: SerializeMetric + Default> BlockMetrics for BlockDeviceMetrics2<T> {
    open spec fn feature_error_inc_spec(v: BlockMetricsView<T::V>) -> BlockMetricsView<T::V> {
        BlockMetricsView { feature_error: T::add_spec(v.feature_error, 1), ..v }
    }

    open spec fn activate_error_inc_spec(v: BlockMetricsView<T::V>) -> BlockMetricsView<T::V> {
        BlockMetricsView { activate_error: T::add_spec(v.activate_error, 1), ..v }
    }

    open spec fn successful_activation_inc_spec(v: BlockMetricsView<T::V>) -> BlockMetricsView<
        T::V,
    > {
        BlockMetricsView { successful_activation: T::add_spec(v.successful_activation, 1), ..v }
    }

    fn feature_error_inc(&mut self) {
        self.feature_error.inc();
    }

    fn activate_error_inc(&mut self) {
        self.activate_error.inc();
    }

    fn successful_activation_inc(&mut self) {
        self.successful_activation.inc();
    }
}

/// A block device that counts its outcomes in three counters of kind `T`.
pub struct BlockDevice<T: Metric + Default> {
    metrics: BlockDeviceMetrics2<T>,
    features: u64,
    activate_success: bool,
    activated: Ghost<bool>,
}

impl<T: Metric + Default> View for BlockDevice<T> {
    type V = BlockDeviceView<BlockMetricsView<T::V>>;

    closed spec fn view(&self) -> BlockDeviceView<BlockMetricsView<T::V>> {
        BlockDeviceView {
            features: self.features,
            metrics: self.metrics@,
            activate_success: self.activate_success,
            activated: self.activated@,
        }
    }
}

impl BlockDevice<()> {
    /// A device whose counters ignore everything.
    pub fn new() -> (device: BlockDevice<()>)
        ensures
            device@ == (BlockDeviceView {
                features: 0,
                metrics: BlockMetricsView {
                    successful_activation: (),
                    activate_error: (),
                    feature_error: (),
                },
                activate_success: false,
                activated: false,
            }),
    {
        BlockDevice {
            features: 0,
            metrics: BlockDeviceMetrics2::<()>::new(),
            activate_success: false,
            activated: Ghost(false),
        }
    }
}

impl<T: Metric + Default> BlockDevice<T> {
    /// The metrics group itself.
    pub closed spec fn metrics_spec(&self) -> BlockDeviceMetrics2<T> {
        self.metrics
    }

    /// A device whose three counters are the default ones of their kind.
    pub fn new_with_metrics() -> (device: BlockDevice<T>)
        ensures
            call_ensures(T::default, (), device.metrics_spec().feature_error),
            call_ensures(T::default, (), device.metrics_spec().activate_error),
            call_ensures(T::default, (), device.metrics_spec().successful_activation),
            device@ == (BlockDeviceView {
                features: 0,
                metrics: device.metrics_spec()@,
                activate_success: false,
                activated: false,
            }),
    {
        BlockDevice {
            features: 0,
            metrics: BlockDeviceMetrics2::<T>::new(),
            activate_success: false,
            activated: Ghost(false),
        }
    }

    /// The feature bits that the device offers.
    pub fn avail_feature(&self) -> (features: u64)
        ensures
            features == AVAILABLE_FEATURES,
    {
        AVAILABLE_FEATURES
    }

    /// The negotiated feature bits.
    pub fn features(&self) -> (features: u64)
        ensures
            features == self@.features,
    {
        self.features
    }

    /// The metrics group, for reading.
    pub fn metrics(&self) -> (metrics: &BlockDeviceMetrics2<T>)
        ensures
            *metrics == self.metrics_spec(),
            metrics@ == self@.metrics,
    {
        &self.metrics
    }

    /// Sets whether an activation succeeds.
    pub fn set_activate_success(&mut self, outcome: bool)
        ensures
            final(self)@ == (BlockDeviceView { activate_success: outcome, ..old(self)@ }),
    {
        self.activate_success = outcome;
    }

    /// Negotiates the feature bits `val`. Zero is rejected: the rejection is
    /// counted and the device keeps the bits it had.
    pub fn set_features(&mut self, val: u64)
        ensures
            val == 0 ==> final(self)@ == (BlockDeviceView {
                metrics: BlockMetricsView {
                    feature_error: T::add_spec(old(self)@.metrics.feature_error, 1),
                    ..old(self)@.metrics
                },
                ..old(self)@
            }),
            val != 0 ==> final(self)@ == (BlockDeviceView { features: val, ..old(self)@ }),
            val == 0 ==> final(self)@.state() == old(self)@.state(),
            val != 0 && old(self)@.state() == DeviceState::Uninitialized ==> final(self)@.state()
                == DeviceState::FeaturesSet,
    {
        if val == 0 {
            self.metrics.feature_error.inc();
            return;
        }
        self.features = val;
    }

    /// Tries to activate the device and counts how it went. It can be tried
    /// again any number of times.
    pub fn activate(&mut self)
        ensures
            final(self)@ == (BlockDeviceView {
                metrics: if old(self)@.activate_success {
                    BlockMetricsView {
                        successful_activation: T::add_spec(
                            old(self)@.metrics.successful_activation,
                            1,
                        ),
                        ..old(self)@.metrics
                    }
                } else {
                    BlockMetricsView {
                        activate_error: T::add_spec(old(self)@.metrics.activate_error, 1),
                        ..old(self)@.metrics
                    }
                },
                activated: true,
                ..old(self)@
            }),
            final(self)@.state() == DeviceState::Activated,
    {
        if self.activate_success {
            self.metrics.successful_activation.inc();
        } else {
            self.metrics.activate_error.inc();
        }
        self.activated = Ghost(true);
    }
}

impl<T: SerializeMetric + Default> BlockDevice<T> {
    /// Writes the three counters to `buf` as one record.
    pub fn flush_metrics(&mut self, buf: &mut Vec<u8>)
        ensures
            final(buf)@ == old(buf)@ + record_emitted::<T>(old(self)@.metrics),
            final(self)@ == (BlockDeviceView {
                metrics: record_written::<T>(old(self)@.metrics),
                ..old(self)@
            }),
    {
        self.metrics.write(buf);
    }
}

/// A flush of cumulative counters reports the running totals and leaves them
/// as they are, so that a second flush with nothing counted in between
/// carries the same record.
pub proof fn cumulative_flush_keeps_totals(v: BlockMetricsView<nat>)
    ensures
        record_emitted::<CumulativeMetric>(v) == record_bytes(
            v.successful_activation,
            v.activate_error,
            v.feature_error,
        ),
        record_written::<CumulativeMetric>(v) == v,
        record_emitted::<CumulativeMetric>(record_written::<CumulativeMetric>(v))
            == record_emitted::<CumulativeMetric>(v),
{
}

/// A group of counters that are switched off writes nothing and stays as it
/// is.
pub proof fn null_flush_is_empty(v: BlockMetricsView<()>)
    ensures
        record_emitted::<()>(v) == Seq::<u8>::empty(),
        record_written::<()>(v) == v,
{
}

} // verus!
