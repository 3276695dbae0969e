//! The metrics group that the monitor gives its block device: three counters
//! that each report what was added since the last record.

use vstd::prelude::*;
use crate::block_device::{
    record_emitted,
    record_written,
    write_record,
    BlockMetrics,
    BlockMetricsView,
};
use crate::json::record_bytes;
use crate::metrics::{DiffMetric, DiffMetricView, Metric, MetricWriter};

verus! {

/// Three [`DiffMetric`] counters, one for each outcome of a block device.
pub struct BlockMetricsImpl {
    successful_activation: DiffMetric,
    activate_error: DiffMetric,
    features_error: DiffMetric,
}

impl View for BlockMetricsImpl {
    type V = BlockMetricsView<DiffMetricView>;

    closed spec fn view(&self) -> BlockMetricsView<DiffMetricView> {
        BlockMetricsView {
            successful_activation: self.successful_activation@,
            activate_error: self.activate_error@,
            feature_error: self.features_error@,
        }
    }
}

/// The group to which nothing was added and which has reported nothing.
pub open spec fn fresh_block_metrics() -> BlockMetricsView<DiffMetricView> {
    BlockMetricsView {
        successful_activation: DiffMetricView { current: 0, previous: 0 },
        activate_error: DiffMetricView { current: 0, previous: 0 },
        feature_error: DiffMetricView { current: 0, previous: 0 },
    }
}

impl Default for BlockMetricsImpl {
    fn default() -> (group: Self)
        ensures
            group@ == fresh_block_metrics(),
    {
        BlockMetricsImpl {
            successful_activation: DiffMetric::default(),
            activate_error: DiffMetric::default(),
            features_error: DiffMetric::default(),
        }
    }
}

impl BlockMetricsImpl {
    /// The counter of successful activations, for reading.
    pub fn successful_activation(&self) -> (counter: &DiffMetric)
        ensures
            counter@ == self@.successful_activation,
    {
        &self.successful_activation
    }

    /// The counter of failed activations, for reading.
    pub fn activate_error(&self) -> (counter: &DiffMetric)
        ensures
            counter@ == self@.activate_error,
    {
        &self.activate_error
    }

    /// The counter of rejected feature negotiations, for reading.
    pub fn features_error(&self) -> (counter: &DiffMetric)
        ensures
            counter@ == self@.feature_error,
    {
        &self.features_error
    }
}

impl MetricWriter for BlockMetricsImpl {
    open spec fn emitted(v: BlockMetricsView<DiffMetricView>) -> Seq<u8> {
        record_emitted::<DiffMetric>(v)
    }

    open spec fn written(v: BlockMetricsView<DiffMetricView>) -> BlockMetricsView<DiffMetricView> {
        record_written::<DiffMetric>(v)
    }

    fn write(&mut self, buffer: &mut Vec<u8>) {
        write_record(
            &mut self.successful_activation,
            &mut self.activate_error,
            &mut self.features_error,
            buffer,
        );
    }
}

impl BlockMetrics for BlockMetricsImpl {
    open spec fn feature_error_inc_spec(v: BlockMetricsView<DiffMetricView>) -> BlockMetricsView<
        DiffMetricView,
    > {
        BlockMetricsView { feature_error: DiffMetric::add_spec(v.feature_error, 1), ..v }
    }

    open spec fn activate_error_inc_spec(v: BlockMetricsView<DiffMetricView>) -> BlockMetricsView<
        DiffMetricView,
    > {
        BlockMetricsView { activate_error: DiffMetric::add_spec(v.activate_error, 1), ..v }
    }

    open spec fn successful_activation_inc_spec(
        v: BlockMetricsView<DiffMetricView>,
    ) -> BlockMetricsView<DiffMetricView> {
        BlockMetricsView {
            successful_activation: DiffMetric::add_spec(v.successful_activation, 1),
            ..v
        }
    }

    fn feature_error_inc(&mut self) {
        self.features_error.inc();
    }

    fn activate_error_inc(&mut self) {
        self.activate_error.inc();
    }

    fn successful_activation_inc(&mut self) {
        self.successful_activation.inc();
    }
}

/// A flush reports each count once: the record carries, for each counter,
/// what was added since the flush before, and a second flush with nothing
/// counted in between carries three zeros and changes nothing.
pub proof fn second_flush_reports_zeros(v: BlockMetricsView<DiffMetricView>)
    ensures
        BlockMetricsImpl::emitted(v) == record_bytes(
            (v.successful_activation.current - v.successful_activation.previous) as nat,
            (v.activate_error.current - v.activate_error.previous) as nat,
            (v.feature_error.current - v.feature_error.previous) as nat,
        ),
        BlockMetricsImpl::emitted(BlockMetricsImpl::written(v)) == record_bytes(0, 0, 0),
        BlockMetricsImpl::written(BlockMetricsImpl::written(v)) == BlockMetricsImpl::written(v),
{
}

} // verus!
