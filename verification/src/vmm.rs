//! The monitor: one block device, and the sink that its records go to.

use vstd::prelude::*;
use crate::block_device::{record_emitted, record_written, BlockDevice, BlockDeviceView};
use crate::metrics::DiffMetric;
use crate::vmm_metrics::{fresh_block_metrics, BlockMetricsImpl};

verus! {

/// A monitor with one block device. The sink is a buffer in memory: each
/// flush appends one record to it, and whoever embeds the monitor takes the
/// bytes from there to where they are kept.
pub struct Vmm {
    pub block_device: BlockDevice<BlockMetricsImpl>,
    pub writer: Vec<u8>,
}

impl Vmm {
    /// A monitor with a new device and an empty sink.
    pub fn new() -> (vmm: Self)
        ensures
            vmm.block_device@ == (BlockDeviceView {
                features: 0,
                metrics: fresh_block_metrics(),
                activate_success: false,
                activated: false,
            }),
            vmm.writer@ == Seq::<u8>::empty(),
    {
        Vmm {
            block_device: BlockDevice::<BlockMetricsImpl>::new_with_metrics(),
            writer: Vec::new(),
        }
    }

    /// Writes the device's metrics to the sink as one record.
    pub fn flush_metrics(&mut self)
        ensures
            final(self).writer@ == old(self).writer@ + record_emitted::<DiffMetric>(
                old(self).block_device@.metrics,
            ),
            final(self).block_device@ == (BlockDeviceView {
                metrics: record_written::<DiffMetric>(old(self).block_device@.metrics),
                ..old(self).block_device@
            }),
    {
        self.block_device.flush_metrics(&mut self.writer);
    }
}

} // verus!
