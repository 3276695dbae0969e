use device_metrics::block_device_v3::BlockDevice;
use device_metrics::metrics::{CumulativeMetric, Metric};

#[test]
fn block_device_v3_test_no_op_metric() {
    let mut block_device = BlockDevice::new();
    block_device.activate();
}

#[test]
fn block_device_v3_test_metrics() {
    let mut block_device = BlockDevice::<CumulativeMetric>::new_with_metrics();
    assert_eq!(block_device.metrics().feature_error.count(), 0);
    assert_eq!(block_device.metrics().activate_error.count(), 0);
    assert_eq!(block_device.metrics().successful_activation.count(), 0);

    block_device.set_activate_success(true);
    block_device.activate();
    assert_eq!(block_device.metrics().successful_activation.count(), 1);
    assert_eq!(block_device.metrics().activate_error.count(), 0);
}
