//! Outcome counters for emulated devices.
//!
//! A device model counts what happens to it (a rejected feature negotiation,
//! a failed or a successful activation) in a group of counters, and a flush
//! turns the group into one JSON record. There are three kinds of counter:
//! one that is switched off, one that keeps a running total, and one that
//! reports what was added since the last record went out.
//!
//! - [`metrics`]: the counter and writer traits, and the three kinds.
//! - [`json`]: the text of a record.
//! - [`block_device`]: a block device over any metrics group.
//! - [`block_device_v3`]: a block device that owns its three counters.
//! - [`vsock_device`]: a vsock device.
//! - [`vmm_metrics`], [`vmm`]: the monitor's metrics group and the monitor.
//!
//! Every counter is owned by whoever increments it: the operations take
//! `&mut self`, and their contracts say exactly what the counter holds
//! afterwards. A record is appended to a byte buffer in memory; sending it on,
//! and sharing a device between threads, is left to the embedding.

pub mod block_device;
pub mod block_device_v3;
pub mod json;
pub mod metrics;
pub mod vmm;
pub mod vmm_metrics;
pub mod vsock_device;
