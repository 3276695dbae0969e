//! A vsock device: it negotiates features and counts nothing yet.

use vstd::prelude::*;

verus! {

/// The feature bits that a vsock device offers.
pub const VSOCK_AVAILABLE_FEATURES: u64 = 76;

/// A vsock device. Its view is the negotiated feature bits.
pub struct VsockDevice {
    features: u64,
}

impl View for VsockDevice {
    type V = u64;

    closed spec fn view(&self) -> u64 {
        self.features
    }
}

impl VsockDevice {
    /// A device that has accepted no features.
    pub fn new() -> (device: VsockDevice)
        ensures
            device@ == 0,
    {
        VsockDevice { features: 0 }
    }

    /// The feature bits that the device offers.
    pub fn avail_feature(&self) -> (features: u64)
        ensures
            features == VSOCK_AVAILABLE_FEATURES,
    {
        VSOCK_AVAILABLE_FEATURES
    }

    /// The negotiated feature bits.
    pub fn features(&self) -> (features: u64)
        ensures
            features == self@,
    {
        self.features
    }

    /// Stores the feature bits `val`, whatever they are.
    pub fn set_features(&mut self, val: u64)
        ensures
            final(self)@ == val,
    {
        self.features = val;
    }

    /// Activates the device, which changes nothing.
    pub fn activate(&self) {
    }
}

} // verus!
