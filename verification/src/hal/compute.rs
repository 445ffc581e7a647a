//! The compute device capability trait.

use vstd::prelude::*;

use crate::hal::error::HalError;

pub use crate::manifest::raw::{
    ComputeDeviceRaw as ComputeDevice, ComputeKindRaw as ComputeKind, VendorIdRaw as VendorId,
};

verus! {

/// What each architecture's compute device discovery must offer.
pub trait ComputeDeviceDiscovery {
    /// Every device found; CPU cores are not listed.
    fn enumerate_compute_devices(&self) -> &[ComputeDevice];

    /// Discovers the devices again.
    fn rescan(&self, kind_filter: Option<ComputeKind>) -> Result<(), HalError>;

    /// The device with the given index.
    fn device_by_index(&self, device_index: u32) -> Option<&ComputeDevice>;
}

} // verus!
