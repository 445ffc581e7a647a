//! The compute devices that a scan of the configuration space has found.

use vstd::prelude::*;

use crate::hal::compute::{ComputeDevice, ComputeKind};
use crate::hal::error::HalError;
use crate::pci::{DeviceList, PciScan};

verus! {

/// The compute devices of the machine. CPU cores are not among them.
pub struct ComputeDiscovery {
    pub list: DeviceList,
}

impl ComputeDiscovery {
    /// The list is well formed.
    pub open spec fn well_formed(self) -> bool {
        self.list.well_formed()
    }

    /// The devices.
    pub open spec fn devices(self) -> Seq<ComputeDevice> {
        self.list.seq()
    }

    /// The devices that a finished scan found.
    pub fn new(scan: PciScan) -> (r: Self)
        requires
            scan.well_formed(),
            scan.finished(),
        ensures
            r.well_formed(),
            r.devices() == scan@.devices,
    {
        ComputeDiscovery { list: scan.list }
    }

    /// Every device found.
    pub fn enumerate_compute_devices(&self) -> (r: &[ComputeDevice])
        requires
            self.well_formed(),
        ensures
            r@ == self.devices(),
            forall|i: int| 0 <= i < r@.len() ==> (#[trigger] r@[i]).device_index == i,
    {
        self.list.as_slice()
    }

    /// Replaces the devices by those that a later scan found. If there are more
    /// than can be held, the first ones are kept and the rest is reported. Every
    /// kind is scanned for, whatever the filter.
    pub fn rescan(&mut self, kind_filter: Option<ComputeKind>, scan: PciScan) -> (r: Result<
        (),
        HalError,
    >)
        requires
            scan.well_formed(),
            scan.finished(),
        ensures
            final(self).well_formed(),
            r == (if scan.overflowed {
                Err::<(), HalError>(HalError::TooManyComputeDevices)
            } else {
                Ok(())
            }),
            final(self).devices() == scan@.devices,
    {
        self.list = scan.list;
        if scan.overflowed {
            return Err(HalError::TooManyComputeDevices);
        }
        Ok(())
    }

    /// The device with the given index: the one that is listed in that place.
    pub fn device_by_index(&self, device_index: u32) -> (r: Option<&ComputeDevice>)
        requires
            self.well_formed(),
        ensures
            match r {
                Some(device) => device_index < self.devices().len() && *device
                    == self.devices()[device_index as int] && device.device_index == device_index,
                None => device_index >= self.devices().len(),
            },
    {
        self.list.device_by_index(device_index)
    }
}

/// In every list of discovered devices, each device's index is its place, so no
/// two devices share an index.
pub proof fn device_indices_are_places(discovery: ComputeDiscovery)
    requires
        discovery.well_formed(),
    ensures
        forall|i: int|
            0 <= i < discovery.devices().len() ==> (#[trigger] discovery.devices()[i]).device_index
                == i,
        forall|i: int, j: int|
            0 <= i < discovery.devices().len() && 0 <= j < discovery.devices().len() && (
            #[trigger] discovery.devices()[i]).device_index == (
            #[trigger] discovery.devices()[j]).device_index ==> i == j,
{
}

} // verus!
