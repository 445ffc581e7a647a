//! Calls that discover compute devices.

use vstd::prelude::*;

use crate::compute::ComputeDiscovery;
use crate::hal::error::HalError;
use crate::manifest::raw::{ComputeDeviceRaw, ComputeKindRaw};
use crate::pci::{
    bar_size, classify_pci_device, config_address, ecam_address, ecam_offset, read_pci_header,
    start_model, PciDeviceHeader, PciFunction, PciRequest, PciScan,
};

verus! {

/// A function that was read and classified is a GPU by its class alone, an NPU by
/// its class alone, and a TPU by its vendor; one that does not answer is nothing.
pub proof fn classify_function(
    dword0: u32,
    dword2: u32,
    dword3: u32,
    header: Option<PciDeviceHeader>,
    kind: Option<ComputeKindRaw>,
)
    requires
        call_ensures(read_pci_header, (dword0, dword2, dword3), header),
        header matches Some(h) ==> call_ensures(classify_pci_device, (&h,), kind),
    ensures
        header is None <==> dword0 % 0x1_0000 == 0xFFFF,
        header matches Some(h) ==> {
            &&& h.vendor_id == dword0 % 0x1_0000
            &&& h.device_id == dword0 / 0x1_0000
            &&& h.class_code == dword2 / 0x100_0000
            &&& h.subclass == dword2 / 0x1_0000 % 0x100
            &&& h.header_type == dword3 / 0x1_0000 % 0x100
            &&& kind == Some(ComputeKindRaw::Gpu) <==> dword2 / 0x100_0000 == 0x03
            &&& kind == Some(ComputeKindRaw::Npu) <==> dword2 / 0x100_0000 == 0x12
            &&& kind == Some(ComputeKindRaw::Tpu) <==> dword2 / 0x100_0000 != 0x03 && dword2
                / 0x100_0000 != 0x12 && dword0 % 0x1_0000 == 0x1AE0
            &&& kind is None <==> dword2 / 0x100_0000 != 0x03 && dword2 / 0x100_0000 != 0x12
                && dword0 % 0x1_0000 != 0x1AE0
        },
{
}

/// A register's size is what its writable bits leave of 4 GiB.
pub proof fn size_register(original: u32, mask: u32, r: Option<u64>)
    requires
        call_ensures(bar_size, (original, mask), r),
    ensures
        r is None <==> original % 2 == 1 || mask == 0,
        r matches Some(size) ==> size + mask / 16 * 16 == 0x1_0000_0000,
{
}

/// A dword's address on the port is, from the top, an enable bit, the bus, the
/// device, the function, and its offset in whole dwords; a function's window is 4 KiB
/// behind that of the one before it.
pub proof fn address_dword(
    bus: u8,
    device: u8,
    function: u8,
    offset: u8,
    base: u64,
    port: u32,
    window: u64,
    address: u64,
)
    requires
        device < 32,
        function < 8,
        base + 0x1000_0000 <= u64::MAX,
        call_ensures(config_address, (bus, device, function, offset), port),
        call_ensures(ecam_offset, (bus, device, function), window),
        call_ensures(ecam_address, (base, PciFunction { bus, device, function }, offset), address),
    ensures
        port == 0x8000_0000 + ((bus * 32 + device) * 8 + function) * 0x100 + offset as int / 4 * 4,
        window == ((bus * 32 + device) * 8 + function) * 0x1000,
        address == base + window + offset,
{
}

/// A scan starts at the first function with nothing found; each answer takes it one
/// step on, and what it asks is what its state asks.
pub proof fn step_scan(
    fresh: PciScan,
    scan: &mut PciScan,
    asked: Option<PciRequest>,
    value: u32,
)
    requires
        call_ensures(PciScan::start, (), fresh),
        call_ensures(PciScan::request, (&*old(scan),), asked),
        call_ensures(PciScan::answer, (scan, value), ()),
    ensures
        fresh.well_formed(),
        fresh@ == start_model(),
        start_model().bus == 0 && start_model().device == 0 && start_model().function == 0,
        start_model().devices.len() == 0 && !start_model().overflowed,
        asked == old(scan)@.asks(),
        final(scan)@ == old(scan)@.next(value),
{
}

/// A discovery holds the devices that its scan found; each is found by its place,
/// and no index from their number on is found.
pub proof fn discover_devices(
    scan: PciScan,
    discovery: &ComputeDiscovery,
    listed: &[ComputeDeviceRaw],
    index: u32,
    r: Option<&ComputeDeviceRaw>,
)
    requires
        scan.well_formed(),
        scan.finished(),
        call_ensures(ComputeDiscovery::new, (scan,), *discovery),
        call_ensures(ComputeDiscovery::enumerate_compute_devices, (discovery,), listed),
        call_ensures(ComputeDiscovery::device_by_index, (discovery, index), r),
    ensures
        listed@ == scan@.devices,
        r is Some <==> index < listed@.len(),
        r matches Some(device) ==> *device == listed@[index as int] && device.device_index == index,
{
}

/// A rescan replaces the devices by those of the new scan, whatever is asked for,
/// and says whether there were too many.
pub proof fn rescan_devices(
    discovery: &mut ComputeDiscovery,
    filter: Option<ComputeKindRaw>,
    scan: PciScan,
    r: Result<(), HalError>,
)
    requires
        scan.well_formed(),
        scan.finished(),
        call_ensures(ComputeDiscovery::rescan, (discovery, filter, scan), r),
    ensures
        final(discovery).devices() == scan@.devices,
        r is Err <==> scan.overflowed,
        r matches Err(e) ==> e == HalError::TooManyComputeDevices,
{
}

} // verus!
