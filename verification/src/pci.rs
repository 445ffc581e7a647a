//! Discovery of compute devices in PCI configuration space. The scan is a state
//! machine: it names the next configuration access, and is told the answer.

use vstd::prelude::*;

use crate::manifest::raw::{
    ComputeDeviceRaw, ComputeKindRaw, VendorIdRaw, MAX_COMPUTE_DEVICES,
};

verus! {

/// A function of a device on a bus.
#[derive(Debug, Clone, Copy, PartialEq, Eq, Structural)]
pub struct PciFunction {
    pub bus: u8,
    pub device: u8,
    pub function: u8,
}

/// The bit pattern that selects a configuration dword on the address port.
pub fn config_address(bus: u8, device: u8, function: u8, offset: u8) -> (r: u32)
    ensures
        r == 0x8000_0000u32 | ((bus as u32) << 16) | ((device as u32) << 11) | ((function as u32)
            << 8) | (offset as u32 & 0xFC),
        device < 32 && function < 8 ==> r == 0x8000_0000 + bus * 0x1_0000 + device * 0x800 + function
            * 0x100 + (offset - offset % 4),
{
    proof {
        if device < 32 && function < 8 {
            assert(0x8000_0000u32 | ((bus as u32) << 16) | ((device as u32) << 11) | ((
            function as u32) << 8) | (offset as u32 & 0xFC) == 0x8000_0000 + bus * 0x1_0000 + device
                * 0x800 + function * 0x100 + (offset - offset % 4)) by (bit_vector)
                requires
                    device < 32,
                    function < 8,
            ;
        }
    }
    0x8000_0000u32 | ((bus as u32) << 16) | ((device as u32) << 11) | ((function as u32) << 8) | (
    offset as u32 & 0xFC)
}

/// The offset of a function's window in memory-mapped configuration space.
pub fn ecam_offset(bus: u8, device: u8, function: u8) -> (r: u64)
    ensures
        r == ((bus as u64) << 20) | ((device as u64) << 15) | ((function as u64) << 12),
        device < 32 && function < 8 ==> r == bus * 0x10_0000 + device * 0x8000 + function * 0x1000,
{
    proof {
        if device < 32 && function < 8 {
            assert(((bus as u64) << 20) | ((device as u64) << 15) | ((function as u64) << 12) == bus
                * 0x10_0000 + device * 0x8000 + function * 0x1000) by (bit_vector)
                requires
                    device < 32,
                    function < 8,
            ;
        }
    }
    ((bus as u64) << 20) | ((device as u64) << 15) | ((function as u64) << 12)
}

/// The address of a dword of a function's configuration space, in the memory
/// window that starts at `ecam_base`.
pub fn ecam_address(ecam_base: u64, at: PciFunction, offset: u8) -> (r: u64)
    requires
        at.device < 32,
        at.function < 8,
        ecam_base + 0x1000_0000 <= u64::MAX,
    ensures
        r == ecam_base + at.bus * 0x10_0000 + at.device * 0x8000 + at.function * 0x1000 + offset,
{
    ecam_base + ecam_offset(at.bus, at.device, at.function) + offset as u64
}

/// The identifying part of a function's configuration header.
#[derive(Debug, Clone, Copy, PartialEq, Eq, Structural)]
pub struct PciDeviceHeader {
    pub vendor_id: u16,
    pub device_id: u16,
    pub class_code: u8,
    pub subclass: u8,
    pub header_type: u8,
}

/// Nothing answers: the vendor reads as all ones.
pub open spec fn absent(dword0: u32) -> bool {
    dword0 % 0x1_0000 == 0xFFFF
}

/// The header in the dwords at offsets 0, 8 and 12, if anything answers.
pub open spec fn header_of(dword0: u32, dword2: u32, dword3: u32) -> Option<PciDeviceHeader> {
    if absent(dword0) {
        None
    } else {
        Some(
            PciDeviceHeader {
                vendor_id: (dword0 % 0x1_0000) as u16,
                device_id: (dword0 / 0x1_0000) as u16,
                class_code: (dword2 / 0x100_0000) as u8,
                subclass: (dword2 / 0x1_0000 % 0x100) as u8,
                header_type: (dword3 / 0x1_0000 % 0x100) as u8,
            },
        )
    }
}

/// Decodes a header from the dwords at offsets 0, 8 and 12.
pub fn read_pci_header(dword0: u32, dword2: u32, dword3: u32) -> (r: Option<PciDeviceHeader>)
    ensures
        r == header_of(dword0, dword2, dword3),
{
    let vendor_id: u16 = (dword0 % 0x1_0000) as u16;
    if vendor_id == 0xFFFF {
        return None;
    }
    Some(
        PciDeviceHeader {
            vendor_id,
            device_id: (dword0 / 0x1_0000) as u16,
            class_code: (dword2 / 0x100_0000) as u8,
            subclass: (dword2 / 0x1_0000 % 0x100) as u8,
            header_type: (dword3 / 0x1_0000 % 0x100) as u8,
        },
    )
}

/// The class of display controllers.
pub const PCI_CLASS_DISPLAY_CONTROLLER: u8 = 0x03;

/// The class of processing accelerators.
pub const PCI_CLASS_PROCESSING_ACCELERATOR: u8 = 0x12;

/// The one vendor whose accelerators are known to report another class.
pub const TPU_VENDOR_ID: u16 = 0x1AE0;

/// What a function is as a compute device: a display controller is a GPU, a
/// processing accelerator an NPU, and what is neither but comes from the known
/// TPU vendor a TPU.
pub open spec fn kind_of_function(header: PciDeviceHeader) -> Option<ComputeKindRaw> {
    if header.class_code == PCI_CLASS_DISPLAY_CONTROLLER {
        Some(ComputeKindRaw::Gpu)
    } else if header.class_code == PCI_CLASS_PROCESSING_ACCELERATOR {
        Some(ComputeKindRaw::Npu)
    } else if header.vendor_id == TPU_VENDOR_ID {
        Some(ComputeKindRaw::Tpu)
    } else {
        None
    }
}

/// Classifies a function.
pub fn classify_pci_device(header: &PciDeviceHeader) -> (r: Option<ComputeKindRaw>)
    ensures
        r == kind_of_function(*header),
{
    if header.class_code == PCI_CLASS_DISPLAY_CONTROLLER {
        return Some(ComputeKindRaw::Gpu);
    }
    if header.class_code == PCI_CLASS_PROCESSING_ACCELERATOR {
        return Some(ComputeKindRaw::Npu);
    }
    if header.vendor_id == TPU_VENDOR_ID {
        return Some(ComputeKindRaw::Tpu);
    }
    None
}

/// The memory behind a base address register that reads `original`, and `mask`
/// after all ones were written to it: none for I/O space and for a register
/// that is not implemented, else the size that the writable bits leave.
pub open spec fn bar_memory(original: u32, mask: u32) -> Option<u64> {
    if original % 2 == 1 || mask == 0 {
        None
    } else {
        Some((0x1_0000_0000 - (mask - mask % 16)) as u64)
    }
}

/// Sizes the memory behind a base address register.
pub fn bar_size(original: u32, mask: u32) -> (r: Option<u64>)
    ensures
        r == bar_memory(original, mask),
{
    if original % 2 == 1 || mask == 0 {
        return None;
    }
    Some(0x1_0000_0000 - (mask - mask % 16) as u64)
}

/// The record of a compute device in slot `slot`.
pub open spec fn device_record(
    kind: ComputeKindRaw,
    vendor: u16,
    memory: Option<u64>,
    slot: int,
) -> ComputeDeviceRaw {
    ComputeDeviceRaw {
        kind,
        vendor: VendorIdRaw(vendor as u32),
        has_dedicated_memory: memory is Some,
        dedicated_memory_bytes: match memory {
            Some(bytes) => bytes,
            None => 0,
        },
        device_index: slot as u32,
        ..ComputeDeviceRaw::unknown()
    }
}

/// Compute devices in a fixed array.
#[derive(Clone, Copy)]
pub struct DeviceList {
    pub devices: [ComputeDeviceRaw; MAX_COMPUTE_DEVICES],
    pub count: usize,
}

impl DeviceList {
    /// The count is within the array, and every device's index is its place.
    pub open spec fn well_formed(self) -> bool {
        &&& self.count <= MAX_COMPUTE_DEVICES
        &&& forall|i: int|
            0 <= i < self.seq().len() ==> (#[trigger] self.seq()[i]).device_index == i
    }

    /// The devices in the list.
    pub open spec fn seq(self) -> Seq<ComputeDeviceRaw> {
        self.devices@.take(self.count as int)
    }

    /// A list without devices; nothing is known in any of its places.
    pub fn empty() -> (r: Self)
        ensures
            r.well_formed(),
            r.count == 0,
            r.seq() == Seq::<ComputeDeviceRaw>::empty(),
            forall|i: int|
                0 <= i < MAX_COMPUTE_DEVICES ==> #[trigger] r.devices@[i]
                    == ComputeDeviceRaw::unknown(),
    {
        DeviceList { devices: [ComputeDeviceRaw::zero(); 32], count: 0 }
    }

    /// The devices in the list.
    pub fn as_slice(&self) -> (r: &[ComputeDeviceRaw])
        requires
            self.well_formed(),
        ensures
            r@ == self.seq(),
    {
        vstd::slice::slice_subrange(self.devices.as_slice(), 0, self.count)
    }

    /// The device with the given index, which is the one in that place.
    pub fn device_by_index(&self, device_index: u32) -> (r: Option<&ComputeDeviceRaw>)
        requires
            self.well_formed(),
        ensures
            match r {
                Some(device) => device_index < self.seq().len() && *device
                    == self.seq()[device_index as int] && device.device_index == device_index,
                None => device_index >= self.seq().len(),
            },
    {
        let mut i: usize = 0;
        while i < self.count
            invariant
                self.well_formed(),
                i <= self.count,
                forall|j: int|
                    0 <= j < i ==> (#[trigger] self.seq()[j]).device_index != device_index,
            decreases self.count - i,
        {
            if self.devices[i].device_index == device_index {
                assert(self.seq()[i as int] == self.devices@[i as int]);
                return Some(&self.devices[i]);
            }
            i = i + 1;
        }
        assert(device_index < self.count ==> self.seq()[device_index as int].device_index
            == device_index);
        None
    }
}

/// A configuration access.
#[derive(Debug, Clone, Copy, PartialEq, Eq, Structural)]
pub enum PciRequest {
    /// Read the dword at `offset`.
    Read { at: PciFunction, offset: u8 },
    /// Write `value` to the dword at `offset`.
    Write { at: PciFunction, offset: u8, value: u32 },
}

/// What the scan waits for.
#[derive(Debug, Clone, Copy, PartialEq, Eq, Structural)]
pub enum ScanPhase {
    /// The first dword of a device's function 0.
    DeviceVendor,
    /// The class dword of a device's function 0.
    DeviceClass,
    /// The dword that says how many functions a device has.
    DeviceHeaderType,
    /// The first dword of a function.
    FunctionVendor,
    /// The class dword of a function.
    FunctionClass { dword0: u32 },
    /// The header type dword of a function.
    FunctionHeader { dword0: u32, dword2: u32 },
    /// The first base address register.
    BarOriginal { vendor: u16, kind: ComputeKindRaw },
    /// All ones to be written to it.
    BarFill { vendor: u16, kind: ComputeKindRaw, original: u32 },
    /// What it reads now.
    BarMask { vendor: u16, kind: ComputeKindRaw, original: u32 },
    /// Its value to be written back.
    BarRestore { vendor: u16, kind: ComputeKindRaw, original: u32, mask: u32 },
    /// Nothing.
    Done,
}

/// The first base address register, which the scan sizes.
pub const BAR0_OFFSET: u8 = 0x10;

/// The scan, as far as it matters: where it is, what it waits for, and what it
/// has found.
#[verifier::ext_equal]
pub struct ScanModel {
    pub bus: int,
    pub device: int,
    pub function: int,
    /// How many functions of the device are looked at.
    pub functions: int,
    pub phase: ScanPhase,
    pub devices: Seq<ComputeDeviceRaw>,
    pub overflowed: bool,
}

impl ScanModel {
    /// There are 256 buses of 32 devices of 8 functions each.
    pub open spec fn in_range(self) -> bool {
        0 <= self.bus < 256 && 0 <= self.device < 32 && 0 <= self.function < 8
    }

    /// How many functions come before the current one.
    pub open spec fn position(self) -> int {
        position_of(self.bus, self.device, self.function)
    }

    /// Goes to the next device.
    pub open spec fn next_device(self) -> Self {
        if self.device + 1 < 32 {
            ScanModel {
                device: self.device + 1,
                function: 0,
                functions: 0,
                phase: ScanPhase::DeviceVendor,
                ..self
            }
        } else if self.bus + 1 < 256 {
            ScanModel {
                bus: self.bus + 1,
                device: 0,
                function: 0,
                functions: 0,
                phase: ScanPhase::DeviceVendor,
                ..self
            }
        } else {
            ScanModel { phase: ScanPhase::Done, ..self }
        }
    }

    /// Goes to the next function of the device, or to the next device.
    pub open spec fn next_function(self) -> Self {
        if self.function + 1 < self.functions {
            ScanModel {
                function: self.function + 1,
                phase: ScanPhase::FunctionVendor,
                ..self
            }
        } else {
            self.next_device()
        }
    }

    /// Adds a device.
    pub open spec fn recorded(self, kind: ComputeKindRaw, vendor: u16, memory: Option<u64>) -> Self {
        ScanModel {
            devices: self.devices.push(
                device_record(kind, vendor, memory, self.devices.len() as int),
            ),
            ..self
        }
    }

    /// The scan after its request was answered with `value`; the answer to a
    /// write does not matter.
    pub open spec fn next(self, value: u32) -> Self {
        match self.phase {
            ScanPhase::DeviceVendor => if absent(value) {
                self.next_device()
            } else {
                ScanModel { phase: ScanPhase::DeviceClass, ..self }
            },
            ScanPhase::DeviceClass => ScanModel { phase: ScanPhase::DeviceHeaderType, ..self },
            ScanPhase::DeviceHeaderType => ScanModel {
                functions: if value / 0x1_0000 % 0x100 >= 0x80 {
                    8
                } else {
                    1
                },
                phase: ScanPhase::FunctionVendor,
                ..self
            },
            ScanPhase::FunctionVendor => if absent(value) {
                self.next_function()
            } else {
                ScanModel { phase: ScanPhase::FunctionClass { dword0: value }, ..self }
            },
            ScanPhase::FunctionClass { dword0 } => ScanModel {
                phase: ScanPhase::FunctionHeader { dword0, dword2: value },
                ..self
            },
            ScanPhase::FunctionHeader { dword0, dword2 } => match header_of(dword0, dword2, value) {
                Some(header) => match kind_of_function(header) {
                    Some(kind) => if self.devices.len() >= MAX_COMPUTE_DEVICES {
                        ScanModel { overflowed: true, phase: ScanPhase::Done, ..self }
                    } else {
                        ScanModel {
                            phase: ScanPhase::BarOriginal { vendor: header.vendor_id, kind },
                            ..self
                        }
                    },
                    None => self.next_function(),
                },
                None => self.next_function(),
            },
            ScanPhase::BarOriginal { vendor, kind } => if value % 2 == 1 {
                self.recorded(kind, vendor, None).next_function()
            } else {
                ScanModel {
                    phase: ScanPhase::BarFill { vendor, kind, original: value },
                    ..self
                }
            },
            ScanPhase::BarFill { vendor, kind, original } => ScanModel {
                phase: ScanPhase::BarMask { vendor, kind, original },
                ..self
            },
            ScanPhase::BarMask { vendor, kind, original } => ScanModel {
                phase: ScanPhase::BarRestore { vendor, kind, original, mask: value },
                ..self
            },
            ScanPhase::BarRestore { vendor, kind, original, mask } => self.recorded(
                kind,
                vendor,
                bar_memory(original, mask),
            ).next_function(),
            ScanPhase::Done => self,
        }
    }

    /// The request that the scan makes of function (bus, device, function).
    pub open spec fn asks(self) -> Option<PciRequest> {
        let at = PciFunction {
            bus: self.bus as u8,
            device: self.device as u8,
            function: self.function as u8,
        };
        match self.phase {
            ScanPhase::DeviceVendor | ScanPhase::FunctionVendor => Some(
                PciRequest::Read { at, offset: 0x00 },
            ),
            ScanPhase::DeviceClass | ScanPhase::FunctionClass { .. } => Some(
                PciRequest::Read { at, offset: 0x08 },
            ),
            ScanPhase::DeviceHeaderType | ScanPhase::FunctionHeader { .. } => Some(
                PciRequest::Read { at, offset: 0x0C },
            ),
            ScanPhase::BarOriginal { .. } | ScanPhase::BarMask { .. } => Some(
                PciRequest::Read { at, offset: BAR0_OFFSET },
            ),
            ScanPhase::BarFill { .. } => Some(
                PciRequest::Write { at, offset: BAR0_OFFSET, value: 0xFFFF_FFFF },
            ),
            ScanPhase::BarRestore { original, .. } => Some(
                PciRequest::Write { at, offset: BAR0_OFFSET, value: original },
            ),
            ScanPhase::Done => None,
        }
    }
}

/// How many functions come before function `f` of device `d` on bus `b`.
pub open spec fn position_of(b: int, d: int, f: int) -> int {
    b * 256 + d * 8 + f
}

/// A scan of the whole configuration space for compute devices.
pub struct PciScan {
    pub bus: u8,
    pub device: u8,
    pub function: u8,
    pub functions: u8,
    pub phase: ScanPhase,
    pub list: DeviceList,
    /// There are more devices than the list can hold.
    pub overflowed: bool,
}

impl View for PciScan {
    type V = ScanModel;

    open spec fn view(&self) -> ScanModel {
        ScanModel {
            bus: self.bus as int,
            device: self.device as int,
            function: self.function as int,
            functions: self.functions as int,
            phase: self.phase,
            devices: self.list.seq(),
            overflowed: self.overflowed,
        }
    }
}

impl PciScan {
    /// The scan is at an existing function, and its list is well formed.
    pub open spec fn well_formed(self) -> bool {
        &&& self.device < 32
        &&& self.function < 8
        &&& self.functions <= 8
        &&& self.list.well_formed()
        &&& match self.phase {
            ScanPhase::BarOriginal { .. }
            | ScanPhase::BarFill { .. }
            | ScanPhase::BarMask { .. }
            | ScanPhase::BarRestore { .. } => self.list.count < MAX_COMPUTE_DEVICES,
            _ => true,
        }
    }

    /// Every request was answered.
    pub open spec fn finished(self) -> bool {
        self.phase == ScanPhase::Done
    }

    /// A scan that has yet to begin, with nothing in any place of its list.
    pub fn start() -> (r: Self)
        ensures
            r.well_formed(),
            r@ == start_model(),
            forall|i: int|
                0 <= i < MAX_COMPUTE_DEVICES ==> #[trigger] r.list.devices@[i]
                    == ComputeDeviceRaw::unknown(),
    {
        PciScan {
            bus: 0,
            device: 0,
            function: 0,
            functions: 0,
            phase: ScanPhase::DeviceVendor,
            list: DeviceList::empty(),
            overflowed: false,
        }
    }

    /// The access that the scan waits for; none if it is finished.
    pub fn request(&self) -> (r: Option<PciRequest>)
        ensures
            r == self@.asks(),
    {
        let at = PciFunction { bus: self.bus, device: self.device, function: self.function };
        match self.phase {
            ScanPhase::DeviceVendor | ScanPhase::FunctionVendor => Some(
                PciRequest::Read { at, offset: 0x00 },
            ),
            ScanPhase::DeviceClass | ScanPhase::FunctionClass { .. } => Some(
                PciRequest::Read { at, offset: 0x08 },
            ),
            ScanPhase::DeviceHeaderType | ScanPhase::FunctionHeader { .. } => Some(
                PciRequest::Read { at, offset: 0x0C },
            ),
            ScanPhase::BarOriginal { .. } | ScanPhase::BarMask { .. } => Some(
                PciRequest::Read { at, offset: BAR0_OFFSET },
            ),
            ScanPhase::BarFill { .. } => Some(
                PciRequest::Write { at, offset: BAR0_OFFSET, value: 0xFFFF_FFFF },
            ),
            ScanPhase::BarRestore { original, .. } => Some(
                PciRequest::Write { at, offset: BAR0_OFFSET, value: original },
            ),
            ScanPhase::Done => None,
        }
    }

    fn next_device(&mut self)
        requires
            old(self).well_formed(),
        ensures
            final(self).well_formed(),
            final(self)@ == old(self)@.next_device(),
    {
        if self.device + 1 < 32 {
            self.device = self.device + 1;
        } else if self.bus < 255 {
            self.bus = self.bus + 1;
            self.device = 0;
        } else {
            self.phase = ScanPhase::Done;
            return ;
        }
        self.function = 0;
        self.functions = 0;
        self.phase = ScanPhase::DeviceVendor;
    }

    fn next_function(&mut self)
        requires
            old(self).well_formed(),
        ensures
            final(self).well_formed(),
            final(self)@ == old(self)@.next_function(),
    {
        if self.function + 1 < self.functions {
            self.function = self.function + 1;
            self.phase = ScanPhase::FunctionVendor;
        } else {
            self.next_device();
        }
    }

    fn record(&mut self, kind: ComputeKindRaw, vendor: u16, memory: Option<u64>)
        requires
            old(self).well_formed(),
            old(self).list.count < MAX_COMPUTE_DEVICES,
        ensures
            final(self)@ == old(self)@.recorded(kind, vendor, memory),
            final(self).list.well_formed(),
    {
        let slot: usize = self.list.count;
        let mut entry = ComputeDeviceRaw::zero();
        entry.kind = kind;
        entry.vendor = VendorIdRaw(vendor as u32);
        entry.has_dedicated_memory = memory.is_some();
        entry.dedicated_memory_bytes = match memory {
            Some(bytes) => bytes,
            None => 0,
        };
        entry.device_index = slot as u32;
        self.list.devices[slot] = entry;
        self.list.count = slot + 1;
        assert(self.list.seq() =~= old(self).list.seq().push(entry));
    }

    /// Takes the answer to the request.
    pub fn answer(&mut self, value: u32)
        requires
            old(self).well_formed(),
        ensures
            final(self).well_formed(),
            final(self)@ == old(self)@.next(value),
    {
        match self.phase {
            ScanPhase::DeviceVendor => {
                if value % 0x1_0000 == 0xFFFF {
                    self.next_device();
                } else {
                    self.phase = ScanPhase::DeviceClass;
                }
            },
            ScanPhase::DeviceClass => {
                self.phase = ScanPhase::DeviceHeaderType;
            },
            ScanPhase::DeviceHeaderType => {
                self.functions = if value / 0x1_0000 % 0x100 >= 0x80 {
                    8
                } else {
                    1
                };
                self.phase = ScanPhase::FunctionVendor;
            },
            ScanPhase::FunctionVendor => {
                if value % 0x1_0000 == 0xFFFF {
                    self.next_function();
                } else {
                    self.phase = ScanPhase::FunctionClass { dword0: value };
                }
            },
            ScanPhase::FunctionClass { dword0 } => {
                self.phase = ScanPhase::FunctionHeader { dword0, dword2: value };
            },
            ScanPhase::FunctionHeader { dword0, dword2 } => {
                match read_pci_header(dword0, dword2, value) {
                    Some(header) => match classify_pci_device(&header) {
                        Some(kind) => {
                            if self.list.count >= MAX_COMPUTE_DEVICES {
                                self.overflowed = true;
                                self.phase = ScanPhase::Done;
                            } else {
                                self.phase = ScanPhase::BarOriginal {
                                    vendor: header.vendor_id,
                                    kind,
                                };
                            }
                        },
                        None => {
                            self.next_function();
                        },
                    },
                    None => {
                        self.next_function();
                    },
                }
            },
            ScanPhase::BarOriginal { vendor, kind } => {
                if value % 2 == 1 {
                    self.record(kind, vendor, None);
                    self.phase = ScanPhase::FunctionVendor;
                    self.next_function();
                } else {
                    self.phase = ScanPhase::BarFill { vendor, kind, original: value };
                }
            },
            ScanPhase::BarFill { vendor, kind, original } => {
                self.phase = ScanPhase::BarMask { vendor, kind, original };
            },
            ScanPhase::BarMask { vendor, kind, original } => {
                self.phase = ScanPhase::BarRestore { vendor, kind, original, mask: value };
            },
            ScanPhase::BarRestore { vendor, kind, original, mask } => {
                self.record(kind, vendor, bar_size(original, mask));
                self.phase = ScanPhase::FunctionVendor;
                self.next_function();
            },
            ScanPhase::Done => {},
        }
    }
}

/// The model of a scan that has yet to begin.
pub open spec fn start_model() -> ScanModel {
    ScanModel {
        bus: 0,
        device: 0,
        function: 0,
        functions: 0,
        phase: ScanPhase::DeviceVendor,
        devices: Seq::empty(),
        overflowed: false,
    }
}

/// A configuration space that does not change while it is scanned: what each
/// dword reads, and what the first base address register reads while it holds
/// all ones.
pub struct ConfigSpace {
    pub dword: spec_fn(int, int, int, int) -> u32,
    pub bar_mask: spec_fn(int, int, int) -> u32,
}

impl ConfigSpace {
    /// The header of a function.
    pub open spec fn header(self, b: int, d: int, f: int) -> Option<PciDeviceHeader> {
        header_of((self.dword)(b, d, f, 0x00), (self.dword)(b, d, f, 0x08), (self.dword)(b, d, f, 0x0C))
    }

    /// How many functions of a device are looked at: none if function 0 does not
    /// answer, all eight if it says that there are several, else one.
    pub open spec fn functions(self, b: int, d: int) -> int {
        match self.header(b, d, 0) {
            None => 0,
            Some(header) => if header.header_type >= 0x80 {
                8
            } else {
                1
            },
        }
    }

    /// The kind of compute device that a function is.
    pub open spec fn kind(self, b: int, d: int, f: int) -> Option<ComputeKindRaw> {
        if f < self.functions(b, d) {
            match self.header(b, d, f) {
                Some(header) => kind_of_function(header),
                None => None,
            }
        } else {
            None
        }
    }

    /// The record of a function that is a compute device.
    pub open spec fn record(self, b: int, d: int, f: int, slot: int) -> ComputeDeviceRaw {
        device_record(
            self.kind(b, d, f)->0,
            self.header(b, d, f)->0.vendor_id,
            bar_memory((self.dword)(b, d, f, 0x10), (self.bar_mask)(b, d, f)),
            slot,
        )
    }

    /// The compute devices among the first `n` functions, in order.
    pub open spec fn devices(self, n: int) -> Seq<ComputeDeviceRaw>
        decreases n,
    {
        if n <= 0 {
            Seq::empty()
        } else {
            let before = self.devices(n - 1);
            let b = (n - 1) / 256;
            let d = (n - 1) / 8 % 32;
            let f = (n - 1) % 8;
            if self.kind(b, d, f) is Some {
                before.push(self.record(b, d, f, before.len() as int))
            } else {
                before
            }
        }
    }

    /// The compute devices of the whole space.
    pub open spec fn all_devices(self) -> Seq<ComputeDeviceRaw> {
        self.devices(65536)
    }

    /// What the space answers to the request of a scan.
    pub open spec fn reply(self, scan: ScanModel) -> u32 {
        match scan.phase {
            ScanPhase::BarMask { .. } => (self.bar_mask)(scan.bus, scan.device, scan.function),
            _ => match scan.asks() {
                Some(PciRequest::Read { offset, .. }) => (self.dword)(
                    scan.bus,
                    scan.device,
                    scan.function,
                    offset as int,
                ),
                _ => 0,
            },
        }
    }

    /// The devices before the current function are found, and what the scan
    /// remembers is what the space reads.
    pub open spec fn scanned(self, scan: ScanModel) -> bool {
        let b = scan.bus;
        let d = scan.device;
        let f = scan.function;
        let dword0 = (self.dword)(b, d, f, 0x00);
        let dword2 = (self.dword)(b, d, f, 0x08);
        &&& scan.in_range()
        &&& scan.devices.len() <= MAX_COMPUTE_DEVICES
        &&& if scan.overflowed {
            &&& scan.phase == ScanPhase::Done
            &&& scan.devices.len() == MAX_COMPUTE_DEVICES
            &&& scan.devices == self.devices(scan.position())
            &&& self.kind(b, d, f) is Some
        } else {
            match scan.phase {
                ScanPhase::Done => scan.devices == self.all_devices(),
                ScanPhase::DeviceVendor => {
                    &&& scan.devices == self.devices(scan.position())
                    &&& f == 0
                },
                ScanPhase::DeviceClass | ScanPhase::DeviceHeaderType => {
                    &&& scan.devices == self.devices(scan.position())
                    &&& f == 0
                    &&& !absent(dword0)
                },
                ScanPhase::FunctionVendor => {
                    &&& scan.devices == self.devices(scan.position())
                    &&& f < scan.functions
                    &&& scan.functions == self.functions(b, d)
                },
                ScanPhase::FunctionClass { dword0: first } => {
                    &&& scan.devices == self.devices(scan.position())
                    &&& f < scan.functions
                    &&& scan.functions == self.functions(b, d)
                    &&& first == dword0
                    &&& !absent(dword0)
                },
                ScanPhase::FunctionHeader { dword0: first, dword2: class } => {
                    &&& scan.devices == self.devices(scan.position())
                    &&& f < scan.functions
                    &&& scan.functions == self.functions(b, d)
                    &&& first == dword0
                    &&& class == dword2
                    &&& !absent(dword0)
                },
                ScanPhase::BarOriginal { vendor, kind } => {
                    &&& scan.devices == self.devices(scan.position())
                    &&& f < scan.functions
                    &&& scan.functions == self.functions(b, d)
                    &&& self.kind(b, d, f) == Some(kind)
                    &&& self.header(b, d, f)->0.vendor_id == vendor
                    &&& scan.devices.len() < MAX_COMPUTE_DEVICES
                },
                ScanPhase::BarFill { vendor, kind, original } | ScanPhase::BarMask {
                    vendor,
                    kind,
                    original,
                } => {
                    &&& scan.devices == self.devices(scan.position())
                    &&& f < scan.functions
                    &&& scan.functions == self.functions(b, d)
                    &&& self.kind(b, d, f) == Some(kind)
                    &&& self.header(b, d, f)->0.vendor_id == vendor
                    &&& scan.devices.len() < MAX_COMPUTE_DEVICES
                    &&& original == (self.dword)(b, d, f, 0x10)
                    &&& original % 2 == 0
                },
                ScanPhase::BarRestore { vendor, kind, original, mask } => {
                    &&& scan.devices == self.devices(scan.position())
                    &&& f < scan.functions
                    &&& scan.functions == self.functions(b, d)
                    &&& self.kind(b, d, f) == Some(kind)
                    &&& self.header(b, d, f)->0.vendor_id == vendor
                    &&& scan.devices.len() < MAX_COMPUTE_DEVICES
                    &&& original == (self.dword)(b, d, f, 0x10)
                    &&& original % 2 == 0
                    &&& mask == (self.bar_mask)(b, d, f)
                },
            }
        }
    }
}

impl ScanModel {
    /// How many answers the scan needs at most.
    pub open spec fn remaining(self) -> int {
        let rank: int = match self.phase {
            ScanPhase::DeviceVendor => 10,
            ScanPhase::DeviceClass => 9,
            ScanPhase::DeviceHeaderType => 8,
            ScanPhase::FunctionVendor => 7,
            ScanPhase::FunctionClass { .. } => 6,
            ScanPhase::FunctionHeader { .. } => 5,
            ScanPhase::BarOriginal { .. } => 4,
            ScanPhase::BarFill { .. } => 3,
            ScanPhase::BarMask { .. } => 2,
            ScanPhase::BarRestore { .. } => 1,
            ScanPhase::Done => 0,
        };
        if self.phase == ScanPhase::Done {
            0
        } else {
            (65536 - self.position()) * 16 + rank
        }
    }

    /// The scan after every request was answered by `space`.
    pub open spec fn finish(self, space: ConfigSpace) -> Self
        decreases self.remaining(),
        when self.in_range() && self.functions <= 8
    {
        if self.phase == ScanPhase::Done {
            self
        } else {
            self.next(space.reply(self)).finish(space)
        }
    }
}

/// A position determines the function at it.
proof fn lemma_position(b: int, d: int, f: int)
    requires
        0 <= b < 256,
        0 <= d < 32,
        0 <= f < 8,
    ensures
        position_of(b, d, f) == position_of(b, d, f + 1) - 1,
        position_of(b, d, f) >= 0,
        position_of(b, d, f) / 256 == b,
        position_of(b, d, f) / 8 % 32 == d,
        position_of(b, d, f) % 8 == f,
{
    assert(position_of(b, d, f) / 8 == b * 32 + d);
}

/// The functions from `f` on of a device hold no compute device.
proof fn lemma_rest_of_device(space: ConfigSpace, b: int, d: int, f: int)
    requires
        0 <= b < 256,
        0 <= d < 32,
        0 <= f <= 8,
        forall|g: int| f <= g < 8 ==> #[trigger] space.kind(b, d, g) is None,
    ensures
        space.devices(position_of(b, d, 8)) == space.devices(position_of(b, d, f)),
    decreases 8 - f,
{
    if f < 8 {
        lemma_rest_of_device(space, b, d, f + 1);
        lemma_position(b, d, f);
        assert(space.kind(b, d, f) is None);
    }
}

/// One more function was looked at.
proof fn lemma_one_function(space: ConfigSpace, b: int, d: int, f: int)
    requires
        0 <= b < 256,
        0 <= d < 32,
        0 <= f < 8,
    ensures
        space.devices(position_of(b, d, f + 1)) == (if space.kind(b, d, f) is Some {
            let before = space.devices(position_of(b, d, f));
            before.push(space.record(b, d, f, before.len() as int))
        } else {
            space.devices(position_of(b, d, f))
        }),
{
    lemma_position(b, d, f);
}

/// Leaving a function after it was looked at keeps what was found.
proof fn lemma_next_function(space: ConfigSpace, scan: ScanModel)
    requires
        scan.in_range(),
        !scan.overflowed,
        scan.devices.len() <= MAX_COMPUTE_DEVICES,
        scan.function < scan.functions,
        scan.functions == space.functions(scan.bus, scan.device),
        scan.devices == space.devices(position_of(scan.bus, scan.device, scan.function + 1)),
    ensures
        space.scanned(scan.next_function()),
{
    let b = scan.bus;
    let d = scan.device;
    let f = scan.function;
    if f + 1 < scan.functions {
    } else {
        assert forall|g: int| f + 1 <= g < 8 implies #[trigger] space.kind(b, d, g) is None by {}
        lemma_rest_of_device(space, b, d, f + 1);
        assert(position_of(b, d, 8) == position_of(b, d + 1, 0));
        assert(position_of(b, 32, 0) == position_of(b + 1, 0, 0));
    }
}

/// A scan that agrees with an unchanging configuration space still does after
/// the space answers its request, and needs fewer answers.
pub proof fn scan_step_agrees(space: ConfigSpace, scan: ScanModel)
    requires
        space.scanned(scan),
        scan.phase != ScanPhase::Done,
    ensures
        space.scanned(scan.next(space.reply(scan))),
        0 <= scan.next(space.reply(scan)).remaining() < scan.remaining(),
{
    let b = scan.bus;
    let d = scan.device;
    let f = scan.function;
    let value = space.reply(scan);
    lemma_one_function(space, b, d, f);
    match scan.phase {
        ScanPhase::DeviceVendor => {
            if absent(value) {
                assert forall|g: int| 0 <= g < 8 implies #[trigger] space.kind(b, d, g) is None by {}
                lemma_rest_of_device(space, b, d, 0);
                assert(position_of(b, d, 8) == position_of(b, d + 1, 0));
                assert(position_of(b, 32, 0) == position_of(b + 1, 0, 0));
            }
        },
        ScanPhase::FunctionVendor => {
            if absent(value) {
                lemma_next_function(space, scan);
            }
        },
        ScanPhase::FunctionHeader { dword0, dword2 } => {
            assert(header_of(dword0, dword2, value) == space.header(b, d, f));
            if space.kind(b, d, f) is None {
                lemma_next_function(space, scan);
            }
        },
        ScanPhase::BarOriginal { vendor, kind } => {
            if value % 2 == 1 {
                lemma_next_function(space, scan.recorded(kind, vendor, None));
            }
        },
        ScanPhase::BarRestore { vendor, kind, original, mask } => {
            lemma_next_function(
                space,
                scan.recorded(kind, vendor, bar_memory(original, mask)),
            );
        },
        _ => {},
    }
}

/// Later functions only add devices.
proof fn lemma_devices_grow(space: ConfigSpace, m: int, n: int)
    requires
        0 <= m <= n,
    ensures
        space.devices(m).is_prefix_of(space.devices(n)),
    decreases n - m,
{
    if m < n {
        lemma_devices_grow(space, m, n - 1);
    }
}

/// A finished scan holds the compute devices of the space in the order of their
/// addresses, up to the capacity of the list, and knows whether there were
/// more.
pub proof fn finished_scan_lists_the_devices(space: ConfigSpace, scan: ScanModel)
    requires
        space.scanned(scan),
        scan.phase == ScanPhase::Done,
    ensures
        scan.overflowed == (space.all_devices().len() > MAX_COMPUTE_DEVICES),
        scan.devices == space.all_devices().take(
            if scan.overflowed {
                MAX_COMPUTE_DEVICES as int
            } else {
                space.all_devices().len() as int
            },
        ),
{
    if scan.overflowed {
        let n = scan.position();
        lemma_one_function(space, scan.bus, scan.device, scan.function);
        lemma_devices_grow(space, n + 1, 65536);
        lemma_devices_grow(space, n, 65536);
    }
}

proof fn lemma_finish(space: ConfigSpace, scan: ScanModel)
    requires
        space.scanned(scan),
        scan.functions <= 8,
    ensures
        space.scanned(scan.finish(space)),
        scan.finish(space).phase == ScanPhase::Done,
    decreases scan.remaining(),
{
    if scan.phase != ScanPhase::Done {
        scan_step_agrees(space, scan);
        lemma_finish(space, scan.next(space.reply(scan)));
    }
}

/// A scan from the start, answered by an unchanging configuration space, ends
/// with every compute device of the space, up to the capacity of the list.
pub proof fn whole_scan_lists_the_devices(space: ConfigSpace)
    ensures
        start_model().finish(space).phase == ScanPhase::Done,
        start_model().finish(space).overflowed == (space.all_devices().len()
            > MAX_COMPUTE_DEVICES),
        start_model().finish(space).devices == space.all_devices().take(
            if space.all_devices().len() > MAX_COMPUTE_DEVICES {
                MAX_COMPUTE_DEVICES as int
            } else {
                space.all_devices().len() as int
            },
        ),
{
    assert(space.scanned(start_model()));
    lemma_finish(space, start_model());
    finished_scan_lists_the_devices(space, start_model().finish(space));
}

/// A base address register that was overwritten for sizing gets its value back,
/// whatever is answered in between.
pub proof fn sized_register_is_restored(scan: ScanModel, first: u32, second: u32)
    requires
        scan.phase is BarFill,
    ensures
        scan.asks() == Some(
            PciRequest::Write {
                at: PciFunction {
                    bus: scan.bus as u8,
                    device: scan.device as u8,
                    function: scan.function as u8,
                },
                offset: BAR0_OFFSET,
                value: 0xFFFF_FFFF,
            },
        ),
        scan.next(first).next(second).asks() == Some(
            PciRequest::Write {
                at: PciFunction {
                    bus: scan.bus as u8,
                    device: scan.device as u8,
                    function: scan.function as u8,
                },
                offset: BAR0_OFFSET,
                value: scan.phase->BarFill_original,
            },
        ),
{
}

/// Every device of a configuration space knows its own place among them.
pub proof fn devices_know_their_slot(space: ConfigSpace, n: int, i: int)
    requires
        0 <= n <= 65536,
        0 <= i < space.devices(n).len(),
    ensures
        space.devices(n).len() <= n,
        space.devices(n)[i].device_index == i,
    decreases n,
{
    if n > 0 {
        let before = space.devices(n - 1);
        if before.len() > 0 {
            devices_know_their_slot(space, n - 1, 0);
        }
        if i < before.len() {
            devices_know_their_slot(space, n - 1, i);
        }
    }
}

} // verus!
