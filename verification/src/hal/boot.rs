//! The boot information handed to the kernel.

use vstd::prelude::*;

use crate::hal::error::HalError;
use crate::manifest::raw::HardwareManifestRaw;

verus! {

/// Which firmware path delivered control.
#[derive(Debug, Clone, Copy, PartialEq, Eq, Structural)]
pub enum BootProtocol {
    /// A UEFI loader, on x86_64 or ARM64.
    Uefi,
    /// SBI with a device tree, on RISC-V.
    SbiDeviceTree,
}

/// The bytes "HALBOOT1".
pub const BOOT_INFO_MAGIC: u64 = 0x4841_4C42_4F4F_5431;

/// The layout version of `BootInfo`.
pub const BOOT_INFO_VERSION: u32 = 1;

/// Everything the kernel learns at boot, in one architecture-independent
/// structure of fixed size.
#[derive(Clone, Copy)]
pub struct BootInfo {
    pub magic: u64,
    pub version: u32,
    pub _reserved0: u32,
    pub protocol: BootProtocol,
    pub _reserved1: [u8; 7],
    pub hardware_manifest: HardwareManifestRaw,
    /// Root of the initial page tables.
    pub initial_page_table_phys: u64,
    pub kernel_image_phys_start: u64,
    pub kernel_image_phys_end: u64,
    pub boot_reserved_phys_start: u64,
    pub boot_reserved_phys_end: u64,
    /// The core that ran the boot sequence.
    pub boot_core_id: u32,
    pub _reserved2: u32,
}

impl BootInfo {
    /// The physical addresses that the kernel image occupies.
    pub open spec fn in_kernel_image(self, addr: int) -> bool {
        self.kernel_image_phys_start <= addr < self.kernel_image_phys_end
    }

    /// The physical addresses of boot-time structures.
    pub open spec fn in_boot_reserved(self, addr: int) -> bool {
        self.boot_reserved_phys_start <= addr < self.boot_reserved_phys_end
    }

    /// The kernel may trust this value: magic and version are the expected
    /// ones, neither range is inverted, and no address lies in both ranges.
    pub open spec fn well_formed(self) -> bool {
        &&& self.magic == BOOT_INFO_MAGIC
        &&& self.version == BOOT_INFO_VERSION
        &&& self.kernel_image_phys_start <= self.kernel_image_phys_end
        &&& self.boot_reserved_phys_start <= self.boot_reserved_phys_end
        &&& forall|addr: int| !(#[trigger] self.in_kernel_image(addr) && self.in_boot_reserved(addr))
    }

    /// The value was assembled from the given parts.
    pub open spec fn assembled_from(
        self,
        protocol: BootProtocol,
        initial_page_table_phys: u64,
        kernel_image_phys_range: (u64, u64),
        boot_reserved_phys_range: (u64, u64),
        boot_core_id: u32,
    ) -> bool {
        &&& self.magic == BOOT_INFO_MAGIC
        &&& self.version == BOOT_INFO_VERSION
        &&& self.protocol == protocol
        &&& self.initial_page_table_phys == initial_page_table_phys
        &&& self.kernel_image_phys_start == kernel_image_phys_range.0
        &&& self.kernel_image_phys_end == kernel_image_phys_range.1
        &&& self.boot_reserved_phys_start == boot_reserved_phys_range.0
        &&& self.boot_reserved_phys_end == boot_reserved_phys_range.1
        &&& self.boot_core_id == boot_core_id
        &&& self._reserved0 == 0
        &&& forall|i: int| 0 <= i < 7 ==> self._reserved1@[i] == 0
        &&& self._reserved2 == 0
    }

    /// Assembles the boot information.
    pub fn new(
        protocol: BootProtocol,
        hardware_manifest: HardwareManifestRaw,
        initial_page_table_phys: u64,
        kernel_image_phys_range: (u64, u64),
        boot_reserved_phys_range: (u64, u64),
        boot_core_id: u32,
    ) -> (r: Self)
        ensures
            r.hardware_manifest == hardware_manifest,
            r.assembled_from(
                protocol,
                initial_page_table_phys,
                kernel_image_phys_range,
                boot_reserved_phys_range,
                boot_core_id,
            ),
    {
        BootInfo {
            magic: BOOT_INFO_MAGIC,
            version: BOOT_INFO_VERSION,
            _reserved0: 0,
            protocol,
            _reserved1: [0; 7],
            hardware_manifest,
            initial_page_table_phys,
            kernel_image_phys_start: kernel_image_phys_range.0,
            kernel_image_phys_end: kernel_image_phys_range.1,
            boot_reserved_phys_start: boot_reserved_phys_range.0,
            boot_reserved_phys_end: boot_reserved_phys_range.1,
            boot_core_id,
            _reserved2: 0,
        }
    }

    /// Checks that the structure can be trusted.
    pub fn validate(&self) -> (r: Result<(), HalError>)
        ensures
            r == (if self.well_formed() {
                Ok(())
            } else {
                Err(HalError::MalformedBootInfo)
            }),
    {
        if self.magic != BOOT_INFO_MAGIC {
            return Err(HalError::MalformedBootInfo);
        }
        if self.version != BOOT_INFO_VERSION {
            return Err(HalError::MalformedBootInfo);
        }
        if self.kernel_image_phys_end < self.kernel_image_phys_start {
            return Err(HalError::MalformedBootInfo);
        }
        if self.boot_reserved_phys_end < self.boot_reserved_phys_start {
            return Err(HalError::MalformedBootInfo);
        }
        let start: u64 = if self.kernel_image_phys_start < self.boot_reserved_phys_start {
            self.boot_reserved_phys_start
        } else {
            self.kernel_image_phys_start
        };
        if start < self.kernel_image_phys_end && start < self.boot_reserved_phys_end {
            proof {
                assert(self.in_kernel_image(start as int) && self.in_boot_reserved(start as int));
            }
            return Err(HalError::MalformedBootInfo);
        }
        Ok(())
    }

    /// Whether `addr` lies in the kernel image.
    pub fn overlaps_kernel_image(&self, addr: u64) -> (r: bool)
        ensures
            r == self.in_kernel_image(addr as int),
    {
        addr >= self.kernel_image_phys_start && addr < self.kernel_image_phys_end
    }

    /// Whether `addr` lies in the boot-reserved range.
    pub fn overlaps_boot_reserved(&self, addr: u64) -> (r: bool)
        ensures
            r == self.in_boot_reserved(addr as int),
    {
        addr >= self.boot_reserved_phys_start && addr < self.boot_reserved_phys_end
    }
}

/// Assembled boot information is valid exactly if neither range is inverted and
/// no address lies in both.
pub proof fn assembled_info_is_valid_if_its_ranges_are(
    info: BootInfo,
    protocol: BootProtocol,
    initial_page_table_phys: u64,
    kernel_image: (u64, u64),
    boot_reserved: (u64, u64),
    boot_core_id: u32,
)
    requires
        info.assembled_from(
            protocol,
            initial_page_table_phys,
            kernel_image,
            boot_reserved,
            boot_core_id,
        ),
    ensures
        info.well_formed() <==> {
            &&& kernel_image.0 <= kernel_image.1
            &&& boot_reserved.0 <= boot_reserved.1
            &&& kernel_image.1 <= boot_reserved.0 || boot_reserved.1 <= kernel_image.0
                || kernel_image.0 == kernel_image.1 || boot_reserved.0 == boot_reserved.1
        },
{
    if kernel_image.0 < kernel_image.1 && boot_reserved.0 < boot_reserved.1 && kernel_image.1
        > boot_reserved.0 && boot_reserved.1 > kernel_image.0 {
        let addr = if kernel_image.0 < boot_reserved.0 {
            boot_reserved.0 as int
        } else {
            kernel_image.0 as int
        };
        assert(info.in_kernel_image(addr) && info.in_boot_reserved(addr));
    }
}

} // verus!
