//! The physical memory map, page permissions, and the hardware manifest.

use vstd::prelude::*;

use crate::acpi::{acpi_discover, distributor, table_present, PhysicalMemory, IORT_SIGNATURE};
use crate::arm64::cpu::Cpu;
use crate::arm64::timer::Timer;
use crate::bytes::le;
use crate::compute::ComputeDiscovery;
use crate::hal::error::HalError;
use crate::hal::memory::{MapPermissions, MemoryRegion, VirtAddr};
use crate::hal::power::PowerThermal;
use crate::manifest::assembly::{
    assemble_manifest, holds_all, is_manifest_of, parts_that_fit_are_all_held,
};
use crate::manifest::raw::{
    HardwareManifestRaw, InterruptControllerInfoRaw, TimerInfoRaw, TimerKindRaw,
};
use crate::paging::{flags_fit, PageFormat, PageTables};
use crate::power::PowerThermalImpl;
use crate::uefi::{
    complete, describes, lengths_fit, locate_acpi_rsdp, map_size, read_regions, RegionList,
    HEADER_SIZE,
};

verus! {

/// Memory attribute 0: normal, cached memory.
pub const ATTR_NORMAL: u64 = 0;

/// Memory attribute 1: device registers.
pub const ATTR_DEVICE: u64 = 1 << 2;

/// The page can be read and written at the kernel's level only: both access
/// permission bits are clear, and this bit, which the MMU ignores, says that it
/// is meant to be written.
pub const AP_RW_EL1: u64 = 1 << 55;

/// The page can only be read: the upper access permission bit.
pub const AP_READ_ONLY: u64 = 1 << 7;

/// Programs can access the page too: the lower access permission bit.
pub const AP_ANY_LEVEL: u64 = 1 << 6;

/// The page is shared by the cores of the inner domain.
pub const SHAREABILITY_INNER: u64 = 0x300;

/// The kernel cannot execute the page.
pub const PXN: u64 = 1 << 53;

/// Programs cannot execute the page.
pub const UXN: u64 = 1 << 54;

/// Where the interrupt distributor is if firmware does not say.
pub const QEMU_VIRT_DEFAULT_GICD_BASE: u64 = 0x0800_0000;

/// The memory attributes: 0 is write-back cached, 1 is device memory.
pub const MAIR_VALUE: u64 = 0x00FF;

/// The translation control: 48-bit addresses, write-back cached, inner shareable
/// tables, 4 KiB pages.
pub const TCR_VALUE: u64 = 0x3510;

/// The page table flags of the given permissions.
pub open spec fn flags_of(perms: MapPermissions) -> u64 {
    SHAREABILITY_INNER | (if perms.device_uncached {
        ATTR_DEVICE
    } else {
        ATTR_NORMAL
    }) | (if perms.writable {
        AP_RW_EL1
    } else {
        AP_READ_ONLY
    }) | (if !perms.executable {
        PXN | UXN
    } else {
        0
    })
}

/// Translates permissions to page table flags.
pub fn permissions_to_flags(perms: MapPermissions) -> (flags: u64)
    ensures
        flags == flags_of(perms),
{
    let d: u64 = if perms.device_uncached {
        ATTR_DEVICE
    } else {
        ATTR_NORMAL
    };
    let w: u64 = if perms.writable {
        AP_RW_EL1
    } else {
        AP_READ_ONLY
    };
    let x: u64 = if !perms.executable {
        PXN | UXN
    } else {
        0
    };
    SHAREABILITY_INNER | d | w | x
}

/// The flags say exactly what the permissions say, never let programs read or
/// write, and leave the address alone.
pub proof fn flags_reflect_permissions(perms: MapPermissions)
    ensures
        (flags_of(perms) & AP_READ_ONLY != 0) == !perms.writable,
        (flags_of(perms) & AP_RW_EL1 != 0) == perms.writable,
        (flags_of(perms) & PXN == 0) == perms.executable,
        (flags_of(perms) & UXN == 0) == perms.executable,
        (flags_of(perms) & ATTR_DEVICE != 0) == perms.device_uncached,
        flags_of(perms) & AP_ANY_LEVEL == 0,
        flags_of(perms) & SHAREABILITY_INNER == SHAREABILITY_INNER,
        flags_fit(PageFormat::Arm64, flags_of(perms)),
{
    let w = perms.writable;
    let x = perms.executable;
    let d = perms.device_uncached;
    let f = flags_of(perms);
    assert((f & (1u64 << 7) != 0) == !w && (f & (1u64 << 55) != 0) == w && (f & (1u64 << 53) == 0)
        == x && (f & (1u64 << 54) == 0) == x && (f & (1u64 << 2) != 0) == d && f & (1u64 << 6) == 0
        && f & 0x300 == 0x300 && f & 0x0000_FFFF_FFFF_F000 == 0) by (bit_vector)
        requires
            f == 0x300 | (if d {
                1u64 << 2
            } else {
                0
            }) | (if w {
                1u64 << 55
            } else {
                1u64 << 7
            }) | (if !x {
                (1u64 << 53) | (1u64 << 54)
            } else {
                0
            }),
    ;
}

/// The system control register's value with the MMU and both caches on.
pub fn mmu_enabled(sctlr: u64) -> (r: u64)
    ensures
        r == sctlr | 0x1005,
{
    sctlr | 0x1005
}

/// The memory that firmware described.
pub struct Memory {
    pub list: RegionList,
    pub iommu_present: bool,
    pub gicd_base: u64,
}

impl Memory {
    /// The list is well formed.
    pub open spec fn well_formed(self) -> bool {
        self.list.well_formed()
    }

    /// The regions.
    pub open spec fn regions(self) -> Seq<MemoryRegion> {
        self.list.seq()
    }

    /// The memory that the map describes: the ACPI tables say where the
    /// distributor is and whether there is an IOMMU, which all regions are then
    /// behind.
    pub open spec fn read_from(self, blob: Seq<u8>, mem: PhysicalMemory) -> bool {
        let rsdp = le(blob, HEADER_SIZE + map_size(blob), 8) as u64;
        &&& self.iommu_present == table_present(mem, rsdp, IORT_SIGNATURE)
        &&& self.gicd_base == match distributor(mem, rsdp) {
            Some(base) => base,
            None => QEMU_VIRT_DEFAULT_GICD_BASE,
        }
        &&& describes(blob, self.regions(), self.iommu_present)
    }

    /// Reads firmware's memory map and the ACPI tables.
    pub fn from_uefi_memory_map(blob: &[u8], mem: &PhysicalMemory) -> (r: Self)
        requires
            complete(blob@),
            lengths_fit(blob@),
        ensures
            r.well_formed(),
            r.read_from(blob@, *mem),
    {
        let rsdp_phys: u64 = locate_acpi_rsdp(blob);
        let found = acpi_discover(mem, rsdp_phys);
        Memory {
            list: read_regions(blob, found.smmu_present),
            iommu_present: found.smmu_present,
            gicd_base: match found.gicd_base {
                Some(base) => base,
                None => QEMU_VIRT_DEFAULT_GICD_BASE,
            },
        }
    }

    /// The interrupt distributor's address.
    pub fn gicd_base(&self) -> (r: u64)
        ensures
            r == self.gicd_base,
    {
        self.gicd_base
    }

    /// The regions.
    pub fn physical_memory_map(&self) -> (r: &[MemoryRegion])
        requires
            self.well_formed(),
        ensures
            r@ == self.regions(),
    {
        self.list.as_slice()
    }

    /// Whether an IOMMU was found.
    pub fn iommu_present(&self) -> (r: bool)
        ensures
            r == self.iommu_present,
    {
        self.iommu_present
    }

    /// Maps every page that `region` touches to itself, with `perms`.
    pub fn setup_identity_mapping(
        &self,
        tables: &mut PageTables,
        region: MemoryRegion,
        perms: MapPermissions,
    ) -> (r: Result<VirtAddr, HalError>)
        requires
            old(tables).well_formed(),
            old(tables).format == PageFormat::Arm64,
        ensures
            final(tables).well_formed(),
            final(tables).format == PageFormat::Arm64,
            final(tables).base == old(tables).base,
            old(tables).identity_setup(*final(tables), region, flags_of(perms), r),
    {
        let start: u64 = tables.map_identity(
            region.base_addr,
            region.length_bytes,
            permissions_to_flags(perms),
        )?;
        Ok(VirtAddr::new(start as usize))
    }

    /// The page size.
    pub fn base_page_size_bytes(&self) -> (r: usize)
        ensures
            r == 4096,
    {
        4096
    }
}

/// The manifest's record of a timer.
pub open spec fn timer_info<C>(timer: Timer<C>) -> TimerInfoRaw {
    TimerInfoRaw::of(TimerKindRaw::ArmGenericTimer, timer.frequency_hz, true)
}

/// Notes in `cpu` whether an IOMMU was found, and folds everything discovered
/// into a manifest.
pub fn built_hardware_manifest<C>(
    memory: &Memory,
    compute: &ComputeDiscovery,
    power: &PowerThermalImpl,
    cpu: &mut Cpu,
    interrupt: InterruptControllerInfoRaw,
    timer: &Timer<C>,
) -> (manifest: HardwareManifestRaw)
    requires
        memory.well_formed(),
        compute.well_formed(),
    ensures
        final(cpu).core_id == old(cpu).core_id,
        final(cpu).feature_flags == old(cpu).feature_flags.with_iommu(memory.iommu_present),
        is_manifest_of(
            manifest,
            1,
            final(cpu).feature_flags.0,
            memory.regions(),
            compute.devices(),
            power.domains(),
            interrupt,
            timer_info(*timer),
        ),
        holds_all(manifest, memory.regions(), compute.devices(), power.domains()),
{
    cpu.mark_iommu_capable(memory.iommu_present());
    let timer = TimerInfoRaw::new(
        timer.detected_kind(),
        timer.frequency_hz(),
        timer.supports_tickless(),
    );
    let manifest = assemble_manifest(
        cpu.core_count() as u32,
        cpu.feature_flags().bits(),
        memory.physical_memory_map(),
        compute.enumerate_compute_devices(),
        power.enumerate_power_domains(),
        interrupt,
        timer,
    );
    proof {
        parts_that_fit_are_all_held(
            manifest,
            1,
            cpu.feature_flags.0,
            memory.regions(),
            compute.devices(),
            power.domains(),
            interrupt,
            timer,
        );
    }
    manifest
}

} // verus!
