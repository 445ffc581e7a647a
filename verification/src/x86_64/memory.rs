//! The physical memory map, page permissions, and the hardware manifest.

use vstd::prelude::*;

use crate::acpi::{acpi_dmar_present, table_present, PhysicalMemory, DMAR_SIGNATURE};
use crate::bytes::le;
use crate::compute::ComputeDiscovery;
use crate::hal::error::HalError;
use crate::hal::memory::{MapPermissions, MemoryRegion, VirtAddr};
use crate::manifest::assembly::{
    assemble_manifest, holds_all, is_manifest_of, parts_that_fit_are_all_held,
};
use crate::manifest::raw::{
    HardwareManifestRaw, InterruptControllerInfoRaw, InterruptControllerKindRaw, TimerInfoRaw,
    TimerKindRaw,
};
use crate::paging::{flags_fit, PageFormat, PageTables};
use crate::uefi::{
    complete, describes, lengths_fit, locate_acpi_rsdp, map_size, read_regions, RegionList,
    HEADER_SIZE,
};
use crate::x86_64::cpu::Cpu;
use crate::x86_64::interrupt::{ApicMode, InterruptCtrl, IRQ_TABLE_SIZE};
use crate::x86_64::power::PowerThermalImpl;
use crate::x86_64::timer::Timer;

verus! {

/// The page can be written.
pub const WRITABLE: u64 = 1 << 1;

/// Writes go through to memory.
pub const WRITE_THROUGH: u64 = 1 << 3;

/// The page is not cached.
pub const CACHE_DISABLE: u64 = 1 << 4;

/// The page cannot be executed.
pub const NO_EXECUTE: u64 = 1 << 63;

/// The page table flags of the given permissions.
pub open spec fn flags_of(perms: MapPermissions) -> u64 {
    (if perms.writable {
        WRITABLE
    } else {
        0
    }) | (if !perms.executable {
        NO_EXECUTE
    } else {
        0
    }) | (if perms.device_uncached {
        CACHE_DISABLE | WRITE_THROUGH
    } else {
        0
    })
}

/// Translates permissions to page table flags.
pub fn permissions_to_flags(perms: MapPermissions) -> (flags: u64)
    ensures
        flags == flags_of(perms),
{
    let w: u64 = if perms.writable {
        WRITABLE
    } else {
        0
    };
    let x: u64 = if !perms.executable {
        NO_EXECUTE
    } else {
        0
    };
    let d: u64 = if perms.device_uncached {
        CACHE_DISABLE | WRITE_THROUGH
    } else {
        0
    };
    w | x | d
}

/// The flags say exactly what the permissions say, and leave the address alone.
pub proof fn flags_reflect_permissions(perms: MapPermissions)
    ensures
        (flags_of(perms) & WRITABLE != 0) == perms.writable,
        (flags_of(perms) & NO_EXECUTE == 0) == perms.executable,
        (flags_of(perms) & CACHE_DISABLE != 0) == perms.device_uncached,
        (flags_of(perms) & WRITE_THROUGH != 0) == perms.device_uncached,
        flags_fit(PageFormat::X86_64, flags_of(perms)),
{
    let w = perms.writable;
    let x = perms.executable;
    let d = perms.device_uncached;
    let f = flags_of(perms);
    assert((f & 2 != 0) == w && (f & 0x8000_0000_0000_0000 == 0) == x && (f & 16 != 0) == d && (f
        & 8 != 0) == d && f & 0x000F_FFFF_FFFF_F000 == 0) by (bit_vector)
        requires
            f == (if w {
                1u64 << 1
            } else {
                0
            }) | (if !x {
                1u64 << 63
            } else {
                0
            }) | (if d {
                (1u64 << 4) | (1u64 << 3)
            } else {
                0
            }),
    ;
    assert(1u64 << 1 == 2 && 1u64 << 63 == 0x8000_0000_0000_0000 && 1u64 << 4 == 16 && 1u64 << 3
        == 8) by (bit_vector);
}

/// The memory that firmware described.
pub struct Memory {
    pub list: RegionList,
    pub iommu_present: bool,
}

impl Memory {
    /// The list is well formed.
    pub open spec fn well_formed(self) -> bool {
        self.list.well_formed()
    }

    /// The regions.
    pub open spec fn regions(self) -> Seq<MemoryRegion> {
        self.list.seq()
    }

    /// Reads firmware's memory map and looks in the ACPI tables for DMA
    /// remapping hardware, which all regions are behind if there is any.
    pub fn from_uefi_memory_map(blob: &[u8], mem: &PhysicalMemory) -> (r: Self)
        requires
            complete(blob@),
            lengths_fit(blob@),
        ensures
            r.well_formed(),
            r.iommu_present == table_present(
                *mem,
                le(blob@, HEADER_SIZE + map_size(blob@), 8) as u64,
                DMAR_SIGNATURE,
            ),
            describes(blob@, r.regions(), r.iommu_present),
    {
        let rsdp_phys: u64 = locate_acpi_rsdp(blob);
        let iommu_present = acpi_dmar_present(mem, rsdp_phys);
        Memory { list: read_regions(blob, iommu_present), iommu_present }
    }

    /// How many regions there are.
    pub fn region_count(&self) -> (r: usize)
        requires
            self.well_formed(),
        ensures
            r == self.regions().len(),
    {
        self.list.count
    }

    /// The regions.
    pub fn physical_memory_map(&self) -> (r: &[MemoryRegion])
        requires
            self.well_formed(),
        ensures
            r@ == self.regions(),
    {
        self.list.as_slice()
    }

    /// Whether an IOMMU was found.
    pub fn iommu_present(&self) -> (r: bool)
        ensures
            r == self.iommu_present,
    {
        self.iommu_present
    }

    /// Maps every page that `region` touches to itself, with `perms`.
    pub fn setup_identity_mapping(
        &self,
        tables: &mut PageTables,
        region: MemoryRegion,
        perms: MapPermissions,
    ) -> (r: Result<VirtAddr, HalError>)
        requires
            old(tables).well_formed(),
            old(tables).format == PageFormat::X86_64,
        ensures
            final(tables).well_formed(),
            final(tables).format == PageFormat::X86_64,
            final(tables).base == old(tables).base,
            old(tables).identity_setup(*final(tables), region, flags_of(perms), r),
    {
        let start: u64 = tables.map_identity(
            region.base_addr,
            region.length_bytes,
            permissions_to_flags(perms),
        )?;
        Ok(VirtAddr::new(start as usize))
    }

    /// The page size.
    pub fn base_page_size_bytes(&self) -> (r: usize)
        ensures
            r == 4096,
    {
        4096
    }
}

/// The manifest's record of an interrupt controller.
pub open spec fn controller_info<H: Copy>(interrupt: InterruptCtrl<H>) -> InterruptControllerInfoRaw {
    match interrupt.mode {
        ApicMode::Xapic { mmio_base } => InterruptControllerInfoRaw::of(
            InterruptControllerKindRaw::ApicXapic,
            mmio_base,
            false,
            0,
            IRQ_TABLE_SIZE as u32,
            interrupt.ipi_target_core_count,
        ),
        ApicMode::X2apic => InterruptControllerInfoRaw::of(
            InterruptControllerKindRaw::ApicX2apic,
            0,
            false,
            0,
            IRQ_TABLE_SIZE as u32,
            interrupt.ipi_target_core_count,
        ),
    }
}

/// The manifest's record of a timer.
pub open spec fn timer_info<C>(timer: Timer<C>) -> TimerInfoRaw {
    TimerInfoRaw::of(
        if !timer.tsc_deadline_capable && timer.hpet_present {
            TimerKindRaw::Hpet
        } else {
            TimerKindRaw::Tsc
        },
        timer.frequency_hz,
        timer.tsc_deadline_capable,
    )
}

/// Notes in `cpu` whether an IOMMU was found, and folds everything discovered
/// into a manifest.
pub fn built_hardware_manifest<H: Copy, C>(
    memory: &Memory,
    compute: &ComputeDiscovery,
    power: &PowerThermalImpl,
    cpu: &mut Cpu,
    interrupt: &InterruptCtrl<H>,
    timer: &Timer<C>,
) -> (manifest: HardwareManifestRaw)
    requires
        memory.well_formed(),
        compute.well_formed(),
        power.well_formed(),
    ensures
        final(cpu).core_id == old(cpu).core_id,
        final(cpu).feature_flags == old(cpu).feature_flags.with_iommu(memory.iommu_present),
        is_manifest_of(
            manifest,
            1,
            final(cpu).feature_flags.0,
            memory.regions(),
            compute.devices(),
            power.domains(),
            controller_info(*interrupt),
            timer_info(*timer),
        ),
        holds_all(manifest, memory.regions(), compute.devices(), power.domains()),
{
    cpu.mark_iommu_capable(memory.iommu_present());
    let secondary = interrupt.secondary_base();
    let controller = InterruptControllerInfoRaw::new(
        interrupt.detected_kind(),
        interrupt.primary_base(),
        secondary.is_some(),
        match secondary {
            Some(base) => base,
            None => 0,
        },
        interrupt.irq_line_count(),
        interrupt.ipi_target_core_count(),
    );
    let timer = TimerInfoRaw::new(
        timer.detected_kind(),
        timer.frequency_hz(),
        timer.supports_tickless(),
    );
    let manifest = assemble_manifest(
        cpu.core_count() as u32,
        cpu.feature_flags().bits(),
        memory.physical_memory_map(),
        compute.enumerate_compute_devices(),
        power.enumerate_power_domains(),
        controller,
        timer,
    );
    proof {
        parts_that_fit_are_all_held(
            manifest,
            1,
            cpu.feature_flags.0,
            memory.regions(),
            compute.devices(),
            power.domains(),
            controller,
            timer,
        );
    }
    manifest
}

} // verus!
