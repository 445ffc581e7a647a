//! The physical memory map, page permissions, and the hardware manifest.

use vstd::prelude::*;

use crate::compute::ComputeDiscovery;
use crate::fdt::{tree_nodes, walk_device_tree, DtDiscoveryResult};
use crate::hal::error::HalError;
use crate::hal::memory::{MapPermissions, MemoryRegion, VirtAddr};
use crate::hal::power::PowerThermal;
use crate::manifest::assembly::{
    assemble_manifest, holds_all, is_manifest_of, parts_that_fit_are_all_held,
};
use crate::manifest::raw::{
    HardwareManifestRaw, InterruptControllerInfoRaw, InterruptControllerKindRaw,
    MemoryRegionKindRaw, TimerInfoRaw, TimerKindRaw,
};
use crate::paging::{flags_fit, PageFormat, PageTables};
use crate::power::PowerThermalImpl;
use crate::riscv64::cpu::Cpu;
use crate::riscv64::interrupt::{InterruptCtrl, MAX_TRACKED_SOURCES};
use crate::riscv64::timer::Timer;

verus! {

/// The page can be read.
pub const READ: u64 = 1 << 1;

/// The page can be written.
pub const WRITE: u64 = 1 << 2;

/// The page can be executed.
pub const EXECUTE: u64 = 1 << 3;

/// Where the interrupt controller is if the device tree does not say.
pub const QEMU_VIRT_DEFAULT_PLIC_BASE: u64 = 0x0c00_0000;

/// Where memory starts if the device tree does not say.
pub const QEMU_VIRT_DEFAULT_MEMORY_BASE: u64 = 0x8000_0000;

/// How much memory there is if the device tree does not say.
pub const QEMU_VIRT_DEFAULT_MEMORY_SIZE: u64 = 0x800_0000;

/// The page table flags of the given permissions. Every page can be read;
/// caching is not a matter of the page tables.
pub open spec fn flags_of(perms: MapPermissions) -> u64 {
    READ | (if perms.writable {
        WRITE
    } else {
        0
    }) | (if perms.executable {
        EXECUTE
    } else {
        0
    })
}

/// Translates permissions to page table flags.
pub fn permissions_to_flags(perms: MapPermissions) -> (flags: u64)
    ensures
        flags == flags_of(perms),
{
    let w: u64 = if perms.writable {
        WRITE
    } else {
        0
    };
    let x: u64 = if perms.executable {
        EXECUTE
    } else {
        0
    };
    READ | w | x
}

/// The flags say exactly what the permissions say, and leave the address alone.
pub proof fn flags_reflect_permissions(perms: MapPermissions)
    ensures
        flags_of(perms) & READ != 0,
        (flags_of(perms) & WRITE != 0) == perms.writable,
        (flags_of(perms) & EXECUTE != 0) == perms.executable,
        flags_fit(PageFormat::Sv39, flags_of(perms)),
{
    let w = perms.writable;
    let x = perms.executable;
    let f = flags_of(perms);
    assert(f & (1u64 << 1) != 0 && (f & (1u64 << 2) != 0) == w && (f & (1u64 << 3) != 0) == x && f
        & 0x003F_FFFF_FFFF_FC00 == 0) by (bit_vector)
        requires
            f == (1u64 << 1) | (if w {
                1u64 << 2
            } else {
                0
            }) | (if x {
                1u64 << 3
            } else {
                0
            }),
    ;
}

/// The translation register's value for three levels of tables with their root
/// at `root`.
pub fn satp_value(root: u64) -> (r: u64)
    ensures
        r == 0x8000_0000_0000_0000 + root as int / 4096,
{
    let r: u64 = (8u64 << 60) | (root >> 12);
    assert(r == 0x8000_0000_0000_0000 + root / 4096) by (bit_vector)
        requires
            r == (8u64 << 60) | (root >> 12),
    ;
    r
}

/// The root of the tables that the translation register's value selects.
pub fn root_in_satp(satp: u64) -> (r: u64)
    ensures
        r == satp as int % 0x1000_0000_0000 * 4096,
{
    let r: u64 = (satp & 0x0FFF_FFFF_FFFF) << 12;
    assert(r == satp % 0x1000_0000_0000 * 4096) by (bit_vector)
        requires
            r == (satp & 0x0FFF_FFFF_FFFF) << 12,
    ;
    r
}

/// The root that the translation register selects is the one it was made from.
pub proof fn selected_root_is_found_again(root: u64, satp: u64)
    requires
        root % 4096 == 0,
        root < 0x0100_0000_0000_0000,
        satp == 0x8000_0000_0000_0000 + root as int / 4096,
    ensures
        satp as int % 0x1000_0000_0000 * 4096 == root,
{
    assert(0x8000_0000_0000_0000int == 0x8_0000 * 0x1000_0000_0000);
    let p = root as int / 4096;
    assert(0 <= p < 0x1000_0000_0000);
    assert((0x8_0000 * 0x1000_0000_0000 + p) % 0x1000_0000_0000 == p);
}

/// The memory that the device tree described.
pub struct Memory {
    pub region: [MemoryRegion; 1],
    pub iommu_present: bool,
    pub plic_base: u64,
}

impl Memory {
    /// The regions.
    pub open spec fn regions(self) -> Seq<MemoryRegion> {
        self.region@
    }

    /// The memory that the findings of a device tree describe: one usable region.
    pub open spec fn described_by(self, found: DtDiscoveryResult) -> bool {
        &&& self.regions() == seq![
            MemoryRegion::of(
                match found.memory_base {
                    Some(base) => base,
                    None => QEMU_VIRT_DEFAULT_MEMORY_BASE,
                },
                match found.memory_size {
                    Some(size) => size,
                    None => QEMU_VIRT_DEFAULT_MEMORY_SIZE,
                },
                MemoryRegionKindRaw::Usable,
                found.iommu_present,
            ),
        ]
        &&& self.iommu_present == found.iommu_present
        &&& self.plic_base == match found.plic_base {
            Some(base) => base,
            None => QEMU_VIRT_DEFAULT_PLIC_BASE,
        }
    }

    /// The memory that a device tree describes.
    pub open spec fn read_from(self, blob: Seq<u8>) -> bool {
        exists|found: DtDiscoveryResult| #[trigger]
            found.reports(tree_nodes(blob)) && self.described_by(found)
    }

    /// The memory that the findings of a device tree describe.
    pub fn from_findings(found: &DtDiscoveryResult) -> (r: Self)
        ensures
            r.described_by(*found),
    {
        let base: u64 = match found.memory_base {
            Some(base) => base,
            None => QEMU_VIRT_DEFAULT_MEMORY_BASE,
        };
        let size: u64 = match found.memory_size {
            Some(size) => size,
            None => QEMU_VIRT_DEFAULT_MEMORY_SIZE,
        };
        let region = MemoryRegion::new(
            base,
            size,
            MemoryRegionKindRaw::Usable,
            found.iommu_present,
        );
        let memory = Memory {
            region: [region],
            iommu_present: found.iommu_present,
            plic_base: match found.plic_base {
                Some(base) => base,
                None => QEMU_VIRT_DEFAULT_PLIC_BASE,
            },
        };
        assert(memory.regions() =~= seq![region]);
        memory
    }

    /// Reads the device tree.
    pub fn from_device_tree(blob: &[u8]) -> (r: Self)
        requires
            blob.len() <= 0x7FFF_FFFF_FFFF_FFFF,
        ensures
            r.read_from(blob@),
    {
        let found = walk_device_tree(blob);
        Self::from_findings(&found)
    }

    /// The interrupt controller's address.
    pub fn plic_base(&self) -> (r: u64)
        ensures
            r == self.plic_base,
    {
        self.plic_base
    }

    /// The regions.
    pub fn physical_memory_map(&self) -> (r: &[MemoryRegion])
        ensures
            r@ == self.regions(),
    {
        self.region.as_slice()
    }

    /// Whether an IOMMU was found.
    pub fn iommu_present(&self) -> (r: bool)
        ensures
            r == self.iommu_present,
    {
        self.iommu_present
    }

    /// Maps every page that `region` touches to itself, with `perms`.
    pub fn setup_identity_mapping(
        &self,
        tables: &mut PageTables,
        region: MemoryRegion,
        perms: MapPermissions,
    ) -> (r: Result<VirtAddr, HalError>)
        requires
            old(tables).well_formed(),
            old(tables).format == PageFormat::Sv39,
        ensures
            final(tables).well_formed(),
            final(tables).format == PageFormat::Sv39,
            final(tables).base == old(tables).base,
            old(tables).identity_setup(*final(tables), region, flags_of(perms), r),
    {
        let start: u64 = tables.map_identity(
            region.base_addr,
            region.length_bytes,
            permissions_to_flags(perms),
        )?;
        Ok(VirtAddr::new(start as usize))
    }

    /// The page size.
    pub fn base_page_size_bytes(&self) -> (r: usize)
        ensures
            r == 4096,
    {
        4096
    }
}

/// The manifest's record of an interrupt controller.
pub open spec fn controller_info<H: Copy>(interrupt: InterruptCtrl<H>) -> InterruptControllerInfoRaw {
    InterruptControllerInfoRaw::of(
        InterruptControllerKindRaw::PlicClic,
        interrupt.plic_base,
        false,
        0,
        MAX_TRACKED_SOURCES as u32,
        interrupt.ipi_target_core_count,
    )
}

/// The manifest's record of a timer.
pub open spec fn timer_info<C>(timer: Timer<C>) -> TimerInfoRaw {
    TimerInfoRaw::of(TimerKindRaw::RiscvSbiTimer, timer.frequency_hz, timer.sbi_time_available)
}

/// Notes in `cpu` whether an IOMMU was found, and folds everything discovered
/// into a manifest.
pub fn built_hardware_manifest<H: Copy, C>(
    memory: &Memory,
    compute: &ComputeDiscovery,
    power: &PowerThermalImpl,
    cpu: &mut Cpu,
    interrupt: &InterruptCtrl<H>,
    timer: &Timer<C>,
) -> (manifest: HardwareManifestRaw)
    requires
        compute.well_formed(),
    ensures
        final(cpu).hart_id == old(cpu).hart_id,
        final(cpu).sbi_time_extension_present == old(cpu).sbi_time_extension_present,
        final(cpu).feature_flags == old(cpu).feature_flags.with_iommu(memory.iommu_present),
        is_manifest_of(
            manifest,
            1,
            final(cpu).feature_flags.0,
            memory.regions(),
            compute.devices(),
            power.domains(),
            controller_info(*interrupt),
            timer_info(*timer),
        ),
        holds_all(manifest, memory.regions(), compute.devices(), power.domains()),
{
    cpu.mark_iommu_capable(memory.iommu_present());
    let secondary = interrupt.secondary_base();
    let controller = InterruptControllerInfoRaw::new(
        interrupt.detected_kind(),
        interrupt.primary_base(),
        secondary.is_some(),
        match secondary {
            Some(base) => base,
            None => 0,
        },
        interrupt.irq_line_count(),
        interrupt.ipi_target_core_count(),
    );
    let timer = TimerInfoRaw::new(
        timer.detected_kind(),
        timer.frequency_hz(),
        timer.supports_tickless(),
    );
    let manifest = assemble_manifest(
        cpu.core_count() as u32,
        cpu.feature_flags().bits(),
        memory.physical_memory_map(),
        compute.enumerate_compute_devices(),
        power.enumerate_power_domains(),
        controller,
        timer,
    );
    proof {
        parts_that_fit_are_all_held(
            manifest,
            1,
            cpu.feature_flags.0,
            memory.regions(),
            compute.devices(),
            power.domains(),
            controller,
            timer,
        );
    }
    manifest
}

} // verus!
