//! Calls that make and check boot information.

use vstd::prelude::*;

use crate::bytes::le;
use crate::compute::ComputeDiscovery;
use crate::fdt::{tree_nodes, walk_device_tree, DtDiscoveryResult};
use crate::hal::boot::{BootInfo, BootProtocol};
use crate::hal::error::HalError;
use crate::laws::boot::boot_information_is_trusted_if_it_is_consistent;
use crate::laws::cpu::iommu_is_the_eighth_feature;
use crate::laws::firmware_tables::arm64_memory_is_as_described;
use crate::laws::memory_map::regions_are_what_descriptors_say;
use crate::laws::power::package_comes_first_then_each_device;
use crate::manifest::raw::{HardwareManifestRaw, InterruptControllerInfoRaw};
use crate::pci::PciScan;
use crate::x86_64::cpu::{CpuidResult, CpuidSource};
use crate::x86_64::interrupt::ApicMode;

verus! {

/// Boot information is accepted exactly if it is consistent: the magic number,
/// version 1, ranges that are not inverted and share no address.
pub proof fn check_boot_information(info: &BootInfo, r: Result<(), HalError>)
    requires
        call_ensures(BootInfo::validate, (info,), r),
    ensures
        r is Ok <==> {
            &&& info.magic == 0x4841_4C42_4F4F_5431
            &&& info.version == 1
            &&& info.kernel_image_phys_start <= info.kernel_image_phys_end
            &&& info.boot_reserved_phys_start <= info.boot_reserved_phys_end
            &&& info.kernel_image_phys_start == info.kernel_image_phys_end
                || info.boot_reserved_phys_start == info.boot_reserved_phys_end
                || info.kernel_image_phys_end <= info.boot_reserved_phys_start
                || info.boot_reserved_phys_end <= info.kernel_image_phys_start
        },
        r matches Err(e) ==> e == HalError::MalformedBootInfo,
{
    boot_information_is_trusted_if_it_is_consistent(*info);
}

/// Boot information holds the parts that it is made of, and tells which addresses
/// are in its ranges.
pub proof fn make_boot_information(
    protocol: BootProtocol,
    manifest: HardwareManifestRaw,
    page_table: u64,
    kernel_image: (u64, u64),
    boot_reserved: (u64, u64),
    core: u32,
    info: BootInfo,
    addr: u64,
    in_image: bool,
    in_reserved: bool,
)
    requires
        call_ensures(
            BootInfo::new,
            (protocol, manifest, page_table, kernel_image, boot_reserved, core),
            info,
        ),
        call_ensures(BootInfo::overlaps_kernel_image, (&info, addr), in_image),
        call_ensures(BootInfo::overlaps_boot_reserved, (&info, addr), in_reserved),
    ensures
        info.magic == 0x4841_4C42_4F4F_5431 && info.version == 1,
        info.protocol == protocol && info.hardware_manifest == manifest,
        info.initial_page_table_phys == page_table && info.boot_core_id == core,
        in_image <==> kernel_image.0 <= addr < kernel_image.1,
        in_reserved <==> boot_reserved.0 <= addr < boot_reserved.1,
{
}

/// An x86_64 or ARM64 machine that is brought up hands over its page tables and ranges
/// as they are, and core 0 as the one that booted.
pub proof fn bring_up_machines<H: Copy, C, S: crate::x86_64::cpu::CpuidSource, R>(
    cpuid: &S,
    source: &R,
    a: crate::x86_64::platform::BootInputs,
    b: crate::arm64::platform::BootInputs,
    scan: PciScan,
    ra: (crate::x86_64::platform::X86_64Hal<H, C>, BootInfo),
    rb: (crate::arm64::platform::Arm64Hal<C>, BootInfo),
) where R: crate::arm64::cpu::IdRegisterSource
    requires
        scan.well_formed(),
        call_ensures(
            crate::x86_64::platform::X86_64Hal::<H, C>::bring_up::<S>,
            (cpuid, a, scan),
            ra,
        ),
        call_ensures(crate::arm64::platform::Arm64Hal::<C>::bring_up::<R>, (source, b, scan), rb),
    ensures
        ra.1.protocol is Uefi && rb.1.protocol is Uefi,
        ra.1.boot_core_id == 0 && rb.1.boot_core_id == 0,
        ra.1.magic == 0x4841_4C42_4F4F_5431 && ra.1.version == 1,
        rb.1.magic == 0x4841_4C42_4F4F_5431 && rb.1.version == 1,
        ra.1.hardware_manifest.region_seq() == ra.0.memory.regions(),
        rb.1.hardware_manifest.region_seq() == rb.0.memory.regions(),
        rb.1.hardware_manifest.cpu_core_count == 1,
        rb.1.hardware_manifest.interrupt_controller == b.interrupt,
        ra.1.initial_page_table_phys == a.page_table_phys,
        ra.1.kernel_image_phys_start == a.kernel_image.0,
        ra.1.kernel_image_phys_end == a.kernel_image.1,
        ra.1.boot_reserved_phys_start == a.boot_reserved.0,
        ra.1.boot_reserved_phys_end == a.boot_reserved.1,
        ra.1.hardware_manifest.device_seq() == scan@.devices,
        ra.1.hardware_manifest.cpu_core_count == 1,
        rb.1.initial_page_table_phys == b.page_table_phys,
        rb.1.kernel_image_phys_start == b.kernel_image.0,
        rb.1.kernel_image_phys_end == b.kernel_image.1,
        rb.1.boot_reserved_phys_start == b.boot_reserved.0,
        rb.1.boot_reserved_phys_end == b.boot_reserved.1,
        rb.1.hardware_manifest.device_seq() == scan@.devices,
        rb.1.hardware_manifest.timer.frequency_hz == b.timer_frequency_hz,
{
}

/// A RISC-V machine that is brought up hands over the root table that translation was
/// set to, its ranges as they are, and its hart where 32 bits count it; its manifest
/// tells of its memory, devices, controller and timer.
pub proof fn bring_up_on_riscv64<H: Copy, C>(
    inputs: crate::riscv64::platform::BootInputs,
    scan: PciScan,
    r: (crate::riscv64::platform::Riscv64Hal<H, C>, BootInfo),
)
    requires
        scan.well_formed(),
        call_ensures(crate::riscv64::platform::Riscv64Hal::<H, C>::bring_up, (inputs, scan), r),
    ensures
        r.1.protocol is SbiDeviceTree,
        r.1.magic == 0x4841_4C42_4F4F_5431 && r.1.version == 1,
        r.1.initial_page_table_phys == inputs.satp % 0x1000_0000_0000 * 4096,
        r.1.kernel_image_phys_start == inputs.kernel_image.0,
        r.1.kernel_image_phys_end == inputs.kernel_image.1,
        r.1.boot_reserved_phys_start == inputs.boot_reserved.0,
        r.1.boot_reserved_phys_end == inputs.boot_reserved.1,
        inputs.hart_id < 0x1_0000_0000 ==> r.1.boot_core_id == inputs.hart_id,
        r.1.hardware_manifest.cpu_core_count == 1,
        r.1.hardware_manifest.region_seq() == r.0.memory.regions(),
        r.1.hardware_manifest.device_seq() == scan@.devices,
        r.1.hardware_manifest.timer.frequency_hz == 10_000_000,
        r.1.hardware_manifest.timer.supports_tickless == inputs.sbi_time_available,
        r.1.hardware_manifest.interrupt_controller.primary_base == r.0.memory.plic_base,
{
    crate::laws::boot::riscv64_manifest_tells_of_the_machine(r.0, r.1, inputs, scan);
}

/// A manifest that is built counts one core with the features that the CPU has once
/// the IOMMU is noted, and lists the memory, the devices and the domains that were
/// found, on every machine.
pub proof fn build_manifests<H: Copy, C>(
    a: (
        &crate::x86_64::memory::Memory,
        &ComputeDiscovery,
        &crate::x86_64::power::PowerThermalImpl,
        &crate::x86_64::interrupt::InterruptCtrl<H>,
        &crate::x86_64::timer::Timer<C>,
    ),
    cpu_a: &mut crate::x86_64::cpu::Cpu,
    ma: HardwareManifestRaw,
    b: (
        &crate::arm64::memory::Memory,
        &ComputeDiscovery,
        &crate::power::PowerThermalImpl,
        InterruptControllerInfoRaw,
        &crate::arm64::timer::Timer<C>,
    ),
    cpu_b: &mut crate::arm64::cpu::Cpu,
    mb: HardwareManifestRaw,
    c: (
        &crate::riscv64::memory::Memory,
        &ComputeDiscovery,
        &crate::power::PowerThermalImpl,
        &crate::riscv64::interrupt::InterruptCtrl<H>,
        &crate::riscv64::timer::Timer<C>,
    ),
    cpu_c: &mut crate::riscv64::cpu::Cpu,
    mc: HardwareManifestRaw,
)
    requires
        call_ensures(
            crate::x86_64::memory::built_hardware_manifest::<H, C>,
            (a.0, a.1, a.2, cpu_a, a.3, a.4),
            ma,
        ),
        call_ensures(
            crate::arm64::memory::built_hardware_manifest::<C>,
            (b.0, b.1, b.2, cpu_b, b.3, b.4),
            mb,
        ),
        call_ensures(
            crate::riscv64::memory::built_hardware_manifest::<H, C>,
            (c.0, c.1, c.2, cpu_c, c.3, c.4),
            mc,
        ),
    ensures
        ma.cpu_core_count == 1 && mb.cpu_core_count == 1 && mc.cpu_core_count == 1,
        ma.cpu_feature_flags == final(cpu_a).feature_flags.0,
        mb.cpu_feature_flags == final(cpu_b).feature_flags.0,
        mc.cpu_feature_flags == final(cpu_c).feature_flags.0,
        (ma.cpu_feature_flags / 0x100 % 2 == 1) == a.0.iommu_present,
        (mb.cpu_feature_flags / 0x100 % 2 == 1) == b.0.iommu_present,
        (mc.cpu_feature_flags / 0x100 % 2 == 1) == c.0.iommu_present,
        ma.cpu_feature_flags % 0x100 == old(cpu_a).feature_flags.0 % 0x100,
        mb.cpu_feature_flags % 0x100 == old(cpu_b).feature_flags.0 % 0x100,
        mc.cpu_feature_flags % 0x100 == old(cpu_c).feature_flags.0 % 0x100,
        ma.region_seq() == a.0.regions() && mb.region_seq() == b.0.regions(),
        mc.region_seq() == c.0.regions(),
        ma.device_seq() == a.1.devices() && mb.device_seq() == b.1.devices(),
        mc.device_seq() == c.1.devices(),
        ma.domain_seq() == a.2.domains() && mb.domain_seq() == b.2.domains(),
        mc.domain_seq() == c.2.domains(),
        ma.timer.frequency_hz == a.4.frequency_hz,
        mb.timer.frequency_hz == b.4.frequency_hz && mb.timer.kind is ArmGenericTimer,
        mc.timer.frequency_hz == c.4.frequency_hz && mc.timer.kind is RiscvSbiTimer,
        mc.timer.supports_tickless == c.4.sbi_time_available,
        ma.interrupt_controller.ipi_target_core_count == a.3.ipi_target_core_count,
        ma.interrupt_controller.kind is ApicX2apic <==> a.3.mode is X2apic,
        mb.interrupt_controller == b.3,
        mc.interrupt_controller.ipi_target_core_count == c.3.ipi_target_core_count,
        mc.interrupt_controller.primary_base == c.3.plic_base,
        mc.interrupt_controller.kind is PlicClic,
{
    iommu_is_the_eighth_feature(old(cpu_a).feature_flags, a.0.iommu_present);
    iommu_is_the_eighth_feature(old(cpu_b).feature_flags, b.0.iommu_present);
    iommu_is_the_eighth_feature(old(cpu_c).feature_flags, c.0.iommu_present);
}

/// What an x86_64 machine is brought up with is what its CPU, its registers, its memory
/// map and its scan say.
pub proof fn discover_on_x86_64<H: Copy, C, S: CpuidSource>(
    cpuid: &S,
    inputs: crate::x86_64::platform::BootInputs,
    scan: PciScan,
    r: (crate::x86_64::platform::X86_64Hal<H, C>, BootInfo),
    leaf1: CpuidResult,
    leaf15: CpuidResult,
    leaf16: CpuidResult,
    leaf_ext: CpuidResult,
    i: int,
)
    requires
        scan.well_formed(),
        crate::uefi::complete(inputs.memory_map@),
        crate::uefi::lengths_fit(inputs.memory_map@),
        call_ensures(
            crate::x86_64::platform::X86_64Hal::<H, C>::bring_up::<S>,
            (cpuid, inputs, scan),
            r,
        ),
        forall|r: CpuidResult| call_ensures(S::cpuid, (cpuid, 1, 0), r) ==> r == leaf1,
        forall|r: CpuidResult| call_ensures(S::cpuid, (cpuid, 0x15, 0), r) ==> r == leaf15,
        forall|r: CpuidResult| call_ensures(S::cpuid, (cpuid, 0x16, 0), r) ==> r == leaf16,
        forall|r: CpuidResult|
            call_ensures(S::cpuid, (cpuid, 0x8000_0007, 0), r) ==> r == leaf_ext,
        0 <= i,
    ensures
        r.0.cpu.core_id == leaf1.ebx / 0x100_0000,
        r.0.interrupt.mode is X2apic <==> leaf1.ecx / 0x20_0000 % 2 == 1,
        r.0.interrupt.mode matches ApicMode::Xapic { mmio_base } ==> mmio_base % 4096 == 0
            && mmio_base <= inputs.apic_base % 0x10_0000_0000_0000 < mmio_base + 4096,
        leaf15.eax != 0 && leaf15.ebx != 0 && leaf15.ecx != 0 ==> r.0.timer.frequency_hz * leaf15.eax
            <= leaf15.ecx * leaf15.ebx < (r.0.timer.frequency_hz + 1) * leaf15.eax,
        leaf15.eax == 0 || leaf15.ebx == 0 ==> r.0.timer.frequency_hz == 1_000_000_000,
        r.0.timer.tsc_deadline_capable == (leaf1.ecx / 0x100_0000 % 2 == 1 && leaf_ext.edx / 0x100
            % 2 == 1),
        i < r.0.memory.regions().len() ==> {
            let blob = inputs.memory_map@;
            let region = r.0.memory.regions()[i];
            &&& region.base_addr == le(blob, 16 + i * le(blob, 8, 8) + 8, 8)
            &&& region.length_bytes == le(blob, 16 + i * le(blob, 8, 8) + 24, 8) * 4096
        },
        r.0.compute.devices() == scan@.devices,
        i < r.0.power.domains().len() <==> i < 16 && i < 1 + scan@.devices.len(),
        r.0.power.domains()[0].supports_dvfs == (inputs.rapl_units != 0),
        r.0.power.domains()[0].has_thermal_sensor,
        1 <= i < r.0.power.domains().len() ==> r.0.power.domains()[i].associated_compute_device_index
            == scan@.devices[i - 1].device_index,
        r.0.power.tcc_activation_temp_c == inputs.temp_target / 0x1_0000 % 0x100,
{
    let hal = r.0;
    assert(hal.discovered(cpuid, inputs, scan));
    crate::laws::time::identified_timer_runs_as_reported(
        hal.timer,
        cpuid,
        crate::x86_64::timer::HpetPresence { present: true },
        leaf1,
        leaf15,
        leaf16,
        leaf_ext,
    );
    crate::laws::interrupts::local_controller_is_the_reported_one(
        hal.interrupt,
        cpuid,
        inputs.apic_base,
        leaf1,
        255,
    );
    crate::laws::interrupts::controller_address_is_a_page(inputs.apic_base);
    package_comes_first_then_each_device(scan@.devices, inputs.rapl_units != 0, true, i);
    if i < hal.memory.regions().len() {
        regions_are_what_descriptors_say(
            inputs.memory_map@,
            hal.memory.regions(),
            hal.memory.iommu_present,
            i,
        );
    }
}

/// What an ARM64 machine is brought up with is what its registers, its memory map, its
/// tables and its scan say.
pub proof fn discover_on_arm64<C, R: crate::arm64::cpu::IdRegisterSource>(
    source: &R,
    inputs: crate::arm64::platform::BootInputs,
    scan: PciScan,
    r: (crate::arm64::platform::Arm64Hal<C>, BootInfo),
    ids: crate::arm64::cpu::IdRegisters,
    rsdp: u64,
    i: int,
)
    requires
        scan.well_formed(),
        crate::uefi::complete(inputs.memory_map@),
        crate::uefi::lengths_fit(inputs.memory_map@),
        call_ensures(
            crate::arm64::platform::Arm64Hal::<C>::bring_up::<R>,
            (source, inputs, scan),
            r,
        ),
        forall|r: crate::arm64::cpu::IdRegisters| call_ensures(R::read, (source,), r) ==> r == ids,
        rsdp == le(inputs.memory_map@, 16int + le(inputs.memory_map@, 0, 8), 8),
        0 <= i,
    ensures
        r.0.cpu.core_id == ids.mpidr % 0x100,
        r.0.timer.frequency_hz == inputs.timer_frequency_hz,
        r.0.interrupt == inputs.interrupt,
        i < r.0.memory.regions().len() ==> {
            let blob = inputs.memory_map@;
            let region = r.0.memory.regions()[i];
            &&& region.base_addr == le(blob, 16 + i * le(blob, 8, 8) + 8, 8)
            &&& region.length_bytes == le(blob, 16 + i * le(blob, 8, 8) + 24, 8) * 4096
            &&& r.0.memory.gicd_base == match crate::acpi::distributor(
                inputs.firmware_memory,
                rsdp,
            ) {
                Some(base) => base,
                None => 0x0800_0000,
            }
        },
        r.0.compute.devices() == scan@.devices,
        i < r.0.power.domains().len() <==> i < 16 && i < 1 + scan@.devices.len(),
        i < r.0.power.domains().len() ==> !r.0.power.domains()[i].supports_dvfs
            && !r.0.power.domains()[i].has_thermal_sensor,
{
    let hal = r.0;
    assert(hal.discovered(source, inputs, scan));
    assert(hal.identified_by(ids));
    package_comes_first_then_each_device(scan@.devices, false, false, i);
    if i < hal.memory.regions().len() {
        arm64_memory_is_as_described(
            hal.memory,
            inputs.memory_map@,
            inputs.firmware_memory,
            rsdp,
            i,
        );
        regions_are_what_descriptors_say(
            inputs.memory_map@,
            hal.memory.regions(),
            hal.memory.iommu_present,
            i,
        );
    }
}

/// What a RISC-V machine is brought up with is what its device tree and its scan say.
pub proof fn discover_on_riscv64<H: Copy, C>(
    inputs: crate::riscv64::platform::BootInputs,
    scan: PciScan,
    r: (crate::riscv64::platform::Riscv64Hal<H, C>, BootInfo),
    found: DtDiscoveryResult,
    i: int,
)
    requires
        scan.well_formed(),
        call_ensures(crate::riscv64::platform::Riscv64Hal::<H, C>::bring_up, (inputs, scan), r),
        call_ensures(walk_device_tree, (inputs.device_tree,), found),
        0 <= i,
    ensures
        r.0.cpu.hart_id == inputs.hart_id,
        r.0.memory.regions().len() == 1,
        r.0.memory.regions()[0].base_addr == match found.memory_base {
            Some(base) => base,
            None => 0x8000_0000,
        },
        r.0.memory.regions()[0].length_bytes == match found.memory_size {
            Some(size) => size,
            None => 0x0800_0000,
        },
        r.0.memory.iommu_present == found.iommu_present,
        r.0.interrupt.plic_base == match found.plic_base {
            Some(base) => base,
            None => 0x0C00_0000,
        },
        r.0.timer.sbi_time_available == inputs.sbi_time_available,
        r.0.compute.devices() == scan@.devices,
        i < r.0.power.domains().len() <==> i < 16 && i < 1 + scan@.devices.len(),
        i < r.0.power.domains().len() ==> !r.0.power.domains()[i].supports_dvfs
            && !r.0.power.domains()[i].has_thermal_sensor,
{
    let hal = r.0;
    let nodes = tree_nodes(inputs.device_tree@);
    assert(hal.discovered(inputs, scan));
    let other = choose|other: DtDiscoveryResult| #[trigger]
        other.reports(nodes) && hal.memory.described_by(other);
    assert(found.reports(nodes));
    assert(other == found);
    crate::laws::device_tree::riscv64_memory_is_as_found(hal.memory, found);
    package_comes_first_then_each_device(scan@.devices, false, false, i);
}

} // verus!
