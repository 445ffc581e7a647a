//! Laws of the boot information, and of what the three machines are brought up
//! with.

use vstd::prelude::*;

use crate::arm64::platform::Arm64Hal;
use crate::bytes::le;
use crate::hal::boot::{BootInfo, BootProtocol};
use crate::laws::cpu::iommu_is_the_eighth_feature;
use crate::laws::firmware_tables::{leads_to, lists, table_is_present_if_it_is_listed};
use crate::pci::PciScan;
use crate::riscv64::platform::Riscv64Hal;
use crate::x86_64::cpu::CpuidSource;
use crate::x86_64::platform::X86_64Hal;

verus! {

/// Boot information can be trusted exactly if it has the magic number that spells
/// "HALBOOT1", version 1, ranges that do not end before they start, and no address
/// that lies in both ranges.
pub proof fn boot_information_is_trusted_if_it_is_consistent(info: BootInfo)
    ensures
        info.well_formed() <==> {
            &&& info.magic == 0x4841_4C42_4F4F_5431
            &&& info.version == 1
            &&& info.kernel_image_phys_start <= info.kernel_image_phys_end
            &&& info.boot_reserved_phys_start <= info.boot_reserved_phys_end
            &&& info.kernel_image_phys_start == info.kernel_image_phys_end
                || info.boot_reserved_phys_start == info.boot_reserved_phys_end
                || info.kernel_image_phys_end <= info.boot_reserved_phys_start
                || info.boot_reserved_phys_end <= info.kernel_image_phys_start
        },
{
    let k = (info.kernel_image_phys_start as int, info.kernel_image_phys_end as int);
    let b = (info.boot_reserved_phys_start as int, info.boot_reserved_phys_end as int);
    if k.0 < k.1 && b.0 < b.1 && k.1 > b.0 && b.1 > k.0 {
        let addr = if k.0 < b.0 {
            b.0
        } else {
            k.0
        };
        assert(info.in_kernel_image(addr) && info.in_boot_reserved(addr));
    }
}

/// An address is in a range from its start on up to before its end.
pub proof fn ranges_hold_their_start_and_not_their_end(info: BootInfo, addr: int)
    ensures
        info.in_kernel_image(addr) <==> info.kernel_image_phys_start <= addr
            < info.kernel_image_phys_end,
        info.in_boot_reserved(addr) <==> info.boot_reserved_phys_start <= addr
            < info.boot_reserved_phys_end,
{
}

/// Assembled boot information has every part in its own field.
pub proof fn assembled_parts_are_in_their_fields(
    info: BootInfo,
    protocol: BootProtocol,
    page_table: u64,
    kernel_image: (u64, u64),
    boot_reserved: (u64, u64),
    core: u32,
)
    requires
        info.assembled_from(protocol, page_table, kernel_image, boot_reserved, core),
    ensures
        info.magic == 0x4841_4C42_4F4F_5431,
        info.version == 1,
        info.protocol == protocol,
        info.initial_page_table_phys == page_table,
        info.kernel_image_phys_start == kernel_image.0,
        info.kernel_image_phys_end == kernel_image.1,
        info.boot_reserved_phys_start == boot_reserved.0,
        info.boot_reserved_phys_end == boot_reserved.1,
        info.boot_core_id == core,
        info._reserved0 == 0,
        info._reserved2 == 0,
{
}

/// The manifest of an x86_64 machine that was brought up has one core, the IOMMU
/// feature and regions behind the IOMMU exactly if the root pointer behind the
/// memory map leads to a "DMAR" table, the devices of the scan, one power domain
/// for the package, and the controller and the timer as they were identified.
pub proof fn x86_64_manifest_tells_of_the_machine<H: Copy, C, S: CpuidSource>(
    hal: X86_64Hal<H, C>,
    info: BootInfo,
    cpuid: &S,
    inputs: crate::x86_64::platform::BootInputs,
    scan: PciScan,
    rsdp: u64,
    i: int,
)
    requires
        hal.discovered(cpuid, inputs, scan),
        hal.recorded_in(info),
        rsdp == le(inputs.memory_map@, 16int + le(inputs.memory_map@, 0, 8), 8),
        0 <= i < info.hardware_manifest.region_seq().len(),
    ensures
        ({
            let m = info.hardware_manifest;
            let dmar = exists|root: int, k: int, addr: int| #[trigger]
                leads_to(inputs.firmware_memory, rsdp, root) && #[trigger] lists(
                    inputs.firmware_memory,
                    root,
                    k,
                    addr,
                    0x5241_4D44,
                );
            &&& m.cpu_core_count == 1
            &&& (m.cpu_feature_flags / 0x100 % 2 == 1) == dmar
            &&& m.cpu_feature_flags == hal.cpu.feature_flags.0
            &&& m.region_seq()[i].behind_iommu == dmar
            &&& m.region_seq() == hal.memory.regions()
            &&& m.device_seq() == scan@.devices
            &&& m.domain_seq() == hal.power.domains()
            &&& m.timer.frequency_hz == hal.timer.frequency_hz
            &&& m.timer.supports_tickless == hal.timer.tsc_deadline_capable
            &&& hal.timer.hpet_present && hal.timer.callback is None && !hal.timer.tickless_enabled
            &&& hal.interrupt.ipi_target_core_count == 1
            &&& (m.timer.kind is Hpet) == (!hal.timer.tsc_deadline_capable && hal.timer.hpet_present)
            &&& m.timer.kind is Hpet || m.timer.kind is Tsc
            &&& m.interrupt_controller.ipi_target_core_count == 1
            &&& m.interrupt_controller.irq_line_count == 223
            &&& !m.interrupt_controller.has_secondary
            &&& match hal.interrupt.mode {
                crate::x86_64::interrupt::ApicMode::Xapic { mmio_base } => {
                    m.interrupt_controller.kind is ApicXapic && m.interrupt_controller.primary_base
                        == mmio_base
                },
                crate::x86_64::interrupt::ApicMode::X2apic => {
                    m.interrupt_controller.kind is ApicX2apic && m.interrupt_controller.primary_base
                        == 0
                },
            }
            &&& hal.power.rapl_supported == (inputs.rapl_units != 0)
            &&& hal.power.tcc_activation_temp_c == inputs.temp_target / 0x1_0000 % 0x100
        }),
{
    table_is_present_if_it_is_listed(inputs.firmware_memory, rsdp, 0x5241_4D44);
    let flags = choose|flags: crate::hal::cpu::CpuFeatureFlags| #[trigger]
        crate::x86_64::cpu::detected_from(cpuid, flags) && hal.cpu.feature_flags
            == flags.with_iommu(hal.memory.iommu_present);
    iommu_is_the_eighth_feature(flags, hal.memory.iommu_present);
    assert(hal.memory.regions()[i].behind_iommu == hal.memory.iommu_present);
}

/// The manifest of an ARM64 machine that was brought up tells of its core, its
/// memory, its devices, its power domains, its controller and its timer.
pub proof fn arm64_manifest_tells_of_the_machine<C, S: crate::arm64::cpu::IdRegisterSource>(
    hal: Arm64Hal<C>,
    info: BootInfo,
    source: &S,
    inputs: crate::arm64::platform::BootInputs,
    scan: PciScan,
    ids: crate::arm64::cpu::IdRegisters,
)
    requires
        hal.discovered(source, inputs, scan),
        hal.recorded_in(info),
        forall|r: crate::arm64::cpu::IdRegisters| call_ensures(S::read, (source,), r) ==> r == ids,
    ensures
        ({
            let m = info.hardware_manifest;
            &&& m.cpu_core_count == 1
            &&& hal.cpu.core_id == ids.mpidr % 0x100
            &&& m.cpu_feature_flags == hal.cpu.feature_flags.0
            &&& (m.cpu_feature_flags / 0x100 % 2 == 1) == hal.memory.iommu_present
            &&& m.region_seq() == hal.memory.regions()
            &&& m.device_seq() == scan@.devices
            &&& m.domain_seq() == hal.power.domains()
            &&& m.interrupt_controller == inputs.interrupt
            &&& m.timer.kind is ArmGenericTimer
            &&& m.timer.frequency_hz == inputs.timer_frequency_hz
            &&& m.timer.supports_tickless
            &&& hal.timer.callback is None && !hal.timer.tickless_enabled
        }),
{
    assert(hal.identified_by(ids));
    let flags = choose|flags: crate::hal::cpu::CpuFeatureFlags| #[trigger]
        crate::arm64::cpu::features_of(flags, ids) && hal.cpu.feature_flags == flags.with_iommu(
            hal.memory.iommu_present,
        );
    iommu_is_the_eighth_feature(flags, hal.memory.iommu_present);
}

/// The manifest of a RISC-V machine that was brought up tells of its hart, its
/// memory, its devices, its power domains, its controller and its timer, which
/// counts ten million ticks a second.
pub proof fn riscv64_manifest_tells_of_the_machine<H: Copy, C>(
    hal: Riscv64Hal<H, C>,
    info: BootInfo,
    inputs: crate::riscv64::platform::BootInputs,
    scan: PciScan,
)
    requires
        hal.discovered(inputs, scan),
        hal.recorded_in(info),
    ensures
        ({
            let m = info.hardware_manifest;
            &&& m.cpu_core_count == 1
            &&& hal.cpu.hart_id == inputs.hart_id
            &&& m.cpu_feature_flags == 1 + 0x40 + 0x200 + (if hal.memory.iommu_present {
                0x100int
            } else {
                0
            })
            &&& m.region_seq() == hal.memory.regions()
            &&& m.device_seq() == scan@.devices
            &&& m.domain_seq() == hal.power.domains()
            &&& m.interrupt_controller.kind is PlicClic
            &&& m.interrupt_controller.primary_base == hal.memory.plic_base
            &&& hal.interrupt.plic_base == hal.memory.plic_base
            &&& !m.interrupt_controller.has_secondary
            &&& m.interrupt_controller.irq_line_count == 512
            &&& m.interrupt_controller.ipi_target_core_count == 1
            &&& m.timer.kind is RiscvSbiTimer
            &&& m.timer.frequency_hz == 10_000_000
            &&& m.timer.supports_tickless == inputs.sbi_time_available
            &&& hal.timer.callback is None && !hal.timer.tickless_enabled
            &&& hal.cpu.sbi_time_extension_present == inputs.sbi_time_available
        }),
{
    let flags = choose|flags: crate::hal::cpu::CpuFeatureFlags| #[trigger]
        crate::riscv64::platform::baseline(flags) && hal.cpu.feature_flags == flags.with_iommu(
            hal.memory.iommu_present,
        );
    crate::laws::cpu::riscv64_features_are_the_profile(flags);
    iommu_is_the_eighth_feature(flags, hal.memory.iommu_present);
}

} // verus!
