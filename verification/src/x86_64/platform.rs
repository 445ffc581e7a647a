//! The whole machine, and the boot information made from it.

use vstd::prelude::*;

use crate::acpi::{table_present, PhysicalMemory, DMAR_SIGNATURE};
use crate::bytes::le;
use crate::compute::ComputeDiscovery;
use crate::hal::boot::{BootInfo, BootProtocol};
use crate::hal::cpu::CpuFeatureFlags;
use crate::manifest::assembly::{holds_all, is_manifest_of};
use crate::pci::PciScan;
use crate::power::domains_of;
use crate::uefi::{complete, describes, lengths_fit, map_size, HEADER_SIZE};
use crate::x86_64::cpu::{detected_from, identified_by, Cpu, CpuidSource};
use crate::x86_64::interrupt::InterruptCtrl;
use crate::x86_64::memory::{built_hardware_manifest, controller_info, timer_info, Memory};
use crate::x86_64::power::{throttle_celsius_in, PowerThermalImpl};
use crate::x86_64::timer::{HpetPresence, Timer};

verus! {

/// The subsystems of the machine.
pub struct X86_64Hal<H: Copy, C> {
    pub cpu: Cpu,
    pub memory: Memory,
    pub timer: Timer<C>,
    pub interrupt: InterruptCtrl<H>,
    pub compute: ComputeDiscovery,
    pub power: PowerThermalImpl,
}

/// What the machine's registers and firmware say at boot.
pub struct BootInputs<'a> {
    /// The memory map that firmware left.
    pub memory_map: &'a [u8],
    /// The memory that holds the ACPI tables.
    pub firmware_memory: PhysicalMemory<'a>,
    /// The interrupt controller's base register.
    pub apic_base: u64,
    /// The register with the throttling temperature.
    pub temp_target: u64,
    /// The register with the units of power limits.
    pub rapl_units: u64,
    /// The root of the page tables in use.
    pub page_table_phys: u64,
    pub kernel_image: (u64, u64),
    pub boot_reserved: (u64, u64),
}

impl<H: Copy, C> X86_64Hal<H, C> {
    /// Every subsystem is well formed.
    pub open spec fn well_formed(self) -> bool {
        &&& self.memory.well_formed()
        &&& self.interrupt.well_formed()
        &&& self.compute.well_formed()
        &&& self.power.well_formed()
    }

    /// Every subsystem is what the inputs, the answers of `cpuid` and the scan
    /// say.
    pub open spec fn discovered<S: CpuidSource>(
        self,
        cpuid: &S,
        inputs: BootInputs,
        scan: PciScan,
    ) -> bool {
        &&& identified_by(cpuid, self.cpu.core_id)
        &&& exists|flags: CpuFeatureFlags| #[trigger]
            detected_from(cpuid, flags) && self.cpu.feature_flags == flags.with_iommu(
                self.memory.iommu_present,
            )
        &&& self.memory.iommu_present == table_present(
            inputs.firmware_memory,
            le(inputs.memory_map@, HEADER_SIZE + map_size(inputs.memory_map@), 8) as u64,
            DMAR_SIGNATURE,
        )
        &&& describes(inputs.memory_map@, self.memory.regions(), self.memory.iommu_present)
        &&& self.timer.identified_by(cpuid, HpetPresence { present: true })
        &&& self.interrupt.identified_by(cpuid, inputs.apic_base)
        &&& self.interrupt.ipi_target_core_count == 1
        &&& self.compute.devices() == scan@.devices
        &&& self.power.domains() == domains_of(scan@.devices, inputs.rapl_units != 0, true)
        &&& self.power.tcc_activation_temp_c == throttle_celsius_in(inputs.temp_target)
        &&& self.power.rapl_supported == (inputs.rapl_units != 0)
    }

    /// The manifest records every subsystem, and everything that was found.
    pub open spec fn recorded_in(self, info: BootInfo) -> bool {
        &&& is_manifest_of(
            info.hardware_manifest,
            1,
            self.cpu.feature_flags.0,
            self.memory.regions(),
            self.compute.devices(),
            self.power.domains(),
            controller_info(self.interrupt),
            timer_info(self.timer),
        )
        &&& holds_all(
            info.hardware_manifest,
            self.memory.regions(),
            self.compute.devices(),
            self.power.domains(),
        )
    }

    /// Brings up every subsystem from what the machine says at boot, and makes
    /// the boot information.
    pub fn bring_up<S: CpuidSource>(cpuid: &S, inputs: BootInputs, scan: PciScan) -> (r: (
        Self,
        BootInfo,
    ))
        requires
            forall|leaf: u32, subleaf: u32| call_requires(S::cpuid, (cpuid, leaf, subleaf)),
            complete(inputs.memory_map@),
            lengths_fit(inputs.memory_map@),
            scan.well_formed(),
            scan.finished(),
        ensures
            r.0.well_formed(),
            r.0.discovered(cpuid, inputs, scan),
            r.0.recorded_in(r.1),
            r.1.assembled_from(
                BootProtocol::Uefi,
                inputs.page_table_phys,
                inputs.kernel_image,
                inputs.boot_reserved,
                0,
            ),
    {
        let mut cpu = Cpu::new(cpuid);
        let memory = Memory::from_uefi_memory_map(inputs.memory_map, &inputs.firmware_memory);
        let timer = Timer::new(cpuid, HpetPresence { present: true });
        let mut interrupt = InterruptCtrl::new(cpuid, inputs.apic_base);
        interrupt.set_topology(cpu.core_count() as u32);
        let compute = ComputeDiscovery::new(scan);
        let power = PowerThermalImpl::new(
            compute.enumerate_compute_devices(),
            inputs.temp_target,
            inputs.rapl_units,
        );
        let manifest = built_hardware_manifest(
            &memory,
            &compute,
            &power,
            &mut cpu,
            &interrupt,
            &timer,
        );
        let info = BootInfo::new(
            BootProtocol::Uefi,
            manifest,
            inputs.page_table_phys,
            inputs.kernel_image,
            inputs.boot_reserved,
            0,
        );
        (X86_64Hal { cpu, memory, timer, interrupt, compute, power }, info)
    }
}

} // verus!
