//! The whole machine, and the boot information made from it.

use vstd::prelude::*;

use crate::acpi::PhysicalMemory;
use crate::arm64::cpu::{features_of, Cpu, IdRegisterSource, IdRegisters};
use crate::arm64::memory::{built_hardware_manifest, timer_info, Memory};
use crate::arm64::timer::Timer;
use crate::compute::ComputeDiscovery;
use crate::hal::boot::{BootInfo, BootProtocol};
use crate::hal::cpu::CpuFeatureFlags;
use crate::manifest::assembly::{holds_all, is_manifest_of};
use crate::manifest::raw::InterruptControllerInfoRaw;
use crate::pci::PciScan;
use crate::power::{domains_of, PowerThermalImpl};
use crate::uefi::{complete, lengths_fit};

verus! {

/// The subsystems of the machine.
pub struct Arm64Hal<C> {
    pub cpu: Cpu,
    pub memory: Memory,
    pub timer: Timer<C>,
    pub interrupt: InterruptControllerInfoRaw,
    pub compute: ComputeDiscovery,
    pub power: PowerThermalImpl,
}

/// What the machine's registers and firmware say at boot.
pub struct BootInputs<'a> {
    /// The memory map that firmware left.
    pub memory_map: &'a [u8],
    /// The memory that holds the ACPI tables.
    pub firmware_memory: PhysicalMemory<'a>,
    /// The timer's frequency register.
    pub timer_frequency_hz: u64,
    /// What is known of the interrupt controller.
    pub interrupt: InterruptControllerInfoRaw,
    /// The root of the page tables in use.
    pub page_table_phys: u64,
    pub kernel_image: (u64, u64),
    pub boot_reserved: (u64, u64),
}

impl<C> Arm64Hal<C> {
    /// Every subsystem is well formed.
    pub open spec fn well_formed(self) -> bool {
        self.memory.well_formed() && self.compute.well_formed()
    }

    /// The core is the one that the registers describe, with the IOMMU noted.
    pub open spec fn identified_by(self, ids: IdRegisters) -> bool {
        &&& self.cpu.core_id == ids.mpidr % 0x100
        &&& exists|flags: CpuFeatureFlags| #[trigger]
            features_of(flags, ids) && self.cpu.feature_flags == flags.with_iommu(
                self.memory.iommu_present,
            )
    }

    /// Every subsystem is what the inputs, the registers and the scan say.
    pub open spec fn discovered<S: IdRegisterSource>(
        self,
        source: &S,
        inputs: BootInputs,
        scan: PciScan,
    ) -> bool {
        &&& exists|ids: IdRegisters| #[trigger]
            call_ensures(S::read, (source,), ids) && self.identified_by(ids)
        &&& self.memory.read_from(inputs.memory_map@, inputs.firmware_memory)
        &&& self.timer.frequency_hz == inputs.timer_frequency_hz
        &&& self.timer.callback is None
        &&& !self.timer.tickless_enabled
        &&& self.interrupt == inputs.interrupt
        &&& self.compute.devices() == scan@.devices
        &&& self.power.domains() == domains_of(scan@.devices, false, false)
    }

    /// The manifest records every subsystem, and everything that was found.
    pub open spec fn recorded_in(self, info: BootInfo) -> bool {
        &&& is_manifest_of(
            info.hardware_manifest,
            1,
            self.cpu.feature_flags.0,
            self.memory.regions(),
            self.compute.devices(),
            self.power.domains(),
            self.interrupt,
            timer_info(self.timer),
        )
        &&& holds_all(
            info.hardware_manifest,
            self.memory.regions(),
            self.compute.devices(),
            self.power.domains(),
        )
    }

    /// Brings up every subsystem from what the machine says at boot, and makes
    /// the boot information.
    pub fn bring_up<S: IdRegisterSource>(source: &S, inputs: BootInputs, scan: PciScan) -> (r: (
        Self,
        BootInfo,
    ))
        requires
            call_requires(S::read, (source,)),
            complete(inputs.memory_map@),
            lengths_fit(inputs.memory_map@),
            scan.well_formed(),
            scan.finished(),
        ensures
            r.0.well_formed(),
            r.0.discovered(source, inputs, scan),
            r.0.recorded_in(r.1),
            r.1.assembled_from(
                BootProtocol::Uefi,
                inputs.page_table_phys,
                inputs.kernel_image,
                inputs.boot_reserved,
                0,
            ),
    {
        let mut cpu = Cpu::new(source);
        let ghost ids = choose|ids: IdRegisters| #[trigger]
            call_ensures(S::read, (source,), ids) && cpu.identified_by(ids);
        assert(features_of(cpu.feature_flags, ids));
        let memory = Memory::from_uefi_memory_map(inputs.memory_map, &inputs.firmware_memory);
        let timer = Timer::new(inputs.timer_frequency_hz);
        let compute = ComputeDiscovery::new(scan);
        let power = PowerThermalImpl::new(compute.enumerate_compute_devices());
        let manifest = built_hardware_manifest(
            &memory,
            &compute,
            &power,
            &mut cpu,
            inputs.interrupt,
            &timer,
        );
        let info = BootInfo::new(
            BootProtocol::Uefi,
            manifest,
            inputs.page_table_phys,
            inputs.kernel_image,
            inputs.boot_reserved,
            0,
        );
        let hal = Arm64Hal { cpu, memory, timer, interrupt: inputs.interrupt, compute, power };
        assert(hal.identified_by(ids));
        (hal, info)
    }
}

} // verus!
