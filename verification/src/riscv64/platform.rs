//! The whole machine, and the boot information made from it.

use vstd::prelude::*;

use crate::compute::ComputeDiscovery;
use crate::hal::boot::{BootInfo, BootProtocol};
use crate::hal::cpu::CpuFeatureFlags;
use crate::manifest::assembly::{holds_all, is_manifest_of};
use crate::pci::PciScan;
use crate::power::{domains_of, PowerThermalImpl};
use crate::riscv64::cpu::{baseline_feature, Cpu};
use crate::riscv64::interrupt::{InterruptCtrl, MAX_TRACKED_SOURCES};
use crate::riscv64::memory::{
    built_hardware_manifest, controller_info, root_in_satp, timer_info, Memory,
};
use crate::riscv64::timer::{Timer, QEMU_VIRT_DEFAULT_TIMEBASE_FREQUENCY_HZ};

verus! {

/// The subsystems of the machine.
pub struct Riscv64Hal<H: Copy, C> {
    pub cpu: Cpu,
    pub memory: Memory,
    pub timer: Timer<C>,
    pub interrupt: InterruptCtrl<H>,
    pub compute: ComputeDiscovery,
    pub power: PowerThermalImpl,
}

/// What the machine's registers and firmware say at boot.
pub struct BootInputs<'a> {
    /// The hart that firmware started.
    pub hart_id: usize,
    /// The device tree.
    pub device_tree: &'a [u8],
    /// Firmware can arm the timer.
    pub sbi_time_available: bool,
    /// The translation register.
    pub satp: u64,
    pub kernel_image: (u64, u64),
    pub boot_reserved: (u64, u64),
}

/// `flags` are the features that the profile fixes.
pub open spec fn baseline(flags: CpuFeatureFlags) -> bool {
    forall|n: u64| n < 64 ==> #[trigger] flags.has(n) == baseline_feature(n)
}

impl<H: Copy, C> Riscv64Hal<H, C> {
    /// Every subsystem is what the inputs and the scan say.
    pub open spec fn discovered(self, inputs: BootInputs, scan: PciScan) -> bool {
        &&& self.cpu.hart_id == inputs.hart_id
        &&& self.cpu.sbi_time_extension_present == inputs.sbi_time_available
        &&& exists|flags: CpuFeatureFlags| #[trigger]
            baseline(flags) && self.cpu.feature_flags == flags.with_iommu(
                self.memory.iommu_present,
            )
        &&& self.memory.read_from(inputs.device_tree@)
        &&& self.timer.frequency_hz == QEMU_VIRT_DEFAULT_TIMEBASE_FREQUENCY_HZ
        &&& self.timer.sbi_time_available == inputs.sbi_time_available
        &&& self.timer.callback is None
        &&& !self.timer.tickless_enabled
        &&& self.interrupt.plic_base == self.memory.plic_base
        &&& self.interrupt.ipi_target_core_count == 1
        &&& forall|i: int|
            0 <= i < MAX_TRACKED_SOURCES ==> #[trigger] self.interrupt.handlers@[i] is None
        &&& self.compute.devices() == scan@.devices
        &&& self.power.domains() == domains_of(scan@.devices, false, false)
    }

    /// The manifest records every subsystem, and everything that was found.
    pub open spec fn recorded_in(self, info: BootInfo) -> bool {
        &&& is_manifest_of(
            info.hardware_manifest,
            1,
            self.cpu.feature_flags.0,
            self.memory.regions(),
            self.compute.devices(),
            self.power.domains(),
            controller_info(self.interrupt),
            timer_info(self.timer),
        )
        &&& holds_all(
            info.hardware_manifest,
            self.memory.regions(),
            self.compute.devices(),
            self.power.domains(),
        )
    }

    /// Brings up every subsystem from what the machine says at boot, and makes
    /// the boot information.
    pub fn bring_up(inputs: BootInputs, scan: PciScan) -> (r: (Self, BootInfo))
        requires
            inputs.device_tree.len() <= 0x7FFF_FFFF_FFFF_FFFF,
            scan.well_formed(),
            scan.finished(),
        ensures
            r.0.compute.well_formed(),
            r.0.discovered(inputs, scan),
            r.0.recorded_in(r.1),
            r.1.assembled_from(
                BootProtocol::SbiDeviceTree,
                (inputs.satp as int % 0x1000_0000_0000 * 4096) as u64,
                inputs.kernel_image,
                inputs.boot_reserved,
                inputs.hart_id as u32,
            ),
    {
        let mut cpu = Cpu::new(inputs.hart_id, inputs.sbi_time_available);
        assert(baseline(cpu.feature_flags));
        let memory = Memory::from_device_tree(inputs.device_tree);
        let timer = Timer::new(cpu.sbi_time_extension_present());
        let mut interrupt = InterruptCtrl::new(memory.plic_base());
        interrupt.set_topology(cpu.core_count() as u32);
        let compute = ComputeDiscovery::new(scan);
        let power = PowerThermalImpl::new(compute.enumerate_compute_devices());
        let manifest = built_hardware_manifest(
            &memory,
            &compute,
            &power,
            &mut cpu,
            &interrupt,
            &timer,
        );
        let info = BootInfo::new(
            BootProtocol::SbiDeviceTree,
            manifest,
            root_in_satp(inputs.satp),
            inputs.kernel_image,
            inputs.boot_reserved,
            inputs.hart_id as u32,
        );
        (Riscv64Hal { cpu, memory, timer, interrupt, compute, power }, info)
    }
}

} // verus!
