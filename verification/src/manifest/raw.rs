//! The hardware manifest in its fixed-size form, used before any heap exists.

use vstd::prelude::*;

verus! {

/// How many memory regions a manifest can hold.
pub const MAX_MEMORY_REGIONS: usize = 64;

/// How many compute devices a manifest can hold.
pub const MAX_COMPUTE_DEVICES: usize = 32;

/// How many power domains a manifest can hold.
pub const MAX_POWER_DOMAINS: usize = 16;

/// The longest short name, in bytes.
pub const SHORT_NAME_MAX_LEN: usize = 32;

/// The privilege levels of the three architectures, unified.
#[derive(Debug, Clone, Copy, PartialEq, Eq, Structural)]
pub enum PrivilegeLevelRaw {
    Kernel,
    User,
    Monitor,
}

/// What a physical memory region is.
#[derive(Debug, Clone, Copy, PartialEq, Eq, Structural)]
pub enum MemoryRegionKindRaw {
    /// Free RAM.
    Usable,
    /// Never to be allocated from.
    Reserved,
    /// ACPI tables, free once they have been parsed.
    AcpiReclaimable,
    /// ACPI storage that must survive sleep states.
    AcpiNvs,
    /// Device registers.
    Mmio,
    /// The kernel image.
    KernelImage,
    /// Boot-time structures.
    BootReserved,
}

/// A physical memory region.
#[derive(Debug, Clone, Copy, PartialEq, Eq)]
pub struct MemoryRegionRaw {
    pub base_addr: u64,
    pub length_bytes: u64,
    pub kind: MemoryRegionKindRaw,
    /// DMA to this region goes through an IOMMU.
    pub behind_iommu: bool,
    pub _reserved: [u8; 6],
}

impl MemoryRegionRaw {
    /// The region with the given properties; padding is zero.
    pub open spec fn of(
        base_addr: u64,
        length_bytes: u64,
        kind: MemoryRegionKindRaw,
        behind_iommu: bool,
    ) -> Self {
        MemoryRegionRaw { base_addr, length_bytes, kind, behind_iommu, _reserved: [0u8; 6usize] }
    }

    /// An empty, reserved region at address zero.
    pub fn zero() -> (r: Self)
        ensures
            r == Self::of(0, 0, MemoryRegionKindRaw::Reserved, false),
    {
        MemoryRegionRaw {
            base_addr: 0,
            length_bytes: 0,
            kind: MemoryRegionKindRaw::Reserved,
            behind_iommu: false,
            _reserved: [0; 6],
        }
    }

    /// The region with the given properties.
    pub fn new(
        base_addr: u64,
        length_bytes: u64,
        kind: MemoryRegionKindRaw,
        behind_iommu: bool,
    ) -> (r: Self)
        ensures
            r == Self::of(base_addr, length_bytes, kind, behind_iommu),
    {
        MemoryRegionRaw { base_addr, length_bytes, kind, behind_iommu, _reserved: [0; 6] }
    }
}

/// What a compute device is.
#[derive(Debug, Clone, Copy, PartialEq, Eq, Structural)]
pub enum ComputeKindRaw {
    Cpu,
    Gpu,
    Npu,
    Tpu,
    Fpga,
}

/// A vendor, numbered as PCI numbers vendors.
#[derive(Debug, Clone, Copy, PartialEq, Eq, Structural)]
pub struct VendorIdRaw(pub u32);

/// A compute device.
#[derive(Debug, Clone, Copy, PartialEq, Eq)]
pub struct ComputeDeviceRaw {
    pub kind: ComputeKindRaw,
    pub _pad0: [u8; 3],
    pub vendor: VendorIdRaw,
    /// Whether `dedicated_memory_bytes` means anything.
    pub has_dedicated_memory: bool,
    pub _pad1: [u8; 7],
    pub dedicated_memory_bytes: u64,
    pub unified_memory_capable: bool,
    pub _pad2: [u8; 7],
    /// Link bandwidth in megabytes per second; zero if unknown.
    pub bandwidth_to_cpu_mbps: u64,
    /// A short name; its first `short_name_len` bytes count.
    pub short_name: [u8; SHORT_NAME_MAX_LEN],
    pub short_name_len: u8,
    pub _pad3: [u8; 7],
    /// The device's slot in the manifest.
    pub device_index: u32,
    pub _pad4: [u8; 4],
}

impl ComputeDeviceRaw {
    /// A device of which nothing is known: every field is zero.
    pub open spec fn unknown() -> Self {
        ComputeDeviceRaw {
            kind: ComputeKindRaw::Cpu,
            _pad0: [0u8; 3usize],
            vendor: VendorIdRaw(0),
            has_dedicated_memory: false,
            _pad1: [0u8; 7usize],
            dedicated_memory_bytes: 0,
            unified_memory_capable: false,
            _pad2: [0u8; 7usize],
            bandwidth_to_cpu_mbps: 0,
            short_name: [0u8; 32usize],
            short_name_len: 0,
            _pad3: [0u8; 7usize],
            device_index: 0,
            _pad4: [0u8; 4usize],
        }
    }

    /// The bytes of the device's name.
    pub open spec fn name_bytes(self) -> Seq<u8> {
        self.short_name@.take(self.short_name_len as int)
    }

    /// A device of which nothing is known.
    pub fn zero() -> (r: Self)
        ensures
            r == Self::unknown(),
    {
        ComputeDeviceRaw {
            kind: ComputeKindRaw::Cpu,
            _pad0: [0; 3],
            vendor: VendorIdRaw(0),
            has_dedicated_memory: false,
            _pad1: [0; 7],
            dedicated_memory_bytes: 0,
            unified_memory_capable: false,
            _pad2: [0; 7],
            bandwidth_to_cpu_mbps: 0,
            short_name: [0; 32],
            short_name_len: 0,
            _pad3: [0; 7],
            device_index: 0,
            _pad4: [0; 4],
        }
    }
}

/// Which interrupt controller family was found.
#[derive(Debug, Clone, Copy, PartialEq, Eq, Structural)]
pub enum InterruptControllerKindRaw {
    ApicXapic,
    ApicX2apic,
    Gicv3,
    Gicv4,
    PlicClic,
}

/// The interrupt controller.
#[derive(Debug, Clone, Copy, PartialEq, Eq)]
pub struct InterruptControllerInfoRaw {
    pub kind: InterruptControllerKindRaw,
    pub _pad0: [u8; 7],
    /// Base of the controller's registers; zero if they are not memory-mapped.
    pub primary_base: u64,
    /// Whether `secondary_base` means anything.
    pub has_secondary: bool,
    pub _pad1: [u8; 7],
    pub secondary_base: u64,
    pub irq_line_count: u32,
    pub ipi_target_core_count: u32,
}

impl InterruptControllerInfoRaw {
    /// The controller with the given properties; padding is zero.
    pub open spec fn of(
        kind: InterruptControllerKindRaw,
        primary_base: u64,
        has_secondary: bool,
        secondary_base: u64,
        irq_line_count: u32,
        ipi_target_core_count: u32,
    ) -> Self {
        InterruptControllerInfoRaw {
            kind,
            _pad0: [0u8; 7usize],
            primary_base,
            has_secondary,
            _pad1: [0u8; 7usize],
            secondary_base,
            irq_line_count,
            ipi_target_core_count,
        }
    }

    /// A controller of which nothing is known.
    pub fn zero() -> (r: Self)
        ensures
            r == Self::of(InterruptControllerKindRaw::ApicXapic, 0, false, 0, 0, 0),
    {
        Self::new(InterruptControllerKindRaw::ApicXapic, 0, false, 0, 0, 0)
    }

    /// The controller with the given properties.
    pub fn new(
        kind: InterruptControllerKindRaw,
        primary_base: u64,
        has_secondary: bool,
        secondary_base: u64,
        irq_line_count: u32,
        ipi_target_core_count: u32,
    ) -> (r: Self)
        ensures
            r == Self::of(
                kind,
                primary_base,
                has_secondary,
                secondary_base,
                irq_line_count,
                ipi_target_core_count,
            ),
    {
        InterruptControllerInfoRaw {
            kind,
            _pad0: [0; 7],
            primary_base,
            has_secondary,
            _pad1: [0; 7],
            secondary_base,
            irq_line_count,
            ipi_target_core_count,
        }
    }
}

/// Which timer source was found.
#[derive(Debug, Clone, Copy, PartialEq, Eq, Structural)]
pub enum TimerKindRaw {
    Tsc,
    Hpet,
    ArmGenericTimer,
    RiscvSbiTimer,
}

/// The timer.
#[derive(Debug, Clone, Copy, PartialEq, Eq)]
pub struct TimerInfoRaw {
    pub kind: TimerKindRaw,
    pub _pad0: [u8; 7],
    pub frequency_hz: u64,
    pub supports_tickless: bool,
    pub _pad1: [u8; 7],
}

impl TimerInfoRaw {
    /// The timer with the given properties; padding is zero.
    pub open spec fn of(kind: TimerKindRaw, frequency_hz: u64, supports_tickless: bool) -> Self {
        TimerInfoRaw {
            kind,
            _pad0: [0u8; 7usize],
            frequency_hz,
            supports_tickless,
            _pad1: [0u8; 7usize],
        }
    }

    /// A timer of which nothing is known.
    pub fn zero() -> (r: Self)
        ensures
            r == Self::of(TimerKindRaw::Tsc, 0, false),
    {
        Self::new(TimerKindRaw::Tsc, 0, false)
    }

    /// The timer with the given properties.
    pub fn new(kind: TimerKindRaw, frequency_hz: u64, supports_tickless: bool) -> (r: Self)
        ensures
            r == Self::of(kind, frequency_hz, supports_tickless),
    {
        TimerInfoRaw { kind, _pad0: [0; 7], frequency_hz, supports_tickless, _pad1: [0; 7] }
    }
}

/// A power domain.
#[derive(Debug, Clone, Copy, PartialEq, Eq)]
pub struct PowerDomainRaw {
    pub domain_id: u32,
    /// The slot of the compute device that the domain powers, or
    /// `NO_ASSOCIATED_DEVICE`.
    pub associated_compute_device_index: u32,
    pub supports_dvfs: bool,
    pub _pad0: [u8; 3],
    pub has_thermal_sensor: bool,
    pub _pad1: [u8; 3],
}

impl PowerDomainRaw {
    /// The domain powers no single compute device.
    pub const NO_ASSOCIATED_DEVICE: u32 = u32::MAX;

    /// The domain with the given properties; padding is zero.
    pub open spec fn of(
        domain_id: u32,
        associated_compute_device_index: u32,
        supports_dvfs: bool,
        has_thermal_sensor: bool,
    ) -> Self {
        PowerDomainRaw {
            domain_id,
            associated_compute_device_index,
            supports_dvfs,
            _pad0: [0u8; 3usize],
            has_thermal_sensor,
            _pad1: [0u8; 3usize],
        }
    }

    /// Domain zero, powering no single device and supporting nothing.
    pub fn zero() -> (r: Self)
        ensures
            r == Self::of(0, Self::NO_ASSOCIATED_DEVICE, false, false),
    {
        Self::new(0, Self::NO_ASSOCIATED_DEVICE, false, false)
    }

    /// The domain with the given properties.
    pub fn new(
        domain_id: u32,
        associated_compute_device_index: u32,
        supports_dvfs: bool,
        has_thermal_sensor: bool,
    ) -> (r: Self)
        ensures
            r == Self::of(
                domain_id,
                associated_compute_device_index,
                supports_dvfs,
                has_thermal_sensor,
            ),
    {
        PowerDomainRaw {
            domain_id,
            associated_compute_device_index,
            supports_dvfs,
            _pad0: [0; 3],
            has_thermal_sensor,
            _pad1: [0; 3],
        }
    }
}

/// Everything discovered about the machine.
#[derive(Clone, Copy)]
pub struct HardwareManifestRaw {
    pub cpu_core_count: u32,
    pub cpu_feature_flags: u64,
    pub memory_region_count: u32,
    pub memory_regions: [MemoryRegionRaw; MAX_MEMORY_REGIONS],
    pub compute_device_count: u32,
    pub compute_devices: [ComputeDeviceRaw; MAX_COMPUTE_DEVICES],
    pub interrupt_controller: InterruptControllerInfoRaw,
    pub timer: TimerInfoRaw,
    pub power_domain_count: u32,
    pub power_domains: [PowerDomainRaw; MAX_POWER_DOMAINS],
}

impl HardwareManifestRaw {
    /// The recorded memory regions.
    pub open spec fn region_seq(self) -> Seq<MemoryRegionRaw> {
        self.memory_regions@.take(self.memory_region_count as int)
    }

    /// The recorded compute devices.
    pub open spec fn device_seq(self) -> Seq<ComputeDeviceRaw> {
        self.compute_devices@.take(self.compute_device_count as int)
    }

    /// The recorded power domains.
    pub open spec fn domain_seq(self) -> Seq<PowerDomainRaw> {
        self.power_domains@.take(self.power_domain_count as int)
    }

    /// No count exceeds its capacity, and every recorded compute device knows
    /// its own slot.
    pub open spec fn well_formed(self) -> bool {
        &&& self.memory_region_count <= MAX_MEMORY_REGIONS
        &&& self.compute_device_count <= MAX_COMPUTE_DEVICES
        &&& self.power_domain_count <= MAX_POWER_DOMAINS
        &&& forall|i: int|
            0 <= i < self.compute_device_count ==> (#[trigger] self.compute_devices@[i]).device_index
                == i
    }

    /// A manifest with nothing in it.
    pub fn zeroed() -> (r: Self)
        ensures
            r.well_formed(),
            r.cpu_core_count == 0,
            r.cpu_feature_flags == 0,
            r.memory_region_count == 0,
            r.compute_device_count == 0,
            r.power_domain_count == 0,
            r.region_seq() == Seq::<MemoryRegionRaw>::empty(),
            r.device_seq() == Seq::<ComputeDeviceRaw>::empty(),
            r.domain_seq() == Seq::<PowerDomainRaw>::empty(),
            r.interrupt_controller == InterruptControllerInfoRaw::of(
                InterruptControllerKindRaw::ApicXapic,
                0,
                false,
                0,
                0,
                0,
            ),
            r.timer == TimerInfoRaw::of(TimerKindRaw::Tsc, 0, false),
            forall|i: int|
                0 <= i < MAX_MEMORY_REGIONS ==> #[trigger] r.memory_regions@[i]
                    == MemoryRegionRaw::of(0, 0, MemoryRegionKindRaw::Reserved, false),
            forall|i: int|
                0 <= i < MAX_COMPUTE_DEVICES ==> #[trigger] r.compute_devices@[i]
                    == ComputeDeviceRaw::unknown(),
            forall|i: int|
                0 <= i < MAX_POWER_DOMAINS ==> #[trigger] r.power_domains@[i]
                    == PowerDomainRaw::of(0, PowerDomainRaw::NO_ASSOCIATED_DEVICE, false, false),
    {
        HardwareManifestRaw {
            cpu_core_count: 0,
            cpu_feature_flags: 0,
            memory_region_count: 0,
            memory_regions: [MemoryRegionRaw::zero(); 64],
            compute_device_count: 0,
            compute_devices: [ComputeDeviceRaw::zero(); 32],
            interrupt_controller: InterruptControllerInfoRaw::zero(),
            timer: TimerInfoRaw::zero(),
            power_domain_count: 0,
            power_domains: [PowerDomainRaw::zero(); 16],
        }
    }

    /// The recorded memory regions, without the unused capacity.
    pub fn memory_regions(&self) -> (r: &[MemoryRegionRaw])
        requires
            self.memory_region_count <= MAX_MEMORY_REGIONS,
        ensures
            r@ == self.region_seq(),
    {
        vstd::slice::slice_subrange(
            self.memory_regions.as_slice(),
            0,
            self.memory_region_count as usize,
        )
    }

    /// The recorded compute devices, without the unused capacity.
    pub fn compute_devices(&self) -> (r: &[ComputeDeviceRaw])
        requires
            self.compute_device_count <= MAX_COMPUTE_DEVICES,
        ensures
            r@ == self.device_seq(),
    {
        vstd::slice::slice_subrange(
            self.compute_devices.as_slice(),
            0,
            self.compute_device_count as usize,
        )
    }

    /// The recorded power domains, without the unused capacity.
    pub fn power_domains(&self) -> (r: &[PowerDomainRaw])
        requires
            self.power_domain_count <= MAX_POWER_DOMAINS,
        ensures
            r@ == self.domain_seq(),
    {
        vstd::slice::slice_subrange(
            self.power_domains.as_slice(),
            0,
            self.power_domain_count as usize,
        )
    }

    /// `after` is `self` but for the memory regions.
    pub open spec fn same_but_regions(self, after: Self) -> bool {
        &&& after.cpu_core_count == self.cpu_core_count
        &&& after.cpu_feature_flags == self.cpu_feature_flags
        &&& after.compute_device_count == self.compute_device_count
        &&& after.compute_devices == self.compute_devices
        &&& after.interrupt_controller == self.interrupt_controller
        &&& after.timer == self.timer
        &&& after.power_domain_count == self.power_domain_count
        &&& after.power_domains == self.power_domains
    }

    /// `after` is `self` but for the compute devices.
    pub open spec fn same_but_devices(self, after: Self) -> bool {
        &&& after.cpu_core_count == self.cpu_core_count
        &&& after.cpu_feature_flags == self.cpu_feature_flags
        &&& after.memory_region_count == self.memory_region_count
        &&& after.memory_regions == self.memory_regions
        &&& after.interrupt_controller == self.interrupt_controller
        &&& after.timer == self.timer
        &&& after.power_domain_count == self.power_domain_count
        &&& after.power_domains == self.power_domains
    }

    /// `after` is `self` but for the power domains.
    pub open spec fn same_but_domains(self, after: Self) -> bool {
        &&& after.cpu_core_count == self.cpu_core_count
        &&& after.cpu_feature_flags == self.cpu_feature_flags
        &&& after.memory_region_count == self.memory_region_count
        &&& after.memory_regions == self.memory_regions
        &&& after.compute_device_count == self.compute_device_count
        &&& after.compute_devices == self.compute_devices
        &&& after.interrupt_controller == self.interrupt_controller
        &&& after.timer == self.timer
    }

    /// Records a memory region; fails, changing nothing, when there is no room.
    pub fn push_memory_region(&mut self, region: MemoryRegionRaw) -> (r: Result<(), ()>)
        ensures
            r is Ok <==> old(self).memory_region_count < MAX_MEMORY_REGIONS,
            r is Err ==> *final(self) == *old(self),
            r is Ok ==> old(self).same_but_regions(*final(self)),
            r is Ok ==> final(self).memory_region_count == old(self).memory_region_count + 1,
            r is Ok ==> final(self).region_seq() == old(self).region_seq().push(region),
            old(self).well_formed() ==> final(self).well_formed(),
    {
        let idx: usize = self.memory_region_count as usize;
        if idx >= MAX_MEMORY_REGIONS {
            return Err(());
        }
        self.memory_regions[idx] = region;
        self.memory_region_count = self.memory_region_count + 1;
        Ok(())
    }

    /// Records a compute device in the next slot and tells the device its slot;
    /// fails, changing nothing, when there is no room.
    pub fn push_compute_device(&mut self, device: ComputeDeviceRaw) -> (r: Result<(), ()>)
        ensures
            r is Ok <==> old(self).compute_device_count < MAX_COMPUTE_DEVICES,
            r is Err ==> *final(self) == *old(self),
            r is Ok ==> old(self).same_but_devices(*final(self)),
            r is Ok ==> final(self).compute_device_count == old(self).compute_device_count + 1,
            r is Ok ==> final(self).device_seq() == old(self).device_seq().push(
                (ComputeDeviceRaw { device_index: old(self).compute_device_count, ..device }),
            ),
            old(self).well_formed() ==> final(self).well_formed(),
    {
        let idx: usize = self.compute_device_count as usize;
        if idx >= MAX_COMPUTE_DEVICES {
            return Err(());
        }
        let mut device = device;
        device.device_index = idx as u32;
        self.compute_devices[idx] = device;
        self.compute_device_count = self.compute_device_count + 1;
        Ok(())
    }

    /// Records a power domain; fails, changing nothing, when there is no room.
    pub fn push_power_domain(&mut self, domain: PowerDomainRaw) -> (r: Result<(), ()>)
        ensures
            r is Ok <==> old(self).power_domain_count < MAX_POWER_DOMAINS,
            r is Err ==> *final(self) == *old(self),
            r is Ok ==> old(self).same_but_domains(*final(self)),
            r is Ok ==> final(self).power_domain_count == old(self).power_domain_count + 1,
            r is Ok ==> final(self).domain_seq() == old(self).domain_seq().push(domain),
            old(self).well_formed() ==> final(self).well_formed(),
    {
        let idx: usize = self.power_domain_count as usize;
        if idx >= MAX_POWER_DOMAINS {
            return Err(());
        }
        self.power_domains[idx] = domain;
        self.power_domain_count = self.power_domain_count + 1;
        Ok(())
    }
}

} // verus!
