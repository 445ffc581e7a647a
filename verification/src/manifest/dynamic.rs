//! The manifest in growable form, for use once there is an allocator.

use vstd::prelude::*;
use vstd::std_specs::convert::{FromSpec, FromSpecImpl};
use vstd::utf8::{decode_utf8, valid_utf8};

use crate::manifest::raw::{
    ComputeDeviceRaw, ComputeKindRaw, HardwareManifestRaw, InterruptControllerInfoRaw,
    InterruptControllerKindRaw, MemoryRegionKindRaw, MemoryRegionRaw, PowerDomainRaw,
    TimerInfoRaw, TimerKindRaw, VendorIdRaw, MAX_COMPUTE_DEVICES, MAX_MEMORY_REGIONS,
    MAX_POWER_DOMAINS, SHORT_NAME_MAX_LEN,
};

verus! {

/// The CPU's features as raw bits.
#[derive(Debug, Clone, Copy, PartialEq, Eq, Structural)]
pub struct CpuFeatureFlags(pub u64);

/// The CPU.
#[derive(Debug, Clone, Copy)]
pub struct CpuInfo {
    pub core_count: usize,
    pub feature_flags: CpuFeatureFlags,
}

/// What a memory region is.
#[derive(Debug, Clone, Copy, PartialEq, Eq, Structural)]
pub enum MemoryRegionKind {
    Usable,
    Reserved,
    AcpiReclaimable,
    AcpiNvs,
    Mmio,
    KernelImage,
    BootReserved,
}

impl FromSpecImpl<MemoryRegionKindRaw> for MemoryRegionKind {
    open spec fn obeys_from_spec() -> bool {
        true
    }

    open spec fn from_spec(raw: MemoryRegionKindRaw) -> Self {
        match raw {
            MemoryRegionKindRaw::Usable => MemoryRegionKind::Usable,
            MemoryRegionKindRaw::Reserved => MemoryRegionKind::Reserved,
            MemoryRegionKindRaw::AcpiReclaimable => MemoryRegionKind::AcpiReclaimable,
            MemoryRegionKindRaw::AcpiNvs => MemoryRegionKind::AcpiNvs,
            MemoryRegionKindRaw::Mmio => MemoryRegionKind::Mmio,
            MemoryRegionKindRaw::KernelImage => MemoryRegionKind::KernelImage,
            MemoryRegionKindRaw::BootReserved => MemoryRegionKind::BootReserved,
        }
    }
}

impl From<MemoryRegionKindRaw> for MemoryRegionKind {
    fn from(raw: MemoryRegionKindRaw) -> (r: Self) {
        match raw {
            MemoryRegionKindRaw::Usable => MemoryRegionKind::Usable,
            MemoryRegionKindRaw::Reserved => MemoryRegionKind::Reserved,
            MemoryRegionKindRaw::AcpiReclaimable => MemoryRegionKind::AcpiReclaimable,
            MemoryRegionKindRaw::AcpiNvs => MemoryRegionKind::AcpiNvs,
            MemoryRegionKindRaw::Mmio => MemoryRegionKind::Mmio,
            MemoryRegionKindRaw::KernelImage => MemoryRegionKind::KernelImage,
            MemoryRegionKindRaw::BootReserved => MemoryRegionKind::BootReserved,
        }
    }
}

/// A memory region.
#[derive(Debug, Clone, Copy)]
pub struct MemoryRegion {
    pub base_addr: u64,
    pub length_bytes: u64,
    pub kind: MemoryRegionKind,
    pub behind_iommu: bool,
}

impl FromSpecImpl<MemoryRegionRaw> for MemoryRegion {
    open spec fn obeys_from_spec() -> bool {
        true
    }

    open spec fn from_spec(raw: MemoryRegionRaw) -> Self {
        MemoryRegion {
            base_addr: raw.base_addr,
            length_bytes: raw.length_bytes,
            kind: <MemoryRegionKind as FromSpec<MemoryRegionKindRaw>>::from_spec(raw.kind),
            behind_iommu: raw.behind_iommu,
        }
    }
}

impl From<MemoryRegionRaw> for MemoryRegion {
    fn from(raw: MemoryRegionRaw) -> (r: Self) {
        MemoryRegion {
            base_addr: raw.base_addr,
            length_bytes: raw.length_bytes,
            kind: MemoryRegionKind::from(raw.kind),
            behind_iommu: raw.behind_iommu,
        }
    }
}

/// What a compute device is.
#[derive(Debug, Clone, Copy, PartialEq, Eq, Structural)]
pub enum ComputeKind {
    Cpu,
    Gpu,
    Npu,
    Tpu,
    Fpga,
}

impl FromSpecImpl<ComputeKindRaw> for ComputeKind {
    open spec fn obeys_from_spec() -> bool {
        true
    }

    open spec fn from_spec(raw: ComputeKindRaw) -> Self {
        match raw {
            ComputeKindRaw::Cpu => ComputeKind::Cpu,
            ComputeKindRaw::Gpu => ComputeKind::Gpu,
            ComputeKindRaw::Npu => ComputeKind::Npu,
            ComputeKindRaw::Tpu => ComputeKind::Tpu,
            ComputeKindRaw::Fpga => ComputeKind::Fpga,
        }
    }
}

impl From<ComputeKindRaw> for ComputeKind {
    fn from(raw: ComputeKindRaw) -> (r: Self) {
        match raw {
            ComputeKindRaw::Cpu => ComputeKind::Cpu,
            ComputeKindRaw::Gpu => ComputeKind::Gpu,
            ComputeKindRaw::Npu => ComputeKind::Npu,
            ComputeKindRaw::Tpu => ComputeKind::Tpu,
            ComputeKindRaw::Fpga => ComputeKind::Fpga,
        }
    }
}

/// A vendor, numbered as PCI numbers vendors.
#[derive(Debug, Clone, Copy, PartialEq, Eq, Structural)]
pub struct VendorId(pub u32);

impl FromSpecImpl<VendorIdRaw> for VendorId {
    open spec fn obeys_from_spec() -> bool {
        true
    }

    open spec fn from_spec(raw: VendorIdRaw) -> Self {
        VendorId(raw.0)
    }
}

impl From<VendorIdRaw> for VendorId {
    fn from(raw: VendorIdRaw) -> (r: Self) {
        VendorId(raw.0)
    }
}

/// Which interrupt controller family was found.
#[derive(Debug, Clone, Copy, PartialEq, Eq, Structural)]
pub enum InterruptControllerKind {
    ApicXapic,
    ApicX2apic,
    Gicv3,
    Gicv4,
    PlicClic,
}

impl FromSpecImpl<InterruptControllerKindRaw> for InterruptControllerKind {
    open spec fn obeys_from_spec() -> bool {
        true
    }

    open spec fn from_spec(raw: InterruptControllerKindRaw) -> Self {
        match raw {
            InterruptControllerKindRaw::ApicXapic => InterruptControllerKind::ApicXapic,
            InterruptControllerKindRaw::ApicX2apic => InterruptControllerKind::ApicX2apic,
            InterruptControllerKindRaw::Gicv3 => InterruptControllerKind::Gicv3,
            InterruptControllerKindRaw::Gicv4 => InterruptControllerKind::Gicv4,
            InterruptControllerKindRaw::PlicClic => InterruptControllerKind::PlicClic,
        }
    }
}

impl From<InterruptControllerKindRaw> for InterruptControllerKind {
    fn from(raw: InterruptControllerKindRaw) -> (r: Self) {
        match raw {
            InterruptControllerKindRaw::ApicXapic => InterruptControllerKind::ApicXapic,
            InterruptControllerKindRaw::ApicX2apic => InterruptControllerKind::ApicX2apic,
            InterruptControllerKindRaw::Gicv3 => InterruptControllerKind::Gicv3,
            InterruptControllerKindRaw::Gicv4 => InterruptControllerKind::Gicv4,
            InterruptControllerKindRaw::PlicClic => InterruptControllerKind::PlicClic,
        }
    }
}

/// The interrupt controller.
#[derive(Debug, Clone, Copy)]
pub struct InterruptControllerInfo {
    pub kind: InterruptControllerKind,
    pub primary_base: u64,
    pub secondary_base: Option<u64>,
    pub irq_line_count: u32,
    pub ipi_target_core_count: u32,
}

impl FromSpecImpl<InterruptControllerInfoRaw> for InterruptControllerInfo {
    open spec fn obeys_from_spec() -> bool {
        true
    }

    open spec fn from_spec(raw: InterruptControllerInfoRaw) -> Self {
        InterruptControllerInfo {
            kind: <InterruptControllerKind as FromSpec<InterruptControllerKindRaw>>::from_spec(raw.kind),
            primary_base: raw.primary_base,
            secondary_base: if raw.has_secondary {
                Some(raw.secondary_base)
            } else {
                None
            },
            irq_line_count: raw.irq_line_count,
            ipi_target_core_count: raw.ipi_target_core_count,
        }
    }
}

impl From<InterruptControllerInfoRaw> for InterruptControllerInfo {
    fn from(raw: InterruptControllerInfoRaw) -> (r: Self) {
        InterruptControllerInfo {
            kind: InterruptControllerKind::from(raw.kind),
            primary_base: raw.primary_base,
            secondary_base: if raw.has_secondary {
                Some(raw.secondary_base)
            } else {
                None
            },
            irq_line_count: raw.irq_line_count,
            ipi_target_core_count: raw.ipi_target_core_count,
        }
    }
}

/// Which timer source was found.
#[derive(Debug, Clone, Copy, PartialEq, Eq, Structural)]
pub enum TimerKind {
    Tsc,
    Hpet,
    ArmGenericTimer,
    RiscvSbiTimer,
}

impl FromSpecImpl<TimerKindRaw> for TimerKind {
    open spec fn obeys_from_spec() -> bool {
        true
    }

    open spec fn from_spec(raw: TimerKindRaw) -> Self {
        match raw {
            TimerKindRaw::Tsc => TimerKind::Tsc,
            TimerKindRaw::Hpet => TimerKind::Hpet,
            TimerKindRaw::ArmGenericTimer => TimerKind::ArmGenericTimer,
            TimerKindRaw::RiscvSbiTimer => TimerKind::RiscvSbiTimer,
        }
    }
}

impl From<TimerKindRaw> for TimerKind {
    fn from(raw: TimerKindRaw) -> (r: Self) {
        match raw {
            TimerKindRaw::Tsc => TimerKind::Tsc,
            TimerKindRaw::Hpet => TimerKind::Hpet,
            TimerKindRaw::ArmGenericTimer => TimerKind::ArmGenericTimer,
            TimerKindRaw::RiscvSbiTimer => TimerKind::RiscvSbiTimer,
        }
    }
}

/// The timer.
#[derive(Debug, Clone, Copy)]
pub struct TimerInfo {
    pub kind: TimerKind,
    pub frequency_hz: u64,
    pub supports_tickless: bool,
}

impl FromSpecImpl<TimerInfoRaw> for TimerInfo {
    open spec fn obeys_from_spec() -> bool {
        true
    }

    open spec fn from_spec(raw: TimerInfoRaw) -> Self {
        TimerInfo {
            kind: <TimerKind as FromSpec<TimerKindRaw>>::from_spec(raw.kind),
            frequency_hz: raw.frequency_hz,
            supports_tickless: raw.supports_tickless,
        }
    }
}

impl From<TimerInfoRaw> for TimerInfo {
    fn from(raw: TimerInfoRaw) -> (r: Self) {
        TimerInfo {
            kind: TimerKind::from(raw.kind),
            frequency_hz: raw.frequency_hz,
            supports_tickless: raw.supports_tickless,
        }
    }
}

/// A power domain.
#[derive(Debug, Clone, Copy)]
pub struct PowerDomain {
    pub domain_id: u32,
    /// The compute device that the domain powers, if it is one.
    pub associated_compute_device_index: Option<u32>,
    pub supports_dvfs: bool,
    pub has_thermal_sensor: bool,
}

impl FromSpecImpl<PowerDomainRaw> for PowerDomain {
    open spec fn obeys_from_spec() -> bool {
        true
    }

    open spec fn from_spec(raw: PowerDomainRaw) -> Self {
        PowerDomain {
            domain_id: raw.domain_id,
            associated_compute_device_index: if raw.associated_compute_device_index
                == PowerDomainRaw::NO_ASSOCIATED_DEVICE {
                None
            } else {
                Some(raw.associated_compute_device_index)
            },
            supports_dvfs: raw.supports_dvfs,
            has_thermal_sensor: raw.has_thermal_sensor,
        }
    }
}

impl From<PowerDomainRaw> for PowerDomain {
    fn from(raw: PowerDomainRaw) -> (r: Self) {
        PowerDomain {
            domain_id: raw.domain_id,
            associated_compute_device_index: if raw.associated_compute_device_index
                == PowerDomainRaw::NO_ASSOCIATED_DEVICE {
                None
            } else {
                Some(raw.associated_compute_device_index)
            },
            supports_dvfs: raw.supports_dvfs,
            has_thermal_sensor: raw.has_thermal_sensor,
        }
    }
}

/// What `String::from_utf8_lossy` makes of bytes.
pub uninterp spec fn utf8_lossy(bytes: Seq<u8>) -> Seq<char>;

/// Calls `String::from_utf8_lossy`, whose result depends on the bytes alone, and
/// is the text itself if they are valid UTF-8. What stands in place of invalid
/// bytes is left unsaid.
#[verifier::external_body]
fn lossy_text(bytes: &[u8]) -> (text: String)
    ensures
        text@ == utf8_lossy(bytes@),
        valid_utf8(bytes@) ==> text@ == decode_utf8(bytes@),
{
    String::from_utf8_lossy(bytes).into_owned()
}

/// A compute device. `Cap` is whatever grants access to it.
#[derive(Debug, Clone)]
pub struct ComputeDevice<Cap> {
    pub kind: ComputeKind,
    pub vendor: VendorId,
    pub dedicated_memory_bytes: Option<u64>,
    pub unified_memory_capable: bool,
    pub bandwidth_to_cpu_mbps: u64,
    pub name: String,
    /// The device's slot in the manifest.
    pub device_index: u32,
    pub capability_token: Option<Cap>,
}

impl<Cap> ComputeDevice<Cap> {
    /// The device is `raw`, named `name`, and nothing grants access to it.
    pub open spec fn is_named(self, raw: ComputeDeviceRaw, name: Seq<char>) -> bool {
        &&& self.kind == <ComputeKind as FromSpec<ComputeKindRaw>>::from_spec(raw.kind)
        &&& self.vendor == <VendorId as FromSpec<VendorIdRaw>>::from_spec(raw.vendor)
        &&& self.dedicated_memory_bytes == (if raw.has_dedicated_memory {
            Some(raw.dedicated_memory_bytes)
        } else {
            None
        })
        &&& self.unified_memory_capable == raw.unified_memory_capable
        &&& self.bandwidth_to_cpu_mbps == raw.bandwidth_to_cpu_mbps
        &&& self.name@ == name
        &&& self.device_index == raw.device_index
        &&& self.capability_token is None
    }

    /// The device is `raw`, with its name read as text.
    pub open spec fn is_of(self, raw: ComputeDeviceRaw) -> bool {
        &&& self.is_named(raw, utf8_lossy(raw.name_bytes()))
        &&& valid_utf8(raw.name_bytes()) ==> self.name@ == decode_utf8(raw.name_bytes())
    }

    /// The device `raw` under the given name.
    pub fn named(raw: &ComputeDeviceRaw, name: String) -> (r: Self)
        ensures
            r.is_named(*raw, name@),
    {
        ComputeDevice {
            kind: ComputeKind::from(raw.kind),
            vendor: VendorId::from(raw.vendor),
            dedicated_memory_bytes: if raw.has_dedicated_memory {
                Some(raw.dedicated_memory_bytes)
            } else {
                None
            },
            unified_memory_capable: raw.unified_memory_capable,
            bandwidth_to_cpu_mbps: raw.bandwidth_to_cpu_mbps,
            name,
            device_index: raw.device_index,
            capability_token: None,
        }
    }

    /// Reads the device `raw`; its name need not be valid text.
    pub fn from_raw(raw: &ComputeDeviceRaw) -> (r: Self)
        requires
            raw.short_name_len <= SHORT_NAME_MAX_LEN,
        ensures
            r.is_of(*raw),
    {
        let name = lossy_text(
            vstd::slice::slice_subrange(
                raw.short_name.as_slice(),
                0,
                raw.short_name_len as usize,
            ),
        );
        Self::named(raw, name)
    }

    /// Notes what grants access to the device.
    pub fn set_capability_token(&mut self, token: Cap)
        ensures
            *final(self) == (ComputeDevice { capability_token: Some(token), ..*old(self) }),
    {
        self.capability_token = Some(token);
    }
}

/// The usable bytes among `regions`.
pub open spec fn usable_bytes(regions: Seq<MemoryRegion>) -> int
    decreases regions.len(),
{
    if regions.len() == 0 {
        0
    } else {
        usable_bytes(regions.drop_last()) + if regions.last().kind == MemoryRegionKind::Usable {
            regions.last().length_bytes as int
        } else {
            0
        }
    }
}

proof fn lemma_usable_bytes_grow(regions: Seq<MemoryRegion>, n: int)
    requires
        0 <= n <= regions.len(),
    ensures
        0 <= usable_bytes(regions.take(n)) <= usable_bytes(regions),
    decreases regions.len(),
{
    if regions.len() == 0 {
        assert(regions.take(n) =~= regions);
    } else if n == regions.len() {
        assert(regions.take(n) =~= regions);
        lemma_usable_bytes_grow(regions.drop_last(), n - 1);
    } else {
        assert(regions.take(n) =~= regions.drop_last().take(n));
        lemma_usable_bytes_grow(regions.drop_last(), n);
    }
}

/// Everything discovered about the machine.
#[derive(Debug, Clone)]
pub struct HardwareManifest<Cap> {
    pub cpu: CpuInfo,
    pub memory_regions: Vec<MemoryRegion>,
    pub compute_devices: Vec<ComputeDevice<Cap>>,
    pub interrupt_controller: InterruptControllerInfo,
    pub timer: TimerInfo,
    pub power_domains: Vec<PowerDomain>,
}

impl<Cap> HardwareManifest<Cap> {
    /// Everything that `raw` records, in its order, is here.
    pub open spec fn is_of(self, raw: HardwareManifestRaw) -> bool {
        &&& self.cpu.core_count == raw.cpu_core_count
        &&& self.cpu.feature_flags.0 == raw.cpu_feature_flags
        &&& self.memory_regions@ == raw.region_seq().map_values(
            |region: MemoryRegionRaw|
                <MemoryRegion as FromSpec<MemoryRegionRaw>>::from_spec(region),
        )
        &&& self.compute_devices@.len() == raw.device_seq().len()
        &&& forall|i: int|
            0 <= i < raw.device_seq().len() ==> (#[trigger] self.compute_devices@[i]).is_of(
                raw.device_seq()[i],
            )
        &&& self.interrupt_controller == <InterruptControllerInfo as FromSpec<
            InterruptControllerInfoRaw,
        >>::from_spec(raw.interrupt_controller)
        &&& self.timer == <TimerInfo as FromSpec<TimerInfoRaw>>::from_spec(raw.timer)
        &&& self.power_domains@ == raw.domain_seq().map_values(
            |domain: PowerDomainRaw| <PowerDomain as FromSpec<PowerDomainRaw>>::from_spec(domain),
        )
    }

    /// Reads a manifest of fixed size.
    pub fn from_raw(raw: &HardwareManifestRaw) -> (r: Self)
        requires
            raw.memory_region_count <= MAX_MEMORY_REGIONS,
            raw.compute_device_count <= MAX_COMPUTE_DEVICES,
            raw.power_domain_count <= MAX_POWER_DOMAINS,
            forall|i: int|
                0 <= i < raw.compute_device_count ==> (
                #[trigger] raw.compute_devices@[i]).short_name_len <= SHORT_NAME_MAX_LEN,
        ensures
            r.is_of(*raw),
    {
        let regions = raw.memory_regions();
        let mut memory_regions: Vec<MemoryRegion> = Vec::new();
        let mut i: usize = 0;
        while i < regions.len()
            invariant
                i <= regions@.len(),
                memory_regions@.len() == i,
                forall|j: int|
                    0 <= j < i ==> #[trigger] memory_regions@[j] == <MemoryRegion as FromSpec<
                        MemoryRegionRaw,
                    >>::from_spec(regions@[j]),
            decreases regions@.len() - i,
        {
            memory_regions.push(MemoryRegion::from(regions[i]));
            i = i + 1;
        }
        let devices = raw.compute_devices();
        let mut compute_devices: Vec<ComputeDevice<Cap>> = Vec::new();
        let mut i: usize = 0;
        while i < devices.len()
            invariant
                i <= devices@.len(),
                compute_devices@.len() == i,
                forall|j: int|
                    0 <= j < devices@.len() ==> (#[trigger] devices@[j]).short_name_len
                        <= SHORT_NAME_MAX_LEN,
                forall|j: int|
                    0 <= j < i ==> (#[trigger] compute_devices@[j]).is_of(devices@[j]),
            decreases devices@.len() - i,
        {
            compute_devices.push(ComputeDevice::from_raw(&devices[i]));
            i = i + 1;
        }
        let domains = raw.power_domains();
        let mut power_domains: Vec<PowerDomain> = Vec::new();
        let mut i: usize = 0;
        while i < domains.len()
            invariant
                i <= domains@.len(),
                power_domains@.len() == i,
                forall|j: int|
                    0 <= j < i ==> #[trigger] power_domains@[j] == <PowerDomain as FromSpec<
                        PowerDomainRaw,
                    >>::from_spec(domains@[j]),
            decreases domains@.len() - i,
        {
            power_domains.push(PowerDomain::from(domains[i]));
            i = i + 1;
        }
        assert(memory_regions@ =~= regions@.map_values(
            |region: MemoryRegionRaw|
                <MemoryRegion as FromSpec<MemoryRegionRaw>>::from_spec(region),
        ));
        assert(power_domains@ =~= domains@.map_values(
            |domain: PowerDomainRaw| <PowerDomain as FromSpec<PowerDomainRaw>>::from_spec(domain),
        ));
        HardwareManifest {
            cpu: CpuInfo {
                core_count: raw.cpu_core_count as usize,
                feature_flags: CpuFeatureFlags(raw.cpu_feature_flags),
            },
            memory_regions,
            compute_devices,
            interrupt_controller: InterruptControllerInfo::from(raw.interrupt_controller),
            timer: TimerInfo::from(raw.timer),
            power_domains,
        }
    }

    /// How many bytes of memory are usable.
    pub fn total_usable_memory_bytes(&self) -> (r: u64)
        requires
            usable_bytes(self.memory_regions@) <= u64::MAX,
        ensures
            r == usable_bytes(self.memory_regions@),
    {
        let mut total: u64 = 0;
        let mut i: usize = 0;
        while i < self.memory_regions.len()
            invariant
                i <= self.memory_regions@.len(),
                usable_bytes(self.memory_regions@) <= u64::MAX,
                total == usable_bytes(self.memory_regions@.take(i as int)),
            decreases self.memory_regions@.len() - i,
        {
            proof {
                let next = self.memory_regions@.take(i + 1);
                assert(next.drop_last() =~= self.memory_regions@.take(i as int));
                lemma_usable_bytes_grow(self.memory_regions@, i + 1);
            }
            if self.memory_regions[i].kind == MemoryRegionKind::Usable {
                total = total + self.memory_regions[i].length_bytes;
            }
            i = i + 1;
        }
        assert(self.memory_regions@.take(i as int) =~= self.memory_regions@);
        total
    }

    /// The compute devices of the given kind, in order.
    pub fn compute_devices_of_kind(&self, kind: ComputeKind) -> (r: Vec<&ComputeDevice<Cap>>)
        ensures
            r@ == self.compute_devices@.filter(|d: ComputeDevice<Cap>| d.kind == kind).map_values(
                |d: ComputeDevice<Cap>| &d,
            ),
    {
        let mut found: Vec<&ComputeDevice<Cap>> = Vec::new();
        let ghost of_kind = |d: ComputeDevice<Cap>| d.kind == kind;
        let ghost refer = |d: ComputeDevice<Cap>| &d;
        let mut i: usize = 0;
        assert(found@ =~= self.compute_devices@.take(0).filter(of_kind).map_values(refer)) by {
            reveal(Seq::filter);
        }
        while i < self.compute_devices.len()
            invariant
                i <= self.compute_devices@.len(),
                of_kind == (|d: ComputeDevice<Cap>| d.kind == kind),
                refer == (|d: ComputeDevice<Cap>| &d),
                found@ == self.compute_devices@.take(i as int).filter(of_kind).map_values(refer),
            decreases self.compute_devices@.len() - i,
        {
            proof {
                let next = self.compute_devices@.take(i + 1);
                reveal(Seq::filter);
                assert(next.drop_last() =~= self.compute_devices@.take(i as int));
            }
            let ghost before = found@;
            if self.compute_devices[i].kind == kind {
                found.push(&self.compute_devices[i]);
            }
            assert(found@ =~= self.compute_devices@.take(i + 1).filter(of_kind).map_values(refer));
            i = i + 1;
        }
        assert(self.compute_devices@.take(i as int) =~= self.compute_devices@);
        found
    }
}

} // verus!
