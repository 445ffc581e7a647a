//! Laws of the manifest in both of its forms.

use vstd::prelude::*;
use vstd::std_specs::convert::FromSpec;

use crate::manifest::assembly::is_manifest_of;
use crate::manifest::dynamic::{
    usable_bytes, ComputeDevice, ComputeKind, HardwareManifest, InterruptControllerInfo,
    InterruptControllerKind, MemoryRegion, MemoryRegionKind, PowerDomain, TimerInfo, TimerKind,
    VendorId,
};
use crate::manifest::raw::{
    ComputeDeviceRaw, ComputeKindRaw, HardwareManifestRaw, InterruptControllerInfoRaw,
    InterruptControllerKindRaw, MemoryRegionKindRaw, MemoryRegionRaw, PowerDomainRaw,
    TimerInfoRaw, TimerKindRaw, VendorIdRaw,
};

verus! {

/// A record has every property in its own field.
pub proof fn records_hold_their_properties(
    base: u64,
    length: u64,
    kind: MemoryRegionKindRaw,
    iommu: bool,
    controller: InterruptControllerKindRaw,
    secondary: bool,
    second: u64,
    lines: u32,
    cores: u32,
    timer: TimerKindRaw,
    frequency: u64,
    tickless: bool,
    id: u32,
    device: u32,
    scales: bool,
    sensor: bool,
)
    ensures
        ({
            let r = MemoryRegionRaw::of(base, length, kind, iommu);
            r.base_addr == base && r.length_bytes == length && r.kind == kind && r.behind_iommu
                == iommu
        }),
        ({
            let r = InterruptControllerInfoRaw::of(
                controller,
                base,
                secondary,
                second,
                lines,
                cores,
            );
            r.kind == controller && r.primary_base == base && r.has_secondary == secondary
                && r.secondary_base == second && r.irq_line_count == lines
                && r.ipi_target_core_count == cores
        }),
        ({
            let r = TimerInfoRaw::of(timer, frequency, tickless);
            r.kind == timer && r.frequency_hz == frequency && r.supports_tickless == tickless
        }),
        ({
            let r = PowerDomainRaw::of(id, device, scales, sensor);
            r.domain_id == id && r.associated_compute_device_index == device && r.supports_dvfs
                == scales && r.has_thermal_sensor == sensor
        }),
{
}

/// A manifest holds the first 64 regions, the first 32 devices and the first 16
/// domains of its machine, in order; only a device's index is its place in the
/// manifest rather than what it was.
pub proof fn manifest_holds_the_first_of_each(
    manifest: HardwareManifestRaw,
    core_count: u32,
    feature_flags: u64,
    regions: Seq<MemoryRegionRaw>,
    devices: Seq<ComputeDeviceRaw>,
    domains: Seq<PowerDomainRaw>,
    interrupt_controller: InterruptControllerInfoRaw,
    timer: TimerInfoRaw,
    i: int,
)
    requires
        is_manifest_of(
            manifest,
            core_count,
            feature_flags,
            regions,
            devices,
            domains,
            interrupt_controller,
            timer,
        ),
        0 <= i,
    ensures
        manifest.cpu_core_count == core_count,
        manifest.cpu_feature_flags == feature_flags,
        manifest.interrupt_controller == interrupt_controller,
        manifest.timer == timer,
        i < manifest.memory_region_count <==> i < 64 && i < regions.len(),
        i < manifest.memory_region_count ==> manifest.memory_regions@[i] == regions[i],
        i < manifest.compute_device_count <==> i < 32 && i < devices.len(),
        i < manifest.compute_device_count ==> {
            let d = manifest.compute_devices@[i];
            &&& d.device_index == i
            &&& d.kind == devices[i].kind
            &&& d.vendor == devices[i].vendor
            &&& d.has_dedicated_memory == devices[i].has_dedicated_memory
            &&& d.dedicated_memory_bytes == devices[i].dedicated_memory_bytes
            &&& d.unified_memory_capable == devices[i].unified_memory_capable
            &&& d.bandwidth_to_cpu_mbps == devices[i].bandwidth_to_cpu_mbps
            &&& d.short_name == devices[i].short_name
            &&& d.short_name_len == devices[i].short_name_len
        },
        i < manifest.power_domain_count <==> i < 16 && i < domains.len(),
        i < manifest.power_domain_count ==> manifest.power_domains@[i] == domains[i],
{
    assert(manifest.region_seq().len() == manifest.memory_region_count);
    assert(manifest.device_seq().len() == manifest.compute_device_count);
    assert(manifest.domain_seq().len() == manifest.power_domain_count);
    if i < manifest.memory_region_count {
        assert(manifest.region_seq()[i] == manifest.memory_regions@[i]);
    }
    if i < manifest.compute_device_count {
        assert(manifest.device_seq()[i] == manifest.compute_devices@[i]);
    }
    if i < manifest.power_domain_count {
        assert(manifest.domain_seq()[i] == manifest.power_domains@[i]);
    }
}

/// Both forms of the manifest have the same kinds under the same names.
pub proof fn kinds_keep_their_names(
    region: MemoryRegionKindRaw,
    device: ComputeKindRaw,
    controller: InterruptControllerKindRaw,
    timer: TimerKindRaw,
    vendor: VendorIdRaw,
)
    ensures
        ({
            let k = <MemoryRegionKind as FromSpec<MemoryRegionKindRaw>>::from_spec(region);
            &&& k is Usable <==> region is Usable
            &&& k is Reserved <==> region is Reserved
            &&& k is AcpiReclaimable <==> region is AcpiReclaimable
            &&& k is AcpiNvs <==> region is AcpiNvs
            &&& k is Mmio <==> region is Mmio
            &&& k is KernelImage <==> region is KernelImage
            &&& k is BootReserved <==> region is BootReserved
        }),
        ({
            let k = <ComputeKind as FromSpec<ComputeKindRaw>>::from_spec(device);
            &&& k is Cpu <==> device is Cpu
            &&& k is Gpu <==> device is Gpu
            &&& k is Npu <==> device is Npu
            &&& k is Tpu <==> device is Tpu
            &&& k is Fpga <==> device is Fpga
        }),
        ({
            let k = <InterruptControllerKind as FromSpec<InterruptControllerKindRaw>>::from_spec(
                controller,
            );
            &&& k is ApicXapic <==> controller is ApicXapic
            &&& k is ApicX2apic <==> controller is ApicX2apic
            &&& k is Gicv3 <==> controller is Gicv3
            &&& k is Gicv4 <==> controller is Gicv4
            &&& k is PlicClic <==> controller is PlicClic
        }),
        ({
            let k = <TimerKind as FromSpec<TimerKindRaw>>::from_spec(timer);
            &&& k is Tsc <==> timer is Tsc
            &&& k is Hpet <==> timer is Hpet
            &&& k is ArmGenericTimer <==> timer is ArmGenericTimer
            &&& k is RiscvSbiTimer <==> timer is RiscvSbiTimer
        }),
        <VendorId as FromSpec<VendorIdRaw>>::from_spec(vendor).0 == vendor.0,
{
}

/// The growable form of a record holds what the fixed form does; what the fixed
/// form marks as missing is missing.
pub proof fn records_keep_their_contents(
    region: MemoryRegionRaw,
    controller: InterruptControllerInfoRaw,
    timer: TimerInfoRaw,
    domain: PowerDomainRaw,
)
    ensures
        ({
            let r = <MemoryRegion as FromSpec<MemoryRegionRaw>>::from_spec(region);
            &&& r.base_addr == region.base_addr
            &&& r.length_bytes == region.length_bytes
            &&& r.behind_iommu == region.behind_iommu
            &&& r.kind is Usable <==> region.kind is Usable
        }),
        ({
            let r = <InterruptControllerInfo as FromSpec<InterruptControllerInfoRaw>>::from_spec(
                controller,
            );
            &&& r.primary_base == controller.primary_base
            &&& r.secondary_base is Some <==> controller.has_secondary
            &&& r.secondary_base matches Some(base) ==> base == controller.secondary_base
            &&& r.irq_line_count == controller.irq_line_count
            &&& r.ipi_target_core_count == controller.ipi_target_core_count
        }),
        ({
            let r = <TimerInfo as FromSpec<TimerInfoRaw>>::from_spec(timer);
            r.frequency_hz == timer.frequency_hz && r.supports_tickless == timer.supports_tickless
        }),
        ({
            let r = <PowerDomain as FromSpec<PowerDomainRaw>>::from_spec(domain);
            &&& r.domain_id == domain.domain_id
            &&& r.associated_compute_device_index is None
                <==> domain.associated_compute_device_index == 0xFFFF_FFFF
            &&& r.associated_compute_device_index matches Some(index) ==> index
                == domain.associated_compute_device_index
            &&& r.supports_dvfs == domain.supports_dvfs
            &&& r.has_thermal_sensor == domain.has_thermal_sensor
        }),
{
}

/// A device under a name is the fixed record's device: its kind, vendor, memory,
/// link and index, with nothing that grants access yet. Its name is the first bytes
/// of the record's, as many as the record counts.
pub proof fn devices_keep_their_contents<Cap>(
    device: ComputeDevice<Cap>,
    raw: ComputeDeviceRaw,
    name: Seq<char>,
    i: int,
)
    requires
        device.is_named(raw, name),
        raw.short_name_len <= 32,
    ensures
        device.kind is Gpu <==> raw.kind is Gpu,
        device.kind is Npu <==> raw.kind is Npu,
        device.kind is Tpu <==> raw.kind is Tpu,
        device.kind is Cpu <==> raw.kind is Cpu,
        device.vendor.0 == raw.vendor.0,
        device.dedicated_memory_bytes is Some <==> raw.has_dedicated_memory,
        device.dedicated_memory_bytes matches Some(bytes) ==> bytes == raw.dedicated_memory_bytes,
        device.unified_memory_capable == raw.unified_memory_capable,
        device.bandwidth_to_cpu_mbps == raw.bandwidth_to_cpu_mbps,
        device.name@ == name,
        device.device_index == raw.device_index,
        device.capability_token is None,
        raw.name_bytes().len() == raw.short_name_len,
        0 <= i < raw.short_name_len ==> raw.name_bytes()[i] == raw.short_name@[i],
{
}

/// The growable form has everything that the fixed form counts, in its order, and
/// nothing else.
pub proof fn growable_manifest_keeps_everything<Cap>(
    manifest: HardwareManifest<Cap>,
    raw: HardwareManifestRaw,
    i: int,
)
    requires
        manifest.is_of(raw),
        raw.memory_region_count <= 64,
        raw.compute_device_count <= 32,
        raw.power_domain_count <= 16,
        0 <= i,
    ensures
        manifest.cpu.core_count == raw.cpu_core_count,
        manifest.cpu.feature_flags.0 == raw.cpu_feature_flags,
        manifest.memory_regions@.len() == raw.memory_region_count,
        i < raw.memory_region_count ==> manifest.memory_regions@[i] == <MemoryRegion as FromSpec<
            MemoryRegionRaw,
        >>::from_spec(raw.memory_regions@[i]),
        manifest.compute_devices@.len() == raw.compute_device_count,
        i < raw.compute_device_count ==> manifest.compute_devices@[i].is_of(
            raw.compute_devices@[i],
        ),
        manifest.power_domains@.len() == raw.power_domain_count,
        i < raw.power_domain_count ==> manifest.power_domains@[i] == <PowerDomain as FromSpec<
            PowerDomainRaw,
        >>::from_spec(raw.power_domains@[i]),
        manifest.interrupt_controller.primary_base == raw.interrupt_controller.primary_base,
        manifest.interrupt_controller.secondary_base is Some
            <==> raw.interrupt_controller.has_secondary,
        manifest.interrupt_controller.irq_line_count == raw.interrupt_controller.irq_line_count,
        manifest.interrupt_controller.ipi_target_core_count
            == raw.interrupt_controller.ipi_target_core_count,
        manifest.interrupt_controller.kind is PlicClic
            <==> raw.interrupt_controller.kind is PlicClic,
        manifest.timer.frequency_hz == raw.timer.frequency_hz,
        manifest.timer.supports_tickless == raw.timer.supports_tickless,
        manifest.timer.kind is Tsc <==> raw.timer.kind is Tsc,
{
    if i < raw.memory_region_count {
        assert(raw.region_seq()[i] == raw.memory_regions@[i]);
    }
    if i < raw.compute_device_count {
        assert(raw.device_seq()[i] == raw.compute_devices@[i]);
    }
    if i < raw.power_domain_count {
        assert(raw.domain_seq()[i] == raw.power_domains@[i]);
    }
}

/// Usable memory is counted region by region: a usable region adds its length, any
/// other adds nothing, and no region is counted twice or left out.
pub proof fn usable_memory_adds_up(
    regions: Seq<MemoryRegion>,
    others: Seq<MemoryRegion>,
    region: MemoryRegion,
)
    ensures
        usable_bytes(Seq::<MemoryRegion>::empty()) == 0,
        usable_bytes(regions.push(region)) == usable_bytes(regions) + (if region.kind is Usable {
            region.length_bytes as int
        } else {
            0
        }),
        usable_bytes(regions + others) == usable_bytes(regions) + usable_bytes(others),
    decreases others.len(),
{
    assert(regions.push(region).drop_last() =~= regions);
    if others.len() == 0 {
        assert(regions + others =~= regions);
    } else {
        usable_memory_adds_up(regions, others.drop_last(), region);
        assert((regions + others).drop_last() =~= regions + others.drop_last());
        assert((regions + others).last() == others.last());
    }
}

} // verus!
