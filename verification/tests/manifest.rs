//! The manifest in both forms, and its assembly.

use os_hal::manifest::assembly::assemble_manifest;
use os_hal::manifest::dynamic::{
    ComputeDevice, ComputeKind, HardwareManifest, InterruptControllerInfo,
    InterruptControllerKind, MemoryRegion, MemoryRegionKind, PowerDomain, TimerInfo, TimerKind,
    VendorId,
};
use os_hal::manifest::raw::{
    ComputeDeviceRaw, ComputeKindRaw, HardwareManifestRaw, InterruptControllerInfoRaw,
    InterruptControllerKindRaw, MemoryRegionKindRaw, MemoryRegionRaw, PowerDomainRaw,
    TimerInfoRaw, TimerKindRaw, VendorIdRaw, MAX_MEMORY_REGIONS, MAX_POWER_DOMAINS,
};

#[test]
fn zeroed_manifest_has_no_entries() {
    let m = HardwareManifestRaw::zeroed();
    assert_eq!(m.memory_region_count, 0);
    assert_eq!(m.compute_device_count, 0);
    assert_eq!(m.power_domain_count, 0);
    assert!(m.memory_regions().is_empty());
    assert!(m.compute_devices().is_empty());
    assert!(m.power_domains().is_empty());
}

#[test]
fn push_memory_region_respects_capacity() {
    let mut m = HardwareManifestRaw::zeroed();
    for _ in 0..MAX_MEMORY_REGIONS {
        assert!(m.push_memory_region(MemoryRegionRaw::zero()).is_ok());
    }
    assert!(m.push_memory_region(MemoryRegionRaw::zero()).is_err());
    assert_eq!(m.memory_region_count as usize, MAX_MEMORY_REGIONS);
}

#[test]
fn push_compute_device_assigns_sequential_index() {
    let mut m = HardwareManifestRaw::zeroed();
    m.push_compute_device(ComputeDeviceRaw::zero()).unwrap();
    m.push_compute_device(ComputeDeviceRaw::zero()).unwrap();
    assert_eq!(m.compute_devices()[0].device_index, 0);
    assert_eq!(m.compute_devices()[1].device_index, 1);
}

#[test]
fn push_power_domain_respects_capacity() {
    let mut m = HardwareManifestRaw::zeroed();
    for i in 0..MAX_POWER_DOMAINS {
        let domain = PowerDomainRaw::new(i as u32, 7, true, false);
        assert!(m.push_power_domain(domain).is_ok());
    }
    assert!(m.push_power_domain(PowerDomainRaw::zero()).is_err());
    assert_eq!(m.power_domains()[15].domain_id, 15);
}

#[test]
fn check_struct_sizes() {
    assert_eq!(std::mem::size_of::<MemoryRegionRaw>(), 24);
    assert_eq!(std::mem::size_of::<ComputeDeviceRaw>(), 88);
    assert_eq!(std::mem::size_of::<InterruptControllerInfoRaw>(), 40);
    assert_eq!(std::mem::size_of::<TimerInfoRaw>(), 24);
    assert_eq!(std::mem::size_of::<PowerDomainRaw>(), 16);
}

fn sample_raw() -> HardwareManifestRaw {
    let mut m = HardwareManifestRaw::zeroed();
    m.cpu_core_count = 8;
    m.cpu_feature_flags = 0b1011;

    m.push_memory_region(MemoryRegionRaw {
        base_addr: 0,
        length_bytes: 0x1000_0000,
        kind: MemoryRegionKindRaw::Usable,
        behind_iommu: false,
        ..MemoryRegionRaw::zero()
    })
    .unwrap();

    let mut gpu = ComputeDeviceRaw::zero();
    gpu.kind = ComputeKindRaw::Gpu;
    gpu.vendor = VendorIdRaw(0x10DE);
    gpu.has_dedicated_memory = true;
    gpu.dedicated_memory_bytes = 8 * 1024 * 1024 * 1024;
    gpu.unified_memory_capable = true;
    let name = b"TestGPU";
    gpu.short_name[..name.len()].copy_from_slice(name);
    gpu.short_name_len = name.len() as u8;
    m.push_compute_device(gpu).unwrap();

    m
}

#[test]
fn converts_raw_to_dynamic_correctly() {
    let raw = sample_raw();
    let dyn_manifest: HardwareManifest<()> = HardwareManifest::from_raw(&raw);

    assert_eq!(dyn_manifest.cpu.core_count, 8);
    assert_eq!(dyn_manifest.memory_regions.len(), 1);
    assert_eq!(dyn_manifest.total_usable_memory_bytes(), 0x1000_0000);

    assert_eq!(dyn_manifest.compute_devices.len(), 1);
    let gpu = &dyn_manifest.compute_devices[0];
    assert_eq!(gpu.kind, ComputeKind::Gpu);
    assert_eq!(gpu.vendor, VendorId(0x10DE));
    assert_eq!(gpu.dedicated_memory_bytes, Some(8 * 1024 * 1024 * 1024));
    assert!(gpu.unified_memory_capable);
    assert_eq!(gpu.name, "TestGPU");
    assert!(gpu.capability_token.is_none());
}

#[test]
fn set_capability_token_populates_field() {
    let raw = sample_raw();
    let mut dyn_manifest: HardwareManifest<u64> = HardwareManifest::from_raw(&raw);
    dyn_manifest.compute_devices[0].set_capability_token(42);
    assert_eq!(dyn_manifest.compute_devices[0].capability_token, Some(42));
}

#[test]
fn compute_devices_of_kind_filters_correctly() {
    let raw = sample_raw();
    let dyn_manifest: HardwareManifest<()> = HardwareManifest::from_raw(&raw);
    assert_eq!(dyn_manifest.compute_devices_of_kind(ComputeKind::Gpu).len(), 1);
    assert_eq!(dyn_manifest.compute_devices_of_kind(ComputeKind::Npu).len(), 0);
}

#[test]
fn names_that_are_not_text_are_still_read() {
    let mut raw = ComputeDeviceRaw::zero();
    raw.short_name[0] = b'a';
    raw.short_name[1] = 0xFF;
    raw.short_name[2] = b'b';
    raw.short_name_len = 3;
    let device: ComputeDevice<()> = ComputeDevice::from_raw(&raw);
    assert_eq!(device.name, "a\u{FFFD}b");
}

#[test]
fn only_usable_memory_is_counted() {
    let mut raw = HardwareManifestRaw::zeroed();
    let kinds = [
        MemoryRegionKindRaw::Usable,
        MemoryRegionKindRaw::Reserved,
        MemoryRegionKindRaw::AcpiReclaimable,
        MemoryRegionKindRaw::AcpiNvs,
        MemoryRegionKindRaw::Mmio,
        MemoryRegionKindRaw::KernelImage,
        MemoryRegionKindRaw::BootReserved,
        MemoryRegionKindRaw::Usable,
    ];
    for (i, kind) in kinds.into_iter().enumerate() {
        let region = MemoryRegionRaw::new(0x1000 * i as u64, 1 << i, kind, i % 2 == 1);
        raw.push_memory_region(region).unwrap();
    }
    let read: HardwareManifest<()> = HardwareManifest::from_raw(&raw);
    assert_eq!(read.total_usable_memory_bytes(), 1 + 128);
    assert_eq!(read.memory_regions[3].kind, MemoryRegionKind::AcpiNvs);
    assert_eq!(read.memory_regions[3].base_addr, 0x3000);
    assert!(read.memory_regions[3].behind_iommu);
}

#[test]
fn records_convert_field_by_field() {
    let region = MemoryRegion::from(MemoryRegionRaw::new(1, 2, MemoryRegionKindRaw::Mmio, true));
    assert_eq!((region.base_addr, region.length_bytes, region.behind_iommu), (1, 2, true));
    assert_eq!(region.kind, MemoryRegionKind::Mmio);

    let controller = InterruptControllerInfo::from(InterruptControllerInfoRaw::new(
        InterruptControllerKindRaw::Gicv4,
        3,
        true,
        4,
        5,
        6,
    ));
    assert_eq!(controller.kind, InterruptControllerKind::Gicv4);
    assert_eq!(controller.secondary_base, Some(4));
    assert_eq!((controller.primary_base, controller.irq_line_count), (3, 5));
    assert_eq!(controller.ipi_target_core_count, 6);

    let timer = TimerInfo::from(TimerInfoRaw::new(TimerKindRaw::Hpet, 7, true));
    assert_eq!(timer.kind, TimerKind::Hpet);
    assert_eq!((timer.frequency_hz, timer.supports_tickless), (7, true));

    let none = PowerDomainRaw::NO_ASSOCIATED_DEVICE;
    let package = PowerDomain::from(PowerDomainRaw::new(0, none, true, false));
    assert_eq!(package.associated_compute_device_index, None);
    let device = PowerDomain::from(PowerDomainRaw::new(1, 9, false, true));
    assert_eq!(device.associated_compute_device_index, Some(9));
    assert_eq!((device.supports_dvfs, device.has_thermal_sensor), (false, true));
}

#[test]
fn assembled_manifest_holds_every_part() {
    let regions = [MemoryRegionRaw::new(0x1000, 0x2000, MemoryRegionKindRaw::Usable, true); 70];
    let mut device = ComputeDeviceRaw::zero();
    device.kind = ComputeKindRaw::Fpga;
    device.device_index = 17;
    let devices = [device; 3];
    let domains = [PowerDomainRaw::new(4, 2, true, true)];
    let controller =
        InterruptControllerInfoRaw::new(InterruptControllerKindRaw::PlicClic, 8, false, 0, 512, 1);
    let timer = TimerInfoRaw::new(TimerKindRaw::Tsc, 9, true);
    let m = assemble_manifest(2, 0x41, &regions, &devices, &domains, controller, timer);
    assert_eq!((m.cpu_core_count, m.cpu_feature_flags), (2, 0x41));
    assert_eq!(m.memory_regions(), &regions[..MAX_MEMORY_REGIONS]);
    assert_eq!(m.compute_devices().len(), 3);
    for (i, d) in m.compute_devices().iter().enumerate() {
        assert_eq!(d.device_index, i as u32);
        assert_eq!(d.kind, ComputeKindRaw::Fpga);
    }
    assert_eq!(m.power_domains(), &domains);
    assert_eq!(m.interrupt_controller, controller);
    assert_eq!(m.timer, timer);
}
