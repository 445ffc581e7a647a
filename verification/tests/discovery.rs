//! Reading what firmware and buses report, and bringing a machine up from it.

use os_hal::acpi::{
    acpi_discover, acpi_dmar_present, find_gicd_in_madt, has_table, AcpiDiscoveryResult,
    PhysicalMemory, DMAR_SIGNATURE,
};
use os_hal::arm64::cpu::{IdRegisterSource, IdRegisters};
use os_hal::arm64::platform::Arm64Hal;
use os_hal::compute::ComputeDiscovery;
use os_hal::fdt::{walk_device_tree, DtDiscoveryResult, FdtHeader, FDT_MAGIC};
use os_hal::hal::boot::BootProtocol;
use os_hal::hal::compute::ComputeKind;
use os_hal::hal::error::HalError;
use os_hal::hal::memory::MapPermissions;
use os_hal::hal::power::PowerThermal;
use os_hal::manifest::raw::{
    ComputeKindRaw, InterruptControllerInfoRaw, InterruptControllerKindRaw, MemoryRegionKindRaw,
    MemoryRegionRaw, TimerKindRaw, MAX_COMPUTE_DEVICES, MAX_MEMORY_REGIONS,
};
use os_hal::paging::{PageFormat, PageTables, TABLE_POOL_SIZE};
use os_hal::pci::{bar_size, read_pci_header, PciFunction, PciRequest, PciScan};
use os_hal::riscv64::platform::Riscv64Hal;
use os_hal::uefi::{is_readable, locate_acpi_rsdp, read_regions, UefiMemoryType};
use os_hal::x86_64::cpu::{CpuidResult, CpuidSource};
use os_hal::x86_64::platform::X86_64Hal;

fn put(bytes: &mut Vec<u8>, at: usize, value: &[u8]) {
    if bytes.len() < at + value.len() {
        bytes.resize(at + value.len(), 0);
    }
    bytes[at..at + value.len()].copy_from_slice(value);
}

/// A memory map with the given (type, start, pages) descriptors.
fn memory_map(stride: u64, descriptors: &[(u32, u64, u64)], rsdp: u64) -> Vec<u8> {
    let size = stride * descriptors.len() as u64;
    let mut blob = vec![0; 16 + size as usize + 8];
    put(&mut blob, 0, &size.to_le_bytes());
    put(&mut blob, 8, &stride.to_le_bytes());
    for (i, &(ty, start, pages)) in descriptors.iter().enumerate() {
        let at = 16 + i * stride as usize;
        put(&mut blob, at, &ty.to_le_bytes());
        put(&mut blob, at + 8, &start.to_le_bytes());
        put(&mut blob, at + 24, &pages.to_le_bytes());
    }
    put(&mut blob, 16 + size as usize, &rsdp.to_le_bytes());
    blob
}

#[test]
fn memory_maps_are_read_in_order() {
    let blob = memory_map(
        48,
        &[(7, 0x10_0000, 256), (5, 0x20_0000, 1), (11, 0xFEC0_0000, 2), (99, 0, 0)],
        0xE_0000,
    );
    let list = read_regions(&blob, true);
    let regions = list.as_slice();
    assert_eq!(regions.len(), 4);
    assert_eq!((regions[0].base_addr, regions[0].length_bytes), (0x10_0000, 0x10_0000));
    assert_eq!(regions[0].kind, MemoryRegionKindRaw::Usable);
    assert_eq!(regions[1].kind, MemoryRegionKindRaw::Reserved);
    assert_eq!((regions[2].kind, regions[2].length_bytes), (MemoryRegionKindRaw::Mmio, 0x2000));
    assert_eq!(regions[3].kind, MemoryRegionKindRaw::Reserved);
    assert!(regions.iter().all(|region| region.behind_iommu));
    assert_eq!(locate_acpi_rsdp(&blob), 0xE_0000);
}

#[test]
fn memory_maps_are_cut_to_capacity() {
    let descriptors = [(7, 0x1000, 1); MAX_MEMORY_REGIONS + 5];
    let blob = memory_map(40, &descriptors, 0);
    assert_eq!(read_regions(&blob, false).as_slice().len(), MAX_MEMORY_REGIONS);
    let short = memory_map(32, &[(7, 0x1000, 1)], 0);
    assert!(read_regions(&short, false).as_slice().is_empty());
    assert!(read_regions(&memory_map(0, &[], 0), false).as_slice().is_empty());
}

#[test]
fn damaged_memory_maps_are_not_readable() {
    let blob = memory_map(40, &[(7, 0x1000, 1), (7, 0x2000, u64::MAX / 4096)], 0);
    assert!(is_readable(&blob));
    assert!(!is_readable(&blob[..blob.len() - 1]));
    assert!(!is_readable(&blob[..23]));
    assert!(!is_readable(&memory_map(40, &[(7, 0x1000, u64::MAX / 4096 + 1)], 0)));
    assert!(is_readable(&memory_map(0, &[], 0)));
    let mut huge = blob.clone();
    put(&mut huge, 0, &u64::MAX.to_le_bytes());
    assert!(!is_readable(&huge));
}

#[test]
fn memory_types_are_numbered() {
    assert_eq!(UefiMemoryType::from_u32(7), Some(UefiMemoryType::ConventionalMemory));
    assert_eq!(UefiMemoryType::from_u32(14), Some(UefiMemoryType::PersistentMemory));
    assert_eq!(UefiMemoryType::from_u32(15), None);
}

const FIRMWARE: u64 = 0xE_0000;

/// Tables with the given signatures, the first at `FIRMWARE + 0x200`, listed by
/// a root table that the root pointer at `FIRMWARE` leads to.
fn tables(signatures: &[&[u8; 4]]) -> Vec<u8> {
    let mut bytes = vec![0; 0x100];
    put(&mut bytes, 24, &(FIRMWARE + 0x100).to_le_bytes());
    put(&mut bytes, 0x100, b"XSDT");
    put(&mut bytes, 0x104, &(36 + 8 * signatures.len() as u32).to_le_bytes());
    for (i, signature) in signatures.iter().enumerate() {
        let at = 0x200 + 0x100 * i;
        put(&mut bytes, 0x100 + 36 + 8 * i, &(FIRMWARE + at as u64).to_le_bytes());
        put(&mut bytes, at, &signature[..]);
        put(&mut bytes, at + 4, &36u32.to_le_bytes());
        put(&mut bytes, at + 0xFF, &[0]);
    }
    bytes
}

#[test]
fn tables_are_found_by_signature() {
    let bytes = tables(&[b"FACP", b"DMAR"]);
    let mem = PhysicalMemory { base: FIRMWARE, bytes: &bytes };
    assert!(acpi_dmar_present(&mem, FIRMWARE));
    assert!(has_table(&mem, FIRMWARE, u32::from_le_bytes(*b"FACP")));
    assert!(!has_table(&mem, FIRMWARE, u32::from_le_bytes(*b"APIC")));
    assert!(!acpi_dmar_present(&mem, 0));
    assert!(!acpi_dmar_present(&mem, FIRMWARE + 8));
    assert!(!acpi_dmar_present(&mem, u64::MAX));
    let other = tables(&[b"FACP"]);
    assert!(!has_table(&PhysicalMemory { base: FIRMWARE, bytes: &other }, FIRMWARE, DMAR_SIGNATURE));
    assert!(!has_table(&PhysicalMemory { base: 0, bytes: &[] }, FIRMWARE, DMAR_SIGNATURE));
}

#[test]
fn the_distributor_is_found() {
    let mut bytes = tables(&[b"IORT", b"APIC"]);
    let madt = 0x300;
    put(&mut bytes, madt + 4, &(44u32 + 80 + 24).to_le_bytes());
    put(&mut bytes, madt + 44, &[0x0B, 80]);
    put(&mut bytes, madt + 124, &[0x0C, 24]);
    put(&mut bytes, madt + 132, &0x0900_0000u64.to_le_bytes());
    let mem = PhysicalMemory { base: FIRMWARE, bytes: &bytes };
    assert_eq!(
        acpi_discover(&mem, FIRMWARE),
        AcpiDiscoveryResult { gicd_base: Some(0x0900_0000), smmu_present: true }
    );
    assert_eq!(find_gicd_in_madt(&mem, FIRMWARE + madt as u64, 148), Some(0x0900_0000));
    assert_eq!(find_gicd_in_madt(&mem, FIRMWARE + madt as u64, 124), None);
    assert_eq!(acpi_discover(&mem, 0), AcpiDiscoveryResult::default());
    put(&mut bytes, madt + 45, &[0]);
    let mem = PhysicalMemory { base: FIRMWARE, bytes: &bytes };
    assert_eq!(acpi_discover(&mem, FIRMWARE).gicd_base, None);
}

/// Builds the two blocks of a device tree.
struct TreeWriter {
    structure: Vec<u8>,
    strings: Vec<u8>,
}

impl TreeWriter {
    fn new() -> Self {
        TreeWriter { structure: Vec::new(), strings: Vec::new() }
    }

    fn word(&mut self, word: u32) {
        self.structure.extend(word.to_be_bytes());
    }

    fn pad(&mut self) {
        while self.structure.len() % 4 != 0 {
            self.structure.push(0);
        }
    }

    fn begin(&mut self, name: &str) {
        self.word(1);
        self.structure.extend(name.bytes());
        self.structure.push(0);
        self.pad();
    }

    fn prop(&mut self, name: &str, value: &[u8]) {
        self.word(3);
        self.word(value.len() as u32);
        self.word(self.strings.len() as u32);
        self.strings.extend(name.bytes());
        self.strings.push(0);
        self.structure.extend(value);
        self.pad();
    }

    fn end(&mut self) {
        self.word(2);
    }

    fn finish(mut self) -> Vec<u8> {
        self.word(9);
        let mut blob = Vec::new();
        let strings_at = 40 + self.structure.len() as u32;
        for word in [
            FDT_MAGIC,
            strings_at + self.strings.len() as u32,
            40,
            strings_at,
            0,
            17,
            16,
            0,
            self.strings.len() as u32,
            self.structure.len() as u32,
        ] {
            blob.extend(word.to_be_bytes());
        }
        blob.extend(self.structure);
        blob.extend(self.strings);
        blob
    }
}

fn pair(first: u64, second: u64) -> Vec<u8> {
    [first.to_be_bytes(), second.to_be_bytes()].concat()
}

fn sample_tree() -> TreeWriter {
    let mut tree = TreeWriter::new();
    tree.begin("");
    tree.prop("compatible", b"riscv-virtio\0");
    tree.begin("memory@80000000");
    tree.prop("device_type", b"memory\0");
    tree.prop("reg", &pair(0x8000_0000, 0x4000_0000));
    tree.end();
    tree.word(4);
    tree.begin("soc");
    tree.begin("plic@d000000");
    tree.prop("reg", &pair(0x0D00_0000, 0x60_0000));
    tree.prop("compatible", b"sifive,plic-1.0.0\0riscv,plic0\0");
    tree.end();
    tree.end();
    tree
}

#[test]
fn device_trees_are_walked() {
    let mut tree = sample_tree();
    tree.end();
    let blob = tree.finish();
    assert_eq!(
        walk_device_tree(&blob),
        DtDiscoveryResult {
            plic_base: Some(0x0D00_0000),
            iommu_present: false,
            memory_base: Some(0x8000_0000),
            memory_size: Some(0x4000_0000),
        }
    );
    let header = FdtHeader::read(&blob).unwrap();
    assert_eq!((header.off_dt_struct, header.version), (40, 17));
    assert_eq!(header.totalsize as usize, blob.len());
}

#[test]
fn an_iommu_is_noticed() {
    let mut tree = sample_tree();
    tree.begin("iommu@1000");
    tree.prop("compatible", b"riscv,iommu\0");
    tree.end();
    tree.end();
    assert!(walk_device_tree(&tree.finish()).iommu_present);
}

#[test]
fn the_last_memory_node_counts() {
    let mut tree = sample_tree();
    tree.begin("memory@100000000");
    tree.prop("reg", &pair(0x1_0000_0000, 0x1000));
    tree.end();
    tree.end();
    let found = walk_device_tree(&tree.finish());
    assert_eq!((found.memory_base, found.memory_size), (Some(0x1_0000_0000), Some(0x1000)));
}

#[test]
fn damaged_trees_end_the_walk() {
    let mut tree = sample_tree();
    tree.end();
    let blob = tree.finish();
    for cut in 0..blob.len() {
        let found = walk_device_tree(&blob[..cut]);
        assert!(found.plic_base.is_none() || found.plic_base == Some(0x0D00_0000));
        assert!(found.memory_base.is_none() || found.memory_base == Some(0x8000_0000));
    }
    assert_eq!(walk_device_tree(&blob[..39]), DtDiscoveryResult::default());
    let mut wrong = blob.clone();
    wrong[0] = 0;
    assert_eq!(walk_device_tree(&wrong), DtDiscoveryResult::default());
    assert_eq!(FdtHeader::read(&wrong), None);
}

/// A function of a simulated bus: its position, its first four dwords, its base
/// address register and that register's writable bits.
#[derive(Clone)]
struct Function {
    at: PciFunction,
    dwords: [u32; 4],
    bar: u32,
    writable: u32,
}

fn function(bus: u8, device: u8, function: u8, id: u32, class: u32, multi: bool) -> Function {
    let header = if multi { 0x0080_0000 } else { 0 };
    Function {
        at: PciFunction { bus, device, function },
        dwords: [id, 0, class << 16, header],
        bar: 0xE000_0008,
        writable: 0xF000_0000,
    }
}

/// Answers a scan from the simulated functions.
fn run(bus: &mut Vec<Function>) -> PciScan {
    let mut scan = PciScan::start();
    while let Some(request) = scan.request() {
        let value = match request {
            PciRequest::Read { at, offset } => match bus.iter().find(|f| f.at == at) {
                Some(f) if offset == 0x10 => f.bar,
                Some(f) => f.dwords[offset as usize / 4],
                None => 0xFFFF_FFFF,
            },
            PciRequest::Write { at, offset, value } => {
                assert_eq!(offset, 0x10);
                let f = bus.iter_mut().find(|f| f.at == at).unwrap();
                f.bar = (value & f.writable) | (f.bar & 0xF & !f.writable);
                0
            },
        };
        scan.answer(value);
    }
    scan
}

#[test]
fn scans_find_compute_devices() {
    let mut bus = vec![
        function(0, 0, 0, 0x1237_8086, 0x0600, false),
        function(0, 2, 0, 0x1111_1234, 0x0300, true),
        function(0, 2, 3, 0x0001_1AE0, 0x0880, false),
        function(0, 4, 1, 0x2222_1234, 0x0300, false),
        function(255, 31, 0, 0x3333_4321, 0x1200, false),
    ];
    bus[4].bar = 0x0000_C001;
    let before = bus.clone();
    let scan = run(&mut bus);
    assert!(!scan.overflowed);
    let discovery = ComputeDiscovery::new(scan);
    let devices = discovery.enumerate_compute_devices();
    let found: Vec<(ComputeKindRaw, u32, bool, u64, u32)> = devices
        .iter()
        .map(|d| {
            (d.kind, d.vendor.0, d.has_dedicated_memory, d.dedicated_memory_bytes, d.device_index)
        })
        .collect();
    assert_eq!(
        found,
        vec![
            (ComputeKindRaw::Gpu, 0x1234, true, 0x1000_0000, 0),
            (ComputeKindRaw::Tpu, 0x1AE0, true, 0x1000_0000, 1),
            (ComputeKindRaw::Npu, 0x4321, false, 0, 2),
        ]
    );
    for (f, g) in bus.iter().zip(&before) {
        assert_eq!(f.bar, g.bar);
    }
    assert_eq!(discovery.device_by_index(1).unwrap().vendor.0, 0x1AE0);
    assert!(discovery.device_by_index(3).is_none());
}

#[test]
fn too_many_devices_are_reported() {
    let mut bus = Vec::new();
    for device in 0..MAX_COMPUTE_DEVICES as u8 + 1 {
        bus.push(function(device / 32, device % 32, 0, 0x1111_1234, 0x0300, false));
    }
    let scan = run(&mut bus);
    assert!(scan.overflowed);
    let mut discovery = ComputeDiscovery::new(run(&mut Vec::new()));
    assert!(discovery.enumerate_compute_devices().is_empty());
    assert_eq!(discovery.rescan(None, scan), Err(HalError::TooManyComputeDevices));
    assert_eq!(discovery.enumerate_compute_devices().len(), MAX_COMPUTE_DEVICES);
    for i in 0..MAX_COMPUTE_DEVICES {
        let device = discovery.device_by_index(i as u32).unwrap();
        assert_eq!(device.device_index, i as u32);
        assert_eq!(device, &discovery.enumerate_compute_devices()[i]);
    }
    assert!(discovery.device_by_index(MAX_COMPUTE_DEVICES as u32).is_none());
    bus.truncate(2);
    let scan = run(&mut bus);
    assert_eq!(discovery.rescan(Some(ComputeKind::Npu), scan), Ok(()));
    assert_eq!(discovery.enumerate_compute_devices().len(), 2);
}

#[test]
fn headers_and_registers_are_decoded() {
    let header = read_pci_header(0x1111_1234, 0x0302_0001, 0x0080_0000).unwrap();
    assert_eq!((header.vendor_id, header.device_id), (0x1234, 0x1111));
    assert_eq!((header.class_code, header.subclass, header.header_type), (3, 2, 0x80));
    assert_eq!(read_pci_header(0x1111_FFFF, 0, 0), None);
    assert_eq!(bar_size(0xE000_0008, 0xF000_0008), Some(0x1000_0000));
    assert_eq!(bar_size(0, 0xFFFF_FFF0), Some(16));
    assert_eq!(bar_size(0, 4), Some(0x1_0000_0000));
    assert_eq!(bar_size(0, 0), None);
    assert_eq!(bar_size(0xC001, 0xFFFF_FFF0), None);
}

/// What the hardware would find in the tables for the page at `virt`.
fn walk(tables: &PageTables, virt: u64) -> Option<u64> {
    let levels = tables.format.level_count();
    let mut table = 0;
    for level in (0..levels).rev() {
        let word = tables.words[table * 512 + (virt >> (12 + 9 * level)) as usize % 512];
        if word % 2 == 0 {
            return None;
        }
        if level == 0 {
            return Some(word);
        }
        table = ((tables.format.decode_target(word) - tables.base) / 4096) as usize;
    }
    None
}

#[test]
fn every_page_of_a_region_is_mapped_to_itself() {
    for format in [PageFormat::X86_64, PageFormat::Arm64, PageFormat::Sv39] {
        let mut tables = PageTables::new(format, 0x8010_0000);
        let start = tables.map_identity(0x20_1800, 0x3000, 0).unwrap();
        assert_eq!(start, 0x20_1000);
        for page in 0x201..0x205u64 {
            let word = walk(&tables, page * 4096).unwrap();
            assert_eq!(format.decode_target(word), page * 4096);
        }
        assert_eq!(walk(&tables, 0x20_0000), None);
        assert_eq!(walk(&tables, 0x20_5000), None);
        let used = tables.used;
        assert_eq!(tables.map_identity(0x20_1800, 0x3000, 0), Ok(0x20_1000));
        assert_eq!(tables.used, used);
        assert_eq!(tables.map_identity(0x20_1000, 0x1000, 8), Err(HalError::InvalidMemoryRegion));
    }
}

#[test]
fn regions_that_cannot_be_mapped_are_refused() {
    let mut tables = PageTables::new(PageFormat::Sv39, 0x8010_0000);
    assert_eq!(tables.map_identity(0x1000, 0, 0), Err(HalError::InvalidMemoryRegion));
    assert_eq!(
        tables.map_identity(0x80_0000_0000, 0x1000, 0),
        Err(HalError::InvalidMemoryRegion)
    );
    assert_eq!(
        tables.map_identity(0xFFFF_FFFF_FFFF_F000, 0x2000, 0),
        Err(HalError::InvalidMemoryRegion)
    );
    assert_eq!(tables.used, 0);
    for gigabyte in 0..TABLE_POOL_SIZE as u64 / 2 {
        assert!(tables.map_identity(gigabyte << 30, 1, 0).is_ok());
    }
    assert_eq!(tables.used, TABLE_POOL_SIZE);
    assert_eq!(tables.map_identity(100 << 30, 1, 0), Err(HalError::InvalidMemoryRegion));
    assert!(tables.map_identity(0x1000, 1, 0).is_ok());
}

struct PlainCpuid;

impl CpuidSource for PlainCpuid {
    fn cpuid(&self, leaf: u32, _subleaf: u32) -> CpuidResult {
        match leaf {
            1 => CpuidResult { eax: 0, ebx: 2 << 24, ecx: 1 << 21, edx: 1 << 26 },
            0x16 => CpuidResult { eax: 2_000, ebx: 0, ecx: 0, edx: 0 },
            0x15 => CpuidResult { eax: 1, ebx: 1, ecx: 0, edx: 0 },
            _ => CpuidResult::default(),
        }
    }
}

#[test]
fn an_x86_64_machine_is_brought_up() {
    let map = memory_map(40, &[(7, 0x10_0000, 256), (4, 0x40_0000, 16)], FIRMWARE);
    let firmware = tables(&[b"DMAR"]);
    let scan = run(&mut vec![function(0, 2, 0, 0x1111_1234, 0x0300, false)]);
    let inputs = os_hal::x86_64::platform::BootInputs {
        memory_map: &map,
        firmware_memory: PhysicalMemory { base: FIRMWARE, bytes: &firmware },
        apic_base: 0xFEE0_0900,
        temp_target: 100 << 16,
        rapl_units: 1,
        page_table_phys: 0x1000,
        kernel_image: (0x10_0000, 0x20_0000),
        boot_reserved: (0x40_0000, 0x41_0000),
    };
    let (hal, info): (X86_64Hal<fn(), fn()>, _) = X86_64Hal::bring_up(&PlainCpuid, inputs, scan);
    assert_eq!(hal.cpu.current_core_id(), 2);
    assert_eq!(hal.timer.frequency_hz(), 2_000_000_000);
    assert_eq!(hal.timer.detected_kind(), TimerKindRaw::Hpet);
    assert!(hal.memory.iommu_present());
    assert_eq!(hal.memory.region_count(), 2);
    assert!(info.validate().is_ok());
    assert_eq!(info.protocol, BootProtocol::Uefi);
    let manifest = &info.hardware_manifest;
    assert_eq!((manifest.cpu_core_count, manifest.cpu_feature_flags), (1, 257));
    assert_eq!((manifest.memory_region_count, manifest.compute_device_count), (2, 1));
    assert_eq!(manifest.power_domain_count, 2);
    assert!(hal.power.rapl_supported);
    assert_eq!(manifest.memory_regions(), hal.memory.physical_memory_map());
    assert_eq!(manifest.compute_devices(), hal.compute.enumerate_compute_devices());
    assert_eq!(manifest.power_domains(), hal.power.enumerate_power_domains());
    assert!(manifest.power_domains[0].supports_dvfs);
    assert!(manifest.memory_regions[0].behind_iommu);
    assert_eq!(manifest.compute_devices[0].kind, ComputeKindRaw::Gpu);
    assert_eq!(manifest.interrupt_controller.kind, InterruptControllerKindRaw::ApicX2apic);
}

struct PlainRegisters;

impl IdRegisterSource for PlainRegisters {
    fn read(&self) -> IdRegisters {
        IdRegisters { mpidr: 1, ..IdRegisters::default() }
    }
}

#[test]
fn an_arm64_machine_is_brought_up() {
    let map = memory_map(40, &[(7, 0x4000_0000, 256)], FIRMWARE);
    let firmware = tables(&[b"IORT"]);
    let interrupt = InterruptControllerInfoRaw::zero();
    let inputs = os_hal::arm64::platform::BootInputs {
        memory_map: &map,
        firmware_memory: PhysicalMemory { base: FIRMWARE, bytes: &firmware },
        timer_frequency_hz: 62_500_000,
        interrupt,
        page_table_phys: 0x1000,
        kernel_image: (0x4000_0000, 0x4010_0000),
        boot_reserved: (0x4010_0000, 0x4011_0000),
    };
    let (hal, info): (Arm64Hal<fn()>, _) =
        Arm64Hal::bring_up(&PlainRegisters, inputs, run(&mut Vec::new()));
    assert_eq!(hal.cpu.current_core_id(), 1);
    assert_eq!(hal.memory.gicd_base(), 0x0800_0000);
    assert!(hal.memory.iommu_present());
    assert!(info.validate().is_ok());
    assert_eq!(info.hardware_manifest.cpu_feature_flags, 257);
    assert_eq!(info.hardware_manifest.memory_region_count, 1);
    assert_eq!(info.hardware_manifest.timer.frequency_hz, 62_500_000);
    assert_eq!(info.hardware_manifest.power_domain_count, 1);
    assert_eq!(info.hardware_manifest.memory_regions(), hal.memory.physical_memory_map());
    assert_eq!(info.hardware_manifest.compute_devices(), hal.compute.enumerate_compute_devices());
    assert_eq!(info.hardware_manifest.power_domains(), hal.power.enumerate_power_domains());
}

#[test]
fn a_riscv64_machine_is_brought_up() {
    let mut tree = sample_tree();
    tree.end();
    let blob = tree.finish();
    let inputs = os_hal::riscv64::platform::BootInputs {
        hart_id: 3,
        device_tree: &blob,
        sbi_time_available: true,
        satp: 0x8000_0000_0008_0200,
        kernel_image: (0x8020_0000, 0x8030_0000),
        boot_reserved: (0x8030_0000, 0x8031_0000),
    };
    let (hal, info): (Riscv64Hal<fn(), fn()>, _) =
        Riscv64Hal::bring_up(inputs, run(&mut Vec::new()));
    assert_eq!(hal.cpu.current_core_id(), 3);
    assert_eq!(hal.interrupt.primary_base(), 0x0D00_0000);
    assert!(info.validate().is_ok());
    assert_eq!(info.protocol, BootProtocol::SbiDeviceTree);
    assert_eq!(info.initial_page_table_phys, 0x8020_0000);
    assert_eq!(info.boot_core_id, 3);
    let manifest = &info.hardware_manifest;
    assert_eq!(manifest.memory_regions[0].base_addr, 0x8000_0000);
    assert_eq!(manifest.memory_regions[0].length_bytes, 0x4000_0000);
    assert_eq!(manifest.timer.kind, TimerKindRaw::RiscvSbiTimer);
    assert_eq!(manifest.memory_regions(), hal.memory.physical_memory_map());
    assert_eq!(manifest.compute_devices(), hal.compute.enumerate_compute_devices());
    assert_eq!(manifest.power_domains(), hal.power.enumerate_power_domains());
    let mut tables = PageTables::new(PageFormat::Sv39, 0x8040_0000);
    let region = MemoryRegionRaw::new(0x8020_0000, 0x1000, MemoryRegionKindRaw::Usable, false);
    let mapped =
        hal.memory.setup_identity_mapping(&mut tables, region, MapPermissions::kernel_code());
    assert_eq!(mapped.unwrap().as_usize(), 0x8020_0000);
    assert_eq!(walk(&tables, 0x8020_0000), Some((0x8_0200 << 10) | 0xC1 | 2 | 8));
}
