//! The architecture-independent types, through small mock implementations of the
//! capability traits.

use std::cell::{Cell, RefCell};

use os_hal::hal::boot::{BootInfo, BootProtocol};
use os_hal::hal::compute::{ComputeDevice, ComputeDeviceDiscovery, ComputeKind, VendorId};
use os_hal::hal::cpu::{CpuAbstraction, CpuContext, CpuFeatureFlags, PrivilegeLevel};
use os_hal::hal::error::HalError;
use os_hal::hal::interface::build_interface;
use os_hal::hal::interrupt::{InterruptController, IrqId};
use os_hal::hal::memory::{MapPermissions, MemoryBootstrap, MemoryRegion, PhysAddr, VirtAddr};
use os_hal::hal::platform::PlatformHal;
use os_hal::hal::power::{
    DomainsAboveThresholdIter, DvfsRequest, DvfsState, MilliCelsius, PowerDomain, PowerThermal,
};
use os_hal::hal::timer::{TimerAbstraction, TimerMode};
use os_hal::irq_table::IrqTable;
use os_hal::manifest::raw::{HardwareManifestRaw, MemoryRegionRaw, MAX_COMPUTE_DEVICES};
use os_hal::pci::DeviceList;
use os_hal::report::{boot_report, kernel_report};

type Handler = fn(IrqId);
type Callback = fn();

fn sample_boot_info() -> BootInfo {
    BootInfo::new(
        BootProtocol::Uefi,
        HardwareManifestRaw::zeroed(),
        0x1000,
        (0x10_0000, 0x20_0000),
        (0x20_0000, 0x21_0000),
        0,
    )
}

#[test]
fn freshly_constructed_boot_info_validates() {
    let info = sample_boot_info();
    assert!(info.validate().is_ok());
}

#[test]
fn corrupted_magic_fails_validation() {
    let mut info = sample_boot_info();
    info.magic = 0xDEAD_BEEF_DEAD_BEEF;
    assert_eq!(info.validate(), Err(HalError::MalformedBootInfo));
}

#[test]
fn mismatched_version_fails_validation() {
    let mut info = sample_boot_info();
    info.version = 99;
    assert_eq!(info.validate(), Err(HalError::MalformedBootInfo));
}

#[test]
fn inverted_kernel_image_range_fails_validation() {
    let mut info = sample_boot_info();
    info.kernel_image_phys_start = 0x20_0000;
    info.kernel_image_phys_end = 0x10_0000;
    assert_eq!(info.validate(), Err(HalError::MalformedBootInfo));
}

#[test]
fn inverted_boot_reserved_range_fails_validation() {
    let mut info = sample_boot_info();
    info.boot_reserved_phys_start = 0x22_0000;
    assert_eq!(info.validate(), Err(HalError::MalformedBootInfo));
}

#[test]
fn overlapping_ranges_fail_validation() {
    let mut info = sample_boot_info();
    info.boot_reserved_phys_start = 0x1F_FFFF;
    assert_eq!(info.validate(), Err(HalError::MalformedBootInfo));
    info.boot_reserved_phys_start = 0x10_0000;
    info.boot_reserved_phys_end = 0x10_0000;
    assert!(info.validate().is_ok());
}

#[test]
fn overlaps_kernel_image_detects_correctly() {
    let info = sample_boot_info();
    assert!(info.overlaps_kernel_image(0x15_0000));
    assert!(!info.overlaps_kernel_image(0x5_0000));
    assert!(!info.overlaps_kernel_image(0x20_0000));
}

#[test]
fn overlaps_boot_reserved_detects_correctly() {
    let info = sample_boot_info();
    assert!(info.overlaps_boot_reserved(0x20_5000));
    assert!(!info.overlaps_boot_reserved(0x15_0000));
}

#[test]
fn boot_protocol_records_correctly() {
    let info = sample_boot_info();
    assert_eq!(info.protocol, BootProtocol::Uefi);

    let riscv_info = BootInfo::new(
        BootProtocol::SbiDeviceTree,
        HardwareManifestRaw::zeroed(),
        0x1000,
        (0x10_0000, 0x20_0000),
        (0x20_0000, 0x21_0000),
        0,
    );
    assert_eq!(riscv_info.protocol, BootProtocol::SbiDeviceTree);
}

struct MockComputeDiscovery {
    list: DeviceList,
    fail_rescan: bool,
}

impl MockComputeDiscovery {
    fn new() -> Self {
        let mut list = DeviceList::empty();

        let mut gpu = ComputeDevice::zero();
        gpu.kind = ComputeKind::Gpu;
        gpu.vendor = VendorId(0x10DE);
        gpu.has_dedicated_memory = true;
        gpu.dedicated_memory_bytes = 8 * 1024 * 1024 * 1024;
        gpu.device_index = 0;
        list.devices[0] = gpu;

        let mut npu = ComputeDevice::zero();
        npu.kind = ComputeKind::Npu;
        npu.vendor = VendorId(0x1AE0);
        npu.unified_memory_capable = true;
        npu.device_index = 1;
        list.devices[1] = npu;

        list.count = 2;
        MockComputeDiscovery { list, fail_rescan: false }
    }
}

impl ComputeDeviceDiscovery for MockComputeDiscovery {
    fn enumerate_compute_devices(&self) -> &[ComputeDevice] {
        self.list.as_slice()
    }

    fn rescan(&self, _kind_filter: Option<ComputeKind>) -> Result<(), HalError> {
        if self.fail_rescan {
            return Err(HalError::ComputeDiscoveryFailed);
        }
        Ok(())
    }

    fn device_by_index(&self, device_index: u32) -> Option<&ComputeDevice> {
        self.list.device_by_index(device_index)
    }
}

#[test]
fn enumerate_returns_discovered_devices() {
    let discovery = MockComputeDiscovery::new();
    let devices = discovery.enumerate_compute_devices();
    assert_eq!(devices.len(), 2);
    assert_eq!(devices[0].kind, ComputeKind::Gpu);
    assert_eq!(devices[1].kind, ComputeKind::Npu);
}

#[test]
fn empty_discovery_is_not_an_error() {
    let discovery = MockComputeDiscovery { list: DeviceList::empty(), fail_rescan: false };
    assert!(discovery.enumerate_compute_devices().is_empty());
}

#[test]
fn device_by_index_finds_correct_device() {
    let discovery = MockComputeDiscovery::new();
    let dev = discovery.device_by_index(1).unwrap();
    assert_eq!(dev.kind, ComputeKind::Npu);
    assert!(dev.unified_memory_capable);
}

#[test]
fn device_by_index_returns_none_when_absent() {
    let discovery = MockComputeDiscovery::new();
    assert!(discovery.device_by_index(99).is_none());
}

#[test]
fn rescan_reports_discovery_failure() {
    let discovery = MockComputeDiscovery { list: DeviceList::empty(), fail_rescan: true };
    assert_eq!(discovery.rescan(None), Err(HalError::ComputeDiscoveryFailed));
}

#[test]
fn manifest_capacity_matches_max_compute_devices_constant() {
    assert_eq!(MAX_COMPUTE_DEVICES, 32);
}

const MOCK_CONTEXT_BYTES: usize = 32;

struct MockCpu {
    core_count: usize,
}

impl CpuAbstraction<MOCK_CONTEXT_BYTES> for MockCpu {
    fn core_count(&self) -> usize {
        self.core_count
    }

    fn current_core_id(&self) -> usize {
        0
    }

    fn feature_flags(&self) -> CpuFeatureFlags {
        CpuFeatureFlags(CpuFeatureFlags::SIMD_128).union(CpuFeatureFlags(
            CpuFeatureFlags::WIDE_ATOMICS,
        ))
    }

    fn context_switch(
        &self,
        from: &mut CpuContext<MOCK_CONTEXT_BYTES>,
        to: &CpuContext<MOCK_CONTEXT_BYTES>,
    ) {
        *from.as_bytes_mut() = *to.as_bytes();
    }

    fn set_privilege_level(&self, level: PrivilegeLevel) -> Result<(), HalError> {
        match level {
            PrivilegeLevel::Monitor => Err(HalError::UnsupportedPrivilegeLevel),
            _ => Ok(()),
        }
    }

    fn bootstrap_current_core(&self) -> Result<(), HalError> {
        Ok(())
    }
}

#[test]
fn feature_flags_bitfield_combines_correctly() {
    let cpu = MockCpu { core_count: 4 };
    let flags = cpu.feature_flags();
    assert!(flags.contains(CpuFeatureFlags::SIMD_128));
    assert!(flags.contains(CpuFeatureFlags::WIDE_ATOMICS));
    assert!(!flags.contains(CpuFeatureFlags::SCALABLE_VECTOR));
}

#[test]
fn feature_flag_bits_are_the_documented_ones() {
    assert_eq!(CpuFeatureFlags::SIMD_128, 1);
    assert_eq!(CpuFeatureFlags::SIMD_256, 2);
    assert_eq!(CpuFeatureFlags::SIMD_512, 4);
    assert_eq!(CpuFeatureFlags::SCALABLE_VECTOR, 8);
    assert_eq!(CpuFeatureFlags::CRYPTO_AES, 16);
    assert_eq!(CpuFeatureFlags::CRYPTO_SHA, 32);
    assert_eq!(CpuFeatureFlags::WIDE_ATOMICS, 64);
    assert_eq!(CpuFeatureFlags::VIRTUALIZATION, 128);
    assert_eq!(CpuFeatureFlags::IOMMU_CAPABLE, 256);
    assert_eq!(CpuFeatureFlags::PERF_COUNTERS, 512);
}

#[test]
fn feature_flags_can_be_set_and_cleared() {
    let mut flags = CpuFeatureFlags::empty();
    flags.set(CpuFeatureFlags::CRYPTO_AES, true);
    flags.insert(CpuFeatureFlags::SIMD_128);
    assert_eq!(flags.bits(), 17);
    flags.set(CpuFeatureFlags::CRYPTO_AES, false);
    assert_eq!(flags.bits(), 1);
    flags.set_iommu_capable(true);
    assert_eq!(flags.bits(), 257);
    flags.set_iommu_capable(false);
    assert_eq!(flags.bits(), 1);
    flags.add_feature(9, true);
    flags.add_feature(2, false);
    assert_eq!(flags.bits(), 513);
}

#[test]
fn monitor_privilege_unsupported_on_mock() {
    let cpu = MockCpu { core_count: 4 };
    assert_eq!(
        cpu.set_privilege_level(PrivilegeLevel::Monitor),
        Err(HalError::UnsupportedPrivilegeLevel)
    );
    assert!(cpu.set_privilege_level(PrivilegeLevel::User).is_ok());
}

#[test]
fn context_switch_copies_state() {
    let cpu = MockCpu { core_count: 1 };
    let mut from = CpuContext::<MOCK_CONTEXT_BYTES>::zeroed();
    let mut to = CpuContext::<MOCK_CONTEXT_BYTES>::zeroed();
    to.as_bytes_mut()[0] = 0xAB;

    cpu.context_switch(&mut from, &to);

    assert_eq!(from.as_bytes()[0], 0xAB);
}

#[test]
fn core_count_reflects_mock_topology() {
    let cpu = MockCpu { core_count: 16 };
    assert_eq!(cpu.core_count(), 16);
}

#[test]
fn every_variant_has_a_display_message() {
    let variants = [
        HalError::UnsupportedPrivilegeLevel,
        HalError::InvalidCoreId,
        HalError::MemoryMapUnavailable,
        HalError::TooManyMemoryRegions,
        HalError::InvalidMemoryRegion,
        HalError::NoTimerSource,
        HalError::TicklessModeUnsupported,
        HalError::InvalidTimerDeadline,
        HalError::InvalidIrqId,
        HalError::IrqAlreadyRegistered,
        HalError::InvalidIpiTarget,
        HalError::ComputeDiscoveryFailed,
        HalError::TooManyComputeDevices,
        HalError::InvalidPowerDomain,
        HalError::DvfsUnsupported,
        HalError::ThermalSensorUnavailable,
        HalError::BootProtocolUnrecognized,
        HalError::MalformedBootInfo,
        HalError::InvalidCapabilityToken,
        HalError::HardwareFault,
    ];

    for v in variants {
        assert!(!v.message().is_empty());
    }
}

#[test]
fn error_messages_are_the_documented_ones() {
    assert_eq!(HalError::InvalidPowerDomain.message(), "invalid power domain id");
    assert_eq!(HalError::HardwareFault.message(), "unspecified hardware fault");
}

const TEST_CTX_BYTES: usize = 16;

struct InterfaceCpu;

impl CpuAbstraction<TEST_CTX_BYTES> for InterfaceCpu {
    fn core_count(&self) -> usize {
        4
    }
    fn current_core_id(&self) -> usize {
        2
    }
    fn feature_flags(&self) -> CpuFeatureFlags {
        CpuFeatureFlags(CpuFeatureFlags::SIMD_128)
    }
    fn context_switch(
        &self,
        _from: &mut CpuContext<TEST_CTX_BYTES>,
        _to: &CpuContext<TEST_CTX_BYTES>,
    ) {
    }
    fn set_privilege_level(&self, _level: PrivilegeLevel) -> Result<(), HalError> {
        Ok(())
    }
    fn bootstrap_current_core(&self) -> Result<(), HalError> {
        Ok(())
    }
}

struct InterfaceTimer;

impl TimerAbstraction for InterfaceTimer {
    type Callback = Callback;

    fn now_ns(&self) -> u64 {
        123_456
    }
    fn set_oneshot(&self, _deadline_ns: u64, _mode: TimerMode) -> Result<(), HalError> {
        Ok(())
    }
    fn cancel_oneshot(&self) {}
    fn set_tickless(&self, _enabled: bool) -> Result<(), HalError> {
        Ok(())
    }
    fn set_timer_callback(&self, _callback: Callback) {}
    fn supports_tickless(&self) -> bool {
        true
    }
    fn frequency_hz(&self) -> u64 {
        1_000_000_000
    }
}

#[test]
fn interface_forwards_cpu_calls() {
    let (cpu, timer) = (InterfaceCpu, InterfaceTimer);
    let iface = build_interface(&cpu, &timer);
    assert_eq!(iface.core_count(), 4);
    assert_eq!(iface.current_core_id(), 2);
    assert_eq!(iface.cpu_feature_flags_bits(), CpuFeatureFlags::SIMD_128);
}

#[test]
fn interface_forwards_timer_calls() {
    let (cpu, timer) = (InterfaceCpu, InterfaceTimer);
    let iface = build_interface(&cpu, &timer);
    assert_eq!(iface.now_ns(), 123_456);
    assert_eq!(iface.frequency_hz(), 1_000_000_000);
}

const REPORT: &str = "hello from kernel
---------------------------------------------
boot protocol: Uefi
cpu cores: 0
memory regions: 1
compute devices: 0
power domains: 0
BootInfo validation: OK
---------------------------------------------
hal cpu core count (via HalInterface): 4
hal timer frequency_hz (via HalInterface): 1000000000
kernel-stub halting (Phase 1 HAL boot test complete)
";

#[test]
fn kernel_report_lists_the_machine() {
    let (cpu, timer) = (InterfaceCpu, InterfaceTimer);
    let iface = build_interface(&cpu, &timer);
    let mut info = sample_boot_info();
    info.hardware_manifest.push_memory_region(MemoryRegionRaw::zero()).unwrap();
    assert_eq!(kernel_report(&iface, &info), REPORT.as_bytes());
}

#[test]
fn boot_report_tells_invalid_boot_info() {
    let mut info = sample_boot_info();
    info.magic = 0;
    info.protocol = BootProtocol::SbiDeviceTree;
    let text = String::from_utf8(boot_report(&info, 10, 0)).unwrap();
    assert!(text.contains("boot protocol: SbiDeviceTree\n"));
    assert!(text.contains(
        "BootInfo validation FAILED: malformed boot info structure from bootloader/firmware\n"
    ));
    assert!(text.contains("hal cpu core count (via HalInterface): 10\n"));
    assert!(text.contains("hal timer frequency_hz (via HalInterface): 0\n"));
}

const MOCK_IRQ_LINES: usize = 8;
const MOCK_IPI_CORES: usize = 4;

struct MockInterruptController {
    handlers: RefCell<IrqTable<Handler, MOCK_IRQ_LINES>>,
    masked: RefCell<[bool; MOCK_IRQ_LINES]>,
    last_ipi: Cell<Option<(usize, u8)>>,
}

impl MockInterruptController {
    fn new() -> Self {
        MockInterruptController {
            handlers: RefCell::new(IrqTable::new()),
            masked: RefCell::new([true; MOCK_IRQ_LINES]),
            last_ipi: Cell::new(None),
        }
    }
}

impl InterruptController for MockInterruptController {
    type Handler = Handler;

    fn register_irq(&self, irq: IrqId, handler: Handler) -> Result<(), HalError> {
        let idx = irq.as_u32() as usize;
        if idx >= MOCK_IRQ_LINES {
            return Err(HalError::InvalidIrqId);
        }
        self.handlers.borrow_mut().register(idx, handler)?;
        self.masked.borrow_mut()[idx] = false;
        Ok(())
    }

    fn unregister_irq(&self, irq: IrqId) {
        let idx = irq.as_u32() as usize;
        if idx < MOCK_IRQ_LINES {
            self.handlers.borrow_mut().unregister(idx);
            self.masked.borrow_mut()[idx] = true;
        }
    }

    fn mask_irq(&self, irq: IrqId) -> Result<(), HalError> {
        let idx = irq.as_u32() as usize;
        if idx >= MOCK_IRQ_LINES {
            return Err(HalError::InvalidIrqId);
        }
        self.masked.borrow_mut()[idx] = true;
        Ok(())
    }

    fn unmask_irq(&self, irq: IrqId) -> Result<(), HalError> {
        let idx = irq.as_u32() as usize;
        if idx >= MOCK_IRQ_LINES {
            return Err(HalError::InvalidIrqId);
        }
        self.masked.borrow_mut()[idx] = false;
        Ok(())
    }

    fn send_ipi(&self, target_core: usize, vector: u8) -> Result<(), HalError> {
        if target_core >= MOCK_IPI_CORES {
            return Err(HalError::InvalidIpiTarget);
        }
        self.last_ipi.set(Some((target_core, vector)));
        Ok(())
    }

    fn irq_line_count(&self) -> u32 {
        MOCK_IRQ_LINES as u32
    }

    fn ipi_target_core_count(&self) -> u32 {
        MOCK_IPI_CORES as u32
    }

    fn end_of_interrupt(&self, _irq: IrqId) {}
}

fn dummy_handler(_irq: IrqId) {}

#[test]
fn register_irq_succeeds_within_range() {
    let ctrl = MockInterruptController::new();
    assert!(ctrl.register_irq(IrqId::new(3), dummy_handler).is_ok());
}

#[test]
fn register_irq_rejects_out_of_range() {
    let ctrl = MockInterruptController::new();
    assert_eq!(
        ctrl.register_irq(IrqId::new(999), dummy_handler),
        Err(HalError::InvalidIrqId)
    );
}

#[test]
fn interrupt_register_irq_rejects_double_registration() {
    let ctrl = MockInterruptController::new();
    ctrl.register_irq(IrqId::new(0), dummy_handler).unwrap();
    assert_eq!(
        ctrl.register_irq(IrqId::new(0), dummy_handler),
        Err(HalError::IrqAlreadyRegistered)
    );
}

#[test]
fn interrupt_unregister_allows_re_registration() {
    let ctrl = MockInterruptController::new();
    ctrl.register_irq(IrqId::new(0), dummy_handler).unwrap();
    ctrl.unregister_irq(IrqId::new(0));
    assert!(ctrl.register_irq(IrqId::new(0), dummy_handler).is_ok());
}

#[test]
fn mask_and_unmask_within_range() {
    let ctrl = MockInterruptController::new();
    ctrl.register_irq(IrqId::new(1), dummy_handler).unwrap();
    assert!(ctrl.mask_irq(IrqId::new(1)).is_ok());
    assert!(ctrl.masked.borrow()[1]);
    assert!(ctrl.unmask_irq(IrqId::new(1)).is_ok());
    assert!(!ctrl.masked.borrow()[1]);
}

#[test]
fn send_ipi_rejects_invalid_target() {
    let ctrl = MockInterruptController::new();
    assert_eq!(ctrl.send_ipi(999, 0x30), Err(HalError::InvalidIpiTarget));
}

#[test]
fn send_ipi_records_target_and_vector() {
    let ctrl = MockInterruptController::new();
    assert!(ctrl.send_ipi(2, 0x40).is_ok());
    assert_eq!(ctrl.last_ipi.get(), Some((2, 0x40)));
}

#[test]
fn registering_leaves_other_lines_alone() {
    let mut table: IrqTable<u32, 3> = IrqTable::new();
    table.register(0, 10).unwrap();
    table.register(2, 12).unwrap();
    assert_eq!(table.register(0, 11), Err(HalError::IrqAlreadyRegistered));
    assert_eq!(table.handler(0), Some(10));
    assert_eq!(table.handler(1), None);
    table.unregister(0);
    assert_eq!(table.handler(0), None);
    assert_eq!(table.handler(2), Some(12));
}

struct MockPlatform {
    core_count: usize,
    memory_regions: [MemoryRegion; 1],
    power_domains: [PowerDomain; 0],
    compute_devices: [ComputeDevice; 0],
    armed_deadline: Cell<Option<u64>>,
    irq_handlers: RefCell<[Option<Handler>; 4]>,
}

impl CpuAbstraction<TEST_CTX_BYTES> for MockPlatform {
    fn core_count(&self) -> usize {
        self.core_count
    }
    fn current_core_id(&self) -> usize {
        0
    }
    fn feature_flags(&self) -> CpuFeatureFlags {
        CpuFeatureFlags::empty()
    }
    fn context_switch(
        &self,
        from: &mut CpuContext<TEST_CTX_BYTES>,
        to: &CpuContext<TEST_CTX_BYTES>,
    ) {
        *from.as_bytes_mut() = *to.as_bytes();
    }
    fn set_privilege_level(&self, _level: PrivilegeLevel) -> Result<(), HalError> {
        Ok(())
    }
    fn bootstrap_current_core(&self) -> Result<(), HalError> {
        Ok(())
    }
}

impl MemoryBootstrap for MockPlatform {
    fn physical_memory_map(&self) -> &[MemoryRegion] {
        &self.memory_regions
    }
    fn iommu_present(&self) -> bool {
        false
    }
    fn setup_identity_mapping(
        &self,
        region: MemoryRegion,
        _perms: MapPermissions,
    ) -> Result<VirtAddr, HalError> {
        Ok(VirtAddr::new(region.base_addr as usize))
    }
    fn base_page_size_bytes(&self) -> usize {
        4096
    }
}

impl TimerAbstraction for MockPlatform {
    type Callback = Callback;

    fn now_ns(&self) -> u64 {
        0
    }
    fn set_oneshot(&self, deadline_ns: u64, _mode: TimerMode) -> Result<(), HalError> {
        self.armed_deadline.set(Some(deadline_ns));
        Ok(())
    }
    fn cancel_oneshot(&self) {
        self.armed_deadline.set(None);
    }
    fn set_tickless(&self, _enabled: bool) -> Result<(), HalError> {
        Ok(())
    }
    fn set_timer_callback(&self, _callback: Callback) {}
    fn supports_tickless(&self) -> bool {
        true
    }
    fn frequency_hz(&self) -> u64 {
        1_000_000_000
    }
}

impl InterruptController for MockPlatform {
    type Handler = Handler;

    fn register_irq(&self, irq: IrqId, handler: Handler) -> Result<(), HalError> {
        let idx = irq.as_u32() as usize;
        if idx >= 4 {
            return Err(HalError::InvalidIrqId);
        }
        self.irq_handlers.borrow_mut()[idx] = Some(handler);
        Ok(())
    }
    fn unregister_irq(&self, irq: IrqId) {
        let idx = irq.as_u32() as usize;
        if idx < 4 {
            self.irq_handlers.borrow_mut()[idx] = None;
        }
    }
    fn mask_irq(&self, _irq: IrqId) -> Result<(), HalError> {
        Ok(())
    }
    fn unmask_irq(&self, _irq: IrqId) -> Result<(), HalError> {
        Ok(())
    }
    fn send_ipi(&self, _target_core: usize, _vector: u8) -> Result<(), HalError> {
        Ok(())
    }
    fn irq_line_count(&self) -> u32 {
        4
    }
    fn ipi_target_core_count(&self) -> u32 {
        self.core_count as u32
    }
    fn end_of_interrupt(&self, _irq: IrqId) {}
}

impl ComputeDeviceDiscovery for MockPlatform {
    fn enumerate_compute_devices(&self) -> &[ComputeDevice] {
        &self.compute_devices
    }
    fn rescan(&self, _kind_filter: Option<ComputeKind>) -> Result<(), HalError> {
        Ok(())
    }
    fn device_by_index(&self, _device_index: u32) -> Option<&ComputeDevice> {
        None
    }
}

impl PowerThermal for MockPlatform {
    fn enumerate_power_domains(&self) -> &[PowerDomain] {
        &self.power_domains
    }
    fn read_dvfs_state(&self, _domain_id: u32) -> Result<DvfsState, HalError> {
        Err(HalError::InvalidPowerDomain)
    }
    fn request_dvfs(&self, _domain_id: u32, _request: DvfsRequest) -> Result<(), HalError> {
        Err(HalError::InvalidPowerDomain)
    }
    fn read_temperature(&self, _domain_id: u32) -> Result<MilliCelsius, HalError> {
        Err(HalError::InvalidPowerDomain)
    }
    fn domains_above_threshold(
        &self,
        threshold: MilliCelsius,
    ) -> DomainsAboveThresholdIter<'_, Self> {
        DomainsAboveThresholdIter::new(self, threshold)
    }
}

fn mock_platform() -> MockPlatform {
    MockPlatform {
        core_count: 4,
        memory_regions: [MemoryRegionRaw::zero()],
        power_domains: [],
        compute_devices: [],
        armed_deadline: Cell::new(None),
        irq_handlers: RefCell::new([None; 4]),
    }
}

fn assert_is_platform_hal<H: PlatformHal<TEST_CTX_BYTES>>(_h: &H) {}

#[test]
fn mock_platform_satisfies_platform_hal_bound() {
    let platform = mock_platform();
    assert_is_platform_hal(&platform);
    assert_eq!(platform.core_count(), 4);
    assert_eq!(platform.irq_line_count(), 4);
    assert!(platform.physical_memory_map().len() == 1);
}

struct MockMemory {
    regions: [MemoryRegion; 2],
    iommu: bool,
}

impl MemoryBootstrap for MockMemory {
    fn physical_memory_map(&self) -> &[MemoryRegion] {
        &self.regions
    }

    fn iommu_present(&self) -> bool {
        self.iommu
    }

    fn setup_identity_mapping(
        &self,
        region: MemoryRegion,
        _perms: MapPermissions,
    ) -> Result<VirtAddr, HalError> {
        Ok(VirtAddr::new(region.base_addr as usize))
    }

    fn base_page_size_bytes(&self) -> usize {
        4096
    }
}

fn mock_memory() -> MockMemory {
    MockMemory {
        regions: [
            MemoryRegionRaw {
                base_addr: 0,
                length_bytes: 0x1000_0000,
                ..MemoryRegionRaw::zero()
            },
            MemoryRegionRaw {
                base_addr: 0xFEE0_0000,
                length_bytes: 0x1000,
                ..MemoryRegionRaw::zero()
            },
        ],
        iommu: true,
    }
}

#[test]
fn physical_memory_map_returns_all_regions() {
    let mem = mock_memory();
    assert_eq!(mem.physical_memory_map().len(), 2);
}

#[test]
fn identity_mapping_returns_same_address() {
    let mem = mock_memory();
    let region = mem.physical_memory_map()[0];
    let virt = mem.setup_identity_mapping(region, MapPermissions::kernel_data()).unwrap();
    assert_eq!(virt.as_usize(), region.base_addr as usize);
}

#[test]
fn phys_addr_alignment_rounds_correctly() {
    let addr = PhysAddr::new(0x1001);
    assert_eq!(addr.align_down(0x1000).as_usize(), 0x1000);
    assert_eq!(addr.align_up(0x1000).as_usize(), 0x2000);
}

#[test]
fn aligned_addresses_stay() {
    assert_eq!(PhysAddr::new(0x3000).align_up(0x1000).as_usize(), 0x3000);
    assert_eq!(VirtAddr::new(0x3000).align_down(0x1000).as_usize(), 0x3000);
    assert_eq!(VirtAddr::new(0x3001).align_up(2).as_usize(), 0x3002);
}

#[test]
fn device_mmio_permissions_are_uncached() {
    assert!(MapPermissions::device_mmio().device_uncached);
    assert!(!MapPermissions::kernel_code().device_uncached);
}

#[test]
fn no_permissions_are_writable_and_executable() {
    for perms in [
        MapPermissions::kernel_code(),
        MapPermissions::kernel_data(),
        MapPermissions::kernel_rodata(),
        MapPermissions::device_mmio(),
    ] {
        assert!(perms.readable);
        assert!(!(perms.writable && perms.executable));
    }
}

struct MockPowerThermal {
    domains: [PowerDomain; 2],
    cpu_temp: Cell<MilliCelsius>,
    gpu_temp: Cell<MilliCelsius>,
    cpu_freq_khz: Cell<u32>,
}

impl MockPowerThermal {
    fn new() -> Self {
        MockPowerThermal {
            domains: [
                PowerDomain::new(0, PowerDomain::NO_ASSOCIATED_DEVICE, true, true),
                PowerDomain::new(1, 0, true, true),
            ],
            cpu_temp: Cell::new(MilliCelsius::from_celsius(45)),
            gpu_temp: Cell::new(MilliCelsius::from_celsius(70)),
            cpu_freq_khz: Cell::new(3_200_000),
        }
    }
}

impl PowerThermal for MockPowerThermal {
    fn enumerate_power_domains(&self) -> &[PowerDomain] {
        &self.domains
    }

    fn read_dvfs_state(&self, domain_id: u32) -> Result<DvfsState, HalError> {
        let domain = self
            .domains
            .iter()
            .find(|d| d.domain_id == domain_id)
            .ok_or(HalError::InvalidPowerDomain)?;
        if !domain.supports_dvfs {
            return Err(HalError::DvfsUnsupported);
        }
        Ok(DvfsState {
            current_frequency_khz: self.cpu_freq_khz.get(),
            current_voltage_mv: None,
            throttled: false,
        })
    }

    fn request_dvfs(&self, domain_id: u32, request: DvfsRequest) -> Result<(), HalError> {
        let domain = self
            .domains
            .iter()
            .find(|d| d.domain_id == domain_id)
            .ok_or(HalError::InvalidPowerDomain)?;
        if !domain.supports_dvfs {
            return Err(HalError::DvfsUnsupported);
        }
        self.cpu_freq_khz.set(request.target_frequency_khz);
        Ok(())
    }

    fn read_temperature(&self, domain_id: u32) -> Result<MilliCelsius, HalError> {
        let domain = self
            .domains
            .iter()
            .find(|d| d.domain_id == domain_id)
            .ok_or(HalError::InvalidPowerDomain)?;
        if !domain.has_thermal_sensor {
            return Err(HalError::ThermalSensorUnavailable);
        }
        match domain_id {
            0 => Ok(self.cpu_temp.get()),
            1 => Ok(self.gpu_temp.get()),
            _ => Err(HalError::InvalidPowerDomain),
        }
    }

    fn domains_above_threshold(
        &self,
        threshold: MilliCelsius,
    ) -> DomainsAboveThresholdIter<'_, Self> {
        DomainsAboveThresholdIter::new(self, threshold)
    }
}

#[test]
fn read_temperature_returns_correct_value_per_domain() {
    let power = MockPowerThermal::new();
    assert_eq!(power.read_temperature(0).unwrap(), MilliCelsius::from_celsius(45));
    assert_eq!(power.read_temperature(1).unwrap(), MilliCelsius::from_celsius(70));
}

#[test]
fn read_temperature_rejects_invalid_domain() {
    let power = MockPowerThermal::new();
    assert_eq!(power.read_temperature(99), Err(HalError::InvalidPowerDomain));
}

#[test]
fn dvfs_request_updates_state() {
    let power = MockPowerThermal::new();
    power.request_dvfs(0, DvfsRequest { target_frequency_khz: 1_600_000 }).unwrap();
    let state = power.read_dvfs_state(0).unwrap();
    assert_eq!(state.current_frequency_khz, 1_600_000);
}

#[test]
fn domains_above_threshold_finds_only_hot_domain() {
    let power = MockPowerThermal::new();
    let hot: Vec<u32> = power.domains_above_threshold(MilliCelsius::from_celsius(60)).collect();
    assert_eq!(hot, vec![1]);
}

#[test]
fn no_domains_above_very_high_threshold() {
    let power = MockPowerThermal::new();
    let hot: Vec<u32> = power.domains_above_threshold(MilliCelsius::from_celsius(100)).collect();
    assert!(hot.is_empty());
}

#[test]
fn a_domain_at_the_threshold_is_hot() {
    let power = MockPowerThermal::new();
    let hot: Vec<u32> = power.domains_above_threshold(MilliCelsius::from_celsius(45)).collect();
    assert_eq!(hot, vec![0, 1]);
}

#[test]
fn domains_without_a_sensor_or_reading_are_passed_over() {
    let mut power = MockPowerThermal::new();
    power.domains[0].has_thermal_sensor = false;
    power.domains[1].domain_id = 5;
    let mut walk = power.domains_above_threshold(MilliCelsius::from_celsius(-10));
    assert_eq!(walk.next(), None);
    assert_eq!(walk.next(), None);
}

struct MockTimer {
    now: Cell<u64>,
    armed_deadline: Cell<Option<(u64, TimerMode)>>,
    tickless_enabled: Cell<bool>,
    supports_tickless: bool,
    callback: Cell<Option<Callback>>,
}

impl MockTimer {
    fn new(supports_tickless: bool) -> Self {
        MockTimer {
            now: Cell::new(1_000_000),
            armed_deadline: Cell::new(None),
            tickless_enabled: Cell::new(false),
            supports_tickless,
            callback: Cell::new(None),
        }
    }
}

impl TimerAbstraction for MockTimer {
    type Callback = Callback;

    fn now_ns(&self) -> u64 {
        self.now.get()
    }

    fn set_oneshot(&self, deadline_ns: u64, mode: TimerMode) -> Result<(), HalError> {
        if deadline_ns <= self.now_ns() {
            return Err(HalError::InvalidTimerDeadline);
        }
        if mode == TimerMode::HighResolutionTickless && !self.supports_tickless {
            return Err(HalError::TicklessModeUnsupported);
        }
        self.armed_deadline.set(Some((deadline_ns, mode)));
        Ok(())
    }

    fn cancel_oneshot(&self) {
        self.armed_deadline.set(None);
    }

    fn set_tickless(&self, enabled: bool) -> Result<(), HalError> {
        if enabled && !self.supports_tickless {
            return Err(HalError::TicklessModeUnsupported);
        }
        self.tickless_enabled.set(enabled);
        Ok(())
    }

    fn set_timer_callback(&self, callback: Callback) {
        self.callback.set(Some(callback));
    }

    fn supports_tickless(&self) -> bool {
        self.supports_tickless
    }

    fn frequency_hz(&self) -> u64 {
        1_000_000_000
    }
}

#[test]
fn oneshot_rejects_past_deadline() {
    let timer = MockTimer::new(true);
    let now = timer.now_ns();
    assert_eq!(
        timer.set_oneshot(now, TimerMode::Interactive),
        Err(HalError::InvalidTimerDeadline)
    );
}

#[test]
fn oneshot_accepts_future_deadline() {
    let timer = MockTimer::new(true);
    let deadline = timer.now_ns() + 1000;
    assert!(timer.set_oneshot(deadline, TimerMode::Interactive).is_ok());
    assert_eq!(
        timer.armed_deadline.get(),
        Some((deadline, TimerMode::Interactive))
    );
}

#[test]
fn tickless_mode_rejected_when_unsupported() {
    let timer = MockTimer::new(false);
    let deadline = timer.now_ns() + 1000;
    assert_eq!(
        timer.set_oneshot(deadline, TimerMode::HighResolutionTickless),
        Err(HalError::TicklessModeUnsupported)
    );
    assert_eq!(timer.set_tickless(true), Err(HalError::TicklessModeUnsupported));
}

#[test]
fn tickless_mode_accepted_when_supported() {
    let timer = MockTimer::new(true);
    assert!(timer.set_tickless(true).is_ok());
    assert!(timer.tickless_enabled.get());
}

#[test]
fn cancel_oneshot_clears_armed_deadline() {
    let timer = MockTimer::new(true);
    let deadline = timer.now_ns() + 1000;
    timer.set_oneshot(deadline, TimerMode::Interactive).unwrap();
    timer.cancel_oneshot();
    assert_eq!(timer.armed_deadline.get(), None);
}

#[test]
fn callback_registration_is_recorded() {
    fn dummy_callback() {}
    let timer = MockTimer::new(true);
    timer.set_timer_callback(dummy_callback);
    assert!(timer.callback.get().is_some());
}

#[test]
fn ticks_and_nanoseconds_convert() {
    assert_eq!(os_hal::clock::first_tick_at(333_333_333, 3), 1);
    assert_eq!(os_hal::clock::first_tick_at(333_333_334, 3), 2);
    assert_eq!(os_hal::clock::first_tick_at(0, 3), 0);
    assert_eq!(os_hal::clock::ticks_to_ns(3, 3), 1_000_000_000);
    assert_eq!(os_hal::clock::ticks_to_ns(1, 3), 333_333_333);
    assert_eq!(os_hal::clock::ns_to_ticks(333_333_334, 3), 1);
    assert_eq!(os_hal::clock::ns_to_ticks(333_333_333, 3), 0);
    assert_eq!(os_hal::clock::ns_to_ticks(u64::MAX, 2_000_000_000), 2 * u64::MAX as u128);
    for ns in [0, 1, 999, 333_333_334, 5_000_000_000] {
        for frequency_hz in [1, 3, 1_000, 62_500_000, 3_000_000_000] {
            let ticks = os_hal::clock::ns_to_ticks(ns, frequency_hz) as u64;
            assert!(os_hal::clock::ticks_to_ns(ticks, frequency_hz) <= ns);
            assert!(os_hal::clock::ticks_to_ns(ticks + 1, frequency_hz) + 1 > ns);
            let first = os_hal::clock::first_tick_at(ns, frequency_hz) as u64;
            assert!(os_hal::clock::ticks_to_ns(first, frequency_hz) >= ns);
            if first > 0 {
                assert!(os_hal::clock::ticks_to_ns(first - 1, frequency_hz) < ns);
            }
        }
    }
}
