//! The ARM64 architecture.

use std::cell::Cell;
use std::mem::size_of;

use os_hal::acpi::AcpiDiscoveryResult;
use os_hal::arm64::compute::{ecam_offset, QEMU_VIRT_DEFAULT_ECAM_BASE};
use os_hal::arm64::cpu::{
    detect_feature_flags, read_core_id, Arm64Context, Cpu, IdRegisterSource, IdRegisters,
    ARM64_CONTEXT_BYTES,
};
use os_hal::arm64::memory::{
    mmu_enabled, permissions_to_flags, AP_ANY_LEVEL, AP_READ_ONLY, AP_RW_EL1, ATTR_DEVICE,
    ATTR_NORMAL, MAIR_VALUE,
    PXN, QEMU_VIRT_DEFAULT_GICD_BASE, TCR_VALUE, UXN,
};
use os_hal::arm64::power::PowerThermalImpl;
use os_hal::arm64::timer::{on_timer_interrupt, Timer};
use os_hal::hal::compute::ComputeDevice;
use os_hal::hal::cpu::{CpuContext, CpuFeatureFlags, PrivilegeLevel};
use os_hal::hal::error::HalError;
use os_hal::hal::memory::MapPermissions;
use os_hal::hal::power::{DvfsRequest, MilliCelsius, PowerThermal};
use os_hal::hal::timer::TimerMode;
use os_hal::manifest::raw::{
    ComputeKindRaw, MemoryRegionKindRaw, PowerDomainRaw, TimerKindRaw, MAX_POWER_DOMAINS,
};
use os_hal::pci::{
    classify_pci_device, ecam_address, PciDeviceHeader, PciFunction,
    PCI_CLASS_DISPLAY_CONTROLLER, PCI_CLASS_PROCESSING_ACCELERATOR,
};
use os_hal::power::{DomainList, CPU_PACKAGE_DOMAIN_ID};
use os_hal::uefi::{classify_uefi_type, UefiMemoryType};

fn ids_with(isar0: u64, isar1: u64, pfr0: u64) -> IdRegisters {
    IdRegisters { id_aa64isar0: isar0, id_aa64isar1: isar1, id_aa64pfr0: pfr0, mpidr: 0 }
}

#[test]
fn detects_neon_baseline() {
    let ids = ids_with(0, 0, 0);
    let flags = detect_feature_flags(&ids);
    assert!(flags.contains(CpuFeatureFlags::SIMD_128));
}

#[test]
fn detects_sve_when_present() {
    let ids = ids_with(0, 0, 1u64 << 32);
    let flags = detect_feature_flags(&ids);
    assert!(flags.contains(CpuFeatureFlags::SCALABLE_VECTOR));
}

#[test]
fn detects_aes_and_sha() {
    let ids = ids_with((1 << 4) | (1 << 8), 0, 0);
    let flags = detect_feature_flags(&ids);
    assert!(flags.contains(CpuFeatureFlags::CRYPTO_AES));
    assert!(flags.contains(CpuFeatureFlags::CRYPTO_SHA));
}

#[test]
fn detects_lse_atomics() {
    let ids = ids_with(2 << 20, 0, 0);
    let flags = detect_feature_flags(&ids);
    assert!(flags.contains(CpuFeatureFlags::WIDE_ATOMICS));
}

#[test]
fn detects_el2_as_virtualization() {
    let ids = ids_with(0, 0, 1 << 8);
    let flags = detect_feature_flags(&ids);
    assert!(flags.contains(CpuFeatureFlags::VIRTUALIZATION));
}

#[test]
fn absent_fields_are_not_reported() {
    assert_eq!(detect_feature_flags(&ids_with(1 << 20, 0, 0xF << 20)).bits(), 0);
    assert_eq!(detect_feature_flags(&ids_with(1 << 12, 0, 0xF << 20)).bits(), 32);
}

#[test]
fn core_id_reads_mpidr_aff0() {
    let ids = IdRegisters { mpidr: 3, ..IdRegisters::default() };
    assert_eq!(read_core_id(&ids), 3);
}

#[test]
fn arm64_context_matches_declared_size() {
    assert_eq!(size_of::<Arm64Context>(), ARM64_CONTEXT_BYTES);
}

struct FixedRegisters(IdRegisters);

impl IdRegisterSource for FixedRegisters {
    fn read(&self) -> IdRegisters {
        self.0
    }
}

#[test]
fn arm64_cpu_is_identified_by_its_registers() {
    let ids = IdRegisters { mpidr: 0x8000_0102, ..IdRegisters::default() };
    let mut cpu = Cpu::new(&FixedRegisters(ids));
    assert_eq!((cpu.core_count(), cpu.current_core_id()), (1, 2));
    assert_eq!(cpu.feature_flags().bits(), 1);
    cpu.mark_iommu_capable(true);
    assert_eq!(cpu.feature_flags().bits(), 257);
    assert_eq!(
        cpu.set_privilege_level(PrivilegeLevel::Monitor),
        Err(HalError::UnsupportedPrivilegeLevel)
    );
    assert!(cpu.set_privilege_level(PrivilegeLevel::User).is_ok());
}

#[test]
fn arm64_switching_away_and_back_restores_the_registers() {
    let cpu = Cpu::from_registers(&IdRegisters::default());
    let mut first = CpuContext::zeroed();
    let mut second = CpuContext::zeroed();
    let mut live = Arm64Context::load(&first);
    live.x19 = 19;
    live.x30 = 0x8_0000;
    live.sp = 0x9_0000;
    live.ttbr0_el1 = 0x4000;
    live.spsr_el1 = 5;
    let next = cpu.context_switch(&mut first, &second, &live);
    assert_eq!(next.x30, 0);
    assert_eq!(first.as_bytes()[0x58 + 2], 8);
    let back = cpu.context_switch(&mut second, &first, &next);
    assert_eq!((back.x19, back.x30, back.sp, back.ttbr0_el1), (19, 0x8_0000, 0x9_0000, 0x4000));
    assert_eq!(back.spsr_el1, 0);
}

#[test]
fn memory_classify_conventional_memory_as_usable() {
    assert_eq!(
        classify_uefi_type(UefiMemoryType::ConventionalMemory as u32),
        MemoryRegionKindRaw::Usable
    );
}

#[test]
fn permissions_to_flags_device_uses_device_attr() {
    let flags = permissions_to_flags(MapPermissions::device_mmio());
    assert_ne!(flags & ATTR_DEVICE, 0);
    assert_eq!(flags & ATTR_NORMAL, 0);
}

#[test]
fn memory_permissions_to_flags_kernel_code_is_executable() {
    let flags = permissions_to_flags(MapPermissions::kernel_code());
    assert_eq!(flags & PXN, 0);
    assert_eq!(flags & UXN, 0);

    let riscv = os_hal::riscv64::memory::permissions_to_flags(MapPermissions::kernel_code());
    assert_ne!(riscv & os_hal::riscv64::memory::EXECUTE, 0);
    assert_eq!(riscv & os_hal::riscv64::memory::WRITE, 0);
}

#[test]
fn permissions_to_flags_kernel_data_sets_no_execute() {
    let flags = permissions_to_flags(MapPermissions::kernel_data());
    assert_ne!(flags & PXN, 0);
    assert_ne!(flags & UXN, 0);
    assert_ne!(flags & AP_RW_EL1, 0);
}

#[test]
fn pages_are_writable_only_where_permitted() {
    for (perms, writable) in [
        (MapPermissions::kernel_code(), false),
        (MapPermissions::kernel_data(), true),
        (MapPermissions::kernel_rodata(), false),
        (MapPermissions::device_mmio(), true),
    ] {
        let flags = permissions_to_flags(perms);
        assert_eq!(flags & AP_READ_ONLY == 0, writable);
        assert_eq!(flags & AP_ANY_LEVEL, 0);
        assert_eq!(flags & 0x300, 0x300);
    }
    assert_eq!(permissions_to_flags(MapPermissions::kernel_code()), 0x380);
}

#[test]
fn translation_registers_have_the_documented_values() {
    assert_eq!(MAIR_VALUE, 0x00FF);
    assert_eq!(TCR_VALUE, 16 | (1 << 8) | (1 << 10) | (3 << 12));
    assert_eq!(mmu_enabled(0x30D0_0800), 0x30D0_1805);
}

#[test]
fn gicd_base_falls_back_to_qemu_virt_default() {
    let result = AcpiDiscoveryResult::default();
    let base = result.gicd_base.unwrap_or(QEMU_VIRT_DEFAULT_GICD_BASE);
    assert_eq!(base, 0x0800_0000);
}

fn power_with_domains(domains: [PowerDomainRaw; MAX_POWER_DOMAINS], count: usize) -> PowerThermalImpl {
    PowerThermalImpl::with_domains(DomainList { domains, count })
}

fn zeroed_domains() -> [PowerDomainRaw; MAX_POWER_DOMAINS] {
    [PowerDomainRaw::zero(); MAX_POWER_DOMAINS]
}

fn package_only() -> PowerThermalImpl {
    let mut domains = zeroed_domains();
    domains[0] = PowerDomainRaw {
        domain_id: CPU_PACKAGE_DOMAIN_ID,
        supports_dvfs: false,
        has_thermal_sensor: false,
        ..PowerDomainRaw::zero()
    };
    power_with_domains(domains, 1)
}

#[test]
fn cpu_package_domain_reports_unsupported_dvfs() {
    let power = package_only();
    assert_eq!(power.read_dvfs_state(0), Err(HalError::DvfsUnsupported));
    assert_eq!(
        power.request_dvfs(0, DvfsRequest { target_frequency_khz: 1_000_000 }),
        Err(HalError::DvfsUnsupported)
    );
}

#[test]
fn cpu_package_domain_reports_no_thermal_sensor() {
    let power = package_only();
    assert_eq!(power.read_temperature(0), Err(HalError::ThermalSensorUnavailable));
}

#[test]
fn invalid_domain_id_is_rejected() {
    let power = power_with_domains(zeroed_domains(), 0);
    assert_eq!(power.read_temperature(99), Err(HalError::InvalidPowerDomain));
}

#[test]
fn domains_above_threshold_is_always_empty_in_this_mvp_phase() {
    let power = package_only();
    let hot: Vec<u32> = power.domains_above_threshold(MilliCelsius::from_celsius(0)).collect();
    assert!(hot.is_empty());
}

#[test]
fn every_compute_device_has_a_power_domain() {
    let mut devices = [ComputeDevice::zero(); 20];
    for (i, device) in devices.iter_mut().enumerate() {
        device.device_index = 100 + i as u32;
    }
    let power = PowerThermalImpl::new(&devices);
    let domains = power.enumerate_power_domains();
    assert_eq!(domains.len(), MAX_POWER_DOMAINS);
    assert_eq!(
        domains[0].associated_compute_device_index,
        PowerDomainRaw::NO_ASSOCIATED_DEVICE
    );
    assert_eq!(domains[3].domain_id, 3);
    assert_eq!(domains[3].associated_compute_device_index, 102);
    assert_eq!(power.read_dvfs_state(15), Err(HalError::DvfsUnsupported));
    assert_eq!(power.read_dvfs_state(16), Err(HalError::InvalidPowerDomain));
    assert_eq!(
        power.request_dvfs(16, DvfsRequest { target_frequency_khz: 1 }),
        Err(HalError::InvalidPowerDomain)
    );
}

fn timer_with<C>(frequency_hz: u64) -> Timer<C> {
    Timer::new(frequency_hz)
}

#[test]
fn timer_deadline_conversion_is_consistent_with_frequency() {
    let timer: Timer<fn()> = timer_with(1_000_000_000);
    assert_eq!(timer.deadline_ns_to_ticks(5_000), 5_000);

    let mut riscv: os_hal::riscv64::timer::Timer<fn()> = os_hal::riscv64::timer::Timer::new(true);
    riscv.frequency_hz = 1_000_000_000;
    assert_eq!(riscv.deadline_ns_to_ticks(5_000), 5_000);
}

#[test]
fn deadline_conversion_handles_typical_arm_frequency() {
    let timer: Timer<fn()> = timer_with(62_500_000);
    let ticks = timer.deadline_ns_to_ticks(1_000_000_000);
    assert_eq!(ticks, 62_500_000);
}

#[test]
fn tickless_mode_always_supported() {
    let mut timer: Timer<fn()> = timer_with(1_000_000_000);
    assert!(timer.supports_tickless());
    assert!(timer.set_tickless(true).is_ok());
    assert!(timer.tickless_enabled);
}

#[test]
fn detected_kind_is_always_generic_timer() {
    let timer: Timer<fn()> = timer_with(1_000_000_000);
    assert_eq!(timer.detected_kind(), TimerKindRaw::ArmGenericTimer);
}

#[test]
fn timer_callback_registration_is_invoked_by_on_timer_interrupt() {
    let fired = Cell::new(false);
    let mut timer = timer_with(1_000_000_000);
    timer.set_timer_callback(|| fired.set(true));
    on_timer_interrupt(&timer);
    assert!(fired.get());

    let fired = Cell::new(false);
    let mut timer = os_hal::riscv64::timer::Timer::new(true);
    timer.set_timer_callback(|| fired.set(true));
    os_hal::riscv64::timer::on_timer_interrupt(&timer);
    assert!(fired.get());
}

#[test]
fn arm64_deadlines_are_armed_in_ticks() {
    let timer: Timer<fn()> = timer_with(62_500_000);
    assert_eq!(timer.now_ns(125), 2_000);
    assert_eq!(timer.set_oneshot(2_016, TimerMode::Interactive, 125), Ok(126));
    assert_eq!(timer.set_oneshot(2_001, TimerMode::Interactive, 125), Ok(126));
    assert_eq!(timer.set_oneshot(2_017, TimerMode::Interactive, 125), Ok(127));
    assert_eq!(
        timer.set_oneshot(2_000, TimerMode::Interactive, 125),
        Err(HalError::InvalidTimerDeadline)
    );
    assert_eq!(timer.cancel_oneshot(), u64::MAX);
    assert_eq!(timer.frequency_hz(), 62_500_000);
    let fast: Timer<fn()> = timer_with(4_000_000_000);
    assert_eq!(
        fast.set_oneshot(u64::MAX, TimerMode::HighResolutionTickless, 0),
        Err(HalError::InvalidTimerDeadline)
    );
}

#[test]
fn compute_display_controller_classified_as_gpu() {
    let header = PciDeviceHeader {
        vendor_id: 0x10DE,
        device_id: 0x1234,
        class_code: PCI_CLASS_DISPLAY_CONTROLLER,
        subclass: 0x00,
        header_type: 0,
    };
    assert_eq!(classify_pci_device(&header), Some(ComputeKindRaw::Gpu));
}

#[test]
fn compute_processing_accelerator_classified_as_npu() {
    let header = PciDeviceHeader {
        vendor_id: 0x1234,
        device_id: 0x5678,
        class_code: PCI_CLASS_PROCESSING_ACCELERATOR,
        subclass: 0x00,
        header_type: 0,
    };
    assert_eq!(classify_pci_device(&header), Some(ComputeKindRaw::Npu));
}

#[test]
fn compute_known_vendor_allowlist_overrides_generic_class() {
    let header = PciDeviceHeader {
        vendor_id: 0x1AE0,
        device_id: 0x0001,
        class_code: 0x00,
        subclass: 0x00,
        header_type: 0,
    };
    assert_eq!(classify_pci_device(&header), Some(ComputeKindRaw::Tpu));
}

#[test]
fn compute_ecam_offset_computes_correct_layout() {
    let offset = ecam_offset(1, 2, 3);
    assert_eq!(offset, 0x100000 | 0x10000 | 0x3000);
}

#[test]
fn ecam_offset_zero_for_bus_zero_device_zero_function_zero() {
    assert_eq!(ecam_offset(0, 0, 0), 0);
}

#[test]
fn ecam_window_starts_at_its_base() {
    let at = PciFunction { bus: 1, device: 2, function: 3 };
    assert_eq!(ecam_address(QEMU_VIRT_DEFAULT_ECAM_BASE, at, 0x10), 0x4010_0011_3010);
}

#[test]
fn compute_qemu_virt_default_ecam_base_is_documented_value() {
    assert_eq!(QEMU_VIRT_DEFAULT_ECAM_BASE, 0x4010_0000_0000);
}
