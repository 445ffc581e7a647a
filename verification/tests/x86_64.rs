//! The x86_64 architecture.

use std::cell::Cell;
use std::mem::size_of;

use os_hal::hal::compute::{ComputeDevice, ComputeKind};
use os_hal::hal::cpu::{CpuContext, CpuFeatureFlags, PrivilegeLevel};
use os_hal::hal::error::HalError;
use os_hal::hal::interrupt::IrqId;
use os_hal::hal::memory::MapPermissions;
use os_hal::hal::power::{DvfsRequest, DvfsState, MilliCelsius};
use os_hal::hal::timer::TimerMode;
use os_hal::manifest::raw::{
    ComputeKindRaw, InterruptControllerKindRaw, MemoryRegionKindRaw, MemoryRegionRaw, TimerKindRaw,
};
use os_hal::paging::{PageFormat, PageTables};
use os_hal::pci::{
    classify_pci_device, config_address, PciDeviceHeader, PCI_CLASS_DISPLAY_CONTROLLER,
    PCI_CLASS_PROCESSING_ACCELERATOR,
};
use os_hal::uefi::{classify_uefi_type, UefiMemoryType};
use os_hal::x86_64::cpu::{
    detect_feature_flags, global_descriptor_table, interrupt_descriptor_table,
    read_initial_apic_id, Cpu, CpuidResult, CpuidSource, SegmentSelector, X86_64Context,
    X86_64_CONTEXT_BYTES,
};
use os_hal::x86_64::interrupt::{
    detect_x2apic, dispatch_vector, select_target, set_global_controller, set_global_timer,
    xapic_mmio_base, ApicMode, ApicRegister, DispatchTarget, GlobalState, InterruptCtrl,
    RegisterWrite, FIRST_USABLE_IRQ_VECTOR, IRQ_TABLE_SIZE,
};
use os_hal::x86_64::memory::{
    permissions_to_flags, CACHE_DISABLE, NO_EXECUTE, WRITABLE, WRITE_THROUGH,
};
use os_hal::x86_64::power::PowerThermalImpl;
use os_hal::x86_64::timer::{
    detect_tsc_capabilities, detect_tsc_frequency_hz, on_timer_interrupt, HpetPresence, Timer,
    FALLBACK_TSC_FREQUENCY_HZ,
};

type Handler = fn(IrqId);

struct MockCpuid {
    leaf1: CpuidResult,
    leaf7: CpuidResult,
    leaf_a: CpuidResult,
    leaf_ext1: CpuidResult,
    leaf_ext: CpuidResult,
    leaf15: CpuidResult,
    leaf16: CpuidResult,
}

impl MockCpuid {
    fn blank() -> Self {
        MockCpuid {
            leaf1: CpuidResult::default(),
            leaf7: CpuidResult::default(),
            leaf_a: CpuidResult::default(),
            leaf_ext1: CpuidResult::default(),
            leaf_ext: CpuidResult::default(),
            leaf15: CpuidResult::default(),
            leaf16: CpuidResult::default(),
        }
    }
}

impl CpuidSource for MockCpuid {
    fn cpuid(&self, leaf: u32, _subleaf: u32) -> CpuidResult {
        match leaf {
            1 => self.leaf1,
            7 => self.leaf7,
            0x0A => self.leaf_a,
            0x8000_0001 => self.leaf_ext1,
            0x8000_0007 => self.leaf_ext,
            0x15 => self.leaf15,
            0x16 => self.leaf16,
            _ => CpuidResult::default(),
        }
    }
}

#[test]
fn detects_sse2_and_avx_from_leaf1() {
    let mock = MockCpuid {
        leaf1: CpuidResult { eax: 0, ebx: 0, ecx: 1 << 28, edx: 1 << 26 },
        ..MockCpuid::blank()
    };
    let flags = detect_feature_flags(&mock);
    assert!(flags.contains(CpuFeatureFlags::SIMD_128));
    assert!(flags.contains(CpuFeatureFlags::SIMD_256));
    assert!(!flags.contains(CpuFeatureFlags::SIMD_512));
}

#[test]
fn detects_avx512_from_leaf7() {
    let mock = MockCpuid {
        leaf7: CpuidResult { eax: 0, ebx: 1 << 16, ecx: 0, edx: 0 },
        ..MockCpuid::blank()
    };
    let flags = detect_feature_flags(&mock);
    assert!(flags.contains(CpuFeatureFlags::SIMD_512));
}

#[test]
fn detects_perf_counters_from_leaf_a() {
    let mock = MockCpuid {
        leaf_a: CpuidResult { eax: 2, ebx: 0, ecx: 0, edx: 0 },
        ..MockCpuid::blank()
    };
    let flags = detect_feature_flags(&mock);
    assert!(flags.contains(CpuFeatureFlags::PERF_COUNTERS));
}

#[test]
fn no_perf_counters_when_leaf_a_version_zero() {
    let mock = MockCpuid::blank();
    let flags = detect_feature_flags(&mock);
    assert!(!flags.contains(CpuFeatureFlags::PERF_COUNTERS));
}

#[test]
fn iommu_capable_is_never_set_by_cpuid_alone() {
    let mock = MockCpuid {
        leaf1: CpuidResult { eax: 0, ebx: 0, ecx: 0xFFFF_FFFF, edx: 0xFFFF_FFFF },
        leaf7: CpuidResult { eax: 0, ebx: 0xFFFF_FFFF, ecx: 0, edx: 0 },
        ..MockCpuid::blank()
    };
    let flags = detect_feature_flags(&mock);
    assert!(!flags.contains(CpuFeatureFlags::IOMMU_CAPABLE));
}

#[test]
fn every_reported_feature_is_detected() {
    let mock = MockCpuid {
        leaf1: CpuidResult {
            eax: 0,
            ebx: 0,
            ecx: (1 << 25) | (1 << 13) | (1 << 5),
            edx: 1 << 26,
        },
        leaf7: CpuidResult { eax: 0, ebx: (1 << 5) | (1 << 29), ecx: 0, edx: 0 },
        ..MockCpuid::blank()
    };
    assert_eq!(detect_feature_flags(&mock).bits(), 1 | 2 | 16 | 32 | 64 | 128);
}

#[test]
fn either_kind_of_virtualization_counts() {
    let vmx = MockCpuid {
        leaf1: CpuidResult { eax: 0, ebx: 0, ecx: 1 << 5, edx: 0 },
        ..MockCpuid::blank()
    };
    let svm = MockCpuid {
        leaf_ext1: CpuidResult { eax: 0, ebx: 0, ecx: 1 << 2, edx: 0 },
        ..MockCpuid::blank()
    };
    assert_eq!(detect_feature_flags(&vmx).bits(), CpuFeatureFlags::VIRTUALIZATION);
    assert_eq!(detect_feature_flags(&svm).bits(), CpuFeatureFlags::VIRTUALIZATION);
    assert_eq!(detect_feature_flags(&MockCpuid::blank()).bits(), 0);
}

#[test]
fn x86_64_context_matches_declared_size() {
    assert_eq!(size_of::<X86_64Context>(), X86_64_CONTEXT_BYTES);
}

#[test]
fn initial_apic_id_reads_correct_ebx_bits() {
    let mock = MockCpuid {
        leaf1: CpuidResult { eax: 0, ebx: 7 << 24, ecx: 0, edx: 0 },
        ..MockCpuid::blank()
    };
    assert_eq!(read_initial_apic_id(&mock), 7);
}

#[test]
fn cpu_reports_its_core_and_iommu() {
    let mock = MockCpuid {
        leaf1: CpuidResult { eax: 0, ebx: 3 << 24, ecx: 0, edx: 1 << 26 },
        ..MockCpuid::blank()
    };
    let mut cpu = Cpu::new(&mock);
    assert_eq!((cpu.core_count(), cpu.current_core_id()), (1, 3));
    assert_eq!(cpu.feature_flags().bits(), 1);
    cpu.mark_iommu_capable(true);
    assert_eq!(cpu.feature_flags().bits(), 257);
    cpu.mark_iommu_capable(false);
    assert_eq!(cpu.feature_flags().bits(), 1);
    assert_eq!(
        cpu.set_privilege_level(PrivilegeLevel::Monitor),
        Err(HalError::UnsupportedPrivilegeLevel)
    );
    assert!(cpu.set_privilege_level(PrivilegeLevel::Kernel).is_ok());
}

#[test]
fn segments_and_gates_have_the_documented_encoding() {
    assert_eq!(SegmentSelector::KernelCode.as_u16(), 0x08);
    assert_eq!(SegmentSelector::KernelData.as_u16(), 0x10);
    assert_eq!(SegmentSelector::UserCode.as_u16(), 0x1B);
    assert_eq!(SegmentSelector::UserData.as_u16(), 0x23);
    let gdt = global_descriptor_table();
    assert_eq!(gdt[0], 0);
    assert_eq!(gdt[1], 0x00AF_9A00_0000_FFFF);
    let mut stubs = [0u64; 256];
    stubs[32] = 0x1234_5678_9ABC_DEF0;
    let idt = interrupt_descriptor_table(&stubs);
    assert_eq!(idt[32].offset_low, 0xDEF0);
    assert_eq!(idt[32].offset_mid, 0x9ABC);
    assert_eq!(idt[32].offset_high, 0x1234_5678);
    assert_eq!((idt[32].selector, idt[32].type_attr), (0x08, 0x8E));
}

#[test]
fn switching_away_and_back_restores_the_registers() {
    let cpu = Cpu::new(&MockCpuid::blank());
    let mut first = CpuContext::zeroed();
    let mut second = CpuContext::zeroed();
    second.as_bytes_mut()[56] = 0x34;
    second.as_bytes_mut()[57] = 0x12;
    let mut live = X86_64Context::load(&first);
    live.rbx = 1;
    live.r15 = 0xFFFF_FFFF_FFFF_FFFE;
    live.rsp = 0x7000;
    live.rip = 0x40_0000;
    live.cr3 = 0x1000;
    live.fs_base = 99;
    let next = cpu.context_switch(&mut first, &second, &live);
    assert_eq!((next.rip, next.rsp), (0x1234, 0));
    assert_eq!(first.as_bytes()[0], 1);
    let back = cpu.context_switch(&mut second, &first, &next);
    assert_eq!((back.rbx, back.r15), (1, 0xFFFF_FFFF_FFFF_FFFE));
    assert_eq!((back.rsp, back.rip, back.cr3), (0x7000, 0x40_0000, 0x1000));
    assert_eq!(back.fs_base, 0);
}

fn full_capability_mock() -> MockCpuid {
    MockCpuid {
        leaf1: CpuidResult { eax: 0, ebx: 0, ecx: 1 << 24, edx: 0 },
        leaf_ext: CpuidResult { eax: 0, ebx: 0, ecx: 0, edx: 1 << 8 },
        leaf15: CpuidResult { eax: 2, ebx: 3, ecx: 25_000_000, edx: 0 },
        ..MockCpuid::blank()
    }
}

#[test]
fn detects_invariant_tsc_and_deadline_mode() {
    let mock = full_capability_mock();
    let caps = detect_tsc_capabilities(&mock);
    assert!(caps.invariant_tsc);
    assert!(caps.tsc_deadline_mode);
}

#[test]
fn missing_deadline_mode_is_detected() {
    let mut mock = full_capability_mock();
    mock.leaf1.ecx = 0;
    let caps = detect_tsc_capabilities(&mock);
    assert!(!caps.tsc_deadline_mode);
}

#[test]
fn frequency_from_leaf15_ratio_and_crystal() {
    let mock = full_capability_mock();
    assert_eq!(detect_tsc_frequency_hz(&mock), Some(37_500_000));
}

#[test]
fn frequency_falls_back_to_leaf16_when_leaf15_ecx_zero() {
    let mut mock = full_capability_mock();
    mock.leaf15.ecx = 0;
    mock.leaf16 = CpuidResult { eax: 3_000, ebx: 0, ecx: 0, edx: 0 };
    assert_eq!(detect_tsc_frequency_hz(&mock), Some(3_000_000_000));
}

#[test]
fn frequency_detection_fails_when_no_leaf_reports_data() {
    let mock = MockCpuid::blank();
    assert_eq!(detect_tsc_frequency_hz(&mock), None);
}

#[test]
fn frequency_detection_fails_without_a_base_frequency() {
    let mut mock = full_capability_mock();
    mock.leaf15.ecx = 0;
    assert_eq!(detect_tsc_frequency_hz(&mock), None);
}

#[test]
fn timer_is_identified_from_cpuid() {
    let timer: Timer<fn()> = Timer::new(&full_capability_mock(), HpetPresence { present: true });
    assert_eq!(timer.frequency_hz(), 37_500_000);
    assert!(timer.supports_tickless());
    assert_eq!(timer.detected_kind(), TimerKindRaw::Tsc);
    let plain: Timer<fn()> = Timer::new(&MockCpuid::blank(), HpetPresence { present: false });
    assert_eq!(plain.frequency_hz(), FALLBACK_TSC_FREQUENCY_HZ);
    assert_eq!(plain.detected_kind(), TimerKindRaw::Tsc);
    assert!(!plain.supports_tickless());
}

fn timer_with<C>(frequency_hz: u64, tsc_deadline_capable: bool) -> Timer<C> {
    Timer {
        frequency_hz,
        tsc_deadline_capable,
        hpet_present: false,
        callback: None,
        tickless_enabled: false,
    }
}

#[test]
fn deadline_conversion_is_consistent_with_frequency() {
    let timer: Timer<fn()> = timer_with(1_000_000_000, true);
    assert_eq!(timer.deadline_ns_to_tsc(5_000), 5_000);
}

#[test]
fn tickless_mode_rejected_without_deadline_capability() {
    let mut timer: Timer<fn()> = timer_with(1_000_000_000, false);
    assert_eq!(timer.set_tickless(true), Err(HalError::TicklessModeUnsupported));
    assert!(!timer.supports_tickless());
}

#[test]
fn tickless_mode_accepted_with_deadline_capability() {
    let mut timer: Timer<fn()> = timer_with(1_000_000_000, true);
    assert!(timer.set_tickless(true).is_ok());
    assert!(timer.tickless_enabled);
}

#[test]
fn detected_kind_prefers_tsc_when_deadline_capable() {
    let timer: Timer<fn()> = timer_with(1_000_000_000, true);
    assert_eq!(timer.detected_kind(), TimerKindRaw::Tsc);
}

#[test]
fn detected_kind_falls_back_to_hpet_when_present() {
    let mut timer: Timer<fn()> = timer_with(1_000_000_000, false);
    timer.hpet_present = true;
    assert_eq!(timer.detected_kind(), TimerKindRaw::Hpet);
}

#[test]
fn callback_registration_is_invoked_by_on_timer_interrupt() {
    let fired = Cell::new(false);
    let mut timer = timer_with(1_000_000_000, true);
    timer.set_timer_callback(|| fired.set(true));
    on_timer_interrupt(&timer);
    assert!(fired.get());
}

#[test]
fn deadlines_are_armed_in_ticks() {
    let timer: Timer<fn()> = timer_with(2_000_000_000, true);
    assert_eq!(timer.now_ns(3_000), 1_500);
    assert_eq!(timer.set_oneshot(2_000, TimerMode::Interactive, 3_000), Ok(4_000));
    let slow: Timer<fn()> = timer_with(10_000_000, true);
    assert_eq!(slow.set_oneshot(150, TimerMode::Interactive, 0), Ok(2));
    assert_eq!(slow.set_oneshot(1, TimerMode::Interactive, 0), Ok(1));
    let odd: Timer<fn()> = timer_with(1_000_000_001, true);
    assert_eq!(
        odd.set_oneshot(u64::MAX, TimerMode::Interactive, 0),
        Err(HalError::InvalidTimerDeadline)
    );
    assert_eq!(
        timer.set_oneshot(1_500, TimerMode::HighResolutionTickless, 3_000),
        Err(HalError::InvalidTimerDeadline)
    );
    assert_eq!(
        timer.set_oneshot(u64::MAX, TimerMode::Interactive, 0),
        Err(HalError::InvalidTimerDeadline)
    );
    assert_eq!(timer.cancel_oneshot(), 0);
    let incapable: Timer<fn()> = timer_with(2_000_000_000, false);
    assert_eq!(
        incapable.set_oneshot(2_000, TimerMode::Interactive, 0),
        Err(HalError::TicklessModeUnsupported)
    );
    assert_eq!(
        incapable.set_oneshot(2_000, TimerMode::HighResolutionTickless, 0),
        Err(HalError::TicklessModeUnsupported)
    );
}

#[test]
fn detects_x2apic_from_leaf1_ecx_bit21() {
    let mock = MockCpuid {
        leaf1: CpuidResult { eax: 0, ebx: 0, ecx: 1 << 21, edx: 0 },
        ..MockCpuid::blank()
    };
    assert!(detect_x2apic(&mock));
}

#[test]
fn no_x2apic_when_bit_clear() {
    let mock = MockCpuid::blank();
    assert!(!detect_x2apic(&mock));
}

fn controller_with_mode(mode: ApicMode) -> InterruptCtrl<Handler> {
    let mut controller = InterruptCtrl::with_mode(mode);
    controller.set_topology(4);
    controller
}

fn dummy_handler(_irq: IrqId) {}

#[test]
fn register_irq_rejects_below_first_usable_vector() {
    let mut ctrl = controller_with_mode(ApicMode::X2apic);
    assert_eq!(
        ctrl.register_irq(IrqId::new(10), dummy_handler),
        Err(HalError::InvalidIrqId)
    );
}

#[test]
fn register_irq_rejects_beyond_the_last_vector() {
    let mut ctrl = controller_with_mode(ApicMode::X2apic);
    assert!(ctrl.register_irq(IrqId::new(255), dummy_handler).is_ok());
    assert_eq!(
        ctrl.register_irq(IrqId::new(256), dummy_handler),
        Err(HalError::InvalidIrqId)
    );
    assert_eq!(ctrl.mask_irq(IrqId::new(32)), Err(HalError::InvalidIrqId));
    assert_eq!(ctrl.unmask_irq(IrqId::new(256)), Err(HalError::InvalidIrqId));
    assert!(ctrl.mask_irq(IrqId::new(33)).is_ok());
    assert!(ctrl.unmask_irq(IrqId::new(255)).is_ok());
}

#[test]
fn register_irq_accepts_valid_vector() {
    let mut ctrl = controller_with_mode(ApicMode::X2apic);
    assert!(ctrl.register_irq(IrqId::new(FIRST_USABLE_IRQ_VECTOR as u32), dummy_handler).is_ok());
}

#[test]
fn register_irq_rejects_double_registration() {
    let mut ctrl = controller_with_mode(ApicMode::X2apic);
    let vec = IrqId::new(FIRST_USABLE_IRQ_VECTOR as u32);
    ctrl.register_irq(vec, dummy_handler).unwrap();
    assert_eq!(ctrl.register_irq(vec, dummy_handler), Err(HalError::IrqAlreadyRegistered));
}

#[test]
fn unregister_allows_re_registration() {
    let mut ctrl = controller_with_mode(ApicMode::X2apic);
    let vec = IrqId::new(FIRST_USABLE_IRQ_VECTOR as u32);
    ctrl.register_irq(vec, dummy_handler).unwrap();
    ctrl.unregister_irq(vec);
    assert!(ctrl.register_irq(vec, dummy_handler).is_ok());
}

#[test]
fn send_ipi_rejects_out_of_range_target() {
    let ctrl = controller_with_mode(ApicMode::X2apic);
    assert_eq!(ctrl.send_ipi(99, 0x30), Err(HalError::InvalidIpiTarget));
    assert_eq!(ctrl.send_ipi(4, 0x30), Err(HalError::InvalidIpiTarget));
    assert_eq!(ctrl.send_ipi(0x1_0000_0000, 0x30), Err(HalError::InvalidIpiTarget));
}

#[test]
fn send_ipi_writes_the_command_register() {
    let msr = |msr: u32, value: u64| RegisterWrite { register: ApicRegister::Msr { msr }, value };
    let mmio = |address: u64, value: u64| RegisterWrite {
        register: ApicRegister::Mmio { address },
        value,
    };
    let x2 = controller_with_mode(ApicMode::X2apic);
    assert_eq!(x2.send_ipi(3, 0x30), Ok(vec![msr(0x830, 0x3_0000_4030)]));
    let x1 = controller_with_mode(ApicMode::Xapic { mmio_base: 0xFEE0_0000 });
    assert_eq!(
        x1.send_ipi(3, 0x30),
        Ok(vec![mmio(0xFEE0_0310, 0x0300_0000), mmio(0xFEE0_0300, 0x4030)])
    );
    assert_eq!(x2.end_of_interrupt(IrqId::new(40)), msr(0x80B, 0));
    assert_eq!(x1.end_of_interrupt(IrqId::new(40)), mmio(0xFEE0_00B0, 0));
    assert_eq!(
        x2.bootstrap_current_core(0xFEE0_0900),
        vec![msr(0x1B, 0xFEE0_0D00), msr(0x80F, 0x1FF), msr(0x832, 0x4_0020)]
    );
    assert_eq!(
        x1.bootstrap_current_core(0xFEE0_0900),
        vec![mmio(0xFEE0_00F0, 0x1FF), mmio(0xFEE0_0320, 0x4_0020)]
    );
}

#[test]
fn irq_line_count_matches_table_size() {
    let ctrl = controller_with_mode(ApicMode::X2apic);
    assert_eq!(ctrl.irq_line_count() as usize, IRQ_TABLE_SIZE);
}

#[test]
fn detected_kind_reflects_mode() {
    let x2 = controller_with_mode(ApicMode::X2apic);
    assert_eq!(x2.detected_kind(), InterruptControllerKindRaw::ApicX2apic);

    let xapic = controller_with_mode(ApicMode::Xapic { mmio_base: 0xFEE0_0000 });
    assert_eq!(xapic.detected_kind(), InterruptControllerKindRaw::ApicXapic);
    assert_eq!(xapic.primary_base(), 0xFEE0_0000);
}

#[test]
fn x2apic_primary_base_is_zero() {
    let ctrl = controller_with_mode(ApicMode::X2apic);
    assert_eq!(ctrl.primary_base(), 0);
}

#[test]
fn secondary_base_always_none_on_x86_64() {
    let ctrl = controller_with_mode(ApicMode::X2apic);
    assert_eq!(ctrl.secondary_base(), None);
}

#[test]
fn controller_is_found_where_the_base_register_says() {
    assert_eq!(xapic_mmio_base(0xFFF0_0000_FEE0_0900), 0xFEE0_0000);
    let ctrl: InterruptCtrl<Handler> = InterruptCtrl::new(&MockCpuid::blank(), 0xFEE0_0900);
    assert_eq!(ctrl.mode, ApicMode::Xapic { mmio_base: 0xFEE0_0000 });
    assert_eq!(ctrl.ipi_target_core_count(), 1);
}

#[test]
fn fired_vectors_reach_their_handlers() {
    let seen = Cell::new(0);
    let ticks = Cell::new(0);
    let handler = |irq: IrqId| seen.set(irq.as_u32());
    let mut controller = InterruptCtrl::with_mode(ApicMode::X2apic);
    controller.register_irq(IrqId::new(40), &handler).unwrap();
    let mut timer = timer_with(1_000_000_000, true);
    timer.set_timer_callback(|| ticks.set(ticks.get() + 1));
    let mut state = GlobalState::new();
    assert_eq!(dispatch_vector(&state, 40), None);
    set_global_controller(&mut state, controller);
    set_global_timer(&mut state, timer);
    let eoi = RegisterWrite { register: ApicRegister::Msr { msr: 0x80B }, value: 0 };
    assert_eq!(dispatch_vector(&state, 41), Some(eoi));
    assert_eq!((seen.get(), ticks.get()), (0, 0));
    assert_eq!(dispatch_vector(&state, 40), Some(eoi));
    assert_eq!((seen.get(), ticks.get()), (40, 0));
    assert_eq!(dispatch_vector(&state, 32), Some(eoi));
    assert_eq!((seen.get(), ticks.get()), (40, 1));
}

#[test]
fn vectors_select_their_targets() {
    let mut controller: InterruptCtrl<u8> = InterruptCtrl::with_mode(ApicMode::X2apic);
    controller.register_irq(IrqId::new(200), 7).unwrap();
    assert_eq!(select_target(&controller, 200), DispatchTarget::Handler(7));
    assert_eq!(select_target(&controller, 201), DispatchTarget::Unhandled);
    assert_eq!(select_target(&controller, 13), DispatchTarget::Unhandled);
    assert_eq!(select_target(&controller, 32), DispatchTarget::Timer);
    controller.unregister_irq(IrqId::new(200));
    assert_eq!(select_target(&controller, 200), DispatchTarget::Unhandled);
}

#[test]
fn classify_conventional_memory_as_usable() {
    assert_eq!(
        classify_uefi_type(UefiMemoryType::ConventionalMemory as u32),
        MemoryRegionKindRaw::Usable
    );
}

#[test]
fn classify_runtime_services_as_reserved() {
    assert_eq!(
        classify_uefi_type(UefiMemoryType::RuntimeServicesCode as u32),
        MemoryRegionKindRaw::Reserved
    );
}

#[test]
fn classify_mmio_as_mmio() {
    assert_eq!(
        classify_uefi_type(UefiMemoryType::MemoryMappedIo as u32),
        MemoryRegionKindRaw::Mmio
    );
}

#[test]
fn classify_unknown_type_as_reserved() {
    assert_eq!(classify_uefi_type(0xFFFF_FFFF), MemoryRegionKindRaw::Reserved);
}

#[test]
fn permissions_to_flags_sets_writable_and_execute_disable() {
    let flags = permissions_to_flags(MapPermissions::kernel_data());
    assert_ne!(flags & WRITABLE, 0);
    assert_ne!(flags & NO_EXECUTE, 0);
}

#[test]
fn permissions_to_flags_device_mmio_sets_cache_disable() {
    let flags = permissions_to_flags(MapPermissions::device_mmio());
    assert_ne!(flags & CACHE_DISABLE, 0);
    assert_ne!(flags & WRITE_THROUGH, 0);
}

#[test]
fn permissions_to_flags_kernel_code_is_executable() {
    let flags = permissions_to_flags(MapPermissions::kernel_code());
    assert_eq!(flags & NO_EXECUTE, 0);
}

#[test]
fn mapped_pages_have_the_documented_entries() {
    let mut tables = PageTables::new(PageFormat::X86_64, 0x10_0000);
    let memory = os_hal::x86_64::memory::Memory {
        list: os_hal::uefi::RegionList { regions: [MemoryRegionRaw::zero(); 64], count: 0 },
        iommu_present: false,
    };
    let region = MemoryRegionRaw::new(0x20_1800, 0x1000, MemoryRegionKindRaw::Usable, false);
    let start = memory
        .setup_identity_mapping(&mut tables, region, MapPermissions::kernel_data())
        .unwrap();
    assert_eq!(start.as_usize(), 0x20_1000);
    assert_eq!(tables.words[0], 0x10_1007);
    assert_eq!(tables.words[3 * 512 + 1], 0x8000_0000_0020_1003);
    assert_eq!(tables.words[3 * 512 + 2], 0x8000_0000_0020_2003);
    assert_eq!(tables.words[3 * 512 + 3], 0);
}

#[test]
fn digital_readout_converts_to_celsius_correctly() {
    let power = PowerThermalImpl::new(&[], 100 << 16, 0);
    assert_eq!(
        power.read_temperature(0, (1 << 31) | (30 << 16)),
        Ok(MilliCelsius::from_celsius(70))
    );
}

#[test]
fn perf_status_ratio_to_frequency_conversion() {
    let power = PowerThermalImpl::new(&[], 100 << 16, 1);
    let state = power.read_dvfs_state(0, 32 << 8, 0).unwrap();
    assert_eq!(state.current_frequency_khz, 3_200_000);
}

#[test]
fn power_domains_answer_by_their_abilities() {
    let mut device = ComputeDevice::zero();
    device.kind = ComputeKind::Gpu;
    device.device_index = 5;
    let power = PowerThermalImpl::new(&[device], 100 << 16, 1);
    assert_eq!(power.enumerate_power_domains().len(), 2);
    assert_eq!(power.enumerate_power_domains()[1].associated_compute_device_index, 5);
    assert_eq!(power.check_sensor(0), Ok(()));
    assert_eq!(power.check_sensor(1), Err(HalError::ThermalSensorUnavailable));
    assert_eq!(power.check_sensor(2), Err(HalError::InvalidPowerDomain));
    assert_eq!(power.check_dvfs(0), Ok(()));
    assert_eq!(power.check_dvfs(1), Err(HalError::DvfsUnsupported));
    let request = DvfsRequest { target_frequency_khz: 1 };
    assert_eq!(power.request_dvfs(0, request), Ok(()));
    assert_eq!(power.request_dvfs(1, request), Err(HalError::DvfsUnsupported));
    assert_eq!(power.request_dvfs(2, request), Err(HalError::InvalidPowerDomain));
    assert_eq!(power.read_dvfs_state(1, 0, 0), Err(HalError::DvfsUnsupported));
    assert_eq!(power.read_dvfs_state(9, 0, 0), Err(HalError::InvalidPowerDomain));
    assert_eq!(power.read_temperature(1, 1 << 31), Err(HalError::ThermalSensorUnavailable));
    assert_eq!(power.read_temperature(9, 1 << 31), Err(HalError::InvalidPowerDomain));
    assert_eq!(power.read_temperature(0, 30 << 16), Err(HalError::ThermalSensorUnavailable));
    assert_eq!(
        power.read_dvfs_state(0, 8 << 8, 1 << 31),
        Ok(DvfsState {
            current_frequency_khz: 800_000,
            current_voltage_mv: None,
            throttled: true,
        })
    );
    assert!(!power.read_dvfs_state(0, 0, (1 << 31) | (1 << 16)).unwrap().throttled);
    let unlimited = PowerThermalImpl::new(&[], 100 << 16, 0);
    assert_eq!(unlimited.read_dvfs_state(0, 0, 0), Err(HalError::DvfsUnsupported));
}

#[test]
fn display_controller_classified_as_gpu() {
    let header = PciDeviceHeader {
        vendor_id: 0x10DE,
        device_id: 0x1234,
        class_code: PCI_CLASS_DISPLAY_CONTROLLER,
        subclass: 0x00,
        header_type: 0,
    };
    assert_eq!(classify_pci_device(&header), Some(ComputeKindRaw::Gpu));
}

#[test]
fn processing_accelerator_classified_as_npu() {
    let header = PciDeviceHeader {
        vendor_id: 0x1234,
        device_id: 0x5678,
        class_code: PCI_CLASS_PROCESSING_ACCELERATOR,
        subclass: 0x00,
        header_type: 0,
    };
    assert_eq!(classify_pci_device(&header), Some(ComputeKindRaw::Npu));
}

#[test]
fn known_vendor_allowlist_overrides_generic_class() {
    let header = PciDeviceHeader {
        vendor_id: 0x1AE0,
        device_id: 0x0001,
        class_code: 0x00,
        subclass: 0x00,
        header_type: 0,
    };
    assert_eq!(classify_pci_device(&header), Some(ComputeKindRaw::Tpu));
}

#[test]
fn unrelated_device_class_is_not_classified() {
    let header = PciDeviceHeader {
        vendor_id: 0x8086,
        device_id: 0x1234,
        class_code: 0x01,
        subclass: 0x06,
        header_type: 0,
    };
    assert_eq!(classify_pci_device(&header), None);
}

#[test]
fn configuration_ports_take_the_documented_address() {
    assert_eq!(config_address(1, 2, 3, 0x0E), 0x8001_130C);
}
