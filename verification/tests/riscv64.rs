//! The RISC-V architecture.

use std::cell::Cell;
use std::mem::size_of;

use os_hal::fdt::{DtDiscoveryResult, FDT_MAGIC};
use os_hal::hal::cpu::{CpuContext, CpuFeatureFlags, PrivilegeLevel};
use os_hal::hal::error::HalError;
use os_hal::hal::interrupt::IrqId;
use os_hal::hal::memory::MapPermissions;
use os_hal::hal::power::{DvfsRequest, MilliCelsius, PowerThermal};
use os_hal::hal::timer::TimerMode;
use os_hal::manifest::raw::{InterruptControllerKindRaw, MemoryRegionKindRaw, TimerKindRaw};
use os_hal::power::DomainList;
use os_hal::riscv64::compute::{ecam_offset, QEMU_VIRT_DEFAULT_ECAM_BASE};
use os_hal::riscv64::cpu::{
    decode_scause, detect_feature_flags, sbi_probe_extension, Cpu, Riscv64Context, TrapCause,
    RISCV64_CONTEXT_BYTES,
};
use os_hal::riscv64::interrupt::{
    claim_address, dispatch_current_interrupt, select_target, set_global_controller,
    set_global_timer, word_with_bit, DispatchEnd, DispatchTarget, GlobalState, InterruptCtrl,
    PlicOp, SCAUSE_SUPERVISOR_EXTERNAL_INTERRUPT, SCAUSE_SUPERVISOR_SOFTWARE_INTERRUPT,
    SCAUSE_SUPERVISOR_TIMER_INTERRUPT,
};
use os_hal::riscv64::memory::{
    permissions_to_flags, root_in_satp, satp_value, Memory, EXECUTE, QEMU_VIRT_DEFAULT_MEMORY_BASE,
    QEMU_VIRT_DEFAULT_PLIC_BASE, READ, WRITE,
};
use os_hal::riscv64::power::PowerThermalImpl;
use os_hal::riscv64::timer::{Timer, QEMU_VIRT_DEFAULT_TIMEBASE_FREQUENCY_HZ};

type Handler = fn(IrqId);

#[test]
fn ecam_offset_computes_correct_layout() {
    let offset = ecam_offset(1, 2, 3);
    assert_eq!(offset, 0x100000 | 0x10000 | 0x3000);
}

#[test]
fn qemu_virt_default_ecam_base_is_documented_value() {
    assert_eq!(QEMU_VIRT_DEFAULT_ECAM_BASE, 0x3000_0000);
}

#[test]
fn detect_feature_flags_always_reports_rv64gc_baseline() {
    let flags = detect_feature_flags();
    assert!(flags.contains(CpuFeatureFlags::WIDE_ATOMICS));
    assert!(flags.contains(CpuFeatureFlags::PERF_COUNTERS));
    assert_eq!(flags.bits(), 1 | 64 | 512);
}

#[test]
fn riscv64_context_matches_declared_size() {
    assert_eq!(size_of::<Riscv64Context>(), RISCV64_CONTEXT_BYTES);
}

#[test]
fn scause_top_bit_distinguishes_interrupt_from_exception() {
    let interrupt_scause: u64 = 1 << (u64::BITS - 1) | 5;
    let exception_scause: u64 = 12;

    assert!(matches!(decode_scause(interrupt_scause), TrapCause::Interrupt(_)));
    assert_eq!(decode_scause(exception_scause), TrapCause::Exception(12));
}

#[test]
fn cause_code_masks_out_interrupt_bit() {
    let scause: u64 = (1 << (u64::BITS - 1)) | 5;
    assert_eq!(decode_scause(scause), TrapCause::Interrupt(5));
}

#[test]
fn probes_need_success_and_a_value() {
    assert!(sbi_probe_extension(0, 1));
    assert!(!sbi_probe_extension(0, 0));
    assert!(!sbi_probe_extension(-2, 1));
}

#[test]
fn riscv64_cpu_is_the_hart_that_booted() {
    let mut cpu = Cpu::new(7, true);
    assert_eq!((cpu.core_count(), cpu.current_core_id()), (1, 7));
    assert!(cpu.sbi_time_extension_present());
    cpu.mark_iommu_capable(true);
    assert!(cpu.feature_flags().contains(CpuFeatureFlags::IOMMU_CAPABLE));
    assert_eq!(
        cpu.set_privilege_level(PrivilegeLevel::Monitor),
        Err(HalError::UnsupportedPrivilegeLevel)
    );
    assert!(cpu.set_privilege_level(PrivilegeLevel::Kernel).is_ok());
}

#[test]
fn riscv64_switching_away_and_back_restores_the_registers() {
    let cpu = Cpu::new(0, true);
    let mut first = CpuContext::zeroed();
    let mut second = CpuContext::zeroed();
    let mut live = Riscv64Context::load(&first);
    live.s0 = 3;
    live.s11 = 4;
    live.ra = 0x8020_0000;
    live.sp = 0x8040_0000;
    live.satp = 0x8000_0000_0008_0000;
    live.tp = 9;
    let next = cpu.context_switch(&mut first, &second, &live);
    assert_eq!(next.ra, 0);
    let back = cpu.context_switch(&mut second, &first, &next);
    assert_eq!((back.s0, back.s11, back.ra), (3, 4, 0x8020_0000));
    assert_eq!((back.sp, back.satp), (0x8040_0000, 0x8000_0000_0008_0000));
    assert_eq!(back.tp, 0);
}

fn controller_with_base(plic_base: u64) -> InterruptCtrl<Handler> {
    let mut controller = InterruptCtrl::new(plic_base);
    controller.set_topology(4);
    controller
}

fn dummy_handler(_irq: IrqId) {}

#[test]
fn register_irq_rejects_source_zero() {
    let mut ctrl = controller_with_base(0x0c00_0000);
    assert_eq!(
        ctrl.register_irq(IrqId::new(0), dummy_handler),
        Err(HalError::InvalidIrqId)
    );
}

#[test]
fn registered_sources_are_let_through() {
    let mut ctrl = controller_with_base(0x0c00_0000);
    assert_eq!(
        ctrl.register_irq(IrqId::new(33), dummy_handler),
        Ok(vec![
            PlicOp::Write { address: 0x0c00_0084, value: 1 },
            PlicOp::SetBit { address: 0x0c00_2084, bit: 1, on: true },
        ])
    );
    assert_eq!(
        ctrl.register_irq(IrqId::new(33), dummy_handler),
        Err(HalError::IrqAlreadyRegistered)
    );
    assert_eq!(
        ctrl.register_irq(IrqId::new(512), dummy_handler),
        Err(HalError::InvalidIrqId)
    );
    let off = PlicOp::SetBit { address: 0x0c00_2084, bit: 1, on: false };
    let on = PlicOp::SetBit { address: 0x0c00_2084, bit: 1, on: true };
    assert_eq!(ctrl.mask_irq(IrqId::new(33)), Ok(off));
    assert_eq!(ctrl.unmask_irq(IrqId::new(33)), Ok(on));
    assert_eq!(ctrl.mask_irq(IrqId::new(0)), Err(HalError::InvalidIrqId));
    assert_eq!(ctrl.unmask_irq(IrqId::new(512)), Err(HalError::InvalidIrqId));
    assert_eq!(ctrl.unregister_irq(IrqId::new(33)), Some(off));
    assert_eq!(ctrl.unregister_irq(IrqId::new(33)), None);
    assert_eq!(ctrl.unregister_irq(IrqId::new(0)), None);
    assert!(ctrl.register_irq(IrqId::new(33), dummy_handler).is_ok());
}

#[test]
fn one_bit_of_a_word_changes() {
    assert_eq!(word_with_bit(0x8000_0001, 4, true), 0x8000_0011);
    assert_eq!(word_with_bit(0x8000_0011, 31, false), 0x11);
    assert_eq!(word_with_bit(0x11, 31, true), 0x8000_0011);
    assert_eq!(word_with_bit(0x11, 1, false), 0x11);
}

#[test]
fn interrupt_send_ipi_rejects_out_of_range_target() {
    let ctrl = controller_with_base(0x0c00_0000);
    assert_eq!(ctrl.send_ipi(99, 0), Err(HalError::InvalidIpiTarget));
    assert_eq!(ctrl.send_ipi(4, 0), Err(HalError::InvalidIpiTarget));
    assert_eq!(ctrl.send_ipi(3, 0), Ok(8));
}

#[test]
fn detected_kind_is_always_plic_clic() {
    let ctrl = controller_with_base(0x0c00_0000);
    assert_eq!(ctrl.detected_kind(), InterruptControllerKindRaw::PlicClic);
}

#[test]
fn primary_base_reflects_constructor_argument() {
    let ctrl = controller_with_base(0x0c00_0000);
    assert_eq!(ctrl.primary_base(), 0x0c00_0000);
}

#[test]
fn secondary_base_is_none_in_this_mvp_phase() {
    let ctrl = controller_with_base(0x0c00_0000);
    assert_eq!(ctrl.secondary_base(), None);
}

#[test]
fn scause_cause_codes_match_riscv_spec() {
    assert_eq!(SCAUSE_SUPERVISOR_SOFTWARE_INTERRUPT, 1);
    assert_eq!(SCAUSE_SUPERVISOR_TIMER_INTERRUPT, 5);
    assert_eq!(SCAUSE_SUPERVISOR_EXTERNAL_INTERRUPT, 9);
}

#[test]
fn controller_registers_are_where_they_belong() {
    let ctrl = controller_with_base(0x0c00_0000);
    assert_eq!(ctrl.irq_line_count(), 512);
    assert_eq!(ctrl.ipi_target_core_count(), 4);
    assert_eq!(ctrl.read_claim(), 0x0c20_1004);
    assert_eq!(
        ctrl.bootstrap_current_core(),
        PlicOp::Write { address: 0x0c20_1000, value: 0 }
    );
}

#[test]
fn interrupts_reach_their_handlers() {
    let seen = Cell::new(0);
    let ticks = Cell::new(0);
    let handler = |irq: IrqId| seen.set(irq.as_u32());
    let mut controller = InterruptCtrl::new(0x0c00_0000);
    controller.register_irq(IrqId::new(10), &handler).unwrap();
    let mut timer = Timer::new(true);
    timer.set_timer_callback(|| ticks.set(ticks.get() + 1));
    let mut state = GlobalState::new();
    assert_eq!(claim_address(&state, 9), None);
    assert_eq!(dispatch_current_interrupt(&state, 9, 0), DispatchEnd::Nothing);
    set_global_controller(&mut state, controller);
    set_global_timer(&mut state, timer);
    assert_eq!(claim_address(&state, 9), Some(0x0c20_1004));
    assert_eq!(claim_address(&state, 5), None);
    let done = |value: u32| DispatchEnd::Complete(PlicOp::Write { address: 0x0c20_1004, value });
    assert_eq!(dispatch_current_interrupt(&state, 9, 10), done(10));
    assert_eq!((seen.get(), ticks.get()), (10, 0));
    assert_eq!(dispatch_current_interrupt(&state, 9, 11), done(11));
    assert_eq!(dispatch_current_interrupt(&state, 9, 5_000), done(5_000));
    assert_eq!(dispatch_current_interrupt(&state, 9, 0), DispatchEnd::Nothing);
    assert_eq!((seen.get(), ticks.get()), (10, 0));
    assert_eq!(dispatch_current_interrupt(&state, 1, 0), DispatchEnd::ClearSoftware);
    assert_eq!(dispatch_current_interrupt(&state, 5, 0), DispatchEnd::Nothing);
    assert_eq!((seen.get(), ticks.get()), (10, 1));
    assert_eq!(dispatch_current_interrupt(&state, 77, 10), DispatchEnd::Nothing);
    assert_eq!((seen.get(), ticks.get()), (10, 1));
}

#[test]
fn interrupts_select_their_targets() {
    let mut controller: InterruptCtrl<u8> = InterruptCtrl::new(0);
    controller.register_irq(IrqId::new(511), 3).unwrap();
    let mut state: GlobalState<u8, fn()> = GlobalState::new();
    assert_eq!(select_target(&state, 9, 511), DispatchTarget::Unhandled);
    set_global_controller(&mut state, controller);
    assert_eq!(select_target(&state, 9, 511), DispatchTarget::Handler(3));
    assert_eq!(select_target(&state, 9, 510), DispatchTarget::Unhandled);
    assert_eq!(select_target(&state, 5, 511), DispatchTarget::Timer);
    assert_eq!(select_target(&state, 1, 511), DispatchTarget::Unhandled);
}

#[test]
fn fdt_magic_constant_matches_spec() {
    assert_eq!(FDT_MAGIC, 0xd00d_feed);
}

#[test]
fn permissions_to_flags_sets_read_write() {
    let flags = permissions_to_flags(MapPermissions::kernel_data());
    assert_ne!(flags & READ, 0);
    assert_ne!(flags & WRITE, 0);
    assert_eq!(flags & EXECUTE, 0);
}

#[test]
fn qemu_virt_defaults_are_documented_values() {
    assert_eq!(QEMU_VIRT_DEFAULT_PLIC_BASE, 0x0c00_0000);
    assert_eq!(QEMU_VIRT_DEFAULT_MEMORY_BASE, 0x8000_0000);
}

#[test]
fn dt_discovery_result_defaults_to_no_findings() {
    let result = DtDiscoveryResult::default();
    assert!(result.plic_base.is_none());
    assert!(!result.iommu_present);
}

#[test]
fn memory_falls_back_to_the_defaults() {
    let memory = Memory::from_findings(&DtDiscoveryResult::default());
    let map = memory.physical_memory_map();
    assert_eq!(map.len(), 1);
    assert_eq!((map[0].base_addr, map[0].length_bytes), (0x8000_0000, 128 * 1024 * 1024));
    assert_eq!(map[0].kind, MemoryRegionKindRaw::Usable);
    assert_eq!(memory.plic_base(), 0x0c00_0000);
    assert!(!memory.iommu_present());
    assert_eq!(memory.base_page_size_bytes(), 4096);
}

#[test]
fn the_root_is_found_again_in_the_translation_register() {
    assert_eq!(satp_value(0x8020_0000), 0x8000_0000_0008_0200);
    assert_eq!(root_in_satp(0x8000_0000_0008_0200), 0x8020_0000);
    assert_eq!(root_in_satp(0x8123_4000_0008_0200), 0x4000_0000_0008_0200 % 0x1000_0000_0000 * 4096);
}

fn package_only() -> PowerThermalImpl {
    PowerThermalImpl::new(&[])
}

#[test]
fn power_cpu_package_domain_reports_unsupported_dvfs() {
    let power = package_only();
    assert_eq!(power.read_dvfs_state(0), Err(HalError::DvfsUnsupported));
    assert_eq!(
        power.request_dvfs(0, DvfsRequest { target_frequency_khz: 1_000_000 }),
        Err(HalError::DvfsUnsupported)
    );
}

#[test]
fn power_cpu_package_domain_reports_no_thermal_sensor() {
    let power = package_only();
    assert_eq!(power.read_temperature(0), Err(HalError::ThermalSensorUnavailable));
}

#[test]
fn power_invalid_domain_id_is_rejected() {
    let list = DomainList {
        domains: [os_hal::manifest::raw::PowerDomainRaw::zero(); 16],
        count: 0,
    };
    let power = PowerThermalImpl::with_domains(list);
    assert_eq!(power.read_temperature(99), Err(HalError::InvalidPowerDomain));
}

#[test]
fn power_domains_above_threshold_is_always_empty_in_this_mvp_phase() {
    let power = package_only();
    let hot: Vec<u32> = power.domains_above_threshold(MilliCelsius::from_celsius(0)).collect();
    assert!(hot.is_empty());
}

fn timer_with(frequency_hz: u64, sbi_time_available: bool) -> Timer<fn()> {
    let mut timer = Timer::new(sbi_time_available);
    timer.frequency_hz = frequency_hz;
    timer
}

#[test]
fn deadline_conversion_handles_qemu_virt_default_frequency() {
    let timer = timer_with(QEMU_VIRT_DEFAULT_TIMEBASE_FREQUENCY_HZ, true);
    let ticks = timer.deadline_ns_to_ticks(1_000_000_000);
    assert_eq!(ticks, QEMU_VIRT_DEFAULT_TIMEBASE_FREQUENCY_HZ);
}

#[test]
fn tickless_mode_rejected_without_sbi_time_extension() {
    let mut timer = timer_with(1_000_000_000, false);
    assert_eq!(timer.set_tickless(true), Err(HalError::TicklessModeUnsupported));
    assert!(!timer.supports_tickless());
}

#[test]
fn tickless_mode_accepted_with_sbi_time_extension() {
    let mut timer = timer_with(1_000_000_000, true);
    assert!(timer.set_tickless(true).is_ok());
    assert!(timer.tickless_enabled);
}

#[test]
fn detected_kind_is_always_riscv_sbi_timer() {
    let timer = timer_with(1_000_000_000, true);
    assert_eq!(timer.detected_kind(), TimerKindRaw::RiscvSbiTimer);
}

#[test]
fn riscv64_deadlines_are_armed_in_ticks() {
    let timer = timer_with(10_000_000, true);
    assert_eq!(timer.now_ns(10), 1_000);
    assert_eq!(timer.set_oneshot(1_150, TimerMode::Interactive, 10), Ok(12));
    assert_eq!(timer.set_oneshot(1_100, TimerMode::Interactive, 10), Ok(11));
    assert_eq!(timer.set_oneshot(150, TimerMode::Interactive, 0), Ok(2));
    assert_eq!(timer.now_ns(2), 200);
    assert_eq!(
        timer.set_oneshot(1_000, TimerMode::Interactive, 10),
        Err(HalError::InvalidTimerDeadline)
    );
    assert_eq!(timer.cancel_oneshot(), Some(u64::MAX));
    let without = timer_with(10_000_000, false);
    assert_eq!(
        without.set_oneshot(1_150, TimerMode::Interactive, 10),
        Err(HalError::TicklessModeUnsupported)
    );
    assert_eq!(without.cancel_oneshot(), None);
}
