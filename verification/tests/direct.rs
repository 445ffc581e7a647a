//! Direct hardware access with capability tokens.

use os_hal::direct::{
    authorize_affinity, authorize_counter, authorize_mmio, authorize_numa_policy, token_outcome,
    verify_token, CapabilityScope, CapabilityToken, HalDirectAccess, NumaPolicy, PerfCounterId,
    TokenVerifier, MAX_SIGNATURE_BYTES,
};
use os_hal::fdt::DtDiscoveryResult;
use os_hal::hal::error::HalError;
use os_hal::hal::memory::{PhysAddr, VirtAddr};
use os_hal::paging::{PageFormat, PageTables};
use os_hal::riscv64::direct::CounterRegister;
use os_hal::uefi::RegionList;

/// Accepts every token whose signature begins with `0xAA`.
struct MockVerifier;

impl TokenVerifier for MockVerifier {
    fn verify_signature(&self, token: &CapabilityToken) -> Result<(), HalError> {
        if token.signature_bytes().first() == Some(&0xAA) {
            Ok(())
        } else {
            Err(HalError::InvalidCapabilityToken)
        }
    }
}

struct MockDirectAccess {
    verifier: MockVerifier,
    now_ns: u64,
}

impl HalDirectAccess for MockDirectAccess {
    fn map_mmio_region(
        &self,
        token: CapabilityToken,
        phys: PhysAddr,
        size: usize,
    ) -> Result<VirtAddr, HalError> {
        authorize_mmio(&self.verifier, &token, phys, size, self.now_ns)?;
        Ok(VirtAddr::new(phys.as_usize()))
    }

    fn read_performance_counter(
        &self,
        token: CapabilityToken,
        counter: PerfCounterId,
    ) -> Result<u64, HalError> {
        authorize_counter(&self.verifier, &token, counter, self.now_ns)?;
        Ok(42)
    }

    fn pin_thread_to_core(&self, token: CapabilityToken, core_id: usize) -> Result<(), HalError> {
        authorize_affinity(&self.verifier, &token, core_id, self.now_ns)
    }

    fn set_numa_policy(&self, token: CapabilityToken, policy: NumaPolicy) -> Result<(), HalError> {
        authorize_numa_policy(&self.verifier, &token, policy, self.now_ns)
    }
}

fn valid_signature() -> &'static [u8] {
    &[0xAA, 0x01, 0x02]
}

#[test]
fn mmio_map_succeeds_with_matching_scope_and_valid_signature() {
    let hal = MockDirectAccess { verifier: MockVerifier, now_ns: 1000 };
    let token = CapabilityToken::new(
        7,
        CapabilityScope::MmioRegion { phys_base: 0xFEE0_0000, size: 0x1000 },
        2000,
    )
    .with_signature(valid_signature());

    let result = hal.map_mmio_region(token, PhysAddr::new(0xFEE0_0000), 0x1000);
    assert!(result.is_ok());
}

#[test]
fn mmio_map_rejects_mismatched_scope() {
    let hal = MockDirectAccess { verifier: MockVerifier, now_ns: 1000 };
    let token = CapabilityToken::new(
        7,
        CapabilityScope::MmioRegion { phys_base: 0x1000_0000, size: 0x1000 },
        2000,
    )
    .with_signature(valid_signature());

    let result = hal.map_mmio_region(token, PhysAddr::new(0xFEE0_0000), 0x1000);
    assert_eq!(result, Err(HalError::InvalidCapabilityToken));
}

#[test]
fn expired_token_is_rejected() {
    let hal = MockDirectAccess { verifier: MockVerifier, now_ns: 5000 };
    let token =
        CapabilityToken::new(7, CapabilityScope::PerformanceCounter { counter_id: 3 }, 2000)
            .with_signature(valid_signature());

    let result = hal.read_performance_counter(token, PerfCounterId(3));
    assert_eq!(result, Err(HalError::InvalidCapabilityToken));
}

#[test]
fn invalid_signature_is_rejected() {
    let hal = MockDirectAccess { verifier: MockVerifier, now_ns: 1000 };
    let token = CapabilityToken::new(7, CapabilityScope::ThreadAffinity { core_id: 2 }, 2000)
        .with_signature(&[0xBB, 0x00]);

    let result = hal.pin_thread_to_core(token, 2);
    assert_eq!(result, Err(HalError::InvalidCapabilityToken));
}

#[test]
fn numa_policy_scope_ignores_policy_value() {
    let hal = MockDirectAccess { verifier: MockVerifier, now_ns: 1000 };
    let token = CapabilityToken::new(7, CapabilityScope::NumaPolicy, 2000)
        .with_signature(valid_signature());

    assert!(hal.set_numa_policy(token, NumaPolicy::Local).is_ok());
    assert!(hal.set_numa_policy(token, NumaPolicy::Strict(1)).is_ok());
}

#[test]
fn token_covers_checks_exact_scope_equality() {
    let token = CapabilityToken::new(1, CapabilityScope::ThreadAffinity { core_id: 5 }, 1000);
    assert!(token.covers(CapabilityScope::ThreadAffinity { core_id: 5 }));
    assert!(!token.covers(CapabilityScope::ThreadAffinity { core_id: 6 }));
}

#[test]
fn tokens_expire_at_their_time() {
    let token = CapabilityToken::new(1, CapabilityScope::NumaPolicy, 1000);
    assert!(!token.is_expired(999));
    assert!(token.is_expired(1000));
    assert!(token.is_expired(1001));
}

#[test]
fn signatures_are_kept() {
    let token = CapabilityToken::new(9, CapabilityScope::NumaPolicy, 1000);
    assert!(token.signature_bytes().is_empty());
    let longest = [0x5A; MAX_SIGNATURE_BYTES];
    assert_eq!(token.with_signature(&longest).signature_bytes(), &longest);
    let replaced = token.with_signature(&longest).with_signature(&[1, 2]);
    assert_eq!(replaced.signature_bytes(), &[1, 2]);
    assert_eq!((replaced.subject_id, replaced.expires_at_ns), (9, 1000));
}

struct Forgetful;

impl TokenVerifier for Forgetful {
    fn verify_signature(&self, _token: &CapabilityToken) -> Result<(), HalError> {
        panic!("asked about a token that is not admissible")
    }
}

#[test]
fn inadmissible_tokens_never_reach_the_verifier() {
    let token = CapabilityToken::new(1, CapabilityScope::NumaPolicy, 1000);
    assert_eq!(
        verify_token(&Forgetful, &token, CapabilityScope::NumaPolicy, 1000),
        Err(HalError::InvalidCapabilityToken)
    );
    assert_eq!(
        verify_token(&Forgetful, &token, CapabilityScope::ThreadAffinity { core_id: 0 }, 0),
        Err(HalError::InvalidCapabilityToken)
    );
}

#[test]
fn the_verifiers_own_error_is_reported() {
    let token = CapabilityToken::new(1, CapabilityScope::NumaPolicy, 1000);
    let scope = CapabilityScope::NumaPolicy;
    assert_eq!(token_outcome(&token, scope, 0, Ok(())), Ok(()));
    assert_eq!(
        token_outcome(&token, scope, 0, Err(HalError::HardwareFault)),
        Err(HalError::HardwareFault)
    );
    assert_eq!(
        token_outcome(&token, scope, 1000, Ok(())),
        Err(HalError::InvalidCapabilityToken)
    );
}

fn no_regions() -> RegionList {
    RegionList { regions: [os_hal::manifest::raw::MemoryRegionRaw::zero(); 64], count: 0 }
}

fn x86_64_memory() -> os_hal::x86_64::memory::Memory {
    os_hal::x86_64::memory::Memory { list: no_regions(), iommu_present: false }
}

fn x86_64_timer() -> os_hal::x86_64::timer::Timer<fn()> {
    os_hal::x86_64::timer::Timer {
        frequency_hz: 1_000_000_000,
        tsc_deadline_capable: true,
        hpet_present: false,
        callback: None,
        tickless_enabled: false,
    }
}

#[test]
fn pin_thread_succeeds_with_matching_scope() {
    let (memory, timer) = (x86_64_memory(), x86_64_timer());
    let direct = os_hal::x86_64::direct::DirectAccess::new(MockVerifier, &memory, &timer);
    let token = CapabilityToken::new(1, CapabilityScope::ThreadAffinity { core_id: 3 }, 2000)
        .with_signature(&[0xAA]);
    assert!(direct.pin_thread_to_core(token, 3, 1000).is_ok());
}

#[test]
fn pin_thread_rejects_mismatched_core() {
    let (memory, timer) = (x86_64_memory(), x86_64_timer());
    let direct = os_hal::x86_64::direct::DirectAccess::new(MockVerifier, &memory, &timer);
    let token = CapabilityToken::new(1, CapabilityScope::ThreadAffinity { core_id: 3 }, 2000)
        .with_signature(&[0xAA]);
    assert_eq!(
        direct.pin_thread_to_core(token, 5, 1000),
        Err(HalError::InvalidCapabilityToken)
    );
}

#[test]
fn direct_pin_thread_succeeds_with_matching_scope() {
    let (memory, timer) = (arm64_memory(), arm64_timer());
    let direct = os_hal::arm64::direct::DirectAccess::new(MockVerifier, &memory, &timer);
    let token = CapabilityToken::new(1, CapabilityScope::ThreadAffinity { core_id: 3 }, 2000)
        .with_signature(&[0xAA]);
    assert!(direct.pin_thread_to_core(token, 3, 1000).is_ok());
}

#[test]
fn direct_pin_thread_rejects_mismatched_core() {
    let (memory, timer) = (arm64_memory(), arm64_timer());
    let direct = os_hal::arm64::direct::DirectAccess::new(MockVerifier, &memory, &timer);
    let token = CapabilityToken::new(1, CapabilityScope::ThreadAffinity { core_id: 3 }, 2000)
        .with_signature(&[0xAA]);
    assert_eq!(
        direct.pin_thread_to_core(token, 5, 1000),
        Err(HalError::InvalidCapabilityToken)
    );
}

#[test]
fn numa_policy_succeeds_with_correct_scope_regardless_of_policy_value() {
    let (memory, timer) = (x86_64_memory(), x86_64_timer());
    let direct = os_hal::x86_64::direct::DirectAccess::new(MockVerifier, &memory, &timer);
    let token =
        CapabilityToken::new(1, CapabilityScope::NumaPolicy, 2000).with_signature(&[0xAA]);
    assert!(direct.set_numa_policy(token, NumaPolicy::Interleaved, 1000).is_ok());
}

#[test]
fn expired_token_rejected_before_any_action() {
    let (memory, timer) = (x86_64_memory(), x86_64_timer());
    let direct = os_hal::x86_64::direct::DirectAccess::new(MockVerifier, &memory, &timer);
    let token =
        CapabilityToken::new(1, CapabilityScope::NumaPolicy, 2000).with_signature(&[0xAA]);
    assert_eq!(
        direct.set_numa_policy(token, NumaPolicy::Local, 9999),
        Err(HalError::InvalidCapabilityToken)
    );
}

fn arm64_memory() -> os_hal::arm64::memory::Memory {
    os_hal::arm64::memory::Memory {
        list: no_regions(),
        iommu_present: false,
        gicd_base: 0x0800_0000,
    }
}

fn arm64_timer() -> os_hal::arm64::timer::Timer<fn()> {
    os_hal::arm64::timer::Timer::new(1_000_000_000)
}

fn riscv64_timer() -> os_hal::riscv64::timer::Timer<fn()> {
    let mut timer = os_hal::riscv64::timer::Timer::new(true);
    timer.frequency_hz = 1_000_000_000;
    timer
}

#[test]
fn numa_policy_succeeds_with_correct_scope() {
    let memory = os_hal::riscv64::memory::Memory::from_findings(&DtDiscoveryResult::default());
    let timer = riscv64_timer();
    let direct = os_hal::riscv64::direct::DirectAccess::new(MockVerifier, &memory, &timer);
    let token =
        CapabilityToken::new(1, CapabilityScope::NumaPolicy, 2000).with_signature(&[0xAA]);
    assert!(direct.set_numa_policy(token, NumaPolicy::Local, 1000).is_ok());
}

#[test]
fn expired_token_rejected() {
    let memory = os_hal::riscv64::memory::Memory::from_findings(&DtDiscoveryResult::default());
    let timer = riscv64_timer();
    let direct = os_hal::riscv64::direct::DirectAccess::new(MockVerifier, &memory, &timer);
    let token =
        CapabilityToken::new(1, CapabilityScope::NumaPolicy, 2000).with_signature(&[0xAA]);
    assert_eq!(
        direct.set_numa_policy(token, NumaPolicy::Local, 9999),
        Err(HalError::InvalidCapabilityToken)
    );
}

#[test]
fn only_counters_of_every_hart_can_be_read() {
    let memory = os_hal::riscv64::memory::Memory::from_findings(&DtDiscoveryResult::default());
    let timer = riscv64_timer();
    let direct = os_hal::riscv64::direct::DirectAccess::new(MockVerifier, &memory, &timer);
    let read = |counter_id: u32| {
        let token =
            CapabilityToken::new(1, CapabilityScope::PerformanceCounter { counter_id }, 2000)
                .with_signature(&[0xAA]);
        direct.read_performance_counter(token, PerfCounterId(counter_id), 1000)
    };
    assert_eq!(read(0), Ok(CounterRegister::Cycle));
    assert_eq!(read(2), Ok(CounterRegister::Instret));
    assert_eq!(read(1), Err(HalError::InvalidCapabilityToken));
    assert_eq!(read(3), Err(HalError::InvalidCapabilityToken));
}

#[test]
fn device_registers_are_mapped_only_with_a_token() {
    let (memory, timer) = (x86_64_memory(), x86_64_timer());
    let direct = os_hal::x86_64::direct::DirectAccess::new(MockVerifier, &memory, &timer);
    let mut tables = PageTables::new(PageFormat::X86_64, 0x10_0000);
    let token = CapabilityToken::new(
        7,
        CapabilityScope::MmioRegion { phys_base: 0x20_0000, size: 0x1000 },
        2000,
    )
    .with_signature(&[0xAA]);
    assert_eq!(
        direct.map_mmio_region(&mut tables, token, PhysAddr::new(0x20_0000), 0x2000, 1000),
        Err(HalError::InvalidCapabilityToken)
    );
    assert_eq!(tables.words[0], 0);
    let mapped =
        direct.map_mmio_region(&mut tables, token, PhysAddr::new(0x20_0000), 0x1000, 1000);
    assert_eq!(mapped, Ok(VirtAddr::new(0x20_0000)));
    assert_eq!(tables.words[3 * 512], 0x8000_0000_0020_001B);
    let counter = CapabilityToken::new(7, CapabilityScope::PerformanceCounter { counter_id: 4 }, 2000)
        .with_signature(&[0xAA]);
    assert_eq!(direct.read_performance_counter(counter, PerfCounterId(4), 1000), Ok(4));
}
