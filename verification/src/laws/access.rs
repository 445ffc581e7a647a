//! Laws of direct hardware access.

use vstd::prelude::*;

use crate::direct::{
    affinity_scope, counter_scope, decided, mmio_scope, outcome, CapabilityScope, CapabilityToken,
    PerfCounterId, TokenVerifier,
};
use crate::hal::error::HalError;
use crate::hal::memory::PhysAddr;
use crate::laws::time::time_is_ticks_over_frequency;
use crate::riscv64::direct::{counter_register, CounterRegister};

verus! {

/// A request is granted exactly if the token is for this very operation, has not
/// expired, and the verifier vouches for it; then and only then does the
/// verifier's word count.
pub proof fn request_is_granted_only_for_a_good_token<V: TokenVerifier>(
    verifier: &V,
    token: CapabilityToken,
    required: CapabilityScope,
    now_ns: u64,
    verdict: Result<(), HalError>,
)
    ensures
        decided(verifier, token, required, now_ns, Ok(())) <==> {
            &&& token.scope == required
            &&& now_ns < token.expires_at_ns
            &&& call_ensures(V::verify_signature, (verifier, &token), Ok(()))
        },
        token.scope == required && now_ns < token.expires_at_ns ==> (decided(
            verifier,
            token,
            required,
            now_ns,
            verdict,
        ) <==> call_ensures(V::verify_signature, (verifier, &token), verdict)),
        token.scope != required || now_ns >= token.expires_at_ns ==> (decided(
            verifier,
            token,
            required,
            now_ns,
            verdict,
        ) <==> verdict == Err::<(), HalError>(HalError::InvalidCapabilityToken)),
        outcome(token, required, now_ns, verdict) == (if token.scope == required && now_ns
            < token.expires_at_ns {
            verdict
        } else {
            Err(HalError::InvalidCapabilityToken)
        }),
{
}

/// A token that is granted stays good for every earlier time, and one that has
/// expired stays expired.
pub proof fn tokens_expire_once<V: TokenVerifier>(
    verifier: &V,
    token: CapabilityToken,
    required: CapabilityScope,
    earlier_ns: u64,
    later_ns: u64,
)
    requires
        earlier_ns <= later_ns,
        decided(verifier, token, required, later_ns, Ok(())),
    ensures
        decided(verifier, token, required, earlier_ns, Ok(())),
{
}

/// Each operation needs a token for itself alone: for its own range of registers,
/// its own counter, its own core; none of them is served by a token for another
/// kind of operation.
pub proof fn operations_need_their_own_tokens(
    phys: PhysAddr,
    size: usize,
    other_phys: PhysAddr,
    other_size: usize,
    counter: PerfCounterId,
    other_counter: PerfCounterId,
    core: usize,
    other_core: usize,
)
    requires
        core < 0x1_0000_0000,
        other_core < 0x1_0000_0000,
    ensures
        mmio_scope(phys, size) == (CapabilityScope::MmioRegion {
            phys_base: phys.0 as u64,
            size: size as u64,
        }),
        mmio_scope(phys, size) == mmio_scope(other_phys, other_size) <==> phys.0 == other_phys.0
            && size == other_size,
        counter_scope(counter) == (CapabilityScope::PerformanceCounter { counter_id: counter.0 }),
        counter_scope(counter) == counter_scope(other_counter) <==> counter.0 == other_counter.0,
        affinity_scope(core) == (CapabilityScope::ThreadAffinity { core_id: core as u32 }),
        affinity_scope(core) == affinity_scope(other_core) <==> core == other_core,
        mmio_scope(phys, size) != counter_scope(counter),
        mmio_scope(phys, size) != affinity_scope(core),
        counter_scope(counter) != affinity_scope(core),
{
}

/// The time that tokens are held against is the timer's: the last whole nanosecond
/// that has passed when the counter reads `ticks`.
pub proof fn tokens_are_held_against_the_timer<V: TokenVerifier, C>(
    x86_64: crate::x86_64::direct::DirectAccess<'_, V, C>,
    arm64: crate::arm64::direct::DirectAccess<'_, V, C>,
    riscv64: crate::riscv64::direct::DirectAccess<'_, V, C>,
    frequency_hz: u64,
    ticks: u64,
)
    requires
        frequency_hz > 0,
        x86_64.timer.frequency_hz == frequency_hz,
        arm64.timer.frequency_hz == frequency_hz,
        riscv64.timer.frequency_hz == frequency_hz,
        ticks * 1_000_000_000 < frequency_hz * 0x1_0000_0000_0000_0000,
    ensures
        x86_64.time(ticks) * frequency_hz <= ticks * 1_000_000_000 < (x86_64.time(ticks) + 1)
            * frequency_hz,
        arm64.time(ticks) * frequency_hz <= ticks * 1_000_000_000 < (arm64.time(ticks) + 1)
            * frequency_hz,
        riscv64.time(ticks) * frequency_hz <= ticks * 1_000_000_000 < (riscv64.time(ticks) + 1)
            * frequency_hz,
{
    time_is_ticks_over_frequency(ticks as int, frequency_hz as int);
    let t = crate::clock::ns_of_ticks(ticks as int, frequency_hz as int);
    let f = frequency_hz as int;
    vstd::arithmetic::div_mod::lemma_div_pos_is_pos(ticks * 1_000_000_000, f);
    assert(t < 0x1_0000_0000_0000_0000) by (nonlinear_arith)
        requires
            t * f <= ticks * 1_000_000_000,
            ticks * 1_000_000_000 < f * 0x1_0000_0000_0000_0000,
            f > 0,
    ;
}

/// Counter 0 is the cycle counter and counter 2 the one of retired instructions;
/// no other counter is on every hart.
pub proof fn only_two_counters_are_on_every_hart(counter: PerfCounterId)
    ensures
        counter.0 == 0 <==> counter_register(counter) == Some(CounterRegister::Cycle),
        counter.0 == 2 <==> counter_register(counter) == Some(CounterRegister::Instret),
        counter.0 != 0 && counter.0 != 2 <==> counter_register(counter) is None,
{
}

} // verus!
