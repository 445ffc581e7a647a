//! Laws of clocks and timers.

use vstd::prelude::*;

use crate::clock::{ns_of_ticks, tick_at, ticks_of_ns};
use crate::laws::words::digits_of_a_word;
use crate::x86_64::cpu::{CpuidResult, CpuidSource};
use crate::x86_64::timer::{
    capabilities_from, capabilities_of, frequency_from, frequency_of, HpetPresence, Timer,
    TscCapabilities,
};

verus! {

/// With a crystal frequency and a ratio, the counter's frequency is their
/// product over the divisor, rounded down; no product is cut short. With a ratio
/// alone it is the base frequency in whole megahertz. Without a ratio, or without
/// either frequency, there is none.
pub proof fn counter_runs_at_crystal_times_ratio(leaf15: CpuidResult, leaf16: CpuidResult)
    ensures
        leaf15.eax != 0 && leaf15.ebx != 0 && leaf15.ecx != 0 ==> (frequency_of(
            leaf15,
            leaf16,
        ) matches Some(f) && f * leaf15.eax <= leaf15.ecx * leaf15.ebx < (f + 1) * leaf15.eax),
        leaf15.eax != 0 && leaf15.ebx != 0 && leaf15.ecx == 0 && leaf16.eax != 0 ==> (frequency_of(
            leaf15,
            leaf16,
        ) matches Some(f) && f == leaf16.eax * 1_000_000),
        leaf15.eax == 0 || leaf15.ebx == 0 || (leaf15.ecx == 0 && leaf16.eax == 0) <==> frequency_of(
            leaf15,
            leaf16,
        ) is None,
{
    if leaf15.eax != 0 {
        let p = leaf15.ecx as int * leaf15.ebx as int;
        let d = leaf15.eax as int;
        let q = p / d;
        vstd::arithmetic::div_mod::lemma_fundamental_div_mod(p, d);
        vstd::arithmetic::div_mod::lemma_mod_bound(p, d);
        assert(0 <= p <= 0xFFFF_FFFF * 0xFFFF_FFFF) by (nonlinear_arith)
            requires
                p == leaf15.ecx as int * leaf15.ebx as int,
                0 <= leaf15.ecx <= 0xFFFF_FFFF,
                0 <= leaf15.ebx <= 0xFFFF_FFFF,
        ;
        vstd::arithmetic::div_mod::lemma_div_pos_is_pos(p, d);
        assert(q <= p) by (nonlinear_arith)
            requires
                p == d * q + p % d,
                0 <= p % d,
                d >= 1,
                q >= 0,
        ;
        assert(q * d <= p < (q + 1) * d) by (nonlinear_arith)
            requires
                p == d * q + p % d,
                0 <= p % d < d,
        ;
    }
}

/// A timer that CPUID identifies has the frequency that leaf 0x15 gives, or one
/// gigahertz if CPUID gives none, and can be armed exactly if bit 24 of leaf 1's
/// ECX and bit 8 of leaf 0x80000007's EDX are set.
pub proof fn identified_timer_runs_as_reported<C, S: CpuidSource>(
    timer: Timer<C>,
    cpuid: &S,
    hpet: HpetPresence,
    leaf1: CpuidResult,
    leaf15: CpuidResult,
    leaf16: CpuidResult,
    leaf_ext: CpuidResult,
)
    requires
        timer.identified_by(cpuid, hpet),
        forall|r: CpuidResult| call_ensures(S::cpuid, (cpuid, 1, 0), r) ==> r == leaf1,
        forall|r: CpuidResult| call_ensures(S::cpuid, (cpuid, 0x15, 0), r) ==> r == leaf15,
        forall|r: CpuidResult| call_ensures(S::cpuid, (cpuid, 0x16, 0), r) ==> r == leaf16,
        forall|r: CpuidResult|
            call_ensures(S::cpuid, (cpuid, 0x8000_0007, 0), r) ==> r == leaf_ext,
    ensures
        leaf15.eax != 0 && leaf15.ebx != 0 && leaf15.ecx != 0 ==> timer.frequency_hz * leaf15.eax
            <= leaf15.ecx * leaf15.ebx < (timer.frequency_hz + 1) * leaf15.eax,
        leaf15.eax != 0 && leaf15.ebx != 0 && leaf15.ecx == 0 && leaf16.eax != 0
            ==> timer.frequency_hz == leaf16.eax * 1_000_000,
        leaf15.eax == 0 || leaf15.ebx == 0 || (leaf15.ecx == 0 && leaf16.eax == 0)
            ==> timer.frequency_hz == 1_000_000_000,
        timer.tsc_deadline_capable == (leaf1.ecx / 0x100_0000 % 2 == 1 && leaf_ext.edx / 0x100 % 2
            == 1),
        timer.hpet_present == hpet.present,
        timer.callback is None,
        !timer.tickless_enabled,
{
    let caps = choose|caps: TscCapabilities| #[trigger]
        capabilities_from(cpuid, caps) && timer.tsc_deadline_capable == (caps.invariant_tsc
            && caps.tsc_deadline_mode);
    let (l1, le) = choose|l1: CpuidResult, le: CpuidResult|
        call_ensures(S::cpuid, (cpuid, 1, 0), l1) && call_ensures(
            S::cpuid,
            (cpuid, 0x8000_0007, 0),
            le,
        ) && caps == #[trigger] capabilities_of(l1, le);
    assert(l1 == leaf1 && le == leaf_ext);
    digits_of_a_word(leaf1.ecx);
    digits_of_a_word(leaf_ext.edx);
    let frequency = choose|frequency: Option<u64>| #[trigger]
        frequency_from(cpuid, frequency) && timer.frequency_hz == match frequency {
            Some(hz) => hz,
            None => 1_000_000_000,
        };
    let (a, b) = choose|a: CpuidResult, b: CpuidResult|
        call_ensures(S::cpuid, (cpuid, 0x15, 0), a) && (a.ebx == 0 || a.eax == 0 || a.ecx != 0
            || call_ensures(S::cpuid, (cpuid, 0x16, 0), b)) && frequency == #[trigger] frequency_of(
            a,
            b,
        );
    assert(a == leaf15);
    counter_runs_at_crystal_times_ratio(a, b);
}

/// The counter takes deadlines if bit 24 of leaf 1's ECX is set, and runs at a
/// constant rate if bit 8 of leaf 0x80000007's EDX is.
pub proof fn counter_capabilities_are_single_bits(leaf1: CpuidResult, leaf_ext: CpuidResult)
    ensures
        capabilities_of(leaf1, leaf_ext).tsc_deadline_mode == (leaf1.ecx / 0x100_0000 % 2 == 1),
        capabilities_of(leaf1, leaf_ext).invariant_tsc == (leaf_ext.edx / 0x100 % 2 == 1),
{
    digits_of_a_word(leaf1.ecx);
    digits_of_a_word(leaf_ext.edx);
}

/// A time in nanoseconds is the last whole one that has passed: a counter that
/// has run for `f` ticks has run for a second.
pub proof fn time_is_ticks_over_frequency(ticks: int, frequency_hz: int)
    requires
        0 <= ticks,
        0 < frequency_hz,
    ensures
        ns_of_ticks(ticks, frequency_hz) * frequency_hz <= ticks * 1_000_000_000 < (ns_of_ticks(
            ticks,
            frequency_hz,
        ) + 1) * frequency_hz,
        ns_of_ticks(frequency_hz, frequency_hz) == 1_000_000_000,
        ns_of_ticks(ticks + frequency_hz, frequency_hz) == ns_of_ticks(ticks, frequency_hz)
            + 1_000_000_000,
{
    let f = frequency_hz;
    let q = ns_of_ticks(ticks, f);
    let p = ticks * 1_000_000_000;
    vstd::arithmetic::div_mod::lemma_fundamental_div_mod(p, f);
    vstd::arithmetic::div_mod::lemma_mod_bound(p, f);
    assert(q * f <= p < (q + 1) * f) by (nonlinear_arith)
        requires
            p == f * q + p % f,
            0 <= p % f < f,
    ;
    vstd::arithmetic::mul::lemma_mul_is_commutative(f, 1_000_000_000);
    vstd::arithmetic::div_mod::lemma_div_multiples_vanish(1_000_000_000, f);
    vstd::arithmetic::div_mod::lemma_div_multiples_vanish_fancy(1_000_000_000, 0, f);
    vstd::arithmetic::div_mod::lemma_hoist_over_denominator(p, 1_000_000_000, f as nat);
    assert((ticks + f) * 1_000_000_000 == p + 1_000_000_000 * f) by (nonlinear_arith)
        requires
            p == ticks * 1_000_000_000,
    ;
}

/// The ticks of a span are the whole ones that fit in it.
pub proof fn ticks_fit_in_their_span(ns: int, frequency_hz: int)
    requires
        0 <= ns,
        0 <= frequency_hz,
    ensures
        ticks_of_ns(ns, frequency_hz) * 1_000_000_000 <= ns * frequency_hz < (ticks_of_ns(
            ns,
            frequency_hz,
        ) + 1) * 1_000_000_000,
        tick_at(ns, frequency_hz) * 1_000_000_000 >= ns * frequency_hz > (tick_at(ns, frequency_hz)
            - 1) * 1_000_000_000,
{
    let n = 1_000_000_000int;
    let p = ns * frequency_hz;
    vstd::arithmetic::div_mod::lemma_fundamental_div_mod(p, n);
    vstd::arithmetic::div_mod::lemma_mod_bound(p, n);
    vstd::arithmetic::div_mod::lemma_fundamental_div_mod(p + n - 1, n);
    vstd::arithmetic::div_mod::lemma_mod_bound(p + n - 1, n);
}

} // verus!
