//! Calls of clocks and timers.

use vstd::prelude::*;

use crate::arm64::timer as arm64;
use crate::clock::{first_tick_at, ns_of_ticks, ns_to_ticks, tick_at, ticks_to_ns};
use crate::hal::error::HalError;
use crate::hal::timer::TimerMode;
use crate::laws::time::{
    counter_capabilities_are_single_bits, counter_runs_at_crystal_times_ratio,
    identified_timer_runs_as_reported, ticks_fit_in_their_span, time_is_ticks_over_frequency,
};
use crate::manifest::raw::TimerKindRaw;
use crate::riscv64::timer as riscv64;
use crate::x86_64::cpu::{CpuidResult, CpuidSource};
use crate::x86_64::timer as x86_64;

verus! {

/// The frequency that is extracted from two leaves is the crystal's times the
/// ratio, rounded down, or the base frequency in megahertz, or none.
pub proof fn extracted_frequency(leaf15: &CpuidResult, leaf16: &CpuidResult, r: Option<u64>)
    requires
        call_ensures(x86_64::tsc_frequency_from_leaves, (leaf15, leaf16), r),
    ensures
        r is None <==> leaf15.eax == 0 || leaf15.ebx == 0 || (leaf15.ecx == 0 && leaf16.eax == 0),
        r matches Some(f) ==> if leaf15.ecx != 0 {
            f * leaf15.eax <= leaf15.ecx * leaf15.ebx < (f + 1) * leaf15.eax
        } else {
            f == leaf16.eax * 1_000_000
        },
{
    counter_runs_at_crystal_times_ratio(*leaf15, *leaf16);
}

/// The capabilities that are extracted from two leaves are single bits of them.
pub proof fn extracted_capabilities(
    leaf1: &CpuidResult,
    leaf_ext: &CpuidResult,
    r: x86_64::TscCapabilities,
)
    requires
        call_ensures(x86_64::tsc_capabilities_from_leaves, (leaf1, leaf_ext), r),
    ensures
        r.tsc_deadline_mode == (leaf1.ecx / 0x100_0000 % 2 == 1),
        r.invariant_tsc == (leaf_ext.edx / 0x100 % 2 == 1),
{
    counter_capabilities_are_single_bits(*leaf1, *leaf_ext);
}

/// Converted ticks are the whole nanoseconds that have passed, as long as 64 bits
/// count them; converted nanoseconds are the whole ticks that fit, or the first
/// tick that is not before them.
pub proof fn conversions(
    ticks: u64,
    ns: u64,
    frequency_hz: u64,
    passed: u64,
    fit: u128,
    first: u128,
)
    requires
        frequency_hz > 0,
        ticks * 1_000_000_000 < frequency_hz * 0x1_0000_0000_0000_0000,
        call_ensures(ticks_to_ns, (ticks, frequency_hz), passed),
        call_ensures(ns_to_ticks, (ns, frequency_hz), fit),
        call_ensures(first_tick_at, (ns, frequency_hz), first),
    ensures
        passed * frequency_hz <= ticks * 1_000_000_000 < (passed + 1) * frequency_hz,
        fit * 1_000_000_000 <= ns * frequency_hz < (fit + 1) * 1_000_000_000,
        (first - 1) * 1_000_000_000 < ns * frequency_hz <= first * 1_000_000_000,
{
    lemma_time_fits(ticks, frequency_hz);
    ticks_fit_in_their_span(ns as int, frequency_hz as int);
}

proof fn lemma_time_fits(ticks: u64, frequency_hz: u64)
    requires
        frequency_hz > 0,
        ticks * 1_000_000_000 < frequency_hz * 0x1_0000_0000_0000_0000,
    ensures
        ({
            let t = ns_of_ticks(ticks as int, frequency_hz as int);
            0 <= t < 0x1_0000_0000_0000_0000 && t * frequency_hz <= ticks * 1_000_000_000 < (t + 1)
                * frequency_hz
        }),
{
    time_is_ticks_over_frequency(ticks as int, frequency_hz as int);
    let t = ns_of_ticks(ticks as int, frequency_hz as int);
    let f = frequency_hz as int;
    vstd::arithmetic::div_mod::lemma_div_pos_is_pos(ticks * 1_000_000_000, f);
    assert(t < 0x1_0000_0000_0000_0000) by (nonlinear_arith)
        requires
            t * f <= ticks * 1_000_000_000,
            ticks * 1_000_000_000 < f * 0x1_0000_0000_0000_0000,
            f > 0,
    ;
}

/// What arming a deadline of `deadline_ns` comes to when the counter reads `ticks`.
pub open spec fn armed(
    deadline_ns: u64,
    frequency_hz: u64,
    ticks: u64,
    r: Result<u64, HalError>,
) -> bool {
    match r {
        Ok(tick) => {
            &&& (tick - 1) * 1_000_000_000 < deadline_ns * frequency_hz <= tick * 1_000_000_000
            &&& tick > ticks
        },
        Err(e) => {
            &&& e == HalError::InvalidTimerDeadline
            &&& deadline_ns * frequency_hz <= ticks * 1_000_000_000 || deadline_ns * frequency_hz
                > 0xFFFF_FFFF_FFFF_FFFF * 1_000_000_000
        },
    }
}

proof fn lemma_armed(deadline_ns: u64, frequency_hz: u64, ticks: u64, r: Result<u64, HalError>)
    requires
        frequency_hz > 0,
        ticks * 1_000_000_000 < frequency_hz * 0x1_0000_0000_0000_0000,
        r == (if deadline_ns <= ns_of_ticks(ticks as int, frequency_hz as int) as u64 || tick_at(
            deadline_ns as int,
            frequency_hz as int,
        ) > u64::MAX {
            Err(HalError::InvalidTimerDeadline)
        } else {
            Ok(tick_at(deadline_ns as int, frequency_hz as int) as u64)
        }),
    ensures
        armed(deadline_ns, frequency_hz, ticks, r),
        r is Err <==> deadline_ns * frequency_hz <= ticks * 1_000_000_000 || deadline_ns
            * frequency_hz > 0xFFFF_FFFF_FFFF_FFFF * 1_000_000_000,
{
    lemma_time_fits(ticks, frequency_hz);
    ticks_fit_in_their_span(deadline_ns as int, frequency_hz as int);
    let d = deadline_ns as int;
    let f = frequency_hz as int;
    let t = ns_of_ticks(ticks as int, f);
    let p = ticks * 1_000_000_000;
    let tick = tick_at(d, f);
    assert(0 <= d * f) by (nonlinear_arith)
        requires
            d >= 0,
            f > 0,
    ;
    assert(d <= t <==> d * f <= p) by {
        if d <= t {
            assert(d * f <= t * f) by (nonlinear_arith)
                requires
                    d <= t,
                    f > 0,
            ;
        } else {
            assert(d * f >= (t + 1) * f) by (nonlinear_arith)
                requires
                    d >= t + 1,
                    f > 0,
            ;
        }
    }
}

/// A deadline on x86_64 is armed exactly if the counter takes deadlines, the
/// deadline has not been reached, and 64 bits count its tick: at the first tick
/// that is not before it, which has yet to come.
pub proof fn x86_64_deadline<C>(
    timer: &x86_64::Timer<C>,
    deadline_ns: u64,
    mode: TimerMode,
    ticks: u64,
    r: Result<u64, HalError>,
)
    requires
        call_ensures(x86_64::Timer::<C>::set_oneshot, (timer, deadline_ns, mode, ticks), r),
        timer.frequency_hz > 0,
        ticks * 1_000_000_000 < timer.frequency_hz * 0x1_0000_0000_0000_0000,
    ensures
        !timer.tsc_deadline_capable ==> r == Err::<u64, HalError>(HalError::TicklessModeUnsupported),
        timer.tsc_deadline_capable ==> armed(deadline_ns, timer.frequency_hz, ticks, r),
        timer.tsc_deadline_capable && deadline_ns * timer.frequency_hz > ticks * 1_000_000_000
            && deadline_ns * timer.frequency_hz <= 0xFFFF_FFFF_FFFF_FFFF * 1_000_000_000 ==> r is Ok,
{
    if timer.tsc_deadline_capable {
        lemma_armed(deadline_ns, timer.frequency_hz, ticks, r);
    }
}

/// A deadline on ARM64 is armed exactly if it has not been reached and 64 bits
/// count its tick.
pub proof fn arm64_deadline<C>(
    timer: &arm64::Timer<C>,
    deadline_ns: u64,
    mode: TimerMode,
    ticks: u64,
    r: Result<u64, HalError>,
)
    requires
        call_ensures(arm64::Timer::<C>::set_oneshot, (timer, deadline_ns, mode, ticks), r),
        timer.frequency_hz > 0,
        ticks * 1_000_000_000 < timer.frequency_hz * 0x1_0000_0000_0000_0000,
    ensures
        armed(deadline_ns, timer.frequency_hz, ticks, r),
        deadline_ns * timer.frequency_hz > ticks * 1_000_000_000 && deadline_ns
            * timer.frequency_hz <= 0xFFFF_FFFF_FFFF_FFFF * 1_000_000_000 ==> r is Ok,
{
    lemma_armed(deadline_ns, timer.frequency_hz, ticks, r);
}

/// A deadline on RISC-V is armed exactly if firmware arms deadlines, the deadline
/// has not been reached, and 64 bits count its tick.
pub proof fn riscv64_deadline<C>(
    timer: &riscv64::Timer<C>,
    deadline_ns: u64,
    mode: TimerMode,
    ticks: u64,
    r: Result<u64, HalError>,
)
    requires
        call_ensures(riscv64::Timer::<C>::set_oneshot, (timer, deadline_ns, mode, ticks), r),
        timer.frequency_hz > 0,
        ticks * 1_000_000_000 < timer.frequency_hz * 0x1_0000_0000_0000_0000,
    ensures
        !timer.sbi_time_available ==> r == Err::<u64, HalError>(HalError::TicklessModeUnsupported),
        timer.sbi_time_available ==> armed(deadline_ns, timer.frequency_hz, ticks, r),
        timer.sbi_time_available && deadline_ns * timer.frequency_hz > ticks * 1_000_000_000
            && deadline_ns * timer.frequency_hz <= 0xFFFF_FFFF_FFFF_FFFF * 1_000_000_000 ==> r is Ok,
{
    if timer.sbi_time_available {
        lemma_armed(deadline_ns, timer.frequency_hz, ticks, r);
    }
}

/// The time of a timer is the last whole nanosecond that has passed, on every
/// machine.
pub proof fn current_time<C>(
    a: &x86_64::Timer<C>,
    b: &arm64::Timer<C>,
    c: &riscv64::Timer<C>,
    frequency_hz: u64,
    ticks: u64,
    now_a: u64,
    now_b: u64,
    now_c: u64,
)
    requires
        a.frequency_hz == frequency_hz,
        b.frequency_hz == frequency_hz,
        c.frequency_hz == frequency_hz,
        frequency_hz > 0,
        ticks * 1_000_000_000 < frequency_hz * 0x1_0000_0000_0000_0000,
        call_ensures(x86_64::Timer::<C>::now_ns, (a, ticks), now_a),
        call_ensures(arm64::Timer::<C>::now_ns, (b, ticks), now_b),
        call_ensures(riscv64::Timer::<C>::now_ns, (c, ticks), now_c),
    ensures
        now_a * frequency_hz <= ticks * 1_000_000_000 < (now_a + 1) * frequency_hz,
        now_b == now_a,
        now_c == now_a,
{
    lemma_time_fits(ticks, frequency_hz);
}

/// A deadline's counter value, where 64 bits count it, is that of the whole ticks
/// before it, on every machine.
pub proof fn deadline_in_ticks<C>(
    a: &x86_64::Timer<C>,
    b: &arm64::Timer<C>,
    c: &riscv64::Timer<C>,
    frequency_hz: u64,
    deadline_ns: u64,
    ticks_a: u64,
    ticks_b: u64,
    ticks_c: u64,
)
    requires
        a.frequency_hz == frequency_hz,
        b.frequency_hz == frequency_hz,
        c.frequency_hz == frequency_hz,
        deadline_ns * frequency_hz < 0x1_0000_0000_0000_0000 * 1_000_000_000,
        call_ensures(x86_64::Timer::<C>::deadline_ns_to_tsc, (a, deadline_ns), ticks_a),
        call_ensures(arm64::Timer::<C>::deadline_ns_to_ticks, (b, deadline_ns), ticks_b),
        call_ensures(riscv64::Timer::<C>::deadline_ns_to_ticks, (c, deadline_ns), ticks_c),
    ensures
        ticks_a * 1_000_000_000 <= deadline_ns * frequency_hz < (ticks_a + 1) * 1_000_000_000,
        ticks_b == ticks_a,
        ticks_c == ticks_a,
{
    ticks_fit_in_their_span(deadline_ns as int, frequency_hz as int);
    assert(0 <= deadline_ns * frequency_hz) by (nonlinear_arith)
        requires
            0 <= deadline_ns,
            0 <= frequency_hz,
    ;
}

/// A deadline is cancelled by a value that never fires: zero in the deadline
/// register of x86_64, the last value of the counter elsewhere, and on RISC-V
/// nothing at all if firmware arms none.
pub proof fn cancelled_deadline<C>(
    a: &x86_64::Timer<C>,
    b: &arm64::Timer<C>,
    c: &riscv64::Timer<C>,
    idle_a: u64,
    idle_b: u64,
    idle_c: Option<u64>,
)
    requires
        call_ensures(x86_64::Timer::<C>::cancel_oneshot, (a,), idle_a),
        call_ensures(arm64::Timer::<C>::cancel_oneshot, (b,), idle_b),
        call_ensures(riscv64::Timer::<C>::cancel_oneshot, (c,), idle_c),
    ensures
        idle_a == 0,
        idle_b == 0xFFFF_FFFF_FFFF_FFFF,
        idle_c is Some <==> c.sbi_time_available,
        idle_c matches Some(idle) ==> idle == 0xFFFF_FFFF_FFFF_FFFF,
{
}

/// A timer is what its machine has: on x86_64 the HPET only where there is one and
/// the counter cannot be armed. It can run tickless if it can be armed, which it
/// always can on ARM64.
pub proof fn timer_kinds<C>(
    a: &x86_64::Timer<C>,
    b: &arm64::Timer<C>,
    c: &riscv64::Timer<C>,
    kind_a: TimerKindRaw,
    kind_b: TimerKindRaw,
    kind_c: TimerKindRaw,
    tickless_a: bool,
    tickless_b: bool,
    tickless_c: bool,
)
    requires
        call_ensures(x86_64::Timer::<C>::detected_kind, (a,), kind_a),
        call_ensures(arm64::Timer::<C>::detected_kind, (b,), kind_b),
        call_ensures(riscv64::Timer::<C>::detected_kind, (c,), kind_c),
        call_ensures(x86_64::Timer::<C>::supports_tickless, (a,), tickless_a),
        call_ensures(arm64::Timer::<C>::supports_tickless, (b,), tickless_b),
        call_ensures(riscv64::Timer::<C>::supports_tickless, (c,), tickless_c),
    ensures
        kind_a is Hpet <==> !a.tsc_deadline_capable && a.hpet_present,
        kind_a is Tsc <==> a.tsc_deadline_capable || !a.hpet_present,
        kind_b is ArmGenericTimer,
        kind_c is RiscvSbiTimer,
        tickless_a == a.tsc_deadline_capable,
        tickless_b,
        tickless_c == c.sbi_time_available,
{
}

/// Tickless operation can always be turned off, and be turned on exactly where
/// deadlines can be armed; nothing else of the timer changes, and nothing at all if
/// it is refused.
pub proof fn tickless_operation<C>(
    a: &mut x86_64::Timer<C>,
    b: &mut arm64::Timer<C>,
    c: &mut riscv64::Timer<C>,
    enabled: bool,
    ra: Result<(), HalError>,
    rb: Result<(), HalError>,
    rc: Result<(), HalError>,
)
    requires
        call_ensures(x86_64::Timer::<C>::set_tickless, (a, enabled), ra),
        call_ensures(arm64::Timer::<C>::set_tickless, (b, enabled), rb),
        call_ensures(riscv64::Timer::<C>::set_tickless, (c, enabled), rc),
    ensures
        ra is Ok <==> !enabled || old(a).tsc_deadline_capable,
        ra matches Err(e) ==> e == HalError::TicklessModeUnsupported,
        final(a).tickless_enabled == (if ra is Ok {
            enabled
        } else {
            old(a).tickless_enabled
        }),
        final(a).frequency_hz == old(a).frequency_hz,
        final(a).tsc_deadline_capable == old(a).tsc_deadline_capable,
        final(a).hpet_present == old(a).hpet_present,
        final(a).callback == old(a).callback,
        rb is Ok,
        final(b).tickless_enabled == enabled,
        final(b).frequency_hz == old(b).frequency_hz,
        final(b).callback == old(b).callback,
        rc is Ok <==> !enabled || old(c).sbi_time_available,
        rc matches Err(e) ==> e == HalError::TicklessModeUnsupported,
        final(c).tickless_enabled == (if rc is Ok {
            enabled
        } else {
            old(c).tickless_enabled
        }),
        final(c).frequency_hz == old(c).frequency_hz,
        final(c).sbi_time_available == old(c).sbi_time_available,
        final(c).callback == old(c).callback,
{
}

/// A callback that was set is the timer's callback, and nothing else of the timer
/// changes.
pub proof fn timer_callback<C>(
    a: &mut x86_64::Timer<C>,
    b: &mut arm64::Timer<C>,
    c: &mut riscv64::Timer<C>,
    callback: C,
)
    requires
        call_ensures(x86_64::Timer::<C>::set_timer_callback, (a, callback), ()),
        call_ensures(arm64::Timer::<C>::set_timer_callback, (b, callback), ()),
        call_ensures(riscv64::Timer::<C>::set_timer_callback, (c, callback), ()),
    ensures
        final(a).callback == Some(callback),
        final(a).frequency_hz == old(a).frequency_hz,
        final(a).tsc_deadline_capable == old(a).tsc_deadline_capable,
        final(b).callback == Some(callback),
        final(b).frequency_hz == old(b).frequency_hz,
        final(c).callback == Some(callback),
        final(c).frequency_hz == old(c).frequency_hz,
        final(c).sbi_time_available == old(c).sbi_time_available,
{
}

/// A timer's interrupt invokes its callback.
pub proof fn timer_interrupt<C: Fn()>(
    a: &x86_64::Timer<C>,
    b: &arm64::Timer<C>,
    c: &riscv64::Timer<C>,
    callback: C,
)
    requires
        a.callback == Some(callback),
        b.callback == Some(callback),
        c.callback == Some(callback),
        call_ensures(x86_64::on_timer_interrupt::<C>, (a,), ()) || call_ensures(
            arm64::on_timer_interrupt::<C>,
            (b,),
            (),
        ) || call_ensures(riscv64::on_timer_interrupt::<C>, (c,), ()),
    ensures
        call_ensures(callback, (), ()),
{
}

/// A new timer has the frequency of its register, or ten million ticks a second on
/// RISC-V, and no callback.
pub proof fn new_timers<C>(
    frequency_hz: u64,
    sbi: bool,
    b: arm64::Timer<C>,
    c: riscv64::Timer<C>,
)
    requires
        call_ensures(arm64::Timer::<C>::new, (frequency_hz,), b),
        call_ensures(riscv64::Timer::<C>::new, (sbi,), c),
    ensures
        b.frequency_hz == frequency_hz,
        b.callback is None,
        !b.tickless_enabled,
        c.frequency_hz == 10_000_000,
        c.sbi_time_available == sbi,
        c.callback is None,
        !c.tickless_enabled,
{
}

/// A timer that is made on x86_64 has the frequency that the CPU reports, or one
/// gigahertz if it reports none, and can be armed if the CPU reports both abilities.
pub proof fn identify_timer_on_x86_64<C, S: CpuidSource>(
    cpuid: &S,
    hpet: x86_64::HpetPresence,
    timer: x86_64::Timer<C>,
    caps: x86_64::TscCapabilities,
    frequency: Option<u64>,
    leaf1: CpuidResult,
    leaf15: CpuidResult,
    leaf16: CpuidResult,
    leaf_ext: CpuidResult,
)
    requires
        call_ensures(x86_64::Timer::<C>::new::<S>, (cpuid, hpet), timer),
        call_ensures(x86_64::detect_tsc_capabilities::<S>, (cpuid,), caps),
        call_ensures(x86_64::detect_tsc_frequency_hz::<S>, (cpuid,), frequency),
        forall|r: CpuidResult| call_ensures(S::cpuid, (cpuid, 1, 0), r) ==> r == leaf1,
        forall|r: CpuidResult| call_ensures(S::cpuid, (cpuid, 0x15, 0), r) ==> r == leaf15,
        forall|r: CpuidResult| call_ensures(S::cpuid, (cpuid, 0x16, 0), r) ==> r == leaf16,
        forall|r: CpuidResult|
            call_ensures(S::cpuid, (cpuid, 0x8000_0007, 0), r) ==> r == leaf_ext,
    ensures
        caps.tsc_deadline_mode == (leaf1.ecx / 0x100_0000 % 2 == 1),
        caps.invariant_tsc == (leaf_ext.edx / 0x100 % 2 == 1),
        frequency is None <==> leaf15.eax == 0 || leaf15.ebx == 0 || (leaf15.ecx == 0 && leaf16.eax
            == 0),
        frequency matches Some(f) ==> if leaf15.ecx != 0 {
            f * leaf15.eax <= leaf15.ecx * leaf15.ebx < (f + 1) * leaf15.eax
        } else {
            f == leaf16.eax * 1_000_000
        },
        frequency is None ==> timer.frequency_hz == 1_000_000_000,
        frequency is Some && leaf15.ecx == 0 ==> timer.frequency_hz == leaf16.eax * 1_000_000,
        frequency is Some && leaf15.ecx != 0 ==> timer.frequency_hz * leaf15.eax <= leaf15.ecx
            * leaf15.ebx < (timer.frequency_hz + 1) * leaf15.eax,
        timer.tsc_deadline_capable == (caps.invariant_tsc && caps.tsc_deadline_mode),
        timer.hpet_present == hpet.present,
        timer.callback is None && !timer.tickless_enabled,
{
    identified_timer_runs_as_reported(timer, cpuid, hpet, leaf1, leaf15, leaf16, leaf_ext);
    let (l1, le) = choose|l1: CpuidResult, le: CpuidResult|
        call_ensures(S::cpuid, (cpuid, 1, 0), l1) && call_ensures(
            S::cpuid,
            (cpuid, 0x8000_0007, 0),
            le,
        ) && caps == #[trigger] x86_64::capabilities_of(l1, le);
    assert(l1 == leaf1 && le == leaf_ext);
    counter_capabilities_are_single_bits(leaf1, leaf_ext);
    let (a, b) = choose|a: CpuidResult, b: CpuidResult|
        call_ensures(S::cpuid, (cpuid, 0x15, 0), a) && (a.ebx == 0 || a.eax == 0 || a.ecx != 0
            || call_ensures(S::cpuid, (cpuid, 0x16, 0), b)) && frequency
            == #[trigger] x86_64::frequency_of(a, b);
    assert(a == leaf15);
    counter_runs_at_crystal_times_ratio(a, b);
}

/// A timer tells the frequency that it has.
pub proof fn tell_frequency<C>(
    a: &x86_64::Timer<C>,
    b: &arm64::Timer<C>,
    c: &riscv64::Timer<C>,
    r: (u64, u64, u64),
)
    requires
        call_ensures(x86_64::Timer::<C>::frequency_hz, (a,), r.0),
        call_ensures(arm64::Timer::<C>::frequency_hz, (b,), r.1),
        call_ensures(riscv64::Timer::<C>::frequency_hz, (c,), r.2),
    ensures
        r == (a.frequency_hz, b.frequency_hz, c.frequency_hz),
{
}

} // verus!
