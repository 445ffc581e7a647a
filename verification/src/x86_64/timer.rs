//! The time stamp counter and its deadline register.

use vstd::prelude::*;

use crate::bits::{bit, test_bit};
use crate::clock::{
    first_tick_at, ns_of_ticks, ns_to_ticks, tick_at, ticks_of_ns, ticks_to_ns, NS_PER_SECOND,
};
use crate::hal::error::HalError;
use crate::hal::timer::TimerMode;
use crate::manifest::raw::TimerKindRaw;
use crate::x86_64::cpu::{CpuidResult, CpuidSource};

verus! {

/// What CPUID says of the time stamp counter.
#[derive(Debug, Clone, Copy, PartialEq, Eq, Structural)]
pub struct TscCapabilities {
    /// The counter runs at a constant rate.
    pub invariant_tsc: bool,
    /// The local timer can be armed with an absolute counter value.
    pub tsc_deadline_mode: bool,
}

/// The capabilities in leaves 1 and 0x80000007.
pub open spec fn capabilities_of(leaf1: CpuidResult, leaf_ext: CpuidResult) -> TscCapabilities {
    TscCapabilities {
        invariant_tsc: bit(leaf_ext.edx as u64, 8),
        tsc_deadline_mode: bit(leaf1.ecx as u64, 24),
    }
}

/// Extracts the capabilities from leaves 1 and 0x80000007.
pub fn tsc_capabilities_from_leaves(leaf1: &CpuidResult, leaf_ext: &CpuidResult) -> (r:
    TscCapabilities)
    ensures
        r == capabilities_of(*leaf1, *leaf_ext),
{
    TscCapabilities {
        invariant_tsc: test_bit(leaf_ext.edx as u64, 8),
        tsc_deadline_mode: test_bit(leaf1.ecx as u64, 24),
    }
}

/// `caps` are the capabilities in some answers that `cpuid` may give.
pub open spec fn capabilities_from<S: CpuidSource>(cpuid: &S, caps: TscCapabilities) -> bool {
    exists|leaf1: CpuidResult, leaf_ext: CpuidResult|
        call_ensures(S::cpuid, (cpuid, 1, 0), leaf1) && call_ensures(
            S::cpuid,
            (cpuid, 0x8000_0007, 0),
            leaf_ext,
        ) && caps == #[trigger] capabilities_of(leaf1, leaf_ext)
}

/// Detects the capabilities of the time stamp counter.
pub fn detect_tsc_capabilities<S: CpuidSource>(cpuid: &S) -> (r: TscCapabilities)
    requires
        forall|leaf: u32, subleaf: u32| call_requires(S::cpuid, (cpuid, leaf, subleaf)),
    ensures
        capabilities_from(cpuid, r),
{
    let leaf1 = cpuid.cpuid(1, 0);
    let leaf_ext = cpuid.cpuid(0x8000_0007, 0);
    tsc_capabilities_from_leaves(&leaf1, &leaf_ext)
}

/// The counter's frequency in leaves 0x15 and 0x16: the crystal's frequency
/// times the reported ratio; without a crystal frequency the base frequency in
/// MHz; none if the leaves do not report what is needed.
pub open spec fn frequency_of(leaf15: CpuidResult, leaf16: CpuidResult) -> Option<u64> {
    if leaf15.ebx == 0 || leaf15.eax == 0 {
        None
    } else if leaf15.ecx != 0 {
        Some((leaf15.ecx * leaf15.ebx / leaf15.eax as int) as u64)
    } else if leaf16.eax == 0 {
        None
    } else {
        Some((leaf16.eax * 1_000_000) as u64)
    }
}

/// Extracts the counter's frequency from leaves 0x15 and 0x16.
pub fn tsc_frequency_from_leaves(leaf15: &CpuidResult, leaf16: &CpuidResult) -> (r: Option<u64>)
    ensures
        r == frequency_of(*leaf15, *leaf16),
{
    if leaf15.ebx == 0 || leaf15.eax == 0 {
        return None;
    }
    if leaf15.ecx != 0 {
        proof {
            let a = leaf15.ecx as int;
            let b = leaf15.ebx as int;
            assert(0 <= a * b <= 0xFFFF_FFFF * 0xFFFF_FFFF) by (nonlinear_arith)
                requires
                    0 <= a <= 0xFFFF_FFFF,
                    0 <= b <= 0xFFFF_FFFF,
            ;
        }
        return Some(leaf15.ecx as u64 * leaf15.ebx as u64 / leaf15.eax as u64);
    }
    if leaf16.eax == 0 {
        return None;
    }
    Some(leaf16.eax as u64 * 1_000_000)
}

/// `frequency` is the one in some answers that `cpuid` may give. Leaf 0x16 is
/// asked for only if leaf 0x15 gives a ratio without a crystal frequency.
pub open spec fn frequency_from<S: CpuidSource>(cpuid: &S, frequency: Option<u64>) -> bool {
    exists|leaf15: CpuidResult, leaf16: CpuidResult|
        call_ensures(S::cpuid, (cpuid, 0x15, 0), leaf15) && (leaf15.ebx == 0 || leaf15.eax == 0
            || leaf15.ecx != 0 || call_ensures(S::cpuid, (cpuid, 0x16, 0), leaf16)) && frequency
            == #[trigger] frequency_of(leaf15, leaf16)
}

/// Detects the frequency of the time stamp counter.
pub fn detect_tsc_frequency_hz<S: CpuidSource>(cpuid: &S) -> (r: Option<u64>)
    requires
        forall|leaf: u32, subleaf: u32| call_requires(S::cpuid, (cpuid, leaf, subleaf)),
    ensures
        frequency_from(cpuid, r),
{
    let leaf15 = cpuid.cpuid(0x15, 0);
    if leaf15.ebx == 0 || leaf15.eax == 0 || leaf15.ecx != 0 {
        let unused = CpuidResult { eax: 0, ebx: 0, ecx: 0, edx: 0 };
        return tsc_frequency_from_leaves(&leaf15, &unused);
    }
    let leaf16 = cpuid.cpuid(0x16, 0);
    tsc_frequency_from_leaves(&leaf15, &leaf16)
}

/// The frequency assumed when CPUID reports none.
pub const FALLBACK_TSC_FREQUENCY_HZ: u64 = 1_000_000_000;

/// Whether firmware describes an HPET.
#[derive(Debug, Clone, Copy, PartialEq, Eq, Structural)]
pub struct HpetPresence {
    pub present: bool,
}

/// The register that holds the counter value of the next deadline; zero disarms
/// it.
pub const IA32_TSC_DEADLINE_MSR: u32 = 0x6E0;

/// The timer of one core.
pub struct Timer<C> {
    pub frequency_hz: u64,
    pub tsc_deadline_capable: bool,
    pub hpet_present: bool,
    pub callback: Option<C>,
    pub tickless_enabled: bool,
}

impl<C> Timer<C> {
    /// The timer is the one that answers of `cpuid` describe: it can be armed if
    /// the counter runs at a constant rate and takes deadlines.
    pub open spec fn identified_by<S: CpuidSource>(self, cpuid: &S, hpet: HpetPresence) -> bool {
        &&& exists|caps: TscCapabilities| #[trigger]
            capabilities_from(cpuid, caps) && self.tsc_deadline_capable == (caps.invariant_tsc
                && caps.tsc_deadline_mode)
        &&& exists|frequency: Option<u64>| #[trigger]
            frequency_from(cpuid, frequency) && self.frequency_hz == match frequency {
                Some(hz) => hz,
                None => FALLBACK_TSC_FREQUENCY_HZ,
            }
        &&& self.hpet_present == hpet.present
        &&& self.callback is None
        &&& !self.tickless_enabled
    }

    /// Identifies the timer of the current core. It can be armed if the counter
    /// runs at a constant rate and takes deadlines.
    pub fn new<S: CpuidSource>(cpuid: &S, hpet: HpetPresence) -> (r: Self)
        requires
            forall|leaf: u32, subleaf: u32| call_requires(S::cpuid, (cpuid, leaf, subleaf)),
        ensures
            r.identified_by(cpuid, hpet),
    {
        let caps = detect_tsc_capabilities(cpuid);
        let frequency = detect_tsc_frequency_hz(cpuid);
        let frequency_hz: u64 = match frequency {
            Some(hz) => hz,
            None => FALLBACK_TSC_FREQUENCY_HZ,
        };
        Timer {
            frequency_hz,
            tsc_deadline_capable: caps.invariant_tsc && caps.tsc_deadline_mode,
            hpet_present: hpet.present,
            callback: None,
            tickless_enabled: false,
        }
    }

    /// Which source the timer is: the HPET if there is one and the counter
    /// cannot be armed, else the counter.
    pub fn detected_kind(&self) -> (r: TimerKindRaw)
        ensures
            r == (if !self.tsc_deadline_capable && self.hpet_present {
                TimerKindRaw::Hpet
            } else {
                TimerKindRaw::Tsc
            }),
    {
        if self.tsc_deadline_capable {
            TimerKindRaw::Tsc
        } else if self.hpet_present {
            TimerKindRaw::Hpet
        } else {
            TimerKindRaw::Tsc
        }
    }

    /// The counter value at a deadline, modulo 2^64.
    pub fn deadline_ns_to_tsc(&self, deadline_ns: u64) -> (r: u64)
        ensures
            r == ticks_of_ns(deadline_ns as int, self.frequency_hz as int) as u64,
    {
        ns_to_ticks(deadline_ns, self.frequency_hz) as u64
    }

    /// The time when the counter reads `ticks`, modulo 2^64.
    pub fn now_ns(&self, ticks: u64) -> (r: u64)
        requires
            self.frequency_hz > 0,
        ensures
            r == ns_of_ticks(ticks as int, self.frequency_hz as int) as u64,
    {
        ticks_to_ns(ticks, self.frequency_hz)
    }

    /// Decides whether a deadline can be armed when the counter reads `ticks`;
    /// if so, returns the first tick that is not before it, to be written to the
    /// deadline register.
    pub fn set_oneshot(&self, deadline_ns: u64, mode: TimerMode, ticks: u64) -> (r: Result<
        u64,
        HalError,
    >)
        requires
            self.frequency_hz > 0,
        ensures
            r == (if !self.tsc_deadline_capable {
                Err(HalError::TicklessModeUnsupported)
            } else if deadline_ns <= ns_of_ticks(ticks as int, self.frequency_hz as int) as u64
                || tick_at(deadline_ns as int, self.frequency_hz as int) > u64::MAX {
                Err(HalError::InvalidTimerDeadline)
            } else {
                Ok(tick_at(deadline_ns as int, self.frequency_hz as int) as u64)
            }),
            r matches Ok(tick) ==> tick * NS_PER_SECOND >= deadline_ns * self.frequency_hz && (tick
                - 1) * NS_PER_SECOND < deadline_ns * self.frequency_hz,
    {
        match mode {
            TimerMode::HighResolutionTickless => {
                if !self.tsc_deadline_capable {
                    return Err(HalError::TicklessModeUnsupported);
                }
            },
            TimerMode::Interactive => {},
        }
        if !self.tsc_deadline_capable {
            return Err(HalError::TicklessModeUnsupported);
        }
        if deadline_ns <= self.now_ns(ticks) {
            return Err(HalError::InvalidTimerDeadline);
        }
        let deadline_ticks: u128 = first_tick_at(deadline_ns, self.frequency_hz);
        if deadline_ticks > 0xFFFF_FFFF_FFFF_FFFF {
            return Err(HalError::InvalidTimerDeadline);
        }
        Ok(deadline_ticks as u64)
    }

    /// What to write to the deadline register to disarm it.
    pub fn cancel_oneshot(&self) -> (r: u64)
        ensures
            r == 0,
    {
        0
    }

    /// Turns tickless operation on or off; it cannot be on if deadlines cannot
    /// be armed.
    pub fn set_tickless(&mut self, enabled: bool) -> (r: Result<(), HalError>)
        ensures
            r == (if enabled && !old(self).tsc_deadline_capable {
                Err::<(), HalError>(HalError::TicklessModeUnsupported)
            } else {
                Ok(())
            }),
            *final(self) == (if r is Ok {
                Timer { tickless_enabled: enabled, ..*old(self) }
            } else {
                *old(self)
            }),
    {
        if enabled && !self.tsc_deadline_capable {
            return Err(HalError::TicklessModeUnsupported);
        }
        self.tickless_enabled = enabled;
        Ok(())
    }

    /// Sets what a fired deadline invokes.
    pub fn set_timer_callback(&mut self, callback: C)
        ensures
            *final(self) == (Timer { callback: Some(callback), ..*old(self) }),
    {
        self.callback = Some(callback);
    }

    /// Whether deadlines can be armed.
    pub fn supports_tickless(&self) -> (r: bool)
        ensures
            r == self.tsc_deadline_capable,
    {
        self.tsc_deadline_capable
    }

    /// The counter's frequency.
    pub fn frequency_hz(&self) -> (r: u64)
        ensures
            r == self.frequency_hz,
    {
        self.frequency_hz
    }
}

/// Invokes the timer's callback, if it has one.
pub fn on_timer_interrupt<C: Fn()>(timer: &Timer<C>)
    requires
        timer.callback matches Some(callback) ==> call_requires(callback, ()),
    ensures
        timer.callback matches Some(callback) ==> call_ensures(callback, (), ()),
{
    match &timer.callback {
        Some(callback) => callback(),
        None => {},
    }
}

} // verus!
