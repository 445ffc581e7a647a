//! The time counter, and the deadline that firmware arms.

use vstd::prelude::*;

use crate::clock::{
    first_tick_at, ns_of_ticks, ns_to_ticks, tick_at, ticks_of_ns, ticks_to_ns, NS_PER_SECOND,
};
use crate::hal::error::HalError;
use crate::hal::timer::TimerMode;
use crate::manifest::raw::TimerKindRaw;

verus! {

/// The deadline that is never reached.
pub const IDLE_DEADLINE: u64 = 0xFFFF_FFFF_FFFF_FFFF;

/// The function of the timer extension that arms a deadline.
pub const SBI_TIME_SET_TIMER: u64 = 0;

/// The timer's bit in the interrupt enable register.
pub const SIE_STIE_BIT: u64 = 1 << 5;

/// The counter's frequency.
pub const QEMU_VIRT_DEFAULT_TIMEBASE_FREQUENCY_HZ: u64 = 10_000_000;

/// The timer of one hart.
pub struct Timer<C> {
    pub frequency_hz: u64,
    /// Firmware can arm deadlines.
    pub sbi_time_available: bool,
    pub callback: Option<C>,
    pub tickless_enabled: bool,
}

impl<C> Timer<C> {
    /// The timer, given whether firmware can arm deadlines.
    pub fn new(sbi_time_available: bool) -> (r: Self)
        ensures
            r.frequency_hz == QEMU_VIRT_DEFAULT_TIMEBASE_FREQUENCY_HZ,
            r.sbi_time_available == sbi_time_available,
            r.callback is None,
            !r.tickless_enabled,
    {
        Timer {
            frequency_hz: QEMU_VIRT_DEFAULT_TIMEBASE_FREQUENCY_HZ,
            sbi_time_available,
            callback: None,
            tickless_enabled: false,
        }
    }

    /// Which source the timer is.
    pub fn detected_kind(&self) -> (r: TimerKindRaw)
        ensures
            r == TimerKindRaw::RiscvSbiTimer,
    {
        TimerKindRaw::RiscvSbiTimer
    }

    /// The counter value at a deadline, modulo 2^64.
    pub fn deadline_ns_to_ticks(&self, deadline_ns: u64) -> (r: u64)
        ensures
            r == ticks_of_ns(deadline_ns as int, self.frequency_hz as int) as u64,
    {
        ns_to_ticks(deadline_ns, self.frequency_hz) as u64
    }

    /// The time when the counter reads `ticks`, modulo 2^64.
    pub fn now_ns(&self, ticks: u64) -> (r: u64)
        requires
            self.frequency_hz > 0,
        ensures
            r == ns_of_ticks(ticks as int, self.frequency_hz as int) as u64,
    {
        ticks_to_ns(ticks, self.frequency_hz)
    }

    /// Decides whether a deadline can be armed when the counter reads `ticks`;
    /// if so, returns the first tick that is not before it, to be handed to
    /// firmware.
    pub fn set_oneshot(&self, deadline_ns: u64, mode: TimerMode, ticks: u64) -> (r: Result<
        u64,
        HalError,
    >)
        requires
            self.frequency_hz > 0,
        ensures
            r == (if !self.sbi_time_available {
                Err(HalError::TicklessModeUnsupported)
            } else if deadline_ns <= ns_of_ticks(ticks as int, self.frequency_hz as int) as u64
                || tick_at(deadline_ns as int, self.frequency_hz as int) > u64::MAX {
                Err(HalError::InvalidTimerDeadline)
            } else {
                Ok(tick_at(deadline_ns as int, self.frequency_hz as int) as u64)
            }),
            r matches Ok(tick) ==> tick * NS_PER_SECOND >= deadline_ns * self.frequency_hz && (tick
                - 1) * NS_PER_SECOND < deadline_ns * self.frequency_hz,
    {
        if !self.sbi_time_available {
            return Err(HalError::TicklessModeUnsupported);
        }
        if deadline_ns <= self.now_ns(ticks) {
            return Err(HalError::InvalidTimerDeadline);
        }
        let deadline_ticks: u128 = first_tick_at(deadline_ns, self.frequency_hz);
        if deadline_ticks > 0xFFFF_FFFF_FFFF_FFFF {
            return Err(HalError::InvalidTimerDeadline);
        }
        Ok(deadline_ticks as u64)
    }

    /// The deadline to hand to firmware so that none fires; nothing if firmware
    /// cannot arm any.
    pub fn cancel_oneshot(&self) -> (r: Option<u64>)
        ensures
            r == (if self.sbi_time_available {
                Some(IDLE_DEADLINE)
            } else {
                None
            }),
    {
        if self.sbi_time_available {
            Some(IDLE_DEADLINE)
        } else {
            None
        }
    }

    /// Turns tickless operation on or off; it cannot be on if deadlines cannot
    /// be armed.
    pub fn set_tickless(&mut self, enabled: bool) -> (r: Result<(), HalError>)
        ensures
            r == (if enabled && !old(self).sbi_time_available {
                Err::<(), HalError>(HalError::TicklessModeUnsupported)
            } else {
                Ok(())
            }),
            *final(self) == (if r is Ok {
                Timer { tickless_enabled: enabled, ..*old(self) }
            } else {
                *old(self)
            }),
    {
        if enabled && !self.sbi_time_available {
            return Err(HalError::TicklessModeUnsupported);
        }
        self.tickless_enabled = enabled;
        Ok(())
    }

    /// Sets what a fired deadline invokes.
    pub fn set_timer_callback(&mut self, callback: C)
        ensures
            *final(self) == (Timer { callback: Some(callback), ..*old(self) }),
    {
        self.callback = Some(callback);
    }

    /// Whether deadlines can be armed.
    pub fn supports_tickless(&self) -> (r: bool)
        ensures
            r == self.sbi_time_available,
    {
        self.sbi_time_available
    }

    /// The counter's frequency.
    pub fn frequency_hz(&self) -> (r: u64)
        ensures
            r == self.frequency_hz,
    {
        self.frequency_hz
    }
}

/// Invokes the timer's callback, if it has one.
pub fn on_timer_interrupt<C: Fn()>(timer: &Timer<C>)
    requires
        timer.callback matches Some(callback) ==> call_requires(callback, ()),
    ensures
        timer.callback matches Some(callback) ==> call_ensures(callback, (), ()),
{
    match &timer.callback {
        Some(callback) => callback(),
        None => {},
    }
}

} // verus!
