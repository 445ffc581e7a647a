//! The generic timer and its comparator.

use vstd::prelude::*;

use crate::clock::{
    first_tick_at, ns_of_ticks, ns_to_ticks, tick_at, ticks_of_ns, ticks_to_ns, NS_PER_SECOND,
};
use crate::hal::error::HalError;
use crate::hal::timer::TimerMode;
use crate::manifest::raw::TimerKindRaw;

verus! {

/// The comparator value that is never reached.
pub const IDLE_COMPARATOR: u64 = 0xFFFF_FFFF_FFFF_FFFF;

/// The control value that enables the comparator.
pub const COMPARATOR_ENABLED: u64 = 1;

/// The timer of one core.
pub struct Timer<C> {
    pub frequency_hz: u64,
    pub callback: Option<C>,
    pub tickless_enabled: bool,
}

impl<C> Timer<C> {
    /// The timer whose frequency register holds `frequency_hz`. Its comparator
    /// is to be set to `IDLE_COMPARATOR` and enabled.
    pub fn new(frequency_hz: u64) -> (r: Self)
        ensures
            r.frequency_hz == frequency_hz,
            r.callback is None,
            !r.tickless_enabled,
    {
        Timer { frequency_hz, callback: None, tickless_enabled: false }
    }

    /// Which source the timer is.
    pub fn detected_kind(&self) -> (r: TimerKindRaw)
        ensures
            r == TimerKindRaw::ArmGenericTimer,
    {
        TimerKindRaw::ArmGenericTimer
    }

    /// The counter value at a deadline, modulo 2^64.
    pub fn deadline_ns_to_ticks(&self, deadline_ns: u64) -> (r: u64)
        ensures
            r == ticks_of_ns(deadline_ns as int, self.frequency_hz as int) as u64,
    {
        ns_to_ticks(deadline_ns, self.frequency_hz) as u64
    }

    /// The time when the counter reads `ticks`, modulo 2^64.
    pub fn now_ns(&self, ticks: u64) -> (r: u64)
        requires
            self.frequency_hz > 0,
        ensures
            r == ns_of_ticks(ticks as int, self.frequency_hz as int) as u64,
    {
        ticks_to_ns(ticks, self.frequency_hz)
    }

    /// Decides whether a deadline can be armed when the counter reads `ticks`;
    /// if so, returns the first tick that is not before it, to be written to the
    /// comparator.
    pub fn set_oneshot(&self, deadline_ns: u64, mode: TimerMode, ticks: u64) -> (r: Result<
        u64,
        HalError,
    >)
        requires
            self.frequency_hz > 0,
        ensures
            r == (if deadline_ns <= ns_of_ticks(ticks as int, self.frequency_hz as int) as u64
                || tick_at(deadline_ns as int, self.frequency_hz as int) > u64::MAX {
                Err(HalError::InvalidTimerDeadline)
            } else {
                Ok(tick_at(deadline_ns as int, self.frequency_hz as int) as u64)
            }),
            r matches Ok(tick) ==> tick * NS_PER_SECOND >= deadline_ns * self.frequency_hz && (tick
                - 1) * NS_PER_SECOND < deadline_ns * self.frequency_hz,
    {
        if deadline_ns <= self.now_ns(ticks) {
            return Err(HalError::InvalidTimerDeadline);
        }
        let deadline_ticks: u128 = first_tick_at(deadline_ns, self.frequency_hz);
        if deadline_ticks > 0xFFFF_FFFF_FFFF_FFFF {
            return Err(HalError::InvalidTimerDeadline);
        }
        Ok(deadline_ticks as u64)
    }

    /// What to write to the comparator so that it does not fire.
    pub fn cancel_oneshot(&self) -> (r: u64)
        ensures
            r == IDLE_COMPARATOR,
    {
        IDLE_COMPARATOR
    }

    /// Turns tickless operation on or off.
    pub fn set_tickless(&mut self, enabled: bool) -> (r: Result<(), HalError>)
        ensures
            r is Ok,
            *final(self) == (Timer { tickless_enabled: enabled, ..*old(self) }),
    {
        self.tickless_enabled = enabled;
        Ok(())
    }

    /// Sets what a fired deadline invokes.
    pub fn set_timer_callback(&mut self, callback: C)
        ensures
            *final(self) == (Timer { callback: Some(callback), ..*old(self) }),
    {
        self.callback = Some(callback);
    }

    /// Deadlines can always be armed.
    pub fn supports_tickless(&self) -> (r: bool)
        ensures
            r,
    {
        true
    }

    /// The counter's frequency.
    pub fn frequency_hz(&self) -> (r: u64)
        ensures
            r == self.frequency_hz,
    {
        self.frequency_hz
    }
}

/// Invokes the timer's callback, if it has one.
pub fn on_timer_interrupt<C: Fn()>(timer: &Timer<C>)
    requires
        timer.callback matches Some(callback) ==> call_requires(callback, ()),
    ensures
        timer.callback matches Some(callback) ==> call_ensures(callback, (), ()),
{
    match &timer.callback {
        Some(callback) => callback(),
        None => {},
    }
}

} // verus!
