//! Timer modes and the timer capability trait.

use vstd::prelude::*;

use crate::hal::error::HalError;

verus! {

/// How a deadline is armed.
#[derive(Debug, Clone, Copy, PartialEq, Eq, Structural)]
pub enum TimerMode {
    /// A low-latency tick.
    Interactive,
    /// A high-resolution deadline; needs a source that can run tickless.
    HighResolutionTickless,
}

/// What each architecture's timer must offer.
pub trait TimerAbstraction {
    /// What is invoked when a deadline fires.
    type Callback;

    /// Nanoseconds since an arbitrary epoch, never decreasing.
    fn now_ns(&self) -> u64;

    /// Arms the one deadline of this core.
    fn set_oneshot(&self, deadline_ns: u64, mode: TimerMode) -> Result<(), HalError>;

    /// Disarms the deadline, if one is armed.
    fn cancel_oneshot(&self);

    /// Turns tickless operation on or off.
    fn set_tickless(&self, enabled: bool) -> Result<(), HalError>;

    /// Sets what is invoked when a deadline fires.
    fn set_timer_callback(&self, callback: Self::Callback);

    /// Whether the source can run tickless.
    fn supports_tickless(&self) -> bool;

    /// The counter's frequency in Hz.
    fn frequency_hz(&self) -> u64;
}

} // verus!
