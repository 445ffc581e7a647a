//! The small set of queries that the kernel makes of the layer below it.

use vstd::prelude::*;

use crate::hal::cpu::{CpuAbstraction, CpuFeatureFlags};
use crate::hal::timer::TimerAbstraction;

verus! {

/// A CPU and a timer behind one handle.
pub struct HalInterface<'a, const N: usize, C: CpuAbstraction<N>, T: TimerAbstraction> {
    pub cpu: &'a C,
    pub timer: &'a T,
}

impl<'a, const N: usize, C: CpuAbstraction<N>, T: TimerAbstraction> HalInterface<'a, N, C, T> {
    /// The CPU's core count.
    pub fn core_count(&self) -> (r: usize)
        requires
            call_requires(<C as CpuAbstraction<N>>::core_count, (self.cpu,)),
        ensures
            call_ensures(<C as CpuAbstraction<N>>::core_count, (self.cpu,), r),
    {
        self.cpu.core_count()
    }

    /// The core the caller runs on.
    pub fn current_core_id(&self) -> (r: usize)
        requires
            call_requires(<C as CpuAbstraction<N>>::current_core_id, (self.cpu,)),
        ensures
            call_ensures(<C as CpuAbstraction<N>>::current_core_id, (self.cpu,), r),
    {
        self.cpu.current_core_id()
    }

    /// The CPU's features as raw bits.
    pub fn cpu_feature_flags_bits(&self) -> (r: u64)
        requires
            call_requires(<C as CpuAbstraction<N>>::feature_flags, (self.cpu,)),
        ensures
            call_ensures(
                <C as CpuAbstraction<N>>::feature_flags,
                (self.cpu,),
                CpuFeatureFlags(r),
            ),
    {
        self.cpu.feature_flags().bits()
    }

    /// The timer's current time.
    pub fn now_ns(&self) -> (r: u64)
        requires
            call_requires(T::now_ns, (self.timer,)),
        ensures
            call_ensures(T::now_ns, (self.timer,), r),
    {
        self.timer.now_ns()
    }

    /// The timer's frequency.
    pub fn frequency_hz(&self) -> (r: u64)
        requires
            call_requires(T::frequency_hz, (self.timer,)),
        ensures
            call_ensures(T::frequency_hz, (self.timer,), r),
    {
        self.timer.frequency_hz()
    }
}

/// Puts a CPU and a timer behind one handle.
pub fn build_interface<'a, const N: usize, C, T>(cpu: &'a C, timer: &'a T) -> (r: HalInterface<
    'a,
    N,
    C,
    T,
>) where C: CpuAbstraction<N>, T: TimerAbstraction
    ensures
        r.cpu == cpu,
        r.timer == timer,
{
    HalInterface { cpu, timer }
}

} // verus!
