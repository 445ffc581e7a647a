//! All capabilities of a platform as one bound.

use vstd::prelude::*;

use crate::hal::compute::ComputeDeviceDiscovery;
use crate::hal::cpu::CpuAbstraction;
use crate::hal::interrupt::InterruptController;
use crate::hal::memory::MemoryBootstrap;
use crate::hal::power::PowerThermal;
use crate::hal::timer::TimerAbstraction;

verus! {

/// A type that offers every capability.
pub trait PlatformHal<const ARCH_CONTEXT_BYTES: usize>:
    CpuAbstraction<ARCH_CONTEXT_BYTES>
    + MemoryBootstrap
    + TimerAbstraction
    + InterruptController
    + ComputeDeviceDiscovery
    + PowerThermal
{
}

impl<const N: usize, T> PlatformHal<N> for T where
    T: CpuAbstraction<N> + MemoryBootstrap + TimerAbstraction + InterruptController
        + ComputeDeviceDiscovery + PowerThermal,
{
}

} // verus!
