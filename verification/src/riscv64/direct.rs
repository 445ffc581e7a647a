//! Direct hardware access with tokens.

use vstd::prelude::*;

use crate::direct::{
    affinity_scope, authorize_affinity, authorize_counter, authorize_mmio, authorize_numa_policy,
    counter_scope, decided, mmio_scope, CapabilityScope, CapabilityToken, NumaPolicy,
    PerfCounterId, TokenVerifier,
};
use crate::hal::error::HalError;
use crate::hal::memory::{MapPermissions, MemoryRegion, PhysAddr, VirtAddr};
use crate::manifest::raw::MemoryRegionKindRaw;
use crate::paging::{PageFormat, PageTables};
use crate::riscv64::memory::{flags_of, Memory};
use crate::riscv64::timer::Timer;

verus! {

/// A counter that every hart has.
#[derive(Debug, Clone, Copy, PartialEq, Eq, Structural)]
pub enum CounterRegister {
    Cycle,
    Instret,
}

/// The register of a counter: only counters 0 and 2 have one that every hart has.
pub open spec fn counter_register(counter: PerfCounterId) -> Option<CounterRegister> {
    if counter.0 == 0 {
        Some(CounterRegister::Cycle)
    } else if counter.0 == 2 {
        Some(CounterRegister::Instret)
    } else {
        None
    }
}

/// Direct access through the given verifier, memory and timer.
pub struct DirectAccess<'a, V: TokenVerifier, C> {
    pub verifier: V,
    pub memory: &'a Memory,
    pub timer: &'a Timer<C>,
}

impl<'a, V: TokenVerifier, C> DirectAccess<'a, V, C> {
    /// The time when the counter reads `ticks`.
    pub open spec fn time(self, ticks: u64) -> u64 {
        crate::clock::ns_of_ticks(ticks as int, self.timer.frequency_hz as int) as u64
    }

    /// Assembles the parts.
    pub fn new(verifier: V, memory: &'a Memory, timer: &'a Timer<C>) -> (r: Self)
        ensures
            r.verifier == verifier,
            r.memory == memory,
            r.timer == timer,
    {
        DirectAccess { verifier, memory, timer }
    }

    /// The time when the counter reads `ticks`.
    pub fn now_ns(&self, ticks: u64) -> (r: u64)
        requires
            self.timer.frequency_hz > 0,
        ensures
            r == self.time(ticks),
    {
        self.timer.now_ns(ticks)
    }

    /// Maps the device registers at `phys`, uncached, if the token allows
    /// exactly that; else nothing is mapped.
    pub fn map_mmio_region(
        &self,
        tables: &mut PageTables,
        token: CapabilityToken,
        phys: PhysAddr,
        size: usize,
        ticks: u64,
    ) -> (r: Result<VirtAddr, HalError>)
        requires
            old(tables).well_formed(),
            old(tables).format == PageFormat::Sv39,
            self.timer.frequency_hz > 0,
            call_requires(V::verify_signature, (&self.verifier, &token)),
        ensures
            final(tables).well_formed(),
            final(tables).format == PageFormat::Sv39,
            final(tables).base == old(tables).base,
            exists|verdict: Result<(), HalError>| #[trigger]
                decided(
                    &self.verifier,
                    token,
                    mmio_scope(phys, size),
                    self.time(ticks),
                    verdict,
                ) && match verdict {
                    Err(e) => r == Err::<VirtAddr, HalError>(e) && *final(tables) == *old(tables),
                    Ok(()) => old(tables).identity_setup(
                        *final(tables),
                        MemoryRegion::of(
                            phys.0 as u64,
                            size as u64,
                            MemoryRegionKindRaw::Mmio,
                            self.memory.iommu_present,
                        ),
                        flags_of(
                            MapPermissions {
                                readable: true,
                                writable: true,
                                executable: false,
                                device_uncached: true,
                            },
                        ),
                        r,
                    ),
                },
    {
        match authorize_mmio(&self.verifier, &token, phys, size, self.now_ns(ticks)) {
            Err(e) => Err(e),
            Ok(()) => {
                let region = MemoryRegion::new(
                    phys.as_usize() as u64,
                    size as u64,
                    MemoryRegionKindRaw::Mmio,
                    self.memory.iommu_present(),
                );
                self.memory.setup_identity_mapping(tables, region, MapPermissions::device_mmio())
            },
        }
    }

    /// The register to read, if the token allows reading the counter. A token
    /// for a counter that cannot be read is refused.
    pub fn read_performance_counter(
        &self,
        token: CapabilityToken,
        counter: PerfCounterId,
        ticks: u64,
    ) -> (r: Result<CounterRegister, HalError>)
        requires
            self.timer.frequency_hz > 0,
            call_requires(V::verify_signature, (&self.verifier, &token)),
        ensures
            exists|verdict: Result<(), HalError>| #[trigger]
                decided(
                    &self.verifier,
                    token,
                    counter_scope(counter),
                    self.time(ticks),
                    verdict,
                ) && r == match verdict {
                    Err(e) => Err::<CounterRegister, HalError>(e),
                    Ok(()) => match counter_register(counter) {
                        Some(register) => Ok(register),
                        None => Err(HalError::InvalidCapabilityToken),
                    },
                },
    {
        match authorize_counter(&self.verifier, &token, counter, self.now_ns(ticks)) {
            Err(e) => Err(e),
            Ok(()) => if counter.0 == 0 {
                Ok(CounterRegister::Cycle)
            } else if counter.0 == 2 {
                Ok(CounterRegister::Instret)
            } else {
                Err(HalError::InvalidCapabilityToken)
            },
        }
    }

    /// Whether the token allows pinning a thread to `core_id`.
    pub fn pin_thread_to_core(&self, token: CapabilityToken, core_id: usize, ticks: u64) -> (r:
        Result<(), HalError>)
        requires
            self.timer.frequency_hz > 0,
            call_requires(V::verify_signature, (&self.verifier, &token)),
        ensures
            decided(&self.verifier, token, affinity_scope(core_id), self.time(ticks), r),
    {
        authorize_affinity(&self.verifier, &token, core_id, self.now_ns(ticks))
    }

    /// Whether the token allows choosing a placement policy.
    pub fn set_numa_policy(&self, token: CapabilityToken, policy: NumaPolicy, ticks: u64) -> (r:
        Result<(), HalError>)
        requires
            self.timer.frequency_hz > 0,
            call_requires(V::verify_signature, (&self.verifier, &token)),
        ensures
            decided(&self.verifier, token, CapabilityScope::NumaPolicy, self.time(ticks), r),
    {
        authorize_numa_policy(&self.verifier, &token, policy, self.now_ns(ticks))
    }
}

} // verus!
