//! Privilege levels, feature flags, saved register state, and the CPU
//! capability trait.

use vstd::prelude::*;

use crate::bits::{bit, lemma_clear_bit, lemma_set_bit, lemma_zero_has_no_bit};
use crate::hal::error::HalError;

verus! {

/// The privilege levels of the three architectures, unified.
#[derive(Debug, Clone, Copy, PartialEq, Eq, Structural)]
pub enum PrivilegeLevel {
    /// What the kernel itself runs at (ring 0, EL1, S-mode).
    Kernel,
    /// What unprivileged processes run at (ring 3, EL0, U-mode).
    User,
    /// The hypervisor or monitor level; x86_64 has none.
    Monitor,
}

/// Number of the feature `SIMD_128`.
pub const SIMD_128_BIT: u64 = 0;

/// Number of the feature `SIMD_256`.
pub const SIMD_256_BIT: u64 = 1;

/// Number of the feature `SIMD_512`.
pub const SIMD_512_BIT: u64 = 2;

/// Number of the feature `SCALABLE_VECTOR`.
pub const SCALABLE_VECTOR_BIT: u64 = 3;

/// Number of the feature `CRYPTO_AES`.
pub const CRYPTO_AES_BIT: u64 = 4;

/// Number of the feature `CRYPTO_SHA`.
pub const CRYPTO_SHA_BIT: u64 = 5;

/// Number of the feature `WIDE_ATOMICS`.
pub const WIDE_ATOMICS_BIT: u64 = 6;

/// Number of the feature `VIRTUALIZATION`.
pub const VIRTUALIZATION_BIT: u64 = 7;

/// Number of the feature `IOMMU_CAPABLE`.
pub const IOMMU_CAPABLE_BIT: u64 = 8;

/// Number of the feature `PERF_COUNTERS`.
pub const PERF_COUNTERS_BIT: u64 = 9;

/// Which CPU features are present, as one bit set for all architectures.
#[derive(Debug, Clone, Copy, PartialEq, Eq, Structural)]
pub struct CpuFeatureFlags(pub u64);

impl CpuFeatureFlags {
    /// 128-bit SIMD.
    pub const SIMD_128: u64 = 1 << SIMD_128_BIT;

    /// 256-bit SIMD.
    pub const SIMD_256: u64 = 1 << SIMD_256_BIT;

    /// 512-bit SIMD.
    pub const SIMD_512: u64 = 1 << SIMD_512_BIT;

    /// A scalable vector extension.
    pub const SCALABLE_VECTOR: u64 = 1 << SCALABLE_VECTOR_BIT;

    /// AES instructions.
    pub const CRYPTO_AES: u64 = 1 << CRYPTO_AES_BIT;

    /// SHA instructions.
    pub const CRYPTO_SHA: u64 = 1 << CRYPTO_SHA_BIT;

    /// Atomics beyond the base instruction set.
    pub const WIDE_ATOMICS: u64 = 1 << WIDE_ATOMICS_BIT;

    /// Hardware virtualization.
    pub const VIRTUALIZATION: u64 = 1 << VIRTUALIZATION_BIT;

    /// An IOMMU.
    pub const IOMMU_CAPABLE: u64 = 1 << IOMMU_CAPABLE_BIT;

    /// Performance counters.
    pub const PERF_COUNTERS: u64 = 1 << PERF_COUNTERS_BIT;

    /// Feature `n` is in the set.
    pub open spec fn has(self, n: u64) -> bool {
        bit(self.0, n)
    }

    /// The set with or without the IOMMU feature, and otherwise the same.
    pub open spec fn with_iommu(self, present: bool) -> Self {
        if present {
            CpuFeatureFlags(self.0 | Self::IOMMU_CAPABLE)
        } else {
            CpuFeatureFlags(self.0 & !Self::IOMMU_CAPABLE)
        }
    }

    /// The empty set.
    pub fn empty() -> (r: Self)
        ensures
            r.0 == 0,
            forall|n: u64| !#[trigger] r.has(n),
    {
        broadcast use lemma_zero_has_no_bit;

        CpuFeatureFlags(0)
    }

    /// The set as raw bits.
    pub fn bits(&self) -> (r: u64)
        ensures
            r == self.0,
    {
        self.0
    }

    /// Whether every bit of `mask` is in the set.
    pub fn contains(&self, mask: u64) -> (r: bool)
        ensures
            r == (self.0 & mask == mask),
    {
        self.0 & mask == mask
    }

    /// Adds every bit of `mask`.
    pub fn insert(&mut self, mask: u64)
        ensures
            final(self).0 == old(self).0 | mask,
    {
        self.0 = self.0 | mask;
    }

    /// Adds every bit of `mask`, or removes them all.
    pub fn set(&mut self, mask: u64, present: bool)
        ensures
            final(self).0 == (if present {
                old(self).0 | mask
            } else {
                old(self).0 & !mask
            }),
    {
        if present {
            self.0 = self.0 | mask;
        } else {
            self.0 = self.0 & !mask;
        }
    }

    /// The bits of either set.
    pub fn union(self, other: Self) -> (r: Self)
        ensures
            r.0 == self.0 | other.0,
    {
        CpuFeatureFlags(self.0 | other.0)
    }

    /// Adds feature `n` if it is present.
    pub fn add_feature(&mut self, n: u64, present: bool)
        requires
            n < 64,
        ensures
            forall|k: u64|
                k < 64 ==> #[trigger] final(self).has(k) == (old(self).has(k) || (k == n
                    && present)),
            final(self).0 == (if present {
                old(self).0 | (1u64 << n)
            } else {
                old(self).0
            }),
    {
        if present {
            proof {
                lemma_set_bit(self.0, n);
            }
            let ghost before = *self;
            self.insert(1u64 << n);
            proof {
                assert forall|k: u64| k < 64 implies #[trigger] self.has(k) == (before.has(k) || k
                    == n) by {
                    assert(bit(before.0 | (1u64 << n), k) == (k == n || bit(before.0, k)));
                }
            }
        }
    }

    /// Sets whether an IOMMU is present, and nothing else.
    pub fn set_iommu_capable(&mut self, present: bool)
        ensures
            final(self).has(IOMMU_CAPABLE_BIT) == present,
            forall|n: u64|
                n < 64 && n != IOMMU_CAPABLE_BIT ==> #[trigger] final(self).has(n) == old(self).has(
                    n,
                ),
            *final(self) == old(self).with_iommu(present),
    {
        proof {
            lemma_set_bit(self.0, IOMMU_CAPABLE_BIT);
            lemma_clear_bit(self.0, IOMMU_CAPABLE_BIT);
        }
        self.set(Self::IOMMU_CAPABLE, present);
        proof {
            assert(forall|n: u64| n < 64 ==> self.has(n) == #[trigger] bit(self.0, n));
        }
    }
}

/// Saved register state of one execution context, as raw bytes.
#[derive(Clone, Copy)]
pub struct CpuContext<const ARCH_CONTEXT_BYTES: usize> {
    pub bytes: [u8; ARCH_CONTEXT_BYTES],
}

impl<const ARCH_CONTEXT_BYTES: usize> CpuContext<ARCH_CONTEXT_BYTES> {
    /// A context of zero bytes.
    pub fn zeroed() -> (r: Self)
        ensures
            forall|i: int| 0 <= i < ARCH_CONTEXT_BYTES ==> r.bytes@[i] == 0,
    {
        CpuContext { bytes: [0; ARCH_CONTEXT_BYTES] }
    }

    /// The bytes, for writing.
    pub fn as_bytes_mut(&mut self) -> (r: &mut [u8; ARCH_CONTEXT_BYTES])
        ensures
            *r == old(self).bytes,
            final(self).bytes == *final(r),
    {
        &mut self.bytes
    }

    /// The bytes.
    pub fn as_bytes(&self) -> (r: &[u8; ARCH_CONTEXT_BYTES])
        ensures
            *r == self.bytes,
    {
        &self.bytes
    }
}

/// What each architecture's CPU support must offer.
pub trait CpuAbstraction<const ARCH_CONTEXT_BYTES: usize> {
    /// How many logical cores the machine has.
    fn core_count(&self) -> usize;

    /// The core the caller runs on.
    fn current_core_id(&self) -> usize;

    /// The detected features.
    fn feature_flags(&self) -> CpuFeatureFlags;

    /// Saves the running context into `from` and resumes `to`.
    fn context_switch(
        &self,
        from: &mut CpuContext<ARCH_CONTEXT_BYTES>,
        to: &CpuContext<ARCH_CONTEXT_BYTES>,
    );

    /// Moves the current core to `level`.
    fn set_privilege_level(&self, level: PrivilegeLevel) -> Result<(), HalError>;

    /// One-time initialization of the current core.
    fn bootstrap_current_core(&self) -> Result<(), HalError>;
}

} // verus!
