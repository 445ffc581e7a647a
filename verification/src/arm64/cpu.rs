//! Feature detection and saved contexts.

use vstd::prelude::*;

use crate::context::{context_word, read_words, write_words, CONTEXT_BYTES};
use crate::hal::cpu::{
    CpuContext, CpuFeatureFlags, PrivilegeLevel, CRYPTO_AES_BIT, CRYPTO_SHA_BIT,
    IOMMU_CAPABLE_BIT, SCALABLE_VECTOR_BIT, SIMD_128_BIT, VIRTUALIZATION_BIT, WIDE_ATOMICS_BIT,
};
use crate::hal::error::HalError;

verus! {

/// The bytes of a saved context.
pub const ARM64_CONTEXT_BYTES: usize = 160;

/// The identification registers.
#[derive(Debug, Clone, Copy, PartialEq, Eq, Structural)]
pub struct IdRegisters {
    pub id_aa64isar0: u64,
    pub id_aa64isar1: u64,
    pub id_aa64pfr0: u64,
    pub mpidr: u64,
}

impl Default for IdRegisters {
    fn default() -> (r: Self)
        ensures
            r == (IdRegisters { id_aa64isar0: 0, id_aa64isar1: 0, id_aa64pfr0: 0, mpidr: 0 }),
    {
        IdRegisters { id_aa64isar0: 0, id_aa64isar1: 0, id_aa64pfr0: 0, mpidr: 0 }
    }
}

/// Something that reads the identification registers.
pub trait IdRegisterSource {
    /// The registers of the current core.
    fn read(&self) -> IdRegisters;
}

/// The features that the registers report, by their number in
/// `CpuFeatureFlags`. Each is a four-bit field; the registers say nothing of an
/// IOMMU.
pub open spec fn reports_feature(ids: IdRegisters, n: u64) -> bool {
    if n == SIMD_128_BIT {
        ids.id_aa64pfr0 / 0x10_0000 % 16 != 15
    } else if n == SCALABLE_VECTOR_BIT {
        ids.id_aa64pfr0 / 0x1_0000_0000 % 16 != 0
    } else if n == CRYPTO_AES_BIT {
        ids.id_aa64isar0 / 0x10 % 16 >= 1
    } else if n == CRYPTO_SHA_BIT {
        ids.id_aa64isar0 / 0x100 % 16 >= 1 || ids.id_aa64isar0 / 0x1000 % 16 >= 1
    } else if n == WIDE_ATOMICS_BIT {
        ids.id_aa64isar0 / 0x10_0000 % 16 >= 2
    } else if n == VIRTUALIZATION_BIT {
        ids.id_aa64pfr0 / 0x100 % 16 != 0
    } else {
        false
    }
}

/// `flags` are the features that the registers report.
pub open spec fn features_of(flags: CpuFeatureFlags, ids: IdRegisters) -> bool {
    forall|n: u64| n < 64 ==> #[trigger] flags.has(n) == reports_feature(ids, n)
}

/// Collects the features that the registers report.
pub fn detect_feature_flags(ids: &IdRegisters) -> (flags: CpuFeatureFlags)
    ensures
        features_of(flags, *ids),
{
    let mut flags = CpuFeatureFlags::empty();
    flags.add_feature(SIMD_128_BIT, ids.id_aa64pfr0 / 0x10_0000 % 16 != 15);
    flags.add_feature(SCALABLE_VECTOR_BIT, ids.id_aa64pfr0 / 0x1_0000_0000 % 16 != 0);
    flags.add_feature(CRYPTO_AES_BIT, ids.id_aa64isar0 / 0x10 % 16 >= 1);
    flags.add_feature(
        CRYPTO_SHA_BIT,
        ids.id_aa64isar0 / 0x100 % 16 >= 1 || ids.id_aa64isar0 / 0x1000 % 16 >= 1,
    );
    flags.add_feature(WIDE_ATOMICS_BIT, ids.id_aa64isar0 / 0x10_0000 % 16 >= 2);
    flags.add_feature(VIRTUALIZATION_BIT, ids.id_aa64pfr0 / 0x100 % 16 != 0);
    flags
}

/// The core's number: the lowest affinity level.
pub fn read_core_id(ids: &IdRegisters) -> (r: u8)
    ensures
        r == ids.mpidr % 0x100,
{
    (ids.mpidr % 0x100) as u8
}

/// The registers of a saved context.
#[derive(Clone, Copy)]
pub struct Arm64Context {
    pub x19: u64,
    pub x20: u64,
    pub x21: u64,
    pub x22: u64,
    pub x23: u64,
    pub x24: u64,
    pub x25: u64,
    pub x26: u64,
    pub x27: u64,
    pub x28: u64,
    pub x29: u64,
    /// Where the context resumes.
    pub x30: u64,
    pub sp: u64,
    pub ttbr0_el1: u64,
    pub spsr_el1: u64,
    pub tpidr_el0: u64,
    pub _reserved: [u64; 4],
}

impl Arm64Context {
    /// The word of a saved context that holds `x19`.
    pub const X19: usize = 0;

    /// The word of a saved context that holds `x20`.
    pub const X20: usize = 1;

    /// The word of a saved context that holds `x21`.
    pub const X21: usize = 2;

    /// The word of a saved context that holds `x22`.
    pub const X22: usize = 3;

    /// The word of a saved context that holds `x23`.
    pub const X23: usize = 4;

    /// The word of a saved context that holds `x24`.
    pub const X24: usize = 5;

    /// The word of a saved context that holds `x25`.
    pub const X25: usize = 6;

    /// The word of a saved context that holds `x26`.
    pub const X26: usize = 7;

    /// The word of a saved context that holds `x27`.
    pub const X27: usize = 8;

    /// The word of a saved context that holds `x28`.
    pub const X28: usize = 9;

    /// The word of a saved context that holds `x29`.
    pub const X29: usize = 10;

    /// The word of a saved context that holds `x30`.
    pub const X30: usize = 11;

    /// The word of a saved context that holds `sp`.
    pub const SP: usize = 12;

    /// The word of a saved context that holds `ttbr0_el1`.
    pub const TTBR0_EL1: usize = 13;

    /// The word of a saved context that holds `spsr_el1`.
    pub const SPSR_EL1: usize = 14;

    /// The word of a saved context that holds `tpidr_el0`.
    pub const TPIDR_EL0: usize = 15;

    /// `self` is what `ctx` holds, each field in its own word.
    pub open spec fn held_by(self, ctx: CpuContext<CONTEXT_BYTES>) -> bool {
        &&& self.x19 == context_word(ctx, Self::X19 as int)
        &&& self.x20 == context_word(ctx, Self::X20 as int)
        &&& self.x21 == context_word(ctx, Self::X21 as int)
        &&& self.x22 == context_word(ctx, Self::X22 as int)
        &&& self.x23 == context_word(ctx, Self::X23 as int)
        &&& self.x24 == context_word(ctx, Self::X24 as int)
        &&& self.x25 == context_word(ctx, Self::X25 as int)
        &&& self.x26 == context_word(ctx, Self::X26 as int)
        &&& self.x27 == context_word(ctx, Self::X27 as int)
        &&& self.x28 == context_word(ctx, Self::X28 as int)
        &&& self.x29 == context_word(ctx, Self::X29 as int)
        &&& self.x30 == context_word(ctx, Self::X30 as int)
        &&& self.sp == context_word(ctx, Self::SP as int)
        &&& self.ttbr0_el1 == context_word(ctx, Self::TTBR0_EL1 as int)
        &&& self.spsr_el1 == context_word(ctx, Self::SPSR_EL1 as int)
        &&& self.tpidr_el0 == context_word(ctx, Self::TPIDR_EL0 as int)
        &&& forall|i: int| 0 <= i < 4 ==> #[trigger] self._reserved@[i] == context_word(ctx, 16 + i)
    }

    /// `after` holds the registers that a switch saves from `live`, and of the
    /// rest what `before` held.
    pub open spec fn saved_over(
        live: Self,
        before: CpuContext<CONTEXT_BYTES>,
        after: CpuContext<CONTEXT_BYTES>,
    ) -> bool {
        &&& context_word(after, Self::X19 as int) == live.x19
        &&& context_word(after, Self::X20 as int) == live.x20
        &&& context_word(after, Self::X21 as int) == live.x21
        &&& context_word(after, Self::X22 as int) == live.x22
        &&& context_word(after, Self::X23 as int) == live.x23
        &&& context_word(after, Self::X24 as int) == live.x24
        &&& context_word(after, Self::X25 as int) == live.x25
        &&& context_word(after, Self::X26 as int) == live.x26
        &&& context_word(after, Self::X27 as int) == live.x27
        &&& context_word(after, Self::X28 as int) == live.x28
        &&& context_word(after, Self::X29 as int) == live.x29
        &&& context_word(after, Self::X30 as int) == live.x30
        &&& context_word(after, Self::SP as int) == live.sp
        &&& context_word(after, Self::TTBR0_EL1 as int) == live.ttbr0_el1
        &&& forall|i: int|
            14 <= i < 20 ==> #[trigger] context_word(after, i) == context_word(before, i)
    }

    /// Reads the registers out of a saved context.
    pub fn load(ctx: &CpuContext<CONTEXT_BYTES>) -> (r: Self)
        ensures
            r.held_by(*ctx),
    {
        let w: [u64; 20] = read_words(ctx);
        Arm64Context {
            x19: w[Self::X19],
            x20: w[Self::X20],
            x21: w[Self::X21],
            x22: w[Self::X22],
            x23: w[Self::X23],
            x24: w[Self::X24],
            x25: w[Self::X25],
            x26: w[Self::X26],
            x27: w[Self::X27],
            x28: w[Self::X28],
            x29: w[Self::X29],
            x30: w[Self::X30],
            sp: w[Self::SP],
            ttbr0_el1: w[Self::TTBR0_EL1],
            spsr_el1: w[Self::SPSR_EL1],
            tpidr_el0: w[Self::TPIDR_EL0],
            _reserved: [w[16], w[17], w[18], w[19]],
        }
    }
}

/// What a switch saves is what a later switch back restores.
pub proof fn saved_registers_are_restored(
    live: Arm64Context,
    before: CpuContext<CONTEXT_BYTES>,
    after: CpuContext<CONTEXT_BYTES>,
    next: Arm64Context,
)
    requires
        Arm64Context::saved_over(live, before, after),
        next.held_by(after),
    ensures
        next.x19 == live.x19,
        next.x20 == live.x20,
        next.x21 == live.x21,
        next.x22 == live.x22,
        next.x23 == live.x23,
        next.x24 == live.x24,
        next.x25 == live.x25,
        next.x26 == live.x26,
        next.x27 == live.x27,
        next.x28 == live.x28,
        next.x29 == live.x29,
        next.x30 == live.x30,
        next.sp == live.sp,
        next.ttbr0_el1 == live.ttbr0_el1,
{
}

/// The CPU as one core sees it.
#[derive(Clone, Copy)]
pub struct Cpu {
    pub feature_flags: CpuFeatureFlags,
    pub core_id: u8,
}

impl Cpu {
    /// The core that the registers describe.
    pub open spec fn identified_by(self, ids: IdRegisters) -> bool {
        features_of(self.feature_flags, ids) && self.core_id == ids.mpidr % 0x100
    }

    /// The core that the registers describe.
    pub fn from_registers(ids: &IdRegisters) -> (r: Self)
        ensures
            r.identified_by(*ids),
            !r.feature_flags.has(IOMMU_CAPABLE_BIT),
    {
        Cpu { feature_flags: detect_feature_flags(ids), core_id: read_core_id(ids) }
    }

    /// Identifies the current core.
    pub fn new<S: IdRegisterSource>(source: &S) -> (r: Self)
        requires
            call_requires(S::read, (source,)),
        ensures
            exists|ids: IdRegisters| #[trigger]
                call_ensures(S::read, (source,), ids) && r.identified_by(ids),
            !r.feature_flags.has(IOMMU_CAPABLE_BIT),
    {
        let ids = source.read();
        Self::from_registers(&ids)
    }

    /// Notes whether an IOMMU was found; no other feature changes.
    pub fn mark_iommu_capable(&mut self, present: bool)
        ensures
            final(self).core_id == old(self).core_id,
            final(self).feature_flags.has(IOMMU_CAPABLE_BIT) == present,
            forall|n: u64|
                n < 64 && n != IOMMU_CAPABLE_BIT ==> #[trigger] final(self).feature_flags.has(n)
                    == old(self).feature_flags.has(n),
            final(self).feature_flags == old(self).feature_flags.with_iommu(present),
    {
        self.feature_flags.set_iommu_capable(present);
    }

    /// How many cores are known: the one that booted.
    pub fn detected_core_count(&self) -> (r: usize)
        ensures
            r == 1,
    {
        1
    }

    /// How many cores the machine has.
    pub fn core_count(&self) -> (r: usize)
        ensures
            r == 1,
    {
        self.detected_core_count()
    }

    /// The core this value describes.
    pub fn current_core_id(&self) -> (r: usize)
        ensures
            r == self.core_id,
    {
        self.core_id as usize
    }

    /// The detected features.
    pub fn feature_flags(&self) -> (r: CpuFeatureFlags)
        ensures
            r == self.feature_flags,
    {
        self.feature_flags
    }

    /// Switches contexts: saves `live`, the registers of the running context,
    /// into `from`, and returns the registers of `to`, which are to be loaded
    /// next.
    pub fn context_switch(
        &self,
        from: &mut CpuContext<CONTEXT_BYTES>,
        to: &CpuContext<CONTEXT_BYTES>,
        live: &Arm64Context,
    ) -> (next: Arm64Context)
        ensures
            Arm64Context::saved_over(*live, *old(from), *final(from)),
            next.held_by(*to),
    {
        let mut w: [u64; 20] = read_words(from);
        w[Arm64Context::X19] = live.x19;
        w[Arm64Context::X20] = live.x20;
        w[Arm64Context::X21] = live.x21;
        w[Arm64Context::X22] = live.x22;
        w[Arm64Context::X23] = live.x23;
        w[Arm64Context::X24] = live.x24;
        w[Arm64Context::X25] = live.x25;
        w[Arm64Context::X26] = live.x26;
        w[Arm64Context::X27] = live.x27;
        w[Arm64Context::X28] = live.x28;
        w[Arm64Context::X29] = live.x29;
        w[Arm64Context::X30] = live.x30;
        w[Arm64Context::SP] = live.sp;
        w[Arm64Context::TTBR0_EL1] = live.ttbr0_el1;
        write_words(from, &w);
        proof {
            assert forall|i: int| 14 <= i < 20 implies #[trigger] context_word(*from, i)
                == context_word(*old(from), i) by {
                assert(w@[i] == context_word(*from, i));
            }
            assert(w@[0] == live.x19 && w@[1] == live.x20 && w@[2] == live.x21 && w@[3] == live.x22
                && w@[4] == live.x23 && w@[5] == live.x24 && w@[6] == live.x25 && w@[7]
                == live.x26 && w@[8] == live.x27 && w@[9] == live.x28 && w@[10] == live.x29
                && w@[11] == live.x30 && w@[12] == live.sp && w@[13] == live.ttbr0_el1);
        }
        Arm64Context::load(to)
    }

    /// Whether a thread can be given `level`: the monitor level is not entered
    /// this way.
    pub fn set_privilege_level(&self, level: PrivilegeLevel) -> (r: Result<(), HalError>)
        ensures
            r == (if level == PrivilegeLevel::Monitor {
                Err::<(), HalError>(HalError::UnsupportedPrivilegeLevel)
            } else {
                Ok(())
            }),
    {
        match level {
            PrivilegeLevel::Monitor => Err(HalError::UnsupportedPrivilegeLevel),
            PrivilegeLevel::Kernel | PrivilegeLevel::User => Ok(()),
        }
    }
}

} // verus!
