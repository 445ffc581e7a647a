//! Feature detection, trap causes and saved contexts.

use vstd::prelude::*;

use crate::context::{context_word, read_words, write_words, CONTEXT_BYTES};
use crate::hal::cpu::{
    CpuContext, CpuFeatureFlags, PrivilegeLevel, IOMMU_CAPABLE_BIT, PERF_COUNTERS_BIT,
    SIMD_128_BIT, WIDE_ATOMICS_BIT,
};
use crate::hal::error::HalError;

verus! {

/// The bytes of a saved context.
pub const RISCV64_CONTEXT_BYTES: usize = 160;

/// The firmware extension that tells which others there are.
pub const SBI_EXT_BASE: u64 = 0x10;

/// Its function that asks for one extension.
pub const SBI_BASE_PROBE_EXTENSION: u64 = 3;

/// The firmware extension that arms the timer.
pub const SBI_EXT_TIME: u64 = 0x5449_4D45;

/// Whether firmware's answer to a probe says that the extension is there.
pub fn sbi_probe_extension(error: i64, value: u64) -> (r: bool)
    ensures
        r == (error == 0 && value != 0),
{
    error == 0 && value != 0
}

/// The features that every core of the supported profile has.
pub open spec fn baseline_feature(n: u64) -> bool {
    n == SIMD_128_BIT || n == WIDE_ATOMICS_BIT || n == PERF_COUNTERS_BIT
}

/// The features, which the profile fixes.
pub fn detect_feature_flags() -> (flags: CpuFeatureFlags)
    ensures
        forall|n: u64| n < 64 ==> #[trigger] flags.has(n) == baseline_feature(n),
{
    let mut flags = CpuFeatureFlags::empty();
    flags.add_feature(SIMD_128_BIT, true);
    flags.add_feature(WIDE_ATOMICS_BIT, true);
    flags.add_feature(PERF_COUNTERS_BIT, true);
    flags
}

/// Why a trap was taken.
#[derive(Debug, Clone, Copy, PartialEq, Eq, Structural)]
pub enum TrapCause {
    /// An interrupt with the given code.
    Interrupt(u32),
    /// An exception with the given code.
    Exception(u64),
}

/// Decodes the cause register: the top bit tells interrupts from exceptions, the
/// rest is the code.
pub fn decode_scause(scause: u64) -> (r: TrapCause)
    ensures
        r == (if scause >= 0x8000_0000_0000_0000 {
            TrapCause::Interrupt((scause - 0x8000_0000_0000_0000) as u32)
        } else {
            TrapCause::Exception(scause)
        }),
{
    if scause >= 0x8000_0000_0000_0000 {
        TrapCause::Interrupt((scause - 0x8000_0000_0000_0000) as u32)
    } else {
        TrapCause::Exception(scause)
    }
}

/// The registers of a saved context.
#[derive(Clone, Copy)]
pub struct Riscv64Context {
    pub s0: u64,
    pub s1: u64,
    pub s2: u64,
    pub s3: u64,
    pub s4: u64,
    pub s5: u64,
    pub s6: u64,
    pub s7: u64,
    pub s8: u64,
    pub s9: u64,
    pub s10: u64,
    pub s11: u64,
    /// Where the context resumes.
    pub ra: u64,
    pub sp: u64,
    pub satp: u64,
    pub sstatus: u64,
    pub tp: u64,
    pub _reserved: [u64; 3],
}

impl Riscv64Context {
    /// The word of a saved context that holds `s0`.
    pub const S0: usize = 0;

    /// The word of a saved context that holds `s1`.
    pub const S1: usize = 1;

    /// The word of a saved context that holds `s2`.
    pub const S2: usize = 2;

    /// The word of a saved context that holds `s3`.
    pub const S3: usize = 3;

    /// The word of a saved context that holds `s4`.
    pub const S4: usize = 4;

    /// The word of a saved context that holds `s5`.
    pub const S5: usize = 5;

    /// The word of a saved context that holds `s6`.
    pub const S6: usize = 6;

    /// The word of a saved context that holds `s7`.
    pub const S7: usize = 7;

    /// The word of a saved context that holds `s8`.
    pub const S8: usize = 8;

    /// The word of a saved context that holds `s9`.
    pub const S9: usize = 9;

    /// The word of a saved context that holds `s10`.
    pub const S10: usize = 10;

    /// The word of a saved context that holds `s11`.
    pub const S11: usize = 11;

    /// The word of a saved context that holds `ra`.
    pub const RA: usize = 12;

    /// The word of a saved context that holds `sp`.
    pub const SP: usize = 13;

    /// The word of a saved context that holds `satp`.
    pub const SATP: usize = 14;

    /// The word of a saved context that holds `sstatus`.
    pub const SSTATUS: usize = 15;

    /// The word of a saved context that holds `tp`.
    pub const TP: usize = 16;

    /// `self` is what `ctx` holds, each field in its own word.
    pub open spec fn held_by(self, ctx: CpuContext<CONTEXT_BYTES>) -> bool {
        &&& self.s0 == context_word(ctx, Self::S0 as int)
        &&& self.s1 == context_word(ctx, Self::S1 as int)
        &&& self.s2 == context_word(ctx, Self::S2 as int)
        &&& self.s3 == context_word(ctx, Self::S3 as int)
        &&& self.s4 == context_word(ctx, Self::S4 as int)
        &&& self.s5 == context_word(ctx, Self::S5 as int)
        &&& self.s6 == context_word(ctx, Self::S6 as int)
        &&& self.s7 == context_word(ctx, Self::S7 as int)
        &&& self.s8 == context_word(ctx, Self::S8 as int)
        &&& self.s9 == context_word(ctx, Self::S9 as int)
        &&& self.s10 == context_word(ctx, Self::S10 as int)
        &&& self.s11 == context_word(ctx, Self::S11 as int)
        &&& self.ra == context_word(ctx, Self::RA as int)
        &&& self.sp == context_word(ctx, Self::SP as int)
        &&& self.satp == context_word(ctx, Self::SATP as int)
        &&& self.sstatus == context_word(ctx, Self::SSTATUS as int)
        &&& self.tp == context_word(ctx, Self::TP as int)
        &&& forall|i: int| 0 <= i < 3 ==> #[trigger] self._reserved@[i] == context_word(ctx, 17 + i)
    }

    /// `after` holds the registers that a switch saves from `live`, and of the
    /// rest what `before` held.
    pub open spec fn saved_over(
        live: Self,
        before: CpuContext<CONTEXT_BYTES>,
        after: CpuContext<CONTEXT_BYTES>,
    ) -> bool {
        &&& context_word(after, Self::S0 as int) == live.s0
        &&& context_word(after, Self::S1 as int) == live.s1
        &&& context_word(after, Self::S2 as int) == live.s2
        &&& context_word(after, Self::S3 as int) == live.s3
        &&& context_word(after, Self::S4 as int) == live.s4
        &&& context_word(after, Self::S5 as int) == live.s5
        &&& context_word(after, Self::S6 as int) == live.s6
        &&& context_word(after, Self::S7 as int) == live.s7
        &&& context_word(after, Self::S8 as int) == live.s8
        &&& context_word(after, Self::S9 as int) == live.s9
        &&& context_word(after, Self::S10 as int) == live.s10
        &&& context_word(after, Self::S11 as int) == live.s11
        &&& context_word(after, Self::RA as int) == live.ra
        &&& context_word(after, Self::SP as int) == live.sp
        &&& context_word(after, Self::SATP as int) == live.satp
        &&& forall|i: int|
            15 <= i < 20 ==> #[trigger] context_word(after, i) == context_word(before, i)
    }

    /// Reads the registers out of a saved context.
    pub fn load(ctx: &CpuContext<CONTEXT_BYTES>) -> (r: Self)
        ensures
            r.held_by(*ctx),
    {
        let w: [u64; 20] = read_words(ctx);
        Riscv64Context {
            s0: w[Self::S0],
            s1: w[Self::S1],
            s2: w[Self::S2],
            s3: w[Self::S3],
            s4: w[Self::S4],
            s5: w[Self::S5],
            s6: w[Self::S6],
            s7: w[Self::S7],
            s8: w[Self::S8],
            s9: w[Self::S9],
            s10: w[Self::S10],
            s11: w[Self::S11],
            ra: w[Self::RA],
            sp: w[Self::SP],
            satp: w[Self::SATP],
            sstatus: w[Self::SSTATUS],
            tp: w[Self::TP],
            _reserved: [w[17], w[18], w[19]],
        }
    }
}

/// What a switch saves is what a later switch back restores.
pub proof fn saved_registers_are_restored(
    live: Riscv64Context,
    before: CpuContext<CONTEXT_BYTES>,
    after: CpuContext<CONTEXT_BYTES>,
    next: Riscv64Context,
)
    requires
        Riscv64Context::saved_over(live, before, after),
        next.held_by(after),
    ensures
        next.s0 == live.s0,
        next.s1 == live.s1,
        next.s2 == live.s2,
        next.s3 == live.s3,
        next.s4 == live.s4,
        next.s5 == live.s5,
        next.s6 == live.s6,
        next.s7 == live.s7,
        next.s8 == live.s8,
        next.s9 == live.s9,
        next.s10 == live.s10,
        next.s11 == live.s11,
        next.ra == live.ra,
        next.sp == live.sp,
        next.satp == live.satp,
{
}

/// The CPU as one hart sees it.
#[derive(Clone, Copy)]
pub struct Cpu {
    pub feature_flags: CpuFeatureFlags,
    pub hart_id: usize,
    pub sbi_time_extension_present: bool,
}

impl Cpu {
    /// The hart that firmware started, given whether it can arm the timer.
    pub fn new(hart_id: usize, sbi_time_extension_present: bool) -> (r: Self)
        ensures
            r.hart_id == hart_id,
            r.sbi_time_extension_present == sbi_time_extension_present,
            forall|n: u64| n < 64 ==> #[trigger] r.feature_flags.has(n) == baseline_feature(n),
    {
        Cpu { feature_flags: detect_feature_flags(), hart_id, sbi_time_extension_present }
    }

    /// Notes whether an IOMMU was found; no other feature changes.
    pub fn mark_iommu_capable(&mut self, present: bool)
        ensures
            final(self).hart_id == old(self).hart_id,
            final(self).sbi_time_extension_present == old(self).sbi_time_extension_present,
            final(self).feature_flags.has(IOMMU_CAPABLE_BIT) == present,
            forall|n: u64|
                n < 64 && n != IOMMU_CAPABLE_BIT ==> #[trigger] final(self).feature_flags.has(n)
                    == old(self).feature_flags.has(n),
            final(self).feature_flags == old(self).feature_flags.with_iommu(present),
    {
        self.feature_flags.set_iommu_capable(present);
    }

    /// Whether firmware can arm the timer.
    pub fn sbi_time_extension_present(&self) -> (r: bool)
        ensures
            r == self.sbi_time_extension_present,
    {
        self.sbi_time_extension_present
    }

    /// How many harts are known: the one that booted.
    pub fn detected_core_count(&self) -> (r: usize)
        ensures
            r == 1,
    {
        1
    }

    /// How many harts the machine has.
    pub fn core_count(&self) -> (r: usize)
        ensures
            r == 1,
    {
        self.detected_core_count()
    }

    /// The hart this value describes.
    pub fn current_core_id(&self) -> (r: usize)
        ensures
            r == self.hart_id,
    {
        self.hart_id
    }

    /// The detected features.
    pub fn feature_flags(&self) -> (r: CpuFeatureFlags)
        ensures
            r == self.feature_flags,
    {
        self.feature_flags
    }

    /// Switches contexts: saves `live`, the registers of the running context,
    /// into `from`, and returns the registers of `to`, which are to be loaded
    /// next.
    pub fn context_switch(
        &self,
        from: &mut CpuContext<CONTEXT_BYTES>,
        to: &CpuContext<CONTEXT_BYTES>,
        live: &Riscv64Context,
    ) -> (next: Riscv64Context)
        ensures
            Riscv64Context::saved_over(*live, *old(from), *final(from)),
            next.held_by(*to),
    {
        let mut w: [u64; 20] = read_words(from);
        w[Riscv64Context::S0] = live.s0;
        w[Riscv64Context::S1] = live.s1;
        w[Riscv64Context::S2] = live.s2;
        w[Riscv64Context::S3] = live.s3;
        w[Riscv64Context::S4] = live.s4;
        w[Riscv64Context::S5] = live.s5;
        w[Riscv64Context::S6] = live.s6;
        w[Riscv64Context::S7] = live.s7;
        w[Riscv64Context::S8] = live.s8;
        w[Riscv64Context::S9] = live.s9;
        w[Riscv64Context::S10] = live.s10;
        w[Riscv64Context::S11] = live.s11;
        w[Riscv64Context::RA] = live.ra;
        w[Riscv64Context::SP] = live.sp;
        w[Riscv64Context::SATP] = live.satp;
        write_words(from, &w);
        proof {
            assert forall|i: int| 15 <= i < 20 implies #[trigger] context_word(*from, i)
                == context_word(*old(from), i) by {
                assert(w@[i] == context_word(*from, i));
            }
            assert(w@[0] == live.s0 && w@[1] == live.s1 && w@[2] == live.s2 && w@[3] ==
                live.s3 && w@[4] == live.s4 && w@[5] == live.s5 && w@[6] == live.s6 && w@[7] ==
                live.s7 && w@[8] == live.s8 && w@[9] == live.s9 && w@[10] == live.s10 && w@[11] ==
                live.s11 && w@[12] == live.ra && w@[13] == live.sp && w@[14] == live.satp);
        }
        Riscv64Context::load(to)
    }

    /// Whether a thread can be given `level`: the monitor level is not entered
    /// this way.
    pub fn set_privilege_level(&self, level: PrivilegeLevel) -> (r: Result<(), HalError>)
        ensures
            r == (if level == PrivilegeLevel::Monitor {
                Err::<(), HalError>(HalError::UnsupportedPrivilegeLevel)
            } else {
                Ok(())
            }),
    {
        match level {
            PrivilegeLevel::Monitor => Err(HalError::UnsupportedPrivilegeLevel),
            PrivilegeLevel::Kernel | PrivilegeLevel::User => Ok(()),
        }
    }
}

} // verus!
