//! Feature detection, segment and interrupt descriptors, and saved contexts.

use vstd::prelude::*;

use crate::bits::{bit, test_bit};
use crate::context::{context_word, read_words, write_words, CONTEXT_BYTES};
use crate::hal::cpu::{
    CpuContext, CpuFeatureFlags, PrivilegeLevel, CRYPTO_AES_BIT, CRYPTO_SHA_BIT,
    IOMMU_CAPABLE_BIT, PERF_COUNTERS_BIT, SIMD_128_BIT, SIMD_256_BIT, SIMD_512_BIT,
    VIRTUALIZATION_BIT, WIDE_ATOMICS_BIT,
};
use crate::hal::error::HalError;

verus! {

/// The bytes of a saved context.
pub const X86_64_CONTEXT_BYTES: usize = 160;

/// What the CPUID instruction returns.
#[derive(Debug, Clone, Copy, PartialEq, Eq, Structural)]
pub struct CpuidResult {
    pub eax: u32,
    pub ebx: u32,
    pub ecx: u32,
    pub edx: u32,
}

impl Default for CpuidResult {
    fn default() -> (r: Self)
        ensures
            r == (CpuidResult { eax: 0, ebx: 0, ecx: 0, edx: 0 }),
    {
        CpuidResult { eax: 0, ebx: 0, ecx: 0, edx: 0 }
    }
}

/// Something that answers CPUID.
pub trait CpuidSource {
    /// The registers for a leaf and subleaf.
    fn cpuid(&self, leaf: u32, subleaf: u32) -> CpuidResult;
}

/// The features that leaves 1, 7, 10 and 0x8000_0001 report, by their number in
/// `CpuFeatureFlags`. Of the two kinds of virtualization, VMX is in leaf 1 and
/// SVM in leaf 0x8000_0001. CPUID says nothing of an IOMMU.
pub open spec fn reports_feature(
    leaf1: CpuidResult,
    leaf7: CpuidResult,
    leaf_a: CpuidResult,
    leaf_ext1: CpuidResult,
    n: u64,
) -> bool {
    if n == SIMD_128_BIT {
        bit(leaf1.edx as u64, 26)
    } else if n == SIMD_256_BIT {
        bit(leaf1.ecx as u64, 28) || bit(leaf7.ebx as u64, 5)
    } else if n == SIMD_512_BIT {
        bit(leaf7.ebx as u64, 16)
    } else if n == CRYPTO_AES_BIT {
        bit(leaf1.ecx as u64, 25)
    } else if n == CRYPTO_SHA_BIT {
        bit(leaf7.ebx as u64, 29)
    } else if n == WIDE_ATOMICS_BIT {
        bit(leaf1.ecx as u64, 13)
    } else if n == VIRTUALIZATION_BIT {
        bit(leaf1.ecx as u64, 5) || bit(leaf_ext1.ecx as u64, 2)
    } else if n == PERF_COUNTERS_BIT {
        leaf_a.eax % 0x100 > 0
    } else {
        false
    }
}

/// `flags` are the features that the four leaves report.
pub open spec fn features_of(
    flags: CpuFeatureFlags,
    leaf1: CpuidResult,
    leaf7: CpuidResult,
    leaf_a: CpuidResult,
    leaf_ext1: CpuidResult,
) -> bool {
    forall|n: u64|
        n < 64 ==> #[trigger] flags.has(n) == reports_feature(leaf1, leaf7, leaf_a, leaf_ext1, n)
}

/// Collects the features that leaves 1, 7, 10 and 0x8000_0001 report.
pub fn feature_flags_from_leaves(
    leaf1: &CpuidResult,
    leaf7: &CpuidResult,
    leaf_a: &CpuidResult,
    leaf_ext1: &CpuidResult,
) -> (flags: CpuFeatureFlags)
    ensures
        features_of(flags, *leaf1, *leaf7, *leaf_a, *leaf_ext1),
{
    let mut flags = CpuFeatureFlags::empty();
    flags.add_feature(SIMD_128_BIT, test_bit(leaf1.edx as u64, 26));
    flags.add_feature(SIMD_256_BIT, test_bit(leaf1.ecx as u64, 28));
    flags.add_feature(CRYPTO_AES_BIT, test_bit(leaf1.ecx as u64, 25));
    flags.add_feature(WIDE_ATOMICS_BIT, test_bit(leaf1.ecx as u64, 13));
    flags.add_feature(VIRTUALIZATION_BIT, test_bit(leaf1.ecx as u64, 5));
    flags.add_feature(VIRTUALIZATION_BIT, test_bit(leaf_ext1.ecx as u64, 2));
    flags.add_feature(SIMD_256_BIT, test_bit(leaf7.ebx as u64, 5));
    flags.add_feature(SIMD_512_BIT, test_bit(leaf7.ebx as u64, 16));
    flags.add_feature(CRYPTO_SHA_BIT, test_bit(leaf7.ebx as u64, 29));
    flags.add_feature(PERF_COUNTERS_BIT, leaf_a.eax % 0x100 > 0);
    flags
}

/// `flags` are the features in some answers that `cpuid` may give for leaves 1,
/// 7, 10 and 0x8000_0001.
pub open spec fn detected_from<S: CpuidSource>(cpuid: &S, flags: CpuFeatureFlags) -> bool {
    exists|
        leaf1: CpuidResult,
        leaf7: CpuidResult,
        leaf_a: CpuidResult,
        leaf_ext1: CpuidResult,
    |
        call_ensures(S::cpuid, (cpuid, 1, 0), leaf1) && call_ensures(
            S::cpuid,
            (cpuid, 7, 0),
            leaf7,
        ) && call_ensures(S::cpuid, (cpuid, 0x0A, 0), leaf_a) && call_ensures(
            S::cpuid,
            (cpuid, 0x8000_0001, 0),
            leaf_ext1,
        ) && #[trigger] features_of(flags, leaf1, leaf7, leaf_a, leaf_ext1)
}

/// Detects the CPU's features.
pub fn detect_feature_flags<S: CpuidSource>(cpuid: &S) -> (flags: CpuFeatureFlags)
    requires
        forall|leaf: u32, subleaf: u32| call_requires(S::cpuid, (cpuid, leaf, subleaf)),
    ensures
        detected_from(cpuid, flags),
        !flags.has(IOMMU_CAPABLE_BIT),
{
    let leaf1 = cpuid.cpuid(1, 0);
    let leaf7 = cpuid.cpuid(7, 0);
    let leaf_a = cpuid.cpuid(0x0A, 0);
    let leaf_ext1 = cpuid.cpuid(0x8000_0001, 0);
    let flags = feature_flags_from_leaves(&leaf1, &leaf7, &leaf_a, &leaf_ext1);
    assert(features_of(flags, leaf1, leaf7, leaf_a, leaf_ext1));
    flags
}

/// The interrupt controller id in leaf 1: the top byte of EBX.
pub open spec fn apic_id_in(leaf1: CpuidResult) -> u8 {
    (leaf1.ebx / 0x100_0000) as u8
}

/// Extracts the interrupt controller id from leaf 1.
pub fn apic_id_from_leaf(leaf1: &CpuidResult) -> (id: u8)
    ensures
        id == apic_id_in(*leaf1),
{
    (leaf1.ebx / 0x100_0000) as u8
}

/// `id` is the interrupt controller id in some answer that `cpuid` may give for
/// leaf 1.
pub open spec fn identified_by<S: CpuidSource>(cpuid: &S, id: u8) -> bool {
    exists|leaf1: CpuidResult|
        call_ensures(S::cpuid, (cpuid, 1, 0), leaf1) && id == #[trigger] apic_id_in(leaf1)
}

/// Reads the interrupt controller id of the current core.
pub fn read_initial_apic_id<S: CpuidSource>(cpuid: &S) -> (id: u8)
    requires
        call_requires(S::cpuid, (cpuid, 1, 0)),
    ensures
        identified_by(cpuid, id),
{
    let leaf1 = cpuid.cpuid(1, 0);
    apic_id_from_leaf(&leaf1)
}

/// The segment selectors, in the order of the descriptor table.
#[derive(Debug, Clone, Copy, PartialEq, Eq, Structural)]
pub enum SegmentSelector {
    Null,
    KernelCode,
    KernelData,
    UserCode,
    UserData,
}

impl SegmentSelector {
    /// The place in the descriptor table.
    pub open spec fn index(self) -> int {
        match self {
            SegmentSelector::Null => 0,
            SegmentSelector::KernelCode => 1,
            SegmentSelector::KernelData => 2,
            SegmentSelector::UserCode => 3,
            SegmentSelector::UserData => 4,
        }
    }

    /// The privilege ring.
    pub open spec fn ring(self) -> int {
        match self {
            SegmentSelector::UserCode | SegmentSelector::UserData => 3,
            _ => 0,
        }
    }

    /// The selector as the CPU takes it: eight times the place in the table,
    /// plus the ring.
    pub fn as_u16(self) -> (r: u16)
        ensures
            r == 8 * self.index() + self.ring(),
    {
        match self {
            SegmentSelector::Null => 0x00,
            SegmentSelector::KernelCode => 0x08,
            SegmentSelector::KernelData => 0x10,
            SegmentSelector::UserCode => 0x1B,
            SegmentSelector::UserData => 0x23,
        }
    }
}

/// The descriptor of a selector: flat segments with full limits, the ring in
/// bits 45 and 46.
pub open spec fn segment_descriptor(selector: SegmentSelector) -> u64 {
    match selector {
        SegmentSelector::Null => 0,
        SegmentSelector::KernelCode => 0x00AF_9A00_0000_FFFF,
        SegmentSelector::KernelData => 0x00AF_9200_0000_FFFF,
        SegmentSelector::UserCode => 0x00AF_FA00_0000_FFFF,
        SegmentSelector::UserData => 0x00AF_F200_0000_FFFF,
    }
}

/// The global descriptor table.
pub fn global_descriptor_table() -> (r: [u64; 5])
    ensures
        forall|selector: SegmentSelector|
            r@[selector.index()] == #[trigger] segment_descriptor(selector),
{
    [
        0x0000_0000_0000_0000,
        0x00AF_9A00_0000_FFFF,
        0x00AF_9200_0000_FFFF,
        0x00AF_FA00_0000_FFFF,
        0x00AF_F200_0000_FFFF,
    ]
}

/// How many vectors the interrupt descriptor table has.
pub const IDT_ENTRY_COUNT: usize = 256;

/// An entry of the interrupt descriptor table.
#[derive(Debug, Clone, Copy, PartialEq, Eq, Structural)]
pub struct IdtEntry {
    pub offset_low: u16,
    pub selector: u16,
    pub ist: u8,
    pub type_attr: u8,
    pub offset_mid: u16,
    pub offset_high: u32,
    pub reserved: u32,
}

impl IdtEntry {
    /// The handler's address, reassembled from its three parts.
    pub open spec fn handler(self) -> int {
        self.offset_low + self.offset_mid * 0x1_0000 + self.offset_high * 0x1_0000_0000
    }

    /// The entry is a gate: the top bit of its attributes says so.
    pub open spec fn present(self) -> bool {
        self.type_attr >= 0x80
    }

    /// An entry that is no gate.
    pub fn missing() -> (r: Self)
        ensures
            r == (IdtEntry {
                offset_low: 0,
                selector: 0,
                ist: 0,
                type_attr: 0,
                offset_mid: 0,
                offset_high: 0,
                reserved: 0,
            }),
            !r.present(),
    {
        IdtEntry {
            offset_low: 0,
            selector: 0,
            ist: 0,
            type_attr: 0,
            offset_mid: 0,
            offset_high: 0,
            reserved: 0,
        }
    }

    /// An interrupt gate to `handler` in the kernel's code segment.
    pub fn gate(handler: u64) -> (r: Self)
        ensures
            r.handler() == handler,
            r.present(),
            r.selector == 0x08,
            r.ist == 0,
            r.type_attr == 0x8E,
            r.reserved == 0,
    {
        IdtEntry {
            offset_low: (handler % 0x1_0000) as u16,
            selector: SegmentSelector::KernelCode.as_u16(),
            ist: 0,
            type_attr: 0x8E,
            offset_mid: (handler / 0x1_0000 % 0x1_0000) as u16,
            offset_high: (handler / 0x1_0000_0000) as u32,
            reserved: 0,
        }
    }
}

/// The interrupt descriptor table with a gate for every vector's stub.
pub fn interrupt_descriptor_table(stubs: &[u64; IDT_ENTRY_COUNT]) -> (idt: [IdtEntry; IDT_ENTRY_COUNT])
    ensures
        forall|v: int|
            0 <= v < IDT_ENTRY_COUNT ==> (#[trigger] idt@[v]).handler() == stubs@[v]
                && idt@[v].present() && idt@[v].selector == 0x08 && idt@[v].type_attr == 0x8E
                && idt@[v].ist == 0 && idt@[v].reserved == 0,
{
    let mut idt: [IdtEntry; 256] = [IdtEntry::missing(); 256];
    let mut v: usize = 0;
    while v < IDT_ENTRY_COUNT
        invariant
            v <= IDT_ENTRY_COUNT,
            forall|w: int|
                0 <= w < v ==> (#[trigger] idt@[w]).handler() == stubs@[w] && idt@[w].present()
                    && idt@[w].selector == 0x08 && idt@[w].type_attr == 0x8E && idt@[w].ist == 0
                    && idt@[w].reserved == 0,
        decreases IDT_ENTRY_COUNT - v,
    {
        idt[v] = IdtEntry::gate(stubs[v]);
        v = v + 1;
    }
    idt
}

/// The registers of a saved context.
#[derive(Clone, Copy, Debug, PartialEq, Eq)]
pub struct X86_64Context {
    pub rbx: u64,
    pub rbp: u64,
    pub r12: u64,
    pub r13: u64,
    pub r14: u64,
    pub r15: u64,
    pub rsp: u64,
    pub rip: u64,
    pub rflags: u64,
    pub cr3: u64,
    pub cs: u64,
    pub ss: u64,
    pub fs_base: u64,
    pub _reserved: [u64; 7],
}

impl X86_64Context {
    /// The word of a saved context that holds `rbx`.
    pub const RBX: usize = 0;

    /// The word of a saved context that holds `rbp`.
    pub const RBP: usize = 1;

    /// The word of a saved context that holds `r12`.
    pub const R12: usize = 2;

    /// The word of a saved context that holds `r13`.
    pub const R13: usize = 3;

    /// The word of a saved context that holds `r14`.
    pub const R14: usize = 4;

    /// The word of a saved context that holds `r15`.
    pub const R15: usize = 5;

    /// The word of a saved context that holds `rsp`.
    pub const RSP: usize = 6;

    /// The word of a saved context that holds `rip`.
    pub const RIP: usize = 7;

    /// The word of a saved context that holds `rflags`.
    pub const RFLAGS: usize = 8;

    /// The word of a saved context that holds `cr3`.
    pub const CR3: usize = 9;

    /// The word of a saved context that holds `cs`.
    pub const CS: usize = 10;

    /// The word of a saved context that holds `ss`.
    pub const SS: usize = 11;

    /// The word of a saved context that holds `fs_base`.
    pub const FS_BASE: usize = 12;

    /// `self` is what `ctx` holds, each field in its own word.
    pub open spec fn held_by(self, ctx: CpuContext<CONTEXT_BYTES>) -> bool {
        &&& self.rbx == context_word(ctx, Self::RBX as int)
        &&& self.rbp == context_word(ctx, Self::RBP as int)
        &&& self.r12 == context_word(ctx, Self::R12 as int)
        &&& self.r13 == context_word(ctx, Self::R13 as int)
        &&& self.r14 == context_word(ctx, Self::R14 as int)
        &&& self.r15 == context_word(ctx, Self::R15 as int)
        &&& self.rsp == context_word(ctx, Self::RSP as int)
        &&& self.rip == context_word(ctx, Self::RIP as int)
        &&& self.rflags == context_word(ctx, Self::RFLAGS as int)
        &&& self.cr3 == context_word(ctx, Self::CR3 as int)
        &&& self.cs == context_word(ctx, Self::CS as int)
        &&& self.ss == context_word(ctx, Self::SS as int)
        &&& self.fs_base == context_word(ctx, Self::FS_BASE as int)
        &&& forall|i: int| 0 <= i < 7 ==> #[trigger] self._reserved@[i] == context_word(ctx, 13 + i)
    }

    /// `after` holds the registers that a switch saves from `live`, and of the
    /// rest what `before` held.
    pub open spec fn saved_over(
        live: Self,
        before: CpuContext<CONTEXT_BYTES>,
        after: CpuContext<CONTEXT_BYTES>,
    ) -> bool {
        &&& context_word(after, Self::RBX as int) == live.rbx
        &&& context_word(after, Self::RBP as int) == live.rbp
        &&& context_word(after, Self::R12 as int) == live.r12
        &&& context_word(after, Self::R13 as int) == live.r13
        &&& context_word(after, Self::R14 as int) == live.r14
        &&& context_word(after, Self::R15 as int) == live.r15
        &&& context_word(after, Self::RSP as int) == live.rsp
        &&& context_word(after, Self::RIP as int) == live.rip
        &&& context_word(after, Self::RFLAGS as int) == live.rflags
        &&& context_word(after, Self::CR3 as int) == live.cr3
        &&& forall|i: int|
            10 <= i < 20 ==> #[trigger] context_word(after, i) == context_word(before, i)
    }

    /// Reads the registers out of a saved context.
    pub fn load(ctx: &CpuContext<CONTEXT_BYTES>) -> (r: Self)
        ensures
            r.held_by(*ctx),
    {
        let w: [u64; 20] = read_words(ctx);
        X86_64Context {
            rbx: w[Self::RBX],
            rbp: w[Self::RBP],
            r12: w[Self::R12],
            r13: w[Self::R13],
            r14: w[Self::R14],
            r15: w[Self::R15],
            rsp: w[Self::RSP],
            rip: w[Self::RIP],
            rflags: w[Self::RFLAGS],
            cr3: w[Self::CR3],
            cs: w[Self::CS],
            ss: w[Self::SS],
            fs_base: w[Self::FS_BASE],
            _reserved: [w[13], w[14], w[15], w[16], w[17], w[18], w[19]],
        }
    }
}

/// What a switch saves is what a later switch back restores.
pub proof fn saved_registers_are_restored(
    live: X86_64Context,
    before: CpuContext<CONTEXT_BYTES>,
    after: CpuContext<CONTEXT_BYTES>,
    next: X86_64Context,
)
    requires
        X86_64Context::saved_over(live, before, after),
        next.held_by(after),
    ensures
        next.rbx == live.rbx,
        next.rbp == live.rbp,
        next.r12 == live.r12,
        next.r13 == live.r13,
        next.r14 == live.r14,
        next.r15 == live.r15,
        next.rsp == live.rsp,
        next.rip == live.rip,
        next.rflags == live.rflags,
        next.cr3 == live.cr3,
{
}

/// The CPU as one core sees it.
#[derive(Clone, Copy)]
pub struct Cpu {
    pub feature_flags: CpuFeatureFlags,
    pub core_id: u8,
}

impl Cpu {
    /// Identifies the current core.
    pub fn new<S: CpuidSource>(cpuid: &S) -> (r: Self)
        requires
            forall|leaf: u32, subleaf: u32| call_requires(S::cpuid, (cpuid, leaf, subleaf)),
        ensures
            detected_from(cpuid, r.feature_flags),
            identified_by(cpuid, r.core_id),
            !r.feature_flags.has(IOMMU_CAPABLE_BIT),
    {
        let feature_flags = detect_feature_flags(cpuid);
        let core_id: u8 = read_initial_apic_id(cpuid);
        Cpu { feature_flags, core_id }
    }

    /// Notes whether an IOMMU was found; no other feature changes.
    pub fn mark_iommu_capable(&mut self, present: bool)
        ensures
            final(self).core_id == old(self).core_id,
            final(self).feature_flags.has(IOMMU_CAPABLE_BIT) == present,
            forall|n: u64|
                n < 64 && n != IOMMU_CAPABLE_BIT ==> #[trigger] final(self).feature_flags.has(n)
                    == old(self).feature_flags.has(n),
            final(self).feature_flags == old(self).feature_flags.with_iommu(present),
    {
        self.feature_flags.set_iommu_capable(present);
    }

    /// How many cores are known: the one that booted.
    pub fn detected_core_count(&self) -> (r: usize)
        ensures
            r == 1,
    {
        1
    }

    /// How many cores the machine has.
    pub fn core_count(&self) -> (r: usize)
        ensures
            r == 1,
    {
        self.detected_core_count()
    }

    /// The core this value describes.
    pub fn current_core_id(&self) -> (r: usize)
        ensures
            r == self.core_id,
    {
        self.core_id as usize
    }

    /// The detected features.
    pub fn feature_flags(&self) -> (r: CpuFeatureFlags)
        ensures
            r == self.feature_flags,
    {
        self.feature_flags
    }

    /// Switches contexts: saves `live`, the registers of the running context, into
    /// `from`, and returns the registers of `to`, which are to be loaded next.
    pub fn context_switch(
        &self,
        from: &mut CpuContext<CONTEXT_BYTES>,
        to: &CpuContext<CONTEXT_BYTES>,
        live: &X86_64Context,
    ) -> (next: X86_64Context)
        ensures
            X86_64Context::saved_over(*live, *old(from), *final(from)),
            next.held_by(*to),
    {
        let mut w: [u64; 20] = read_words(from);
        w[X86_64Context::RBX] = live.rbx;
        w[X86_64Context::RBP] = live.rbp;
        w[X86_64Context::R12] = live.r12;
        w[X86_64Context::R13] = live.r13;
        w[X86_64Context::R14] = live.r14;
        w[X86_64Context::R15] = live.r15;
        w[X86_64Context::RSP] = live.rsp;
        w[X86_64Context::RIP] = live.rip;
        w[X86_64Context::RFLAGS] = live.rflags;
        w[X86_64Context::CR3] = live.cr3;
        write_words(from, &w);
        proof {
            assert forall|i: int| 10 <= i < 20 implies #[trigger] context_word(*from, i)
                == context_word(*old(from), i) by {
                assert(w@[i] == context_word(*from, i));
            }
            assert(w@[0] == live.rbx && w@[1] == live.rbp && w@[2] == live.r12 && w@[3] == live.r13
                && w@[4] == live.r14 && w@[5] == live.r15 && w@[6] == live.rsp && w@[7] == live.rip
                && w@[8] == live.rflags && w@[9] == live.cr3);
        }
        X86_64Context::load(to)
    }

    /// Whether a thread can be given `level`: there is no monitor level.
    pub fn set_privilege_level(&self, level: PrivilegeLevel) -> (r: Result<(), HalError>)
        ensures
            r == (if level == PrivilegeLevel::Monitor {
                Err::<(), HalError>(HalError::UnsupportedPrivilegeLevel)
            } else {
                Ok(())
            }),
    {
        match level {
            PrivilegeLevel::Monitor => Err(HalError::UnsupportedPrivilegeLevel),
            PrivilegeLevel::Kernel | PrivilegeLevel::User => Ok(()),
        }
    }
}

} // verus!
