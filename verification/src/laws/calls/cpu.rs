//! Calls that identify CPUs and set them up.

use vstd::prelude::*;

use crate::arm64::cpu::IdRegisters;
use crate::hal::cpu::{CpuContext, CpuFeatureFlags, PrivilegeLevel};
use crate::hal::error::HalError;
use crate::laws::cpu::{
    arm64_features_are_the_documented_fields, iommu_is_the_eighth_feature,
    x86_64_features_are_the_documented_bits,
};
use crate::laws::words::masks_add_their_bits;
use crate::riscv64::cpu::TrapCause;
use crate::x86_64::cpu::{
    apic_id_from_leaf, feature_flags_from_leaves, global_descriptor_table,
    interrupt_descriptor_table, CpuidResult, CpuidSource, IdtEntry, SegmentSelector,
};

verus! {

/// The features collected from four leaves are their documented bits.
pub proof fn collect_features_on_x86_64(
    leaf1: &CpuidResult,
    leaf7: &CpuidResult,
    leaf_a: &CpuidResult,
    leaf_ext1: &CpuidResult,
    flags: CpuFeatureFlags,
    id: u8,
)
    requires
        call_ensures(feature_flags_from_leaves, (leaf1, leaf7, leaf_a, leaf_ext1), flags),
        call_ensures(apic_id_from_leaf, (leaf1,), id),
    ensures
        (flags.0 % 2 == 1) == (leaf1.edx / 0x400_0000 % 2 == 1),
        (flags.0 / 0x2 % 2 == 1) == (leaf1.ecx / 0x1000_0000 % 2 == 1 || leaf7.ebx / 0x20 % 2 == 1),
        (flags.0 / 0x4 % 2 == 1) == (leaf7.ebx / 0x1_0000 % 2 == 1),
        (flags.0 / 0x10 % 2 == 1) == (leaf1.ecx / 0x200_0000 % 2 == 1),
        (flags.0 / 0x20 % 2 == 1) == (leaf7.ebx / 0x2000_0000 % 2 == 1),
        (flags.0 / 0x40 % 2 == 1) == (leaf1.ecx / 0x2000 % 2 == 1),
        (flags.0 / 0x80 % 2 == 1) == (leaf1.ecx / 0x20 % 2 == 1 || leaf_ext1.ecx / 0x4 % 2 == 1),
        (flags.0 / 0x200 % 2 == 1) == (leaf_a.eax % 0x100 > 0),
        flags.0 / 0x8 % 2 == 0 && flags.0 / 0x100 % 2 == 0 && flags.0 < 0x400,
        id == leaf1.ebx / 0x100_0000,
{
    x86_64_features_are_the_documented_bits(flags, *leaf1, *leaf7, *leaf_a, *leaf_ext1);
}

/// The features collected from the identification registers are their documented
/// fields, and the core's number is the lowest affinity level.
pub proof fn collect_features_on_arm64(ids: &IdRegisters, flags: CpuFeatureFlags, core: u8)
    requires
        call_ensures(crate::arm64::cpu::detect_feature_flags, (ids,), flags),
        call_ensures(crate::arm64::cpu::read_core_id, (ids,), core),
    ensures
        (flags.0 % 2 == 1) == (ids.id_aa64pfr0 / 0x10_0000 % 0x10 != 0xF),
        (flags.0 / 0x8 % 2 == 1) == (ids.id_aa64pfr0 / 0x1_0000_0000 % 0x10 != 0),
        (flags.0 / 0x10 % 2 == 1) == (ids.id_aa64isar0 / 0x10 % 0x10 != 0),
        (flags.0 / 0x20 % 2 == 1) == (ids.id_aa64isar0 / 0x100 % 0x10 != 0 || ids.id_aa64isar0
            / 0x1000 % 0x10 != 0),
        (flags.0 / 0x40 % 2 == 1) == (ids.id_aa64isar0 / 0x10_0000 % 0x10 >= 2),
        (flags.0 / 0x80 % 2 == 1) == (ids.id_aa64pfr0 / 0x100 % 0x10 != 0),
        core == ids.mpidr % 0x100,
{
    arm64_features_are_the_documented_fields(flags, *ids);
}

/// The features of a RISC-V core are those of the profile.
pub proof fn collect_features_on_riscv64(flags: CpuFeatureFlags)
    requires
        call_ensures(crate::riscv64::cpu::detect_feature_flags, (), flags),
    ensures
        flags.0 == 1 + 0x40 + 0x200,
{
    crate::laws::cpu::riscv64_features_are_the_profile(flags);
}

/// A set contains a mask if it has all of its bits; adding and removing a mask
/// changes its bits alone, and a union has the bits of both.
pub proof fn change_feature_sets(
    flags: &mut CpuFeatureFlags,
    other: CpuFeatureFlags,
    kept: CpuFeatureFlags,
    mask: u64,
    present: bool,
    has: bool,
    both: CpuFeatureFlags,
    none: CpuFeatureFlags,
    bits: u64,
)
    requires
        call_ensures(CpuFeatureFlags::set, (flags, mask, present), ()),
        call_ensures(CpuFeatureFlags::contains, (&kept, mask), has),
        call_ensures(CpuFeatureFlags::union, (kept, other), both),
        call_ensures(CpuFeatureFlags::empty, (), none),
        call_ensures(CpuFeatureFlags::bits, (&kept,), bits),
    ensures
        present ==> final(flags).0 == old(flags).0 | mask,
        !present ==> final(flags).0 == old(flags).0 & !mask,
        has <==> kept.0 | mask == kept.0,
        both.0 == kept.0 | other.0,
        none.0 == 0,
        bits == kept.0,
{
    masks_add_their_bits(kept.0, mask);
}

/// Noting an IOMMU changes the eighth feature alone.
pub proof fn note_iommu(flags: &mut CpuFeatureFlags, present: bool)
    requires
        call_ensures(CpuFeatureFlags::set_iommu_capable, (flags, present), ()),
    ensures
        (final(flags).0 / 0x100 % 2 == 1) == present,
        final(flags).0 % 0x100 == old(flags).0 % 0x100,
        final(flags).0 / 0x200 == old(flags).0 / 0x200,
{
    iommu_is_the_eighth_feature(*old(flags), present);
}

/// A thread can be given the kernel's level and the programs' level, and never the
/// monitor's, on every machine.
pub proof fn change_privilege(
    a: &crate::x86_64::cpu::Cpu,
    b: &crate::arm64::cpu::Cpu,
    c: &crate::riscv64::cpu::Cpu,
    level: PrivilegeLevel,
    ra: Result<(), HalError>,
    rb: Result<(), HalError>,
    rc: Result<(), HalError>,
)
    requires
        call_ensures(crate::x86_64::cpu::Cpu::set_privilege_level, (a, level), ra),
        call_ensures(crate::arm64::cpu::Cpu::set_privilege_level, (b, level), rb),
        call_ensures(crate::riscv64::cpu::Cpu::set_privilege_level, (c, level), rc),
    ensures
        ra is Err <==> level is Monitor,
        rb is Err <==> level is Monitor,
        rc is Err <==> level is Monitor,
        ra matches Err(e) ==> e == HalError::UnsupportedPrivilegeLevel,
        rb matches Err(e) ==> e == HalError::UnsupportedPrivilegeLevel,
        rc matches Err(e) ==> e == HalError::UnsupportedPrivilegeLevel,
{
}

/// A selector is eight times its place plus its ring.
pub proof fn encode_selector(selector: SegmentSelector, r: u16)
    requires
        call_ensures(SegmentSelector::as_u16, (selector,), r),
    ensures
        selector is Null ==> r == 0x00,
        selector is KernelCode ==> r == 0x08,
        selector is KernelData ==> r == 0x10,
        selector is UserCode ==> r == 0x1B,
        selector is UserData ==> r == 0x23,
{
}

/// The descriptor table has at each selector's place a flat segment of the
/// selector's privilege; the null segment comes first.
pub proof fn make_descriptor_table(table: [u64; 5])
    requires
        call_ensures(global_descriptor_table, (), table),
    ensures
        table@[0] == 0,
        forall|i: int|
            1 <= i < 5 ==> {
                let d = #[trigger] table@[i] as int;
                &&& d % 0x1_0000 == 0xFFFF
                &&& d / 0x1_0000 % 0x100_0000 == 0
                &&& d / 0x8000_0000_0000 % 2 == 1
                &&& d / 0x2000_0000_0000 % 4 == if i < 3 {
                    0int
                } else {
                    3
                }
                &&& d / 0x800_0000_0000 % 2 == i % 2
            },
{
    assert(table@[SegmentSelector::Null.index()] == crate::x86_64::cpu::segment_descriptor(
        SegmentSelector::Null,
    ));
    assert(table@[SegmentSelector::KernelCode.index()] == crate::x86_64::cpu::segment_descriptor(
        SegmentSelector::KernelCode,
    ));
    assert(table@[SegmentSelector::KernelData.index()] == crate::x86_64::cpu::segment_descriptor(
        SegmentSelector::KernelData,
    ));
    assert(table@[SegmentSelector::UserCode.index()] == crate::x86_64::cpu::segment_descriptor(
        SegmentSelector::UserCode,
    ));
    assert(table@[SegmentSelector::UserData.index()] == crate::x86_64::cpu::segment_descriptor(
        SegmentSelector::UserData,
    ));
}

/// Every vector's gate leads, in the kernel's code segment, to the vector's own
/// stub.
pub proof fn make_interrupt_table(stubs: &[u64; 256], idt: [IdtEntry; 256], v: int)
    requires
        call_ensures(interrupt_descriptor_table, (stubs,), idt),
        0 <= v < 256,
    ensures
        idt@[v].offset_low + idt@[v].offset_mid * 0x1_0000 + idt@[v].offset_high * 0x1_0000_0000
            == stubs@[v],
        idt@[v].selector == 0x08,
        idt@[v].type_attr == 0x8E,
        idt@[v].ist == 0,
{
}

/// The top bit of a trap's cause tells interrupts from exceptions, and the rest is
/// the code; firmware has an extension if it answers without an error and not with
/// zero.
pub proof fn decode_trap(scause: u64, cause: TrapCause, error: i64, value: u64, there: bool)
    requires
        call_ensures(crate::riscv64::cpu::decode_scause, (scause,), cause),
        call_ensures(crate::riscv64::cpu::sbi_probe_extension, (error, value), there),
    ensures
        cause is Interrupt <==> scause / 0x8000_0000_0000_0000 == 1,
        cause matches TrapCause::Exception(code) ==> code == scause,
        cause matches TrapCause::Interrupt(code) ==> (scause % 0x8000_0000_0000_0000
            < 0x1_0000_0000 ==> code == scause % 0x8000_0000_0000_0000),
        there <==> error == 0 && value != 0,
{
}

/// A switch on x86_64 saves every register that must survive a call into the old
/// context and takes every register of the new one from it.
pub proof fn switch_on_x86_64(
    cpu: &crate::x86_64::cpu::Cpu,
    from: &mut CpuContext<160>,
    to: &CpuContext<160>,
    live: &crate::x86_64::cpu::X86_64Context,
    next: crate::x86_64::cpu::X86_64Context,
    i: int,
)
    requires
        call_ensures(crate::x86_64::cpu::Cpu::context_switch, (cpu, from, to, live), next),
        10 <= i < 20,
    ensures
        ({
            let w = |k: int| crate::context::context_word(*final(from), k);
            let v = |k: int| crate::context::context_word(*to, k);
            &&& w(0) == live.rbx && w(1) == live.rbp && w(2) == live.r12 && w(3) == live.r13
            &&& w(4) == live.r14 && w(5) == live.r15 && w(6) == live.rsp && w(7) == live.rip
            &&& w(8) == live.rflags && w(9) == live.cr3
            &&& w(i) == crate::context::context_word(*old(from), i)
            &&& next.rbx == v(0) && next.rbp == v(1) && next.r12 == v(2) && next.r13 == v(3)
            &&& next.r14 == v(4) && next.r15 == v(5) && next.rsp == v(6) && next.rip == v(7)
            &&& next.rflags == v(8) && next.cr3 == v(9) && next.cs == v(10) && next.ss == v(11)
            &&& next.fs_base == v(12)
        }),
{
}

/// A switch on arm64 saves every register that must survive a call into the old
/// context and takes every register of the new one from it.
pub proof fn switch_on_arm64(
    cpu: &crate::arm64::cpu::Cpu,
    from: &mut CpuContext<160>,
    to: &CpuContext<160>,
    live: &crate::arm64::cpu::Arm64Context,
    next: crate::arm64::cpu::Arm64Context,
    i: int,
)
    requires
        call_ensures(crate::arm64::cpu::Cpu::context_switch, (cpu, from, to, live), next),
        14 <= i < 20,
    ensures
        ({
            let w = |k: int| crate::context::context_word(*final(from), k);
            let v = |k: int| crate::context::context_word(*to, k);
            &&& w(0) == live.x19 && w(1) == live.x20 && w(2) == live.x21 && w(3) == live.x22
            &&& w(4) == live.x23 && w(5) == live.x24 && w(6) == live.x25 && w(7) == live.x26
            &&& w(8) == live.x27 && w(9) == live.x28 && w(10) == live.x29 && w(11) == live.x30
            &&& w(12) == live.sp && w(13) == live.ttbr0_el1
            &&& w(i) == crate::context::context_word(*old(from), i)
            &&& next.x19 == v(0) && next.x20 == v(1) && next.x21 == v(2) && next.x22 == v(3)
            &&& next.x23 == v(4) && next.x24 == v(5) && next.x25 == v(6) && next.x26 == v(7)
            &&& next.x27 == v(8) && next.x28 == v(9) && next.x29 == v(10) && next.x30 == v(11)
            &&& next.sp == v(12) && next.ttbr0_el1 == v(13)
            &&& next.spsr_el1 == v(14) && next.tpidr_el0 == v(15)
        }),
{
}

/// A switch on riscv64 saves every register that must survive a call into the old
/// context and takes every register of the new one from it.
pub proof fn switch_on_riscv64(
    cpu: &crate::riscv64::cpu::Cpu,
    from: &mut CpuContext<160>,
    to: &CpuContext<160>,
    live: &crate::riscv64::cpu::Riscv64Context,
    next: crate::riscv64::cpu::Riscv64Context,
    i: int,
)
    requires
        call_ensures(crate::riscv64::cpu::Cpu::context_switch, (cpu, from, to, live), next),
        15 <= i < 20,
    ensures
        ({
            let w = |k: int| crate::context::context_word(*final(from), k);
            let v = |k: int| crate::context::context_word(*to, k);
            &&& w(0) == live.s0 && w(1) == live.s1 && w(2) == live.s2 && w(3) == live.s3
            &&& w(4) == live.s4 && w(5) == live.s5 && w(6) == live.s6 && w(7) == live.s7
            &&& w(8) == live.s8 && w(9) == live.s9 && w(10) == live.s10 && w(11) == live.s11
            &&& w(12) == live.ra && w(13) == live.sp && w(14) == live.satp
            &&& w(i) == crate::context::context_word(*old(from), i)
            &&& next.s0 == v(0) && next.s1 == v(1) && next.s2 == v(2) && next.s3 == v(3)
            &&& next.s4 == v(4) && next.s5 == v(5) && next.s6 == v(6) && next.s7 == v(7)
            &&& next.s8 == v(8) && next.s9 == v(9) && next.s10 == v(10) && next.s11 == v(11)
            &&& next.ra == v(12) && next.sp == v(13) && next.satp == v(14) && next.sstatus == v(15)
            &&& next.tp == v(16)
        }),
{
}

/// What a context holds is loaded from it, on every machine, each register from its
/// own word.
pub proof fn load_contexts(
    ctx: &CpuContext<160>,
    a: crate::x86_64::cpu::X86_64Context,
    b: crate::arm64::cpu::Arm64Context,
    c: crate::riscv64::cpu::Riscv64Context,
)
    requires
        call_ensures(crate::x86_64::cpu::X86_64Context::load, (ctx,), a),
        call_ensures(crate::arm64::cpu::Arm64Context::load, (ctx,), b),
        call_ensures(crate::riscv64::cpu::Riscv64Context::load, (ctx,), c),
    ensures
        ({
            let v = |k: int| crate::context::context_word(*ctx, k);
            &&& a.rbx == v(0) && a.rsp == v(6) && a.rip == v(7) && a.cr3 == v(9)
            &&& a.cs == v(10) && a.ss == v(11) && a.fs_base == v(12)
            &&& b.x19 == v(0) && b.x30 == v(11) && b.sp == v(12) && b.ttbr0_el1 == v(13)
            &&& b.spsr_el1 == v(14) && b.tpidr_el0 == v(15)
            &&& c.s0 == v(0) && c.s11 == v(11) && c.ra == v(12) && c.sp == v(13)
            &&& c.satp == v(14) && c.sstatus == v(15) && c.tp == v(16)
        }),
{
}

/// A core that is described tells its own number and features, and that it is the
/// only one, on every machine.
pub proof fn describe_cores(
    a: &crate::x86_64::cpu::Cpu,
    b: &crate::arm64::cpu::Cpu,
    c: &crate::riscv64::cpu::Cpu,
    counts: (usize, usize, usize),
    detected: (usize, usize, usize),
    ids: (usize, usize, usize),
    flags: (CpuFeatureFlags, CpuFeatureFlags, CpuFeatureFlags),
    timed: bool,
)
    requires
        call_ensures(crate::x86_64::cpu::Cpu::core_count, (a,), counts.0),
        call_ensures(crate::arm64::cpu::Cpu::core_count, (b,), counts.1),
        call_ensures(crate::riscv64::cpu::Cpu::core_count, (c,), counts.2),
        call_ensures(crate::x86_64::cpu::Cpu::detected_core_count, (a,), detected.0),
        call_ensures(crate::arm64::cpu::Cpu::detected_core_count, (b,), detected.1),
        call_ensures(crate::riscv64::cpu::Cpu::detected_core_count, (c,), detected.2),
        call_ensures(crate::x86_64::cpu::Cpu::current_core_id, (a,), ids.0),
        call_ensures(crate::arm64::cpu::Cpu::current_core_id, (b,), ids.1),
        call_ensures(crate::riscv64::cpu::Cpu::current_core_id, (c,), ids.2),
        call_ensures(crate::x86_64::cpu::Cpu::feature_flags, (a,), flags.0),
        call_ensures(crate::arm64::cpu::Cpu::feature_flags, (b,), flags.1),
        call_ensures(crate::riscv64::cpu::Cpu::feature_flags, (c,), flags.2),
        call_ensures(crate::riscv64::cpu::Cpu::sbi_time_extension_present, (c,), timed),
    ensures
        counts == (1usize, 1usize, 1usize),
        detected == counts,
        ids.0 == a.core_id && ids.1 == b.core_id && ids.2 == c.hart_id,
        flags == (a.feature_flags, b.feature_flags, c.feature_flags),
        timed == c.sbi_time_extension_present,
{
}

/// Noting an IOMMU in a core changes its eighth feature and nothing else, on every
/// machine.
pub proof fn note_iommu_in_cores(
    a: &mut crate::x86_64::cpu::Cpu,
    b: &mut crate::arm64::cpu::Cpu,
    c: &mut crate::riscv64::cpu::Cpu,
    present: bool,
)
    requires
        call_ensures(crate::x86_64::cpu::Cpu::mark_iommu_capable, (a, present), ()),
        call_ensures(crate::arm64::cpu::Cpu::mark_iommu_capable, (b, present), ()),
        call_ensures(crate::riscv64::cpu::Cpu::mark_iommu_capable, (c, present), ()),
    ensures
        (final(a).feature_flags.0 / 0x100 % 2 == 1) == present,
        (final(b).feature_flags.0 / 0x100 % 2 == 1) == present,
        (final(c).feature_flags.0 / 0x100 % 2 == 1) == present,
        final(a).feature_flags.0 % 0x100 == old(a).feature_flags.0 % 0x100,
        final(b).feature_flags.0 % 0x100 == old(b).feature_flags.0 % 0x100,
        final(c).feature_flags.0 % 0x100 == old(c).feature_flags.0 % 0x100,
        final(a).feature_flags.0 / 0x200 == old(a).feature_flags.0 / 0x200,
        final(b).feature_flags.0 / 0x200 == old(b).feature_flags.0 / 0x200,
        final(c).feature_flags.0 / 0x200 == old(c).feature_flags.0 / 0x200,
        final(a).core_id == old(a).core_id && final(b).core_id == old(b).core_id,
        final(c).hart_id == old(c).hart_id,
        final(c).sbi_time_extension_present == old(c).sbi_time_extension_present,
{
    iommu_is_the_eighth_feature(old(a).feature_flags, present);
    iommu_is_the_eighth_feature(old(b).feature_flags, present);
    iommu_is_the_eighth_feature(old(c).feature_flags, present);
}

/// An x86_64 core that is identified has the number in the top byte of leaf 1's
/// second register, and no IOMMU yet.
pub proof fn identify_core_on_x86_64<S: CpuidSource>(
    cpuid: &S,
    cpu: crate::x86_64::cpu::Cpu,
    id: u8,
    leaf1: CpuidResult,
)
    requires
        call_ensures(crate::x86_64::cpu::Cpu::new::<S>, (cpuid,), cpu),
        call_ensures(crate::x86_64::cpu::read_initial_apic_id::<S>, (cpuid,), id),
        forall|r: CpuidResult| call_ensures(S::cpuid, (cpuid, 1, 0), r) ==> r == leaf1,
    ensures
        cpu.core_id == leaf1.ebx / 0x100_0000,
        id == leaf1.ebx / 0x100_0000,
        cpu.feature_flags.0 / 0x100 % 2 == 0,
{
    let x = cpu.feature_flags.0;
    assert(!cpu.feature_flags.has(8));
    assert(((x >> 8u64) & 1 == 1) == (x / 0x100 % 2 == 1)) by (bit_vector);
}

/// An ARM64 core that is identified has the features and the number that its
/// registers tell; a RISC-V core those of the profile and the number that it is told.
pub proof fn identify_other_cores(
    ids: &IdRegisters,
    b: crate::arm64::cpu::Cpu,
    hart: usize,
    timed: bool,
    c: crate::riscv64::cpu::Cpu,
)
    requires
        call_ensures(crate::arm64::cpu::Cpu::from_registers, (ids,), b),
        call_ensures(crate::riscv64::cpu::Cpu::new, (hart, timed), c),
    ensures
        b.core_id == ids.mpidr % 0x100,
        (b.feature_flags.0 % 2 == 1) == (ids.id_aa64pfr0 / 0x10_0000 % 0x10 != 0xF),
        (b.feature_flags.0 / 0x10 % 2 == 1) == (ids.id_aa64isar0 / 0x10 % 0x10 != 0),
        (b.feature_flags.0 / 0x40 % 2 == 1) == (ids.id_aa64isar0 / 0x10_0000 % 0x10 >= 2),
        c.hart_id == hart && c.sbi_time_extension_present == timed,
        c.feature_flags.0 == 1 + 0x40 + 0x200,
{
    arm64_features_are_the_documented_fields(b.feature_flags, *ids);
    crate::laws::cpu::riscv64_features_are_the_profile(c.feature_flags);
}

/// A gate leads to its handler in the kernel's code segment, with interrupts held back;
/// a missing one is empty. Registers that nothing was read from are zero.
pub proof fn make_gates(
    handler: u64,
    gate: IdtEntry,
    missing: IdtEntry,
    a: CpuidResult,
    b: IdRegisters,
)
    requires
        call_ensures(IdtEntry::gate, (handler,), gate),
        call_ensures(IdtEntry::missing, (), missing),
        call_ensures(<CpuidResult as Default>::default, (), a),
        call_ensures(<IdRegisters as Default>::default, (), b),
    ensures
        gate.offset_low + gate.offset_mid * 0x1_0000 + gate.offset_high * 0x1_0000_0000 == handler,
        gate.selector == 0x08 && gate.type_attr == 0x8E && gate.ist == 0 && gate.reserved == 0,
        missing.type_attr == 0 && missing.selector == 0 && missing.offset_low == 0,
        missing.offset_mid == 0 && missing.offset_high == 0 && missing.ist == 0,
        a.eax == 0 && a.ebx == 0 && a.ecx == 0 && a.edx == 0,
        b.id_aa64isar0 == 0 && b.id_aa64isar1 == 0 && b.id_aa64pfr0 == 0 && b.mpidr == 0,
{
}

} // verus!
