//! Laws of CPU identification and of the descriptor tables.

use vstd::prelude::*;

use crate::arm64::cpu::IdRegisters;
use crate::bits::bit;
use crate::hal::cpu::CpuFeatureFlags;
use crate::laws::words::digits_of_a_word;
use crate::x86_64::cpu::{
    apic_id_in, detected_from, segment_descriptor, CpuidResult, CpuidSource, IdtEntry,
    SegmentSelector,
};

verus! {

proof fn lemma_low_digits(x: u64)
    ensures
        bit(x, 0) == (x % 2 == 1),
        bit(x, 1) == (x / 0x2 % 2 == 1),
        bit(x, 2) == (x / 0x4 % 2 == 1),
        bit(x, 3) == (x / 0x8 % 2 == 1),
        bit(x, 4) == (x / 0x10 % 2 == 1),
        bit(x, 5) == (x / 0x20 % 2 == 1),
        bit(x, 6) == (x / 0x40 % 2 == 1),
        bit(x, 7) == (x / 0x80 % 2 == 1),
        bit(x, 8) == (x / 0x100 % 2 == 1),
        bit(x, 9) == (x / 0x200 % 2 == 1),
{
    assert(((x >> 0u64) & 1 == 1) == (x % 2 == 1) && ((x >> 1u64) & 1 == 1) == (x / 0x2 % 2 == 1)
        && ((x >> 2u64) & 1 == 1) == (x / 0x4 % 2 == 1) && ((x >> 3u64) & 1 == 1) == (x / 0x8 % 2
        == 1) && ((x >> 4u64) & 1 == 1) == (x / 0x10 % 2 == 1) && ((x >> 5u64) & 1 == 1) == (x
        / 0x20 % 2 == 1) && ((x >> 6u64) & 1 == 1) == (x / 0x40 % 2 == 1) && ((x >> 7u64) & 1 == 1)
        == (x / 0x80 % 2 == 1) && ((x >> 8u64) & 1 == 1) == (x / 0x100 % 2 == 1) && ((x >> 9u64) & 1
        == 1) == (x / 0x200 % 2 == 1)) by (bit_vector);
}

proof fn lemma_no_high_digits(x: u64, k: u64)
    requires
        10 <= k <= 63,
        forall|n: u64| 10 <= n < 64 ==> !#[trigger] bit(x, n),
    ensures
        x >> k == 0,
    decreases 64 - k,
{
    let y = x >> k;
    assert(!bit(x, k));
    if k < 63 {
        lemma_no_high_digits(x, (k + 1) as u64);
    }
    assert(y == 0) by (bit_vector)
        requires
            y == x >> k,
            k == 63 || (k < 63 && x >> ((k + 1) as u64) == 0),
            (x >> k) & 1 != 1,
    ;
}

proof fn lemma_digits_of_flags(flags: CpuFeatureFlags)
    ensures
        flags.has(0) == (flags.0 / 0x1 % 2 == 1),
        flags.has(1) == (flags.0 / 0x2 % 2 == 1),
        flags.has(2) == (flags.0 / 0x4 % 2 == 1),
        flags.has(3) == (flags.0 / 0x8 % 2 == 1),
        flags.has(4) == (flags.0 / 0x10 % 2 == 1),
        flags.has(5) == (flags.0 / 0x20 % 2 == 1),
        flags.has(6) == (flags.0 / 0x40 % 2 == 1),
        flags.has(7) == (flags.0 / 0x80 % 2 == 1),
        flags.has(8) == (flags.0 / 0x100 % 2 == 1),
        flags.has(9) == (flags.0 / 0x200 % 2 == 1),
        (forall|n: u64| 10 <= n < 64 ==> !#[trigger] flags.has(n)) ==> flags.0 < 0x400,
{
    lemma_low_digits(flags.0);
    if forall|n: u64| 10 <= n < 64 ==> !#[trigger] flags.has(n) {
        assert forall|n: u64| 10 <= n < 64 implies !#[trigger] bit(flags.0, n) by {
            assert(!flags.has(n));
        }
        lemma_no_high_digits(flags.0, 10);
        let x = flags.0;
        assert(x < 0x400) by (bit_vector)
            requires
                x >> 10u64 == 0,
        ;
    }
}

/// Each feature of an x86_64 CPU is the bit that Intel and AMD document for it;
/// the number of a feature's own bit is its place in the list SIMD of 128, 256 and
/// 512 bits, scalable vectors, AES, SHA, wide atomics, virtualization, IOMMU,
/// performance counters.
pub proof fn x86_64_features_are_the_documented_bits(
    flags: CpuFeatureFlags,
    leaf1: CpuidResult,
    leaf7: CpuidResult,
    leaf_a: CpuidResult,
    leaf_ext1: CpuidResult,
)
    requires
        crate::x86_64::cpu::features_of(flags, leaf1, leaf7, leaf_a, leaf_ext1),
    ensures
        (flags.0 % 2 == 1) == (leaf1.edx / 0x400_0000 % 2 == 1),
        (flags.0 / 0x2 % 2 == 1) == (leaf1.ecx / 0x1000_0000 % 2 == 1 || leaf7.ebx / 0x20 % 2 == 1),
        (flags.0 / 0x4 % 2 == 1) == (leaf7.ebx / 0x1_0000 % 2 == 1),
        flags.0 / 0x8 % 2 == 0,
        (flags.0 / 0x10 % 2 == 1) == (leaf1.ecx / 0x200_0000 % 2 == 1),
        (flags.0 / 0x20 % 2 == 1) == (leaf7.ebx / 0x2000_0000 % 2 == 1),
        (flags.0 / 0x40 % 2 == 1) == (leaf1.ecx / 0x2000 % 2 == 1),
        (flags.0 / 0x80 % 2 == 1) == (leaf1.ecx / 0x20 % 2 == 1 || leaf_ext1.ecx / 0x4 % 2 == 1),
        flags.0 / 0x100 % 2 == 0,
        (flags.0 / 0x200 % 2 == 1) == (leaf_a.eax % 0x100 > 0),
        flags.0 < 0x400,
{
    lemma_digits_of_flags(flags);
    digits_of_a_word(leaf1.ecx);
    digits_of_a_word(leaf1.edx);
    digits_of_a_word(leaf7.ebx);
    digits_of_a_word(leaf_ext1.ecx);
}

/// The features detected on an x86_64 core are those that its CPUID reports in
/// leaves 1, 7, 10 and 0x80000001.
pub proof fn x86_64_features_come_from_four_leaves<S: CpuidSource>(
    cpuid: &S,
    flags: CpuFeatureFlags,
    leaf1: CpuidResult,
    leaf7: CpuidResult,
    leaf_a: CpuidResult,
    leaf_ext1: CpuidResult,
)
    requires
        detected_from(cpuid, flags),
        forall|r: CpuidResult| call_ensures(S::cpuid, (cpuid, 1, 0), r) ==> r == leaf1,
        forall|r: CpuidResult| call_ensures(S::cpuid, (cpuid, 7, 0), r) ==> r == leaf7,
        forall|r: CpuidResult| call_ensures(S::cpuid, (cpuid, 0x0A, 0), r) ==> r == leaf_a,
        forall|r: CpuidResult|
            call_ensures(S::cpuid, (cpuid, 0x8000_0001, 0), r) ==> r == leaf_ext1,
    ensures
        crate::x86_64::cpu::features_of(flags, leaf1, leaf7, leaf_a, leaf_ext1),
{
}

/// The core's interrupt controller id is the top byte of leaf 1's EBX.
pub proof fn apic_id_is_the_top_byte(leaf1: CpuidResult)
    ensures
        apic_id_in(leaf1) * 0x100_0000 <= leaf1.ebx < (apic_id_in(leaf1) + 1) * 0x100_0000,
{
}

/// Each feature of an ARM64 CPU is in the four-bit field that documents it.
pub proof fn arm64_features_are_the_documented_fields(flags: CpuFeatureFlags, ids: IdRegisters)
    requires
        crate::arm64::cpu::features_of(flags, ids),
    ensures
        (flags.0 % 2 == 1) == (ids.id_aa64pfr0 / 0x10_0000 % 0x10 != 0xF),
        flags.0 / 0x2 % 2 == 0,
        flags.0 / 0x4 % 2 == 0,
        (flags.0 / 0x8 % 2 == 1) == (ids.id_aa64pfr0 / 0x1_0000_0000 % 0x10 != 0),
        (flags.0 / 0x10 % 2 == 1) == (ids.id_aa64isar0 / 0x10 % 0x10 != 0),
        (flags.0 / 0x20 % 2 == 1) == (ids.id_aa64isar0 / 0x100 % 0x10 != 0
            || ids.id_aa64isar0 / 0x1000 % 0x10 != 0),
        (flags.0 / 0x40 % 2 == 1) == (ids.id_aa64isar0 / 0x10_0000 % 0x10 >= 2),
        (flags.0 / 0x80 % 2 == 1) == (ids.id_aa64pfr0 / 0x100 % 0x10 != 0),
        flags.0 / 0x100 % 2 == 0,
        flags.0 / 0x200 % 2 == 0,
        flags.0 < 0x400,
{
    lemma_digits_of_flags(flags);
}

/// Every RISC-V core has SIMD of 128 bits, wide atomics and performance counters,
/// and nothing else is claimed of it.
pub proof fn riscv64_features_are_the_profile(flags: CpuFeatureFlags)
    requires
        crate::riscv64::platform::baseline(flags),
    ensures
        flags.0 == 1 + 0x40 + 0x200,
{
    lemma_digits_of_flags(flags);
    let x = flags.0;
    assert(x == 1 + 0x40 + 0x200) by (bit_vector)
        requires
            x < 1024,
            x % 2 == 1,
            x / 0x2 % 2 != 1,
            x / 0x4 % 2 != 1,
            x / 0x8 % 2 != 1,
            x / 0x10 % 2 != 1,
            x / 0x20 % 2 != 1,
            x / 0x40 % 2 == 1,
            x / 0x80 % 2 != 1,
            x / 0x100 % 2 != 1,
            x / 0x200 % 2 == 1,
    ;
}

/// Noting an IOMMU changes the eighth bit to say whether there is one, and leaves
/// those below and above it alone.
pub proof fn iommu_is_the_eighth_feature(flags: CpuFeatureFlags, present: bool)
    ensures
        (flags.with_iommu(present).0 / 0x100 % 2 == 1) == present,
        flags.with_iommu(present).0 % 0x100 == flags.0 % 0x100,
        flags.with_iommu(present).0 / 0x200 == flags.0 / 0x200,
{
    let x = flags.0;
    assert((x | (1u64 << 8u64)) / 0x100 % 2 == 1 && (x | (1u64 << 8u64)) % 0x100 == x % 0x100 && (x
        | (1u64 << 8u64)) / 0x200 == x / 0x200 && (x & !(1u64 << 8u64)) / 0x100 % 2 == 0 && (x & !(
    1u64 << 8u64)) % 0x100 == x % 0x100 && (x & !(1u64 << 8u64)) / 0x200 == x / 0x200)
        by (bit_vector);
}

/// The segments stand in the table as null, kernel code, kernel data, user code
/// and user data. All but the null segment are present code or data segments of
/// full size from address zero on; the code segments alone can be executed, and a
/// segment's privilege is that of its selector: 3 for programs, 0 for the kernel.
pub proof fn segments_are_flat_and_privileged_by_their_selector(selector: SegmentSelector)
    ensures
        selector is Null <==> selector.index() == 0,
        selector is KernelCode <==> selector.index() == 1,
        selector is KernelData <==> selector.index() == 2,
        selector is UserCode <==> selector.index() == 3,
        selector is UserData <==> selector.index() == 4,
        selector.ring() == (if selector is UserCode || selector is UserData {
            3int
        } else {
            0
        }),
        ({
            let d = segment_descriptor(selector) as int;
            if selector is Null {
                d == 0
            } else {
                &&& d % 0x1_0000 == 0xFFFF
                &&& d / 0x1_0000 % 0x100_0000 == 0
                &&& d / 0x1_0000_0000_0000 % 0x10 == 0xF
                &&& d / 0x100_0000_0000_0000 == 0
                &&& d / 0x8000_0000_0000 % 2 == 1
                &&& d / 0x2000_0000_0000 % 4 == selector.ring()
                &&& d / 0x1000_0000_0000 % 2 == 1
                &&& d / 0x800_0000_0000 % 2 == (if selector is KernelCode || selector is UserCode {
                    1int
                } else {
                    0
                })
                &&& d / 0x200_0000_0000 % 2 == 1
                &&& d / 0x80_0000_0000_0000 % 2 == 1
                &&& d / 0x20_0000_0000_0000 % 2 == 1
            }
        }),
{
}

/// A gate's handler is its three parts put together, lowest first, and it is there
/// if the top bit of its attributes is set.
pub proof fn gate_parts_make_the_handler(entry: IdtEntry)
    ensures
        entry.handler() % 0x1_0000 == entry.offset_low,
        entry.handler() / 0x1_0000 % 0x1_0000 == entry.offset_mid,
        entry.handler() / 0x1_0000_0000 == entry.offset_high,
        entry.present() <==> entry.type_attr / 0x80 % 2 == 1,
{
}

} // verus!
