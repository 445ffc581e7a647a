//! Laws of saved contexts.

use vstd::prelude::*;

use crate::arm64::cpu::Arm64Context;
use crate::bytes::le;
use crate::context::{context_word, CONTEXT_BYTES};
use crate::hal::cpu::CpuContext;
use crate::riscv64::cpu::Riscv64Context;
use crate::x86_64::cpu::X86_64Context;

verus! {

/// Word `i` of a saved context is the little-endian number in its eight bytes from
/// byte `8 * i` on.
pub proof fn words_of_a_context_are_eight_bytes(ctx: CpuContext<CONTEXT_BYTES>, i: int)
    requires
        0 <= i < 20,
    ensures
        context_word(ctx, i) == le(ctx.bytes@, 8 * i, 8),
        ctx.bytes@.len() == 160,
{
    crate::laws::words::little_endian_bytes_add_up(ctx.bytes@, 8 * i);
}

/// On x86_64 a switch writes the registers that it saves into the first 10 words, in
/// the order of the fields, and keeps the others; a switch back reads every field
/// from its own word, so it gets back what was saved and what was kept.
pub proof fn x86_64_context_goes_and_comes_back(
    live: X86_64Context,
    before: CpuContext<CONTEXT_BYTES>,
    after: CpuContext<CONTEXT_BYTES>,
    next: X86_64Context,
)
    requires
        X86_64Context::saved_over(live, before, after),
        next.held_by(after),
    ensures
        context_word(after, 0) == live.rbx == next.rbx,
        context_word(after, 1) == live.rbp == next.rbp,
        context_word(after, 2) == live.r12 == next.r12,
        context_word(after, 3) == live.r13 == next.r13,
        context_word(after, 4) == live.r14 == next.r14,
        context_word(after, 5) == live.r15 == next.r15,
        context_word(after, 6) == live.rsp == next.rsp,
        context_word(after, 7) == live.rip == next.rip,
        context_word(after, 8) == live.rflags == next.rflags,
        context_word(after, 9) == live.cr3 == next.cr3,
        next.cs == context_word(after, 10) == context_word(before, 10),
        next.ss == context_word(after, 11) == context_word(before, 11),
        next.fs_base == context_word(after, 12) == context_word(before, 12),
        forall|i: int|
            0 <= i < 7 ==> #[trigger] next._reserved@[i] == context_word(after, 13 + i)
                == context_word(before, 13 + i),
{
}

/// On arm64 a switch writes the registers that it saves into the first 14 words, in
/// the order of the fields, and keeps the others; a switch back reads every field
/// from its own word, so it gets back what was saved and what was kept.
pub proof fn arm64_context_goes_and_comes_back(
    live: Arm64Context,
    before: CpuContext<CONTEXT_BYTES>,
    after: CpuContext<CONTEXT_BYTES>,
    next: Arm64Context,
)
    requires
        Arm64Context::saved_over(live, before, after),
        next.held_by(after),
    ensures
        context_word(after, 0) == live.x19 == next.x19,
        context_word(after, 1) == live.x20 == next.x20,
        context_word(after, 2) == live.x21 == next.x21,
        context_word(after, 3) == live.x22 == next.x22,
        context_word(after, 4) == live.x23 == next.x23,
        context_word(after, 5) == live.x24 == next.x24,
        context_word(after, 6) == live.x25 == next.x25,
        context_word(after, 7) == live.x26 == next.x26,
        context_word(after, 8) == live.x27 == next.x27,
        context_word(after, 9) == live.x28 == next.x28,
        context_word(after, 10) == live.x29 == next.x29,
        context_word(after, 11) == live.x30 == next.x30,
        context_word(after, 12) == live.sp == next.sp,
        context_word(after, 13) == live.ttbr0_el1 == next.ttbr0_el1,
        next.spsr_el1 == context_word(after, 14) == context_word(before, 14),
        next.tpidr_el0 == context_word(after, 15) == context_word(before, 15),
        forall|i: int|
            0 <= i < 4 ==> #[trigger] next._reserved@[i] == context_word(after, 16 + i)
                == context_word(before, 16 + i),
{
}

/// On riscv64 a switch writes the registers that it saves into the first 15 words, in
/// the order of the fields, and keeps the others; a switch back reads every field
/// from its own word, so it gets back what was saved and what was kept.
pub proof fn riscv64_context_goes_and_comes_back(
    live: Riscv64Context,
    before: CpuContext<CONTEXT_BYTES>,
    after: CpuContext<CONTEXT_BYTES>,
    next: Riscv64Context,
)
    requires
        Riscv64Context::saved_over(live, before, after),
        next.held_by(after),
    ensures
        context_word(after, 0) == live.s0 == next.s0,
        context_word(after, 1) == live.s1 == next.s1,
        context_word(after, 2) == live.s2 == next.s2,
        context_word(after, 3) == live.s3 == next.s3,
        context_word(after, 4) == live.s4 == next.s4,
        context_word(after, 5) == live.s5 == next.s5,
        context_word(after, 6) == live.s6 == next.s6,
        context_word(after, 7) == live.s7 == next.s7,
        context_word(after, 8) == live.s8 == next.s8,
        context_word(after, 9) == live.s9 == next.s9,
        context_word(after, 10) == live.s10 == next.s10,
        context_word(after, 11) == live.s11 == next.s11,
        context_word(after, 12) == live.ra == next.ra,
        context_word(after, 13) == live.sp == next.sp,
        context_word(after, 14) == live.satp == next.satp,
        next.sstatus == context_word(after, 15) == context_word(before, 15),
        next.tp == context_word(after, 16) == context_word(before, 16),
        forall|i: int|
            0 <= i < 3 ==> #[trigger] next._reserved@[i] == context_word(after, 17 + i)
                == context_word(before, 17 + i),
{
}

} // verus!
