//! Saved register state as twenty words, the size all three architectures use.

use vstd::prelude::*;

use crate::bytes::{le, read_u64_le};
use crate::hal::cpu::CpuContext;

verus! {

/// The bytes of a saved context.
pub const CONTEXT_BYTES: usize = 160;

/// Word `i` of a saved context.
pub open spec fn context_word(ctx: CpuContext<CONTEXT_BYTES>, i: int) -> u64 {
    le(ctx.bytes@, 8 * i, 8) as u64
}

/// The words of a saved context.
pub open spec fn holds_words(ctx: CpuContext<CONTEXT_BYTES>, words: Seq<u64>) -> bool {
    &&& words.len() == 20
    &&& forall|i: int| 0 <= i < 20 ==> #[trigger] words[i] == context_word(ctx, i)
}

/// The number depends on the bytes it is made of alone.
proof fn lemma_le_depends_on_its_bytes(s: Seq<u8>, t: Seq<u8>, at: int, n: nat)
    requires
        forall|k: int| at <= k < at + n ==> s[k] == t[k],
    ensures
        le(s, at, n) == le(t, at, n),
    decreases n,
{
    if n > 0 {
        lemma_le_depends_on_its_bytes(s, t, at + 1, (n - 1) as nat);
    }
}

/// Reads all words of a saved context.
pub fn read_words(ctx: &CpuContext<CONTEXT_BYTES>) -> (r: [u64; 20])
    ensures
        holds_words(*ctx, r@),
{
    let bytes = ctx.bytes.as_slice();
    let mut words: [u64; 20] = [0; 20];
    let mut i: usize = 0;
    while i < 20
        invariant
            bytes@ == ctx.bytes@,
            bytes@.len() == CONTEXT_BYTES,
            i <= 20,
            forall|j: int| 0 <= j < i ==> #[trigger] words@[j] == context_word(*ctx, j),
        decreases 20 - i,
    {
        words[i] = read_u64_le(bytes, 8 * i);
        i = i + 1;
    }
    words
}

/// Writes word `i` of a saved context.
fn write_word(ctx: &mut CpuContext<CONTEXT_BYTES>, i: usize, value: u64)
    requires
        i < 20,
    ensures
        context_word(*final(ctx), i as int) == value,
        forall|j: int|
            0 <= j < 20 && j != i ==> #[trigger] context_word(*final(ctx), j) == context_word(
                *old(ctx),
                j,
            ),
{
    let at: usize = 8 * i;
    let v1: u64 = value / 0x100;
    let v2: u64 = v1 / 0x100;
    let v3: u64 = v2 / 0x100;
    let v4: u64 = v3 / 0x100;
    let v5: u64 = v4 / 0x100;
    let v6: u64 = v5 / 0x100;
    let v7: u64 = v6 / 0x100;
    ctx.bytes[at] = (value % 0x100) as u8;
    ctx.bytes[at + 1] = (v1 % 0x100) as u8;
    ctx.bytes[at + 2] = (v2 % 0x100) as u8;
    ctx.bytes[at + 3] = (v3 % 0x100) as u8;
    ctx.bytes[at + 4] = (v4 % 0x100) as u8;
    ctx.bytes[at + 5] = (v5 % 0x100) as u8;
    ctx.bytes[at + 6] = (v6 % 0x100) as u8;
    ctx.bytes[at + 7] = (v7 % 0x100) as u8;
    proof {
        reveal_with_fuel(le, 9);
        assert(le(ctx.bytes@, at as int, 8) == value);
        assert forall|j: int| 0 <= j < 20 && j != i implies #[trigger] context_word(*ctx, j)
            == context_word(*old(ctx), j) by {
            lemma_le_depends_on_its_bytes(ctx.bytes@, old(ctx).bytes@, 8 * j, 8);
        }
    }
}

/// Writes all words of a saved context.
pub fn write_words(ctx: &mut CpuContext<CONTEXT_BYTES>, words: &[u64; 20])
    ensures
        holds_words(*final(ctx), words@),
{
    let mut i: usize = 0;
    while i < 20
        invariant
            i <= 20,
            forall|j: int| 0 <= j < i ==> #[trigger] words@[j] == context_word(*ctx, j),
        decreases 20 - i,
    {
        let ghost before = *ctx;
        write_word(ctx, i, words[i]);
        proof {
            assert forall|j: int| 0 <= j < i + 1 implies #[trigger] words@[j] == context_word(
                *ctx,
                j,
            ) by {
                if j < i {
                    assert(context_word(*ctx, j) == context_word(before, j));
                }
            }
        }
        i = i + 1;
    }
}

} // verus!
