//! Facts about single bits and masks, shared by the register encodings.

use vstd::arithmetic::power2::{is_pow2, pow2};
use vstd::bits::low_bits_mask;
use vstd::prelude::*;

verus! {

/// Bit `n` of `x`.
pub open spec fn bit(x: u64, n: u64) -> bool {
    (x >> n) & 1 == 1
}

/// No bit of zero is set.
pub broadcast proof fn lemma_zero_has_no_bit(n: u64)
    ensures
        !#[trigger] bit(0, n),
{
    assert((0u64 >> n) & 1 == 0) by (bit_vector);
}

/// Setting bit `n` sets that bit and keeps every other.
pub proof fn lemma_set_bit(x: u64, n: u64)
    requires
        n < 64,
    ensures
        forall|k: u64| k < 64 ==> #[trigger] bit(x | (1u64 << n), k) == (k == n || bit(x, k)),
{
    assert forall|k: u64| k < 64 implies #[trigger] bit(x | (1u64 << n), k) == (k == n || bit(
        x,
        k,
    )) by {
        assert((((x | (1u64 << n)) >> k) & 1 == 1) == (k == n || ((x >> k) & 1 == 1)))
            by (bit_vector)
            requires
                k < 64,
                n < 64,
        ;
    }
}

/// Clearing bit `n` clears that bit and keeps every other.
pub proof fn lemma_clear_bit(x: u64, n: u64)
    requires
        n < 64,
    ensures
        forall|k: u64| k < 64 ==> #[trigger] bit(x & !(1u64 << n), k) == (k != n && bit(x, k)),
{
    assert forall|k: u64| k < 64 implies #[trigger] bit(x & !(1u64 << n), k) == (k != n && bit(
        x,
        k,
    )) by {
        assert((((x & !(1u64 << n)) >> k) & 1 == 1) == (k != n && ((x >> k) & 1 == 1)))
            by (bit_vector)
            requires
                k < 64,
                n < 64,
        ;
    }
}

/// Whether bit `n` of `x` is set.
pub fn test_bit(x: u64, n: u64) -> (r: bool)
    requires
        n < 64,
    ensures
        r == bit(x, n),
{
    (x >> n) & 1 == 1
}

/// A power of two that fits in a `usize` has its exponent below the word size.
proof fn lemma_exponent_in_word(align: usize) -> (n: nat)
    requires
        is_pow2(align as int),
    ensures
        n < usize::BITS,
        align == pow2(n),
{
    vstd::arithmetic::power2::is_pow2_equiv(align as int);
    let n = choose|i: nat| vstd::arithmetic::power::pow(2, i) == align as int;
    vstd::arithmetic::power2::lemma_pow2(n);
    vstd::arithmetic::power2::lemma2_to64();
    vstd::arithmetic::power2::lemma2_to64_rest();
    if n >= usize::BITS {
        if n > usize::BITS {
            vstd::arithmetic::power2::lemma_pow2_strictly_increases(usize::BITS as nat, n);
        }
        assert(pow2(n) >= pow2(usize::BITS as nat));
        assert(false);
    }
    n
}

/// Clearing the low bits below a power of two rounds down to a multiple of it.
pub proof fn lemma_mask_rounds_down(x: usize, align: usize)
    requires
        is_pow2(align as int),
    ensures
        align > 0,
        (x & !((align - 1) as usize)) == x - x % align,
{
    let n = lemma_exponent_in_word(align);
    vstd::arithmetic::power2::lemma_pow2_pos(n);
    vstd::bits::lemma_usize_low_bits_mask_is_mod(x, n);
    assert(low_bits_mask(n) == align - 1);
    let m = (align - 1) as usize;
    assert((x & !m) == x - (x & m)) by (bit_vector);
}

} // verus!
