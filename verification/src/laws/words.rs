//! Laws of bytes, words and single bits.

use vstd::prelude::*;

use crate::bits::bit;
use crate::bytes::{be, le};

verus! {

/// A little-endian number weighs each byte 256 times the one before it.
pub proof fn little_endian_bytes_add_up(s: Seq<u8>, at: int)
    ensures
        le(s, at, 1) == s[at],
        le(s, at, 2) == s[at] + 0x100 * s[at + 1],
        le(s, at, 4) == s[at] + 0x100 * s[at + 1] + 0x1_0000 * s[at + 2] + 0x100_0000 * s[at + 3],
        le(s, at, 8) == s[at] + 0x100 * s[at + 1] + 0x1_0000 * s[at + 2] + 0x100_0000 * s[at + 3]
            + 0x1_0000_0000 * s[at + 4] + 0x100_0000_0000 * s[at + 5] + 0x1_0000_0000_0000 * s[at
            + 6] + 0x100_0000_0000_0000 * s[at + 7],
{
    reveal_with_fuel(le, 9);
}

/// A big-endian number weighs each byte 256 times the one after it.
pub proof fn big_endian_bytes_add_up(s: Seq<u8>, at: int)
    ensures
        be(s, at, 4) == 0x100_0000 * s[at] + 0x1_0000 * s[at + 1] + 0x100 * s[at + 2] + s[at + 3],
        be(s, at, 8) == 0x100_0000_0000_0000 * s[at] + 0x1_0000_0000_0000 * s[at + 1]
            + 0x100_0000_0000 * s[at + 2] + 0x1_0000_0000 * s[at + 3] + 0x100_0000 * s[at + 4]
            + 0x1_0000 * s[at + 5] + 0x100 * s[at + 6] + s[at + 7],
{
    reveal_with_fuel(be, 9);
}

/// Bit `n` is the remainder by two of the quotient by the `n`th power of two.
pub proof fn bits_are_binary_digits(x: u64)
    ensures
        bit(x, 0) == (x % 2 == 1),
        forall|n: u64| #![trigger bit(x, n)] 0 < n < 64 ==> bit(x, n) == bit(x / 2, (n - 1) as u64),
        forall|n: u64| #![trigger bit(x, n)] n < 64 && x < (1u64 << n) ==> !bit(x, n),
{
    assert(((x >> 0u64) & 1 == 1) == (x % 2 == 1)) by (bit_vector);
    assert forall|n: u64| #![trigger bit(x, n)] 0 < n < 64 implies bit(x, n) == bit(
        x / 2,
        (n - 1) as u64,
    ) by {
        let m = (n - 1) as u64;
        assert((x >> n) & 1 == ((x / 2) >> m) & 1) by (bit_vector)
            requires
                0 < n < 64,
                m == n - 1,
        ;
    }
    assert forall|n: u64| #![trigger bit(x, n)] n < 64 && x < (1u64 << n) implies !bit(x, n) by {
        assert((x >> n) & 1 == 0) by (bit_vector)
            requires
                n < 64,
                x < (1u64 << n),
        ;
    }
}

/// The binary digits of a word that fits in 32 bits, in plain arithmetic.
pub proof fn digits_of_a_word(x: u32)
    ensures
        bit(x as u64, 2) == (x / 0x4 % 2 == 1),
        bit(x as u64, 5) == (x / 0x20 % 2 == 1),
        bit(x as u64, 8) == (x / 0x100 % 2 == 1),
        bit(x as u64, 13) == (x / 0x2000 % 2 == 1),
        bit(x as u64, 16) == (x / 0x1_0000 % 2 == 1),
        bit(x as u64, 21) == (x / 0x20_0000 % 2 == 1),
        bit(x as u64, 24) == (x / 0x100_0000 % 2 == 1),
        bit(x as u64, 25) == (x / 0x200_0000 % 2 == 1),
        bit(x as u64, 26) == (x / 0x400_0000 % 2 == 1),
        bit(x as u64, 28) == (x / 0x1000_0000 % 2 == 1),
        bit(x as u64, 29) == (x / 0x2000_0000 % 2 == 1),
        bit(x as u64, 31) == (x / 0x8000_0000 % 2 == 1),
{
    let y = x as u64;
    assert(((y >> 2u64) & 1 == 1) == (x / 0x4 % 2 == 1) && ((y >> 5u64) & 1 == 1) == (x / 0x20 % 2
        == 1) && ((y >> 8u64) & 1 == 1) == (x / 0x100 % 2 == 1) && ((y >> 13u64) & 1 == 1) == (x
        / 0x2000 % 2 == 1) && ((y >> 16u64) & 1 == 1) == (x / 0x1_0000 % 2 == 1) && ((y >> 21u64)
        & 1 == 1) == (x / 0x20_0000 % 2 == 1) && ((y >> 24u64) & 1 == 1) == (x / 0x100_0000 % 2
        == 1) && ((y >> 25u64) & 1 == 1) == (x / 0x200_0000 % 2 == 1) && ((y >> 26u64) & 1 == 1)
        == (x / 0x400_0000 % 2 == 1) && ((y >> 28u64) & 1 == 1) == (x / 0x1000_0000 % 2 == 1) && ((
    y >> 29u64) & 1 == 1) == (x / 0x2000_0000 % 2 == 1) && ((y >> 31u64) & 1 == 1) == (x
        / 0x8000_0000 % 2 == 1)) by (bit_vector)
        requires
            y == x as u64,
    ;
}

/// Adding the bits of a mask sets them and keeps every other bit; they are all there
/// already if nothing changes.
pub proof fn masks_add_their_bits(x: u64, mask: u64)
    ensures
        (x | mask) & mask == mask,
        (x | mask) & !mask == x & !mask,
        x & mask == mask <==> x | mask == x,
{
    assert((x | mask) & mask == mask && (x | mask) & !mask == x & !mask && ((x & mask == mask) == (x
        | mask == x))) by (bit_vector);
}

} // verus!
