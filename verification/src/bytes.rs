//! Integers laid out as bytes.

use vstd::prelude::*;

verus! {

/// The little-endian number in the `n` bytes of `s` from `at`.
pub open spec fn le(s: Seq<u8>, at: int, n: nat) -> nat
    decreases n,
{
    if n == 0 {
        0
    } else {
        s[at] as nat + 256 * le(s, at + 1, (n - 1) as nat)
    }
}

/// The big-endian number in the `n` bytes of `s` from `at`.
pub open spec fn be(s: Seq<u8>, at: int, n: nat) -> nat
    decreases n,
{
    if n == 0 {
        0
    } else {
        256 * be(s, at, (n - 1) as nat) + s[at + n - 1] as nat
    }
}

/// Reads a little-endian `u32`.
pub fn read_u32_le(bytes: &[u8], at: usize) -> (r: u32)
    requires
        at + 4 <= bytes.len(),
    ensures
        r == le(bytes@, at as int, 4),
{
    proof {
        reveal_with_fuel(le, 5);
    }
    bytes[at] as u32 + 0x100 * bytes[at + 1] as u32 + 0x1_0000 * bytes[at + 2] as u32 + 0x100_0000
        * bytes[at + 3] as u32
}

/// Reads a little-endian `u64`.
pub fn read_u64_le(bytes: &[u8], at: usize) -> (r: u64)
    requires
        at + 8 <= bytes.len(),
    ensures
        r == le(bytes@, at as int, 8),
{
    let low: u32 = read_u32_le(bytes, at);
    let high: u32 = read_u32_le(bytes, at + 4);
    proof {
        reveal_with_fuel(le, 9);
    }
    low as u64 + 0x1_0000_0000 * high as u64
}

/// Reads a big-endian `u32`.
pub fn read_u32_be(bytes: &[u8], at: usize) -> (r: u32)
    requires
        at + 4 <= bytes.len(),
    ensures
        r == be(bytes@, at as int, 4),
{
    proof {
        reveal_with_fuel(be, 5);
    }
    bytes[at + 3] as u32 + 0x100 * bytes[at + 2] as u32 + 0x1_0000 * bytes[at + 1] as u32
        + 0x100_0000 * bytes[at] as u32
}

/// Reads a big-endian `u64`.
pub fn read_u64_be(bytes: &[u8], at: usize) -> (r: u64)
    requires
        at + 8 <= bytes.len(),
    ensures
        r == be(bytes@, at as int, 8),
{
    let high: u32 = read_u32_be(bytes, at);
    let low: u32 = read_u32_be(bytes, at + 4);
    proof {
        reveal_with_fuel(be, 9);
    }
    low as u64 + 0x1_0000_0000 * high as u64
}

} // verus!
