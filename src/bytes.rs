//! Little-endian integers read from byte sequences.

use vstd::prelude::*;

verus! {

/// The little-endian value of the two bytes of `s` at `at`.
pub open spec fn le_u16(s: Seq<u8>, at: int) -> int {
    s[at] + s[at + 1] * 256
}

/// The little-endian value of the four bytes of `s` at `at`.
pub open spec fn le_u32(s: Seq<u8>, at: int) -> int {
    s[at] + s[at + 1] * 256 + s[at + 2] * 65536 + s[at + 3] * 16777216
}

/// Reads the little-endian `u16` that starts at `at`.
pub fn read_u16_le(s: &[u8], at: usize) -> (r: u16)
    requires
        at + 2 <= s@.len(),
    ensures
        r == le_u16(s@, at as int),
{
    let lo = s[at] as u16;
    let hi = s[at + 1] as u16;
    lo + hi * 256
}

/// Reads the little-endian `u32` that starts at `at`.
pub fn read_u32_le(s: &[u8], at: usize) -> (r: u32)
    requires
        at + 4 <= s@.len(),
    ensures
        r == le_u32(s@, at as int),
{
    let b0 = s[at] as u32;
    let b1 = s[at + 1] as u32;
    let b2 = s[at + 2] as u32;
    let b3 = s[at + 3] as u32;
    b0 + b1 * 256 + b2 * 65536 + b3 * 16777216
}

} // verus!
