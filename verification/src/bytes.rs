//! Fixed-width integers as they lie in a byte sequence.

use vstd::prelude::*;

verus! {

/// The unsigned 16-bit integer stored little-endian at `at`.
pub open spec fn le_u16(b: Seq<u8>, at: int) -> int {
    b[at] + 0x100 * b[at + 1]
}

/// The unsigned 32-bit integer stored little-endian at `at`.
pub open spec fn le_u32(b: Seq<u8>, at: int) -> int {
    b[at] + 0x100 * b[at + 1] + 0x1_0000 * b[at + 2] + 0x100_0000 * b[at + 3]
}

/// The unsigned 16-bit integer stored big-endian at `at`.
pub open spec fn be_u16(b: Seq<u8>, at: int) -> int {
    0x100 * b[at] + b[at + 1]
}

/// The signed 16-bit integer stored big-endian (two's complement) at `at`.
pub open spec fn be_i16(b: Seq<u8>, at: int) -> int {
    if be_u16(b, at) >= 0x8000 {
        be_u16(b, at) - 0x1_0000
    } else {
        be_u16(b, at)
    }
}

/// The unsigned 32-bit integer stored big-endian at `at`.
pub open spec fn be_u32(b: Seq<u8>, at: int) -> int {
    0x100_0000 * b[at] + 0x1_0000 * b[at + 1] + 0x100 * b[at + 2] + b[at + 3]
}

/// Reads the little-endian `u16` at `at`.
pub fn read_le_u16(bytes: &[u8], at: usize) -> (r: u16)
    requires
        at + 2 <= bytes@.len(),
    ensures
        r == le_u16(bytes@, at as int),
{
    let b0: u16 = bytes[at] as u16;
    let b1: u16 = bytes[at + 1] as u16;
    b0 + 0x100 * b1
}

/// Reads the little-endian `u32` at `at`.
pub fn read_le_u32(bytes: &[u8], at: usize) -> (r: u32)
    requires
        at + 4 <= bytes@.len(),
    ensures
        r == le_u32(bytes@, at as int),
{
    let b0: u32 = bytes[at] as u32;
    let b1: u32 = bytes[at + 1] as u32;
    let b2: u32 = bytes[at + 2] as u32;
    let b3: u32 = bytes[at + 3] as u32;
    b0 + 0x100 * b1 + 0x1_0000 * b2 + 0x100_0000 * b3
}

/// Reads the big-endian `u16` at `at`.
pub fn read_be_u16(bytes: &[u8], at: usize) -> (r: u16)
    requires
        at + 2 <= bytes@.len(),
    ensures
        r == be_u16(bytes@, at as int),
{
    let b0: u16 = bytes[at] as u16;
    let b1: u16 = bytes[at + 1] as u16;
    0x100 * b0 + b1
}

/// Reads the big-endian `i16` at `at`.
pub fn read_be_i16(bytes: &[u8], at: usize) -> (r: i16)
    requires
        at + 2 <= bytes@.len(),
    ensures
        r == be_i16(bytes@, at as int),
{
    let u: u16 = read_be_u16(bytes, at);
    if u >= 0x8000 {
        let low: i16 = (u - 0x8000) as i16;
        low - 0x4000 - 0x4000
    } else {
        u as i16
    }
}

/// Reads the big-endian `u32` at `at`.
pub fn read_be_u32(bytes: &[u8], at: usize) -> (r: u32)
    requires
        at + 4 <= bytes@.len(),
    ensures
        r == be_u32(bytes@, at as int),
{
    let b0: u32 = bytes[at] as u32;
    let b1: u32 = bytes[at + 1] as u32;
    let b2: u32 = bytes[at + 2] as u32;
    let b3: u32 = bytes[at + 3] as u32;
    0x100_0000 * b0 + 0x1_0000 * b1 + 0x100 * b2 + b3
}

} // verus!
