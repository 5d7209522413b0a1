//! Little-endian field readers over raw table bytes.
//!
//! Firmware tables are packed structures: multi-byte fields sit at
//! arbitrary byte offsets, so every access copies the field out byte by
//! byte instead of overlaying a struct on the buffer.

use vstd::prelude::*;

verus! {

/// The little-endian 16-bit value stored at byte offset `off`.
pub open spec fn le16_at(s: Seq<u8>, off: int) -> u16 {
    (s[off] + s[off + 1] * 0x100) as u16
}

/// The little-endian 32-bit value stored at byte offset `off`.
pub open spec fn le32_at(s: Seq<u8>, off: int) -> u32 {
    (s[off] + s[off + 1] * 0x100 + s[off + 2] * 0x1_0000 + s[off + 3] * 0x100_0000) as u32
}

/// The little-endian 64-bit value stored at byte offset `off`.
pub open spec fn le64_at(s: Seq<u8>, off: int) -> u64 {
    (le32_at(s, off) + le32_at(s, off + 4) * 0x1_0000_0000) as u64
}

/// Copies the byte at offset `off` out of the buffer.
pub fn read_u8(bytes: &Vec<u8>, off: usize) -> (r: u8)
    requires
        off < bytes@.len(),
    ensures
        r == bytes@[off as int],
{
    bytes[off]
}

/// Reads the little-endian 16-bit field at byte offset `off`.
pub fn read_u16(bytes: &Vec<u8>, off: usize) -> (r: u16)
    requires
        off + 2 <= bytes@.len(),
    ensures
        r == le16_at(bytes@, off as int),
{
    assert(off + 2 <= bytes.len());
    let b0 = bytes[off] as u16;
    let b1 = bytes[off + 1] as u16;
    b0 + b1 * 0x100
}

/// Reads the little-endian 32-bit field at byte offset `off`.
pub fn read_u32(bytes: &Vec<u8>, off: usize) -> (r: u32)
    requires
        off + 4 <= bytes@.len(),
    ensures
        r == le32_at(bytes@, off as int),
{
    assert(off + 4 <= bytes.len());
    let b0 = bytes[off] as u32;
    let b1 = bytes[off + 1] as u32;
    let b2 = bytes[off + 2] as u32;
    let b3 = bytes[off + 3] as u32;
    b0 + b1 * 0x100 + b2 * 0x1_0000 + b3 * 0x100_0000
}

/// Reads the little-endian 64-bit field at byte offset `off`.
pub fn read_u64(bytes: &Vec<u8>, off: usize) -> (r: u64)
    requires
        off + 8 <= bytes@.len(),
    ensures
        r == le64_at(bytes@, off as int),
{
    assert(off + 8 <= bytes.len());
    let lo = read_u32(bytes, off) as u64;
    let hi = read_u32(bytes, off + 4) as u64;
    lo + hi * 0x1_0000_0000
}

} // verus!
