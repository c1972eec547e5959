//! Little-endian readers for the raw snapshot buffer.
//!
//! The snapshot buffer delivered by the system query is a flat byte array;
//! every multi-byte field inside it is stored least-significant byte first.
//! These helpers decode such fields with bounds established by contract.

use vstd::prelude::*;

verus! {

/// The 16-bit value stored least-significant byte first at `off`.
pub open spec fn le_u16_at(b: Seq<u8>, off: int) -> u16 {
    (b[off] as int + b[off + 1] as int * 0x100) as u16
}

/// The 32-bit value stored least-significant byte first at `off`.
pub open spec fn le_u32_at(b: Seq<u8>, off: int) -> u32 {
    (b[off] as int
        + b[off + 1] as int * 0x100
        + b[off + 2] as int * 0x1_0000
        + b[off + 3] as int * 0x100_0000) as u32
}

/// The 64-bit value stored least-significant byte first at `off`.
pub open spec fn le_u64_at(b: Seq<u8>, off: int) -> u64 {
    (b[off] as int
        + b[off + 1] as int * 0x100
        + b[off + 2] as int * 0x1_0000
        + b[off + 3] as int * 0x100_0000
        + b[off + 4] as int * 0x1_0000_0000
        + b[off + 5] as int * 0x100_0000_0000
        + b[off + 6] as int * 0x1_0000_0000_0000
        + b[off + 7] as int * 0x100_0000_0000_0000) as u64
}

pub fn read_u16_at(b: &Vec<u8>, off: usize) -> (r: u16)
    requires
        off + 2 <= b.len(),
    ensures
        r == le_u16_at(b@, off as int),
{
    let b0 = b[off];
    let b1 = b[off + 1];
    (b0 as u16) + (b1 as u16) * 0x100
}

pub fn read_u32_at(b: &Vec<u8>, off: usize) -> (r: u32)
    requires
        off + 4 <= b.len(),
    ensures
        r == le_u32_at(b@, off as int),
{
    let b0 = b[off];
    let b1 = b[off + 1];
    let b2 = b[off + 2];
    let b3 = b[off + 3];
    (b0 as u32) + (b1 as u32) * 0x100 + (b2 as u32) * 0x1_0000 + (b3 as u32) * 0x100_0000
}

pub fn read_u64_at(b: &Vec<u8>, off: usize) -> (r: u64)
    requires
        off + 8 <= b.len(),
    ensures
        r == le_u64_at(b@, off as int),
{
    let b0 = b[off];
    let b1 = b[off + 1];
    let b2 = b[off + 2];
    let b3 = b[off + 3];
    let b4 = b[off + 4];
    let b5 = b[off + 5];
    let b6 = b[off + 6];
    let b7 = b[off + 7];
    (b0 as u64)
        + (b1 as u64) * 0x100
        + (b2 as u64) * 0x1_0000
        + (b3 as u64) * 0x100_0000
        + (b4 as u64) * 0x1_0000_0000
        + (b5 as u64) * 0x100_0000_0000
        + (b6 as u64) * 0x1_0000_0000_0000
        + (b7 as u64) * 0x100_0000_0000_0000
}

} // verus!
