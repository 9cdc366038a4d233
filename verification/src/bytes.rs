//! Bounds-checked little-endian field readers over an immutable byte buffer.
//!
//! Every fixed-layout record in the format is decoded field by field through
//! these functions; no byte span is ever reinterpreted as a typed array.

use vstd::prelude::*;

verus! {

/// The little-endian 16-bit value stored at byte position `i`.
pub open spec fn le_u16(s: Seq<u8>, i: int) -> u16 {
    (s[i] + s[i + 1] * 0x100) as u16
}

/// The little-endian 32-bit value stored at byte position `i`.
pub open spec fn le_u32(s: Seq<u8>, i: int) -> u32 {
    (s[i] + s[i + 1] * 0x100 + s[i + 2] * 0x1_0000 + s[i + 3] * 0x100_0000) as u32
}

/// Reads the byte at position `pos`.
pub fn read_u8(data: &Vec<u8>, pos: usize) -> (r: u8)
    requires
        pos < data@.len(),
    ensures
        r == data@[pos as int],
{
    data[pos]
}

/// Reads a little-endian 16-bit value at position `pos`.
pub fn read_u16(data: &Vec<u8>, pos: usize) -> (r: u16)
    requires
        pos + 2 <= data@.len(),
    ensures
        r == le_u16(data@, pos as int),
{
    let n = data.len();
    let b0 = data[pos] as u16;
    let b1 = data[pos + 1] as u16;
    b0 + b1 * 0x100
}

/// Reads a little-endian 32-bit value at position `pos`.
pub fn read_u32(data: &Vec<u8>, pos: usize) -> (r: u32)
    requires
        pos + 4 <= data@.len(),
    ensures
        r == le_u32(data@, pos as int),
{
    let n = data.len();
    let b0 = data[pos] as u32;
    let b1 = data[pos + 1] as u32;
    let b2 = data[pos + 2] as u32;
    let b3 = data[pos + 3] as u32;
    b0 + b1 * 0x100 + b2 * 0x1_0000 + b3 * 0x100_0000
}

/// Copies the bytes of `data` between `start` and `end` into a fresh buffer.
pub fn take_bytes(data: &Vec<u8>, start: usize, end: usize) -> (r: Vec<u8>)
    requires
        start <= end <= data@.len(),
    ensures
        r@ == data@.subrange(start as int, end as int),
{
    let mut out: Vec<u8> = Vec::new();
    let mut i: usize = start;
    while i < end
        invariant
            start <= i <= end <= data@.len(),
            out@ == data@.subrange(start as int, i as int),
        decreases end - i,
    {
        out.push(data[i]);
        assert(out@ =~= data@.subrange(start as int, i + 1));
        i = i + 1;
    }
    out
}

/// Addition of two 32-bit values modulo 2^32.
pub open spec fn wrap_add(a: u32, b: u32) -> u32 {
    if a + b > u32::MAX {
        (a + b - 0x1_0000_0000) as u32
    } else {
        (a + b) as u32
    }
}

/// Subtraction of two 32-bit values modulo 2^32.
pub open spec fn wrap_sub(a: u32, b: u32) -> u32 {
    if a >= b {
        (a - b) as u32
    } else {
        (a - b + 0x1_0000_0000) as u32
    }
}

/// A 32-bit base advanced by a signed delta in two's-complement arithmetic,
/// wrapping modulo 2^32.
pub open spec fn shift_signed(base: u32, delta: int) -> u32 {
    if base + delta > u32::MAX {
        (base + delta - 0x1_0000_0000) as u32
    } else if base + delta < 0 {
        (base + delta + 0x1_0000_0000) as u32
    } else {
        (base + delta) as u32
    }
}

/// Advances `base` by the signed `delta`, wrapping modulo 2^32 exactly as
/// two's-complement arithmetic does.
pub fn shift_signed_u32(base: u32, delta: i32) -> (r: u32)
    ensures
        r == shift_signed(base, delta as int),
{
    if delta >= 0 {
        let d = delta as u32;
        if base <= u32::MAX - d {
            base + d
        } else {
            let r = base - (u32::MAX - d) - 1;
            assert(r == shift_signed(base, delta as int));
            r
        }
    } else {
        let mag: u32 = if delta == i32::MIN {
            0x8000_0000
        } else {
            (-delta) as u32
        };
        if base >= mag {
            base - mag
        } else {
            let r = base + (u32::MAX - mag) + 1;
            assert(r == shift_signed(base, delta as int));
            r
        }
    }
}

/// Adds two 32-bit values, wrapping modulo 2^32.
pub fn wrap_add_u32(a: u32, b: u32) -> (r: u32)
    ensures
        r == wrap_add(a, b),
{
    if a <= u32::MAX - b {
        a + b
    } else {
        a - (u32::MAX - b) - 1
    }
}

/// Subtracts two 32-bit values, wrapping modulo 2^32.
pub fn wrap_sub_u32(a: u32, b: u32) -> (r: u32)
    ensures
        r == wrap_sub(a, b),
{
    if a >= b {
        a - b
    } else {
        a + (u32::MAX - b) + 1
    }
}

/// The next multiple of four at or after `pos`.
pub open spec fn align4(pos: int) -> int {
    if pos % 4 == 0 {
        pos
    } else {
        pos + (4 - pos % 4)
    }
}

} // verus!
