//! Little-endian readings of a byte buffer, and the integer arithmetic the
//! decoder relies on: truncating division and two's-complement narrowing.

use vstd::prelude::*;

verus! {

/// The unsigned value of the two little-endian bytes at position `i`.
pub open spec fn le_u16(data: Seq<u8>, i: int) -> int {
    data[i] + 0x100 * data[i + 1]
}

/// The unsigned value of the four little-endian bytes at position `i`.
pub open spec fn le_u32(data: Seq<u8>, i: int) -> int {
    data[i] + 0x100 * data[i + 1] + 0x1_0000 * data[i + 2] + 0x100_0000 * data[i + 3]
}

/// The two's-complement signed value of the four little-endian bytes at `i`.
pub open spec fn le_i32(data: Seq<u8>, i: int) -> int {
    if le_u32(data, i) < 0x8000_0000 {
        le_u32(data, i)
    } else {
        le_u32(data, i) - 0x1_0000_0000
    }
}

/// Division truncating toward zero, as the machine's signed division does.
/// Meant for a positive divisor.
pub open spec fn div_trunc(a: int, b: int) -> int {
    if a >= 0 {
        a / b
    } else {
        -((-a) / b)
    }
}

/// Two's-complement narrowing of an integer to the signed 8-bit range.
pub open spec fn wrap_i8(v: int) -> int {
    if v % 0x100 < 0x80 {
        v % 0x100
    } else {
        v % 0x100 - 0x100
    }
}

/// Read the `length` bytes at the cursor and advance the cursor past them.
pub fn slurp_string<'a>(data: &'a [u8], offset: &mut usize, length: usize) -> (r: &'a [u8])
    requires
        *old(offset) + length <= data@.len(),
    ensures
        *final(offset) == *old(offset) + length,
        r@ == data@.subrange(*old(offset) as int, *old(offset) + length),
{
    let n = data.len();
    assert(*offset + length <= n);
    let r = &data[*offset..*offset + length];
    *offset = *offset + length;
    r
}

/// Read an unsigned little-endian 16-bit value and advance the cursor.
pub fn slurp_u16(data: &[u8], offset: &mut usize) -> (r: u16)
    requires
        *old(offset) + 2 <= data@.len(),
    ensures
        *final(offset) == *old(offset) + 2,
        r == le_u16(data@, *old(offset) as int),
{
    let b0 = data[*offset];
    let b1 = data[*offset + 1];
    *offset = *offset + 2;
    b0 as u16 + b1 as u16 * 0x100
}

/// Read an unsigned little-endian 32-bit value at `offset`, without a cursor.
pub fn read_u32(data: &[u8], offset: usize) -> (r: u32)
    requires
        offset + 4 <= data@.len(),
    ensures
        r == le_u32(data@, offset as int),
{
    let b0 = data[offset];
    let b1 = data[offset + 1];
    let b2 = data[offset + 2];
    let b3 = data[offset + 3];
    b0 as u32 + b1 as u32 * 0x100 + b2 as u32 * 0x1_0000 + b3 as u32 * 0x100_0000
}

/// Read a signed little-endian 32-bit value at `offset`, without a cursor.
pub fn read_i32(data: &[u8], offset: usize) -> (r: i32)
    requires
        offset + 4 <= data@.len(),
    ensures
        r == le_i32(data@, offset as int),
{
    let u = read_u32(data, offset);
    if u < 0x8000_0000 {
        u as i32
    } else {
        -((0xffff_ffffu32 - u) as i32) - 1
    }
}

/// Read an unsigned little-endian 32-bit value and advance the cursor.
pub fn slurp_u32(data: &[u8], offset: &mut usize) -> (r: u32)
    requires
        *old(offset) + 4 <= data@.len(),
    ensures
        *final(offset) == *old(offset) + 4,
        r == le_u32(data@, *old(offset) as int),
{
    let n = data.len();
    assert(*offset + 4 <= n);
    let r = read_u32(data, *offset);
    *offset = *offset + 4;
    r
}

/// Read a signed little-endian 32-bit value and advance the cursor.
pub fn slurp_i32(data: &[u8], offset: &mut usize) -> (r: i32)
    requires
        *old(offset) + 4 <= data@.len(),
    ensures
        *final(offset) == *old(offset) + 4,
        r == le_i32(data@, *old(offset) as int),
{
    let n = data.len();
    assert(*offset + 4 <= n);
    let r = read_i32(data, *offset);
    *offset = *offset + 4;
    r
}

/// Divide by a positive divisor, truncating toward zero as the camera's
/// firmware does for its scaled fields.
pub fn div_trunc_i32(a: i32, b: i32) -> (r: i32)
    requires
        b > 0,
    ensures
        r == div_trunc(a as int, b as int),
{
    let q = match a.checked_div(b) {
        Some(q) => q,
        None => 0,
    };
    q
}

/// Narrow to a signed byte, keeping the low 8 bits exactly as an
/// unchecked narrowing cast would.
pub fn narrow_i8(v: i32) -> (r: i8)
    ensures
        r == wrap_i8(v as int),
{
    let m = match v.checked_rem_euclid(0x100) {
        Some(m) => m,
        None => 0,
    };
    if m < 0x80 {
        m as i8
    } else {
        (m - 0x100) as i8
    }
}

} // verus!
