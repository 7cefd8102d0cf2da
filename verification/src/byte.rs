//! Big-endian integer extraction over byte slices.
//!
//! Stack files store every multibyte integer big-endian.  The `*_from_u8`
//! and `*_from_i8` readers decode a value from the front of a slice; the
//! `read_*_at` readers decode at an offset and fail with
//! [`StackError::OutOfBounds`] when the slice is shorter than required.

use vstd::prelude::*;

use crate::error::StackError;

verus! {

/// The unsigned big-endian value of the two bytes of `s` at `i`.
pub open spec fn be_u16_at(s: Seq<u8>, i: int) -> int {
    (s[i] as int) * 0x100 + (s[i + 1] as int)
}

/// The unsigned big-endian value of the three bytes of `s` at `i`.
pub open spec fn be_u24_at(s: Seq<u8>, i: int) -> int {
    (s[i] as int) * 0x10000 + (s[i + 1] as int) * 0x100 + (s[i + 2] as int)
}

/// The unsigned big-endian value of the four bytes of `s` at `i`.
pub open spec fn be_u32_at(s: Seq<u8>, i: int) -> int {
    (s[i] as int) * 0x1000000 + (s[i + 1] as int) * 0x10000 + (s[i + 2] as int) * 0x100 + (s[i
        + 3] as int)
}

/// The unsigned big-endian value of the eight bytes of `s` at `i`.
pub open spec fn be_u64_at(s: Seq<u8>, i: int) -> int {
    be_u32_at(s, i) * 0x100000000 + be_u32_at(s, i + 4)
}

/// The two's-complement value of the two bytes of `s` at `i`.
pub open spec fn be_i16_at(s: Seq<u8>, i: int) -> int {
    if be_u16_at(s, i) >= 0x8000 {
        be_u16_at(s, i) - 0x10000
    } else {
        be_u16_at(s, i)
    }
}

/// The two's-complement value of the four bytes of `s` at `i`.
pub open spec fn be_i32_at(s: Seq<u8>, i: int) -> int {
    if be_u32_at(s, i) >= 0x80000000 {
        be_u32_at(s, i) - 0x100000000
    } else {
        be_u32_at(s, i)
    }
}

/// The two's-complement value of the eight bytes of `s` at `i`.
pub open spec fn be_i64_at(s: Seq<u8>, i: int) -> int {
    if be_u64_at(s, i) >= 0x8000000000000000 {
        be_u64_at(s, i) - 0x10000000000000000
    } else {
        be_u64_at(s, i)
    }
}

/// The two's-complement value of the three bytes of `s` at `i`, sign-extended
/// from bit 23.
pub open spec fn be_i24_at(s: Seq<u8>, i: int) -> int {
    if be_u24_at(s, i) >= 0x800000 {
        be_u24_at(s, i) - 0x1000000
    } else {
        be_u24_at(s, i)
    }
}

/// The unsigned byte that an `i8` stores.
pub open spec fn byte_of_i8(x: i8) -> u8 {
    if x < 0 {
        (x + 0x100) as u8
    } else {
        x as u8
    }
}

/// The bytes that a sequence of `i8` stores.
pub open spec fn bytes_of_i8s(s: Seq<i8>) -> Seq<u8> {
    Seq::new(s.len(), |k: int| byte_of_i8(s[k]))
}

/// Reinterprets one signed byte as the unsigned byte it stores.
pub fn i8_to_byte(x: i8) -> (r: u8)
    ensures
        r == byte_of_i8(x),
{
    if x >= 0 {
        x as u8
    } else {
        ((x as i16) + 0x100) as u8
    }
}

/// Reads a `u16` from the first two bytes of `b`.
pub fn u16_from_u8(b: &[u8]) -> (r: u16)
    requires
        b@.len() >= 2,
    ensures
        r as int == be_u16_at(b@, 0),
{
    (b[0] as u16) * 0x100 + (b[1] as u16)
}

/// Reads the three bytes at the front of `b` into the low 24 bits of a `u32`.
pub fn u24_from_u8(b: &[u8]) -> (r: u32)
    requires
        b@.len() >= 3,
    ensures
        r as int == be_u24_at(b@, 0),
{
    (b[0] as u32) * 0x10000 + (b[1] as u32) * 0x100 + (b[2] as u32)
}

/// Reads a `u32` from the first four bytes of `b`.
pub fn u32_from_u8(b: &[u8]) -> (r: u32)
    requires
        b@.len() >= 4,
    ensures
        r as int == be_u32_at(b@, 0),
{
    (b[0] as u32) * 0x1000000 + (b[1] as u32) * 0x10000 + (b[2] as u32) * 0x100 + (b[3] as u32)
}

/// Reads a `u64` from the first eight bytes of `b`.
pub fn u64_from_u8(b: &[u8]) -> (r: u64)
    requires
        b@.len() >= 8,
    ensures
        r as int == be_u64_at(b@, 0),
{
    (b[0] as u64) * 0x100000000000000 + (b[1] as u64) * 0x1000000000000 + (b[2] as u64)
        * 0x10000000000 + (b[3] as u64) * 0x100000000 + (b[4] as u64) * 0x1000000 + (b[5] as u64)
        * 0x10000 + (b[6] as u64) * 0x100 + (b[7] as u64)
}

/// Reads a big-endian two's-complement `i16` from the first two bytes of `b`.
pub fn i16_from_u8(b: &[u8]) -> (r: i16)
    requires
        b@.len() >= 2,
    ensures
        r as int == be_i16_at(b@, 0),
{
    let v = u16_from_u8(b);
    if v >= 0x8000 {
        ((v as i32) - 0x10000) as i16
    } else {
        v as i16
    }
}

/// Reads a big-endian two's-complement `i32` from the first four bytes of `b`.
pub fn i32_from_u8(b: &[u8]) -> (r: i32)
    requires
        b@.len() >= 4,
    ensures
        r as int == be_i32_at(b@, 0),
{
    let v = u32_from_u8(b);
    if v >= 0x80000000 {
        ((v as i64) - 0x100000000) as i32
    } else {
        v as i32
    }
}

/// Reads a big-endian two's-complement `i64` from the first eight bytes of `b`.
pub fn i64_from_u8(b: &[u8]) -> (r: i64)
    requires
        b@.len() >= 8,
    ensures
        r as int == be_i64_at(b@, 0),
{
    let v = u64_from_u8(b);
    if v >= 0x8000000000000000 {
        (v - 0x8000000000000000) as i64 + (-0x7FFFFFFFFFFFFFFF) - 1
    } else {
        v as i64
    }
}

/// Reads a big-endian two's-complement 24-bit value, sign-extended to `i32`,
/// from the first three signed bytes of `b`.
pub fn i24_from_u8(b: &[i8]) -> (r: i32)
    requires
        b@.len() >= 3,
    ensures
        r as int == be_i24_at(bytes_of_i8s(b@), 0),
{
    let v = (i8_to_byte(b[0]) as u32) * 0x10000 + (i8_to_byte(b[1]) as u32) * 0x100 + (i8_to_byte(
        b[2],
    ) as u32);
    if v >= 0x800000 {
        ((v as i32) - 0x1000000) as i32
    } else {
        v as i32
    }
}

/// Reads a big-endian two's-complement `i16` from the first two signed bytes
/// of `b`.
pub fn i16_from_i8(b: &[i8]) -> (r: i16)
    requires
        b@.len() >= 2,
    ensures
        r as int == be_i16_at(bytes_of_i8s(b@), 0),
{
    let v = (i8_to_byte(b[0]) as u16) * 0x100 + (i8_to_byte(b[1]) as u16);
    if v >= 0x8000 {
        ((v as i32) - 0x10000) as i16
    } else {
        v as i16
    }
}

/// Reads a big-endian two's-complement 24-bit value, sign-extended to `i32`,
/// from the first three signed bytes of `b`.
pub fn i24_from_i8(b: &[i8]) -> (r: i32)
    requires
        b@.len() >= 3,
    ensures
        r as int == be_i24_at(bytes_of_i8s(b@), 0),
{
    i24_from_u8(b)
}

/// Reads a big-endian two's-complement `i32` from the first four signed bytes
/// of `b`.
pub fn i32_from_i8(b: &[i8]) -> (r: i32)
    requires
        b@.len() >= 4,
    ensures
        r as int == be_i32_at(bytes_of_i8s(b@), 0),
{
    let v = (i8_to_byte(b[0]) as u32) * 0x1000000 + (i8_to_byte(b[1]) as u32) * 0x10000 + (
    i8_to_byte(b[2]) as u32) * 0x100 + (i8_to_byte(b[3]) as u32);
    if v >= 0x80000000 {
        ((v as i64) - 0x100000000) as i32
    } else {
        v as i32
    }
}

/// Reads a big-endian two's-complement `i64` from the first eight signed
/// bytes of `b`.
pub fn i64_from_i8(b: &[i8]) -> (r: i64)
    requires
        b@.len() >= 8,
    ensures
        r as int == be_i64_at(bytes_of_i8s(b@), 0),
{
    let v = (i8_to_byte(b[0]) as u64) * 0x100000000000000 + (i8_to_byte(b[1]) as u64)
        * 0x1000000000000 + (i8_to_byte(b[2]) as u64) * 0x10000000000 + (i8_to_byte(b[3]) as u64)
        * 0x100000000 + (i8_to_byte(b[4]) as u64) * 0x1000000 + (i8_to_byte(b[5]) as u64) * 0x10000
        + (i8_to_byte(b[6]) as u64) * 0x100 + (i8_to_byte(b[7]) as u64);
    if v >= 0x8000000000000000 {
        (v - 0x8000000000000000) as i64 + (-0x7FFFFFFFFFFFFFFF) - 1
    } else {
        v as i64
    }
}

/// The bits of one byte in reverse order.
pub open spec fn reversed_bits(x: u8) -> u8 {
    (((x & 0x01) << 7) | ((x & 0x02) << 5) | ((x & 0x04) << 3) | ((x & 0x08) << 1) | ((x & 0x10)
        >> 1) | ((x & 0x20) >> 3) | ((x & 0x40) >> 5) | ((x & 0x80) >> 7)) as u8
}

/// Reverses the bit order of every byte of `b`.
pub fn convert_u8_array_big_to_little(b: &[u8]) -> (r: Vec<u8>)
    ensures
        r@.len() == b@.len(),
        forall|k: int| 0 <= k < b@.len() ==> r@[k] == reversed_bits(b@[k]),
{
    let mut fb: Vec<u8> = Vec::new();
    let mut i: usize = 0;
    while i < b.len()
        invariant
            i <= b@.len(),
            fb@.len() == i,
            forall|k: int| 0 <= k < i ==> fb@[k] == reversed_bits(b@[k]),
        decreases b@.len() - i,
    {
        let x = b[i];
        let rev = ((x & 0x01) << 7u8) | ((x & 0x02) << 5u8) | ((x & 0x04) << 3u8) | ((x & 0x08)
            << 1u8) | ((x & 0x10) >> 1u8) | ((x & 0x20) >> 3u8) | ((x & 0x40) >> 5u8) | ((x & 0x80)
            >> 7u8);
        fb.push(rev);
        i = i + 1;
    }
    fb
}

/// The byte swap of a 16-bit value.
pub open spec fn swapped_u16(u: u16) -> int {
    (u as int) % 0x100 * 0x100 + (u as int) / 0x100
}

/// Converts a host-order `u16` to file order by swapping its bytes.
pub fn htons(u: u16) -> (r: u16)
    ensures
        r as int == swapped_u16(u),
{
    (u % 0x100) * 0x100 + u / 0x100
}

/// Converts a file-order `u16` to host order by swapping its bytes.
pub fn ntohs(u: u16) -> (r: u16)
    ensures
        r as int == swapped_u16(u),
{
    (u % 0x100) * 0x100 + u / 0x100
}

/// The smaller of two sizes.
pub fn min(a: usize, b: usize) -> (r: usize)
    ensures
        r == if a < b {
            a as int
        } else {
            b as int
        },
{
    if a < b {
        a
    } else {
        b
    }
}

/// Reads one byte of `b` at `off`, or fails with `OutOfBounds`.
pub fn read_u8_at(b: &[u8], off: usize) -> (r: Result<u8, StackError>)
    ensures
        off < b@.len() ==> r == Ok::<u8, StackError>(b@[off as int]),
        off >= b@.len() ==> r == Err::<u8, StackError>(StackError::OutOfBounds),
{
    if off < b.len() {
        Ok(b[off])
    } else {
        Err(StackError::OutOfBounds)
    }
}

/// Reads a big-endian `u16` of `b` at `off`, or fails with `OutOfBounds`.
pub fn read_u16_at(b: &[u8], off: usize) -> (r: Result<u16, StackError>)
    ensures
        off + 2 <= b@.len() ==> (r matches Ok(v) && v as int == be_u16_at(b@, off as int)),
        off + 2 > b@.len() ==> r == Err::<u16, StackError>(StackError::OutOfBounds),
{
    if off < b.len() && 2 <= b.len() - off {
        Ok((b[off] as u16) * 0x100 + (b[off + 1] as u16))
    } else {
        Err(StackError::OutOfBounds)
    }
}

/// Reads a big-endian `u24` of `b` at `off`, or fails with `OutOfBounds`.
pub fn read_u24_at(b: &[u8], off: usize) -> (r: Result<u32, StackError>)
    ensures
        off + 3 <= b@.len() ==> (r matches Ok(v) && v as int == be_u24_at(b@, off as int)),
        off + 3 > b@.len() ==> r == Err::<u32, StackError>(StackError::OutOfBounds),
{
    if off < b.len() && 3 <= b.len() - off {
        Ok((b[off] as u32) * 0x10000 + (b[off + 1] as u32) * 0x100 + (b[off + 2] as u32))
    } else {
        Err(StackError::OutOfBounds)
    }
}

/// Reads a big-endian `u32` of `b` at `off`, or fails with `OutOfBounds`.
pub fn read_u32_at(b: &[u8], off: usize) -> (r: Result<u32, StackError>)
    ensures
        off + 4 <= b@.len() ==> (r matches Ok(v) && v as int == be_u32_at(b@, off as int)),
        off + 4 > b@.len() ==> r == Err::<u32, StackError>(StackError::OutOfBounds),
{
    if off < b.len() && 4 <= b.len() - off {
        Ok(
            (b[off] as u32) * 0x1000000 + (b[off + 1] as u32) * 0x10000 + (b[off + 2] as u32)
                * 0x100 + (b[off + 3] as u32),
        )
    } else {
        Err(StackError::OutOfBounds)
    }
}

/// Reads a big-endian `i16` of `b` at `off`, or fails with `OutOfBounds`.
pub fn read_i16_at(b: &[u8], off: usize) -> (r: Result<i16, StackError>)
    ensures
        off + 2 <= b@.len() ==> (r matches Ok(v) && v as int == be_i16_at(b@, off as int)),
        off + 2 > b@.len() ==> r == Err::<i16, StackError>(StackError::OutOfBounds),
{
    if off < b.len() && 2 <= b.len() - off {
        let v = (b[off] as u16) * 0x100 + (b[off + 1] as u16);
        if v >= 0x8000 {
            Ok(((v as i32) - 0x10000) as i16)
        } else {
            Ok(v as i16)
        }
    } else {
        Err(StackError::OutOfBounds)
    }
}

/// The big-endian bytes of a `u16`.
pub open spec fn be_bytes_u16(x: u16) -> Seq<u8> {
    seq![(x as int / 0x100) as u8, (x as int % 0x100) as u8]
}

/// The big-endian bytes of the low 24 bits of a `u32`.
pub open spec fn be_bytes_u24(x: u32) -> Seq<u8> {
    seq![
        (x as int / 0x10000 % 0x100) as u8,
        (x as int / 0x100 % 0x100) as u8,
        (x as int % 0x100) as u8,
    ]
}

/// The big-endian bytes of a `u32`.
pub open spec fn be_bytes_u32(x: u32) -> Seq<u8> {
    seq![
        (x as int / 0x1000000) as u8,
        (x as int / 0x10000 % 0x100) as u8,
        (x as int / 0x100 % 0x100) as u8,
        (x as int % 0x100) as u8,
    ]
}

/// The big-endian bytes of a `u64`.
pub open spec fn be_bytes_u64(x: u64) -> Seq<u8> {
    be_bytes_u32((x as int / 0x100000000) as u32) + be_bytes_u32((x as int % 0x100000000) as u32)
}

/// Writes a `u16` as its two big-endian bytes.
pub fn u16_to_u8(x: u16) -> (r: Vec<u8>)
    ensures
        r@ == be_bytes_u16(x),
{
    let mut r: Vec<u8> = Vec::new();
    r.push((x / 0x100) as u8);
    r.push((x % 0x100) as u8);
    proof {
        assert(r@ =~= be_bytes_u16(x));
    }
    r
}

/// Writes the low 24 bits of a `u32` as three big-endian bytes.
pub fn u24_to_u8(x: u32) -> (r: Vec<u8>)
    ensures
        r@ == be_bytes_u24(x),
{
    let mut r: Vec<u8> = Vec::new();
    r.push((x / 0x10000 % 0x100) as u8);
    r.push((x / 0x100 % 0x100) as u8);
    r.push((x % 0x100) as u8);
    proof {
        assert(r@ =~= be_bytes_u24(x));
    }
    r
}

/// Writes a `u32` as its four big-endian bytes.
pub fn u32_to_u8(x: u32) -> (r: Vec<u8>)
    ensures
        r@ == be_bytes_u32(x),
{
    let mut r: Vec<u8> = Vec::new();
    r.push((x / 0x1000000) as u8);
    r.push((x / 0x10000 % 0x100) as u8);
    r.push((x / 0x100 % 0x100) as u8);
    r.push((x % 0x100) as u8);
    proof {
        assert(r@ =~= be_bytes_u32(x));
    }
    r
}

/// Writes a `u64` as its eight big-endian bytes.
pub fn u64_to_u8(x: u64) -> (r: Vec<u8>)
    ensures
        r@ == be_bytes_u64(x),
{
    proof {
        assert(x as int / 0x100000000 < 0x100000000) by (nonlinear_arith);
    }
    let hi = (x / 0x100000000) as u32;
    let lo = (x % 0x100000000) as u32;
    let mut r = u32_to_u8(hi);
    let mut low = u32_to_u8(lo);
    r.append(&mut low);
    proof {
        assert(r@ =~= be_bytes_u64(x));
    }
    r
}

/// Law: reading back the big-endian bytes of a `u16` returns the value.
pub proof fn lemma_u16_round_trip(x: u16)
    ensures
        be_u16_at(be_bytes_u16(x), 0) == x as int,
{
    assert((x as int / 0x100) * 0x100 + x as int % 0x100 == x as int) by (nonlinear_arith);
}

/// Law: reading back the three big-endian bytes of a `u32` returns the
/// value masked to its low 24 bits.
pub proof fn lemma_u24_round_trip(x: u32)
    ensures
        be_u24_at(be_bytes_u24(x), 0) == x as int % 0x1000000,
{
    assert((x as int / 0x10000 % 0x100) * 0x10000 + (x as int / 0x100 % 0x100) * 0x100 + x as int
        % 0x100 == x as int % 0x1000000) by (nonlinear_arith);
}

/// Law: reading back the big-endian bytes of a `u32` returns the value.
pub proof fn lemma_u32_round_trip(x: u32)
    ensures
        be_u32_at(be_bytes_u32(x), 0) == x as int,
{
    assert((x as int / 0x1000000) * 0x1000000 + (x as int / 0x10000 % 0x100) * 0x10000 + (x as int
        / 0x100 % 0x100) * 0x100 + x as int % 0x100 == x as int) by (nonlinear_arith);
}

/// Law: reading back the big-endian bytes of a `u64` returns the value.
pub proof fn lemma_u64_round_trip(x: u64)
    ensures
        be_u64_at(be_bytes_u64(x), 0) == x as int,
{
    let hi = (x as int / 0x100000000) as u32;
    let lo = (x as int % 0x100000000) as u32;
    lemma_u32_round_trip(hi);
    lemma_u32_round_trip(lo);
    assert(be_bytes_u64(x)[0] == be_bytes_u32(hi)[0]);
    assert(be_bytes_u64(x)[1] == be_bytes_u32(hi)[1]);
    assert(be_bytes_u64(x)[2] == be_bytes_u32(hi)[2]);
    assert(be_bytes_u64(x)[3] == be_bytes_u32(hi)[3]);
    assert(be_bytes_u64(x)[4] == be_bytes_u32(lo)[0]);
    assert(be_bytes_u64(x)[5] == be_bytes_u32(lo)[1]);
    assert(be_bytes_u64(x)[6] == be_bytes_u32(lo)[2]);
    assert(be_bytes_u64(x)[7] == be_bytes_u32(lo)[3]);
    assert(be_u32_at(be_bytes_u64(x), 0) == hi as int);
    assert(be_u32_at(be_bytes_u64(x), 4) == lo as int);
    assert((x as int / 0x100000000) * 0x100000000 + x as int % 0x100000000 == x as int)
        by (nonlinear_arith);
}

} // verus!
