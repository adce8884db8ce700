//! Word-level helpers shared by all engines: rotations, wrapping-add
//! shorthand, and conversions between bytes and 32/64-bit words.

use vstd::prelude::*;

verus! {

/// Wrapping 32-bit addition, the basic mixing step of the MD-family rounds.
pub open spec fn wadd(x: u32, y: u32) -> u32 {
    vstd::wrapping::u32_specs::wrapping_add(x, y)
}

/// Wrapping 64-bit addition.
pub open spec fn wadd64(x: u64, y: u64) -> u64 {
    vstd::wrapping::u64_specs::wrapping_add(x, y)
}

/// Left rotation of a 32-bit word, as used by the MD4/MD5/RIPEMD rounds.
pub open spec fn rotl32_spec(x: u32, n: u32) -> u32
    recommends
        0 < n < 32,
{
    (x << n) | (x >> ((32 - n) as u32))
}

pub fn rotl32(x: u32, n: u32) -> (r: u32)
    requires
        0 < n < 32,
    ensures
        r == rotl32_spec(x, n),
{
    (x << n) | (x >> (32 - n))
}

/// Right rotation of a 64-bit word, as used by the SHA-512 schedule.
pub open spec fn rotr64_spec(x: u64, n: u64) -> u64
    recommends
        0 < n < 64,
{
    (x >> n) | (x << ((64 - n) as u64))
}

pub fn rotr64(x: u64, n: u64) -> (r: u64)
    requires
        0 < n < 64,
    ensures
        r == rotr64_spec(x, n),
{
    (x >> n) | (x << (64 - n))
}

/// A 32-bit word read little-endian from four bytes.
pub open spec fn le32_spec(b0: u8, b1: u8, b2: u8, b3: u8) -> u32 {
    (b0 as u32) | ((b1 as u32) << 8) | ((b2 as u32) << 16) | ((b3 as u32) << 24)
}

pub fn le32(b0: u8, b1: u8, b2: u8, b3: u8) -> (r: u32)
    ensures
        r == le32_spec(b0, b1, b2, b3),
{
    (b0 as u32) | ((b1 as u32) << 8) | ((b2 as u32) << 16) | ((b3 as u32) << 24)
}

/// The 32-bit word at little-endian position `i` of a block.
pub open spec fn le32_at(b: Seq<u8>, i: int) -> u32
    recommends
        0 <= i,
        4 * i + 3 < b.len(),
{
    le32_spec(b[4 * i], b[4 * i + 1], b[4 * i + 2], b[4 * i + 3])
}

/// A 64-bit word read big-endian from eight bytes.
pub open spec fn be64_spec(b0: u8, b1: u8, b2: u8, b3: u8, b4: u8, b5: u8, b6: u8, b7: u8) -> u64 {
    ((b0 as u64) << 56) | ((b1 as u64) << 48) | ((b2 as u64) << 40) | ((b3 as u64) << 32)
        | ((b4 as u64) << 24) | ((b5 as u64) << 16) | ((b6 as u64) << 8) | (b7 as u64)
}

pub fn be64(b0: u8, b1: u8, b2: u8, b3: u8, b4: u8, b5: u8, b6: u8, b7: u8) -> (r: u64)
    ensures
        r == be64_spec(b0, b1, b2, b3, b4, b5, b6, b7),
{
    ((b0 as u64) << 56) | ((b1 as u64) << 48) | ((b2 as u64) << 40) | ((b3 as u64) << 32)
        | ((b4 as u64) << 24) | ((b5 as u64) << 16) | ((b6 as u64) << 8) | (b7 as u64)
}

/// The 64-bit word at big-endian position `i` of a block.
pub open spec fn be64_at(b: Seq<u8>, i: int) -> u64
    recommends
        0 <= i,
        8 * i + 7 < b.len(),
{
    be64_spec(
        b[8 * i],
        b[8 * i + 1],
        b[8 * i + 2],
        b[8 * i + 3],
        b[8 * i + 4],
        b[8 * i + 5],
        b[8 * i + 6],
        b[8 * i + 7],
    )
}

/// The four bytes of a 32-bit word, least significant first.
pub open spec fn le32_bytes(x: u32) -> Seq<u8> {
    seq![x as u8, (x >> 8) as u8, (x >> 16) as u8, (x >> 24) as u8]
}

/// The eight bytes of a 64-bit word, least significant first.
pub open spec fn le64_bytes(x: u64) -> Seq<u8> {
    seq![
        x as u8,
        (x >> 8) as u8,
        (x >> 16) as u8,
        (x >> 24) as u8,
        (x >> 32) as u8,
        (x >> 40) as u8,
        (x >> 48) as u8,
        (x >> 56) as u8,
    ]
}

/// The eight bytes of a 64-bit word, most significant first.
pub open spec fn be64_bytes(x: u64) -> Seq<u8> {
    seq![
        (x >> 56) as u8,
        (x >> 48) as u8,
        (x >> 40) as u8,
        (x >> 32) as u8,
        (x >> 24) as u8,
        (x >> 16) as u8,
        (x >> 8) as u8,
        x as u8,
    ]
}

/// A run of zero bytes.
pub open spec fn zero_bytes(n: nat) -> Seq<u8> {
    Seq::new(n, |i: int| 0u8)
}


/// A 64-bit word read little-endian from eight bytes.
pub open spec fn le64_spec(b0: u8, b1: u8, b2: u8, b3: u8, b4: u8, b5: u8, b6: u8, b7: u8) -> u64 {
    (b0 as u64) | ((b1 as u64) << 8) | ((b2 as u64) << 16) | ((b3 as u64) << 24)
        | ((b4 as u64) << 32) | ((b5 as u64) << 40) | ((b6 as u64) << 48) | ((b7 as u64) << 56)
}

pub fn le64(b0: u8, b1: u8, b2: u8, b3: u8, b4: u8, b5: u8, b6: u8, b7: u8) -> (r: u64)
    ensures
        r == le64_spec(b0, b1, b2, b3, b4, b5, b6, b7),
{
    (b0 as u64) | ((b1 as u64) << 8) | ((b2 as u64) << 16) | ((b3 as u64) << 24)
        | ((b4 as u64) << 32) | ((b5 as u64) << 40) | ((b6 as u64) << 48) | ((b7 as u64) << 56)
}

/// The 64-bit word at little-endian position `i` of a block.
pub open spec fn le64_at(b: Seq<u8>, i: int) -> u64
    recommends
        0 <= i,
        8 * i + 7 < b.len(),
{
    le64_spec(
        b[8 * i],
        b[8 * i + 1],
        b[8 * i + 2],
        b[8 * i + 3],
        b[8 * i + 4],
        b[8 * i + 5],
        b[8 * i + 6],
        b[8 * i + 7],
    )
}

} // verus!
