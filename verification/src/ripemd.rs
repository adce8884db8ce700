//! Round primitives shared by the two RIPEMD pipelines: the five
//! nonlinear functions of the published specification and one pipeline
//! step (rotate-and-accumulate with the fifth word added after rotation).

use vstd::prelude::*;
use crate::words::{wadd, rotl32, rotl32_spec};

verus! {

pub open spec fn rmd_f1(x: u32, y: u32, z: u32) -> u32 {
    x ^ y ^ z
}

pub open spec fn rmd_f2(x: u32, y: u32, z: u32) -> u32 {
    (x & y) | (!x & z)
}

pub open spec fn rmd_f3(x: u32, y: u32, z: u32) -> u32 {
    (x | !y) ^ z
}

pub open spec fn rmd_f4(x: u32, y: u32, z: u32) -> u32 {
    (x & z) | (y & !z)
}

pub open spec fn rmd_f5(x: u32, y: u32, z: u32) -> u32 {
    x ^ (y | !z)
}

pub(crate) fn rmd_step1(a: u32, b: u32, c: u32, d: u32, e: u32, x: u32, t: u32, s: u32) -> (r: u32)
    requires
        0 < s < 32,
    ensures
        r == wadd(rotl32_spec(wadd(wadd(wadd(a, rmd_f1(b, c, d)), x), t), s), e),
{
    rotl32(a.wrapping_add(b ^ c ^ d).wrapping_add(x).wrapping_add(t), s).wrapping_add(e)
}

pub(crate) fn rmd_step2(a: u32, b: u32, c: u32, d: u32, e: u32, x: u32, t: u32, s: u32) -> (r: u32)
    requires
        0 < s < 32,
    ensures
        r == wadd(rotl32_spec(wadd(wadd(wadd(a, rmd_f2(b, c, d)), x), t), s), e),
{
    rotl32(a.wrapping_add((b & c) | (!b & d)).wrapping_add(x).wrapping_add(t), s).wrapping_add(e)
}

pub(crate) fn rmd_step3(a: u32, b: u32, c: u32, d: u32, e: u32, x: u32, t: u32, s: u32) -> (r: u32)
    requires
        0 < s < 32,
    ensures
        r == wadd(rotl32_spec(wadd(wadd(wadd(a, rmd_f3(b, c, d)), x), t), s), e),
{
    rotl32(a.wrapping_add((b | !c) ^ d).wrapping_add(x).wrapping_add(t), s).wrapping_add(e)
}

pub(crate) fn rmd_step4(a: u32, b: u32, c: u32, d: u32, e: u32, x: u32, t: u32, s: u32) -> (r: u32)
    requires
        0 < s < 32,
    ensures
        r == wadd(rotl32_spec(wadd(wadd(wadd(a, rmd_f4(b, c, d)), x), t), s), e),
{
    rotl32(a.wrapping_add((b & d) | (c & !d)).wrapping_add(x).wrapping_add(t), s).wrapping_add(e)
}

pub(crate) fn rmd_step5(a: u32, b: u32, c: u32, d: u32, e: u32, x: u32, t: u32, s: u32) -> (r: u32)
    requires
        0 < s < 32,
    ensures
        r == wadd(rotl32_spec(wadd(wadd(wadd(a, rmd_f5(b, c, d)), x), t), s), e),
{
    rotl32(a.wrapping_add(b ^ (c | !d)).wrapping_add(x).wrapping_add(t), s).wrapping_add(e)
}

/// The 64-bit length field from the exact block count and buffer position.
pub open spec fn rmd_bitlen(block_len: u64, pos: u64) -> u64 {
    ((8 * (pos as int + 64 * block_len as int)) % 0x1_0000_0000_0000_0000) as u64
}

} // verus!
