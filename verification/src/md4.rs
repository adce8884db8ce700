//! The MD4 hash: four 32-bit state words, 64-byte blocks, little-endian
//! word order, and a processed-block counter that wraps mod 2^64 (the
//! published "length mod 2^64" semantics, intentionally kept).

use vstd::prelude::*;
use crate::words::{wadd, rotl32, rotl32_spec, le32, le32_at, le32_bytes};
use crate::pad::{pad_md_le64, tail_pad_le64, md_bitlen_from, md_bitlen64, md_pad_zeros, lemma_pad_md_le64_split, lemma_md_bitlen_wrap};
use crate::buffer::BlockBuffer64;

verus! {

pub open spec fn md4_f(x: u32, y: u32, z: u32) -> u32 {
    (x & y) | (!x & z)
}

pub open spec fn md4_g(x: u32, y: u32, z: u32) -> u32 {
    (x & y) | (x & z) | (y & z)
}

pub open spec fn md4_h(x: u32, y: u32, z: u32) -> u32 {
    x ^ y ^ z
}

fn md4_step_f(a: u32, b: u32, c: u32, d: u32, x: u32, t: u32, s: u32) -> (r: u32)
    requires
        0 < s < 32,
    ensures
        r == rotl32_spec(wadd(wadd(wadd(a, md4_f(b, c, d)), x), t), s),
{
    rotl32(a.wrapping_add((b & c) | (!b & d)).wrapping_add(x).wrapping_add(t), s)
}

fn md4_step_g(a: u32, b: u32, c: u32, d: u32, x: u32, t: u32, s: u32) -> (r: u32)
    requires
        0 < s < 32,
    ensures
        r == rotl32_spec(wadd(wadd(wadd(a, md4_g(b, c, d)), x), t), s),
{
    rotl32(a.wrapping_add((b & c) | (b & d) | (c & d)).wrapping_add(x).wrapping_add(t), s)
}

fn md4_step_h(a: u32, b: u32, c: u32, d: u32, x: u32, t: u32, s: u32) -> (r: u32)
    requires
        0 < s < 32,
    ensures
        r == rotl32_spec(wadd(wadd(wadd(a, md4_h(b, c, d)), x), t), s),
{
    rotl32(a.wrapping_add(b ^ c ^ d).wrapping_add(x).wrapping_add(t), s)
}

/// One application of the MD4 compression function to a 64-byte block.
#[verifier::opaque]
pub open spec fn md4_compress_spec(s: (u32, u32, u32, u32), b: Seq<u8>) -> (u32, u32, u32, u32)
    recommends
        b.len() == 64,
{
    let x0 = le32_at(b, 0);
    let x1 = le32_at(b, 1);
    let x2 = le32_at(b, 2);
    let x3 = le32_at(b, 3);
    let x4 = le32_at(b, 4);
    let x5 = le32_at(b, 5);
    let x6 = le32_at(b, 6);
    let x7 = le32_at(b, 7);
    let x8 = le32_at(b, 8);
    let x9 = le32_at(b, 9);
    let x10 = le32_at(b, 10);
    let x11 = le32_at(b, 11);
    let x12 = le32_at(b, 12);
    let x13 = le32_at(b, 13);
    let x14 = le32_at(b, 14);
    let x15 = le32_at(b, 15);
    let v0 = rotl32_spec(wadd(wadd(wadd(s.0, md4_f(s.1, s.2, s.3)), x0), 0x00000000u32), 3);
    let v1 = rotl32_spec(wadd(wadd(wadd(s.3, md4_f(v0, s.1, s.2)), x1), 0x00000000u32), 7);
    let v2 = rotl32_spec(wadd(wadd(wadd(s.2, md4_f(v1, v0, s.1)), x2), 0x00000000u32), 11);
    let v3 = rotl32_spec(wadd(wadd(wadd(s.1, md4_f(v2, v1, v0)), x3), 0x00000000u32), 19);
    let v4 = rotl32_spec(wadd(wadd(wadd(v0, md4_f(v3, v2, v1)), x4), 0x00000000u32), 3);
    let v5 = rotl32_spec(wadd(wadd(wadd(v1, md4_f(v4, v3, v2)), x5), 0x00000000u32), 7);
    let v6 = rotl32_spec(wadd(wadd(wadd(v2, md4_f(v5, v4, v3)), x6), 0x00000000u32), 11);
    let v7 = rotl32_spec(wadd(wadd(wadd(v3, md4_f(v6, v5, v4)), x7), 0x00000000u32), 19);
    let v8 = rotl32_spec(wadd(wadd(wadd(v4, md4_f(v7, v6, v5)), x8), 0x00000000u32), 3);
    let v9 = rotl32_spec(wadd(wadd(wadd(v5, md4_f(v8, v7, v6)), x9), 0x00000000u32), 7);
    let v10 = rotl32_spec(wadd(wadd(wadd(v6, md4_f(v9, v8, v7)), x10), 0x00000000u32), 11);
    let v11 = rotl32_spec(wadd(wadd(wadd(v7, md4_f(v10, v9, v8)), x11), 0x00000000u32), 19);
    let v12 = rotl32_spec(wadd(wadd(wadd(v8, md4_f(v11, v10, v9)), x12), 0x00000000u32), 3);
    let v13 = rotl32_spec(wadd(wadd(wadd(v9, md4_f(v12, v11, v10)), x13), 0x00000000u32), 7);
    let v14 = rotl32_spec(wadd(wadd(wadd(v10, md4_f(v13, v12, v11)), x14), 0x00000000u32), 11);
    let v15 = rotl32_spec(wadd(wadd(wadd(v11, md4_f(v14, v13, v12)), x15), 0x00000000u32), 19);
    let v16 = rotl32_spec(wadd(wadd(wadd(v12, md4_g(v15, v14, v13)), x0), 0x5a827999u32), 3);
    let v17 = rotl32_spec(wadd(wadd(wadd(v13, md4_g(v16, v15, v14)), x4), 0x5a827999u32), 5);
    let v18 = rotl32_spec(wadd(wadd(wadd(v14, md4_g(v17, v16, v15)), x8), 0x5a827999u32), 9);
    let v19 = rotl32_spec(wadd(wadd(wadd(v15, md4_g(v18, v17, v16)), x12), 0x5a827999u32), 13);
    let v20 = rotl32_spec(wadd(wadd(wadd(v16, md4_g(v19, v18, v17)), x1), 0x5a827999u32), 3);
    let v21 = rotl32_spec(wadd(wadd(wadd(v17, md4_g(v20, v19, v18)), x5), 0x5a827999u32), 5);
    let v22 = rotl32_spec(wadd(wadd(wadd(v18, md4_g(v21, v20, v19)), x9), 0x5a827999u32), 9);
    let v23 = rotl32_spec(wadd(wadd(wadd(v19, md4_g(v22, v21, v20)), x13), 0x5a827999u32), 13);
    let v24 = rotl32_spec(wadd(wadd(wadd(v20, md4_g(v23, v22, v21)), x2), 0x5a827999u32), 3);
    let v25 = rotl32_spec(wadd(wadd(wadd(v21, md4_g(v24, v23, v22)), x6), 0x5a827999u32), 5);
    let v26 = rotl32_spec(wadd(wadd(wadd(v22, md4_g(v25, v24, v23)), x10), 0x5a827999u32), 9);
    let v27 = rotl32_spec(wadd(wadd(wadd(v23, md4_g(v26, v25, v24)), x14), 0x5a827999u32), 13);
    let v28 = rotl32_spec(wadd(wadd(wadd(v24, md4_g(v27, v26, v25)), x3), 0x5a827999u32), 3);
    let v29 = rotl32_spec(wadd(wadd(wadd(v25, md4_g(v28, v27, v26)), x7), 0x5a827999u32), 5);
    let v30 = rotl32_spec(wadd(wadd(wadd(v26, md4_g(v29, v28, v27)), x11), 0x5a827999u32), 9);
    let v31 = rotl32_spec(wadd(wadd(wadd(v27, md4_g(v30, v29, v28)), x15), 0x5a827999u32), 13);
    let v32 = rotl32_spec(wadd(wadd(wadd(v28, md4_h(v31, v30, v29)), x0), 0x6ed9eba1u32), 3);
    let v33 = rotl32_spec(wadd(wadd(wadd(v29, md4_h(v32, v31, v30)), x8), 0x6ed9eba1u32), 9);
    let v34 = rotl32_spec(wadd(wadd(wadd(v30, md4_h(v33, v32, v31)), x4), 0x6ed9eba1u32), 11);
    let v35 = rotl32_spec(wadd(wadd(wadd(v31, md4_h(v34, v33, v32)), x12), 0x6ed9eba1u32), 15);
    let v36 = rotl32_spec(wadd(wadd(wadd(v32, md4_h(v35, v34, v33)), x2), 0x6ed9eba1u32), 3);
    let v37 = rotl32_spec(wadd(wadd(wadd(v33, md4_h(v36, v35, v34)), x10), 0x6ed9eba1u32), 9);
    let v38 = rotl32_spec(wadd(wadd(wadd(v34, md4_h(v37, v36, v35)), x6), 0x6ed9eba1u32), 11);
    let v39 = rotl32_spec(wadd(wadd(wadd(v35, md4_h(v38, v37, v36)), x14), 0x6ed9eba1u32), 15);
    let v40 = rotl32_spec(wadd(wadd(wadd(v36, md4_h(v39, v38, v37)), x1), 0x6ed9eba1u32), 3);
    let v41 = rotl32_spec(wadd(wadd(wadd(v37, md4_h(v40, v39, v38)), x9), 0x6ed9eba1u32), 9);
    let v42 = rotl32_spec(wadd(wadd(wadd(v38, md4_h(v41, v40, v39)), x5), 0x6ed9eba1u32), 11);
    let v43 = rotl32_spec(wadd(wadd(wadd(v39, md4_h(v42, v41, v40)), x13), 0x6ed9eba1u32), 15);
    let v44 = rotl32_spec(wadd(wadd(wadd(v40, md4_h(v43, v42, v41)), x3), 0x6ed9eba1u32), 3);
    let v45 = rotl32_spec(wadd(wadd(wadd(v41, md4_h(v44, v43, v42)), x11), 0x6ed9eba1u32), 9);
    let v46 = rotl32_spec(wadd(wadd(wadd(v42, md4_h(v45, v44, v43)), x7), 0x6ed9eba1u32), 11);
    let v47 = rotl32_spec(wadd(wadd(wadd(v43, md4_h(v46, v45, v44)), x15), 0x6ed9eba1u32), 15);
    (wadd(s.0, v44), wadd(s.1, v47), wadd(s.2, v46), wadd(s.3, v45))
}

/// The MD4 compression function: folds one 64-byte block into the state.
#[verifier::rlimit(60)]
pub fn md4_compress(state: &mut (u32, u32, u32, u32), block: &[u8; 64])
    ensures
        *final(state) == md4_compress_spec(*old(state), block@),
{
    proof {
        reveal(md4_compress_spec);
    }
    let x0 = le32(block[0], block[1], block[2], block[3]);
    let x1 = le32(block[4], block[5], block[6], block[7]);
    let x2 = le32(block[8], block[9], block[10], block[11]);
    let x3 = le32(block[12], block[13], block[14], block[15]);
    let x4 = le32(block[16], block[17], block[18], block[19]);
    let x5 = le32(block[20], block[21], block[22], block[23]);
    let x6 = le32(block[24], block[25], block[26], block[27]);
    let x7 = le32(block[28], block[29], block[30], block[31]);
    let x8 = le32(block[32], block[33], block[34], block[35]);
    let x9 = le32(block[36], block[37], block[38], block[39]);
    let x10 = le32(block[40], block[41], block[42], block[43]);
    let x11 = le32(block[44], block[45], block[46], block[47]);
    let x12 = le32(block[48], block[49], block[50], block[51]);
    let x13 = le32(block[52], block[53], block[54], block[55]);
    let x14 = le32(block[56], block[57], block[58], block[59]);
    let x15 = le32(block[60], block[61], block[62], block[63]);
    let mut a = state.0;
    let mut b = state.1;
    let mut c = state.2;
    let mut d = state.3;
    let t = md4_step_f(a, b, c, d, x0, 0x00000000u32, 3);
    a = d; d = c; c = b; b = t;
    let t = md4_step_f(a, b, c, d, x1, 0x00000000u32, 7);
    a = d; d = c; c = b; b = t;
    let t = md4_step_f(a, b, c, d, x2, 0x00000000u32, 11);
    a = d; d = c; c = b; b = t;
    let t = md4_step_f(a, b, c, d, x3, 0x00000000u32, 19);
    a = d; d = c; c = b; b = t;
    let t = md4_step_f(a, b, c, d, x4, 0x00000000u32, 3);
    a = d; d = c; c = b; b = t;
    let t = md4_step_f(a, b, c, d, x5, 0x00000000u32, 7);
    a = d; d = c; c = b; b = t;
    let t = md4_step_f(a, b, c, d, x6, 0x00000000u32, 11);
    a = d; d = c; c = b; b = t;
    let t = md4_step_f(a, b, c, d, x7, 0x00000000u32, 19);
    a = d; d = c; c = b; b = t;
    let t = md4_step_f(a, b, c, d, x8, 0x00000000u32, 3);
    a = d; d = c; c = b; b = t;
    let t = md4_step_f(a, b, c, d, x9, 0x00000000u32, 7);
    a = d; d = c; c = b; b = t;
    let t = md4_step_f(a, b, c, d, x10, 0x00000000u32, 11);
    a = d; d = c; c = b; b = t;
    let t = md4_step_f(a, b, c, d, x11, 0x00000000u32, 19);
    a = d; d = c; c = b; b = t;
    let t = md4_step_f(a, b, c, d, x12, 0x00000000u32, 3);
    a = d; d = c; c = b; b = t;
    let t = md4_step_f(a, b, c, d, x13, 0x00000000u32, 7);
    a = d; d = c; c = b; b = t;
    let t = md4_step_f(a, b, c, d, x14, 0x00000000u32, 11);
    a = d; d = c; c = b; b = t;
    let t = md4_step_f(a, b, c, d, x15, 0x00000000u32, 19);
    a = d; d = c; c = b; b = t;
    let t = md4_step_g(a, b, c, d, x0, 0x5a827999u32, 3);
    a = d; d = c; c = b; b = t;
    let t = md4_step_g(a, b, c, d, x4, 0x5a827999u32, 5);
    a = d; d = c; c = b; b = t;
    let t = md4_step_g(a, b, c, d, x8, 0x5a827999u32, 9);
    a = d; d = c; c = b; b = t;
    let t = md4_step_g(a, b, c, d, x12, 0x5a827999u32, 13);
    a = d; d = c; c = b; b = t;
    let t = md4_step_g(a, b, c, d, x1, 0x5a827999u32, 3);
    a = d; d = c; c = b; b = t;
    let t = md4_step_g(a, b, c, d, x5, 0x5a827999u32, 5);
    a = d; d = c; c = b; b = t;
    let t = md4_step_g(a, b, c, d, x9, 0x5a827999u32, 9);
    a = d; d = c; c = b; b = t;
    let t = md4_step_g(a, b, c, d, x13, 0x5a827999u32, 13);
    a = d; d = c; c = b; b = t;
    let t = md4_step_g(a, b, c, d, x2, 0x5a827999u32, 3);
    a = d; d = c; c = b; b = t;
    let t = md4_step_g(a, b, c, d, x6, 0x5a827999u32, 5);
    a = d; d = c; c = b; b = t;
    let t = md4_step_g(a, b, c, d, x10, 0x5a827999u32, 9);
    a = d; d = c; c = b; b = t;
    let t = md4_step_g(a, b, c, d, x14, 0x5a827999u32, 13);
    a = d; d = c; c = b; b = t;
    let t = md4_step_g(a, b, c, d, x3, 0x5a827999u32, 3);
    a = d; d = c; c = b; b = t;
    let t = md4_step_g(a, b, c, d, x7, 0x5a827999u32, 5);
    a = d; d = c; c = b; b = t;
    let t = md4_step_g(a, b, c, d, x11, 0x5a827999u32, 9);
    a = d; d = c; c = b; b = t;
    let t = md4_step_g(a, b, c, d, x15, 0x5a827999u32, 13);
    a = d; d = c; c = b; b = t;
    let t = md4_step_h(a, b, c, d, x0, 0x6ed9eba1u32, 3);
    a = d; d = c; c = b; b = t;
    let t = md4_step_h(a, b, c, d, x8, 0x6ed9eba1u32, 9);
    a = d; d = c; c = b; b = t;
    let t = md4_step_h(a, b, c, d, x4, 0x6ed9eba1u32, 11);
    a = d; d = c; c = b; b = t;
    let t = md4_step_h(a, b, c, d, x12, 0x6ed9eba1u32, 15);
    a = d; d = c; c = b; b = t;
    let t = md4_step_h(a, b, c, d, x2, 0x6ed9eba1u32, 3);
    a = d; d = c; c = b; b = t;
    let t = md4_step_h(a, b, c, d, x10, 0x6ed9eba1u32, 9);
    a = d; d = c; c = b; b = t;
    let t = md4_step_h(a, b, c, d, x6, 0x6ed9eba1u32, 11);
    a = d; d = c; c = b; b = t;
    let t = md4_step_h(a, b, c, d, x14, 0x6ed9eba1u32, 15);
    a = d; d = c; c = b; b = t;
    let t = md4_step_h(a, b, c, d, x1, 0x6ed9eba1u32, 3);
    a = d; d = c; c = b; b = t;
    let t = md4_step_h(a, b, c, d, x9, 0x6ed9eba1u32, 9);
    a = d; d = c; c = b; b = t;
    let t = md4_step_h(a, b, c, d, x5, 0x6ed9eba1u32, 11);
    a = d; d = c; c = b; b = t;
    let t = md4_step_h(a, b, c, d, x13, 0x6ed9eba1u32, 15);
    a = d; d = c; c = b; b = t;
    let t = md4_step_h(a, b, c, d, x3, 0x6ed9eba1u32, 3);
    a = d; d = c; c = b; b = t;
    let t = md4_step_h(a, b, c, d, x11, 0x6ed9eba1u32, 9);
    a = d; d = c; c = b; b = t;
    let t = md4_step_h(a, b, c, d, x7, 0x6ed9eba1u32, 11);
    a = d; d = c; c = b; b = t;
    let t = md4_step_h(a, b, c, d, x15, 0x6ed9eba1u32, 15);
    a = d; d = c; c = b; b = t;
    state.0 = state.0.wrapping_add(a);
    state.1 = state.1.wrapping_add(b);
    state.2 = state.2.wrapping_add(c);
    state.3 = state.3.wrapping_add(d);
}

pub open spec fn md4_init() -> (u32, u32, u32, u32) {
    (0x67452301u32, 0xefcdab89u32, 0x98badcfeu32, 0x10325476u32)
}

/// Fold the compression function over every complete 64-byte block of `m`.
pub open spec fn md4_blocks(s: (u32, u32, u32, u32), m: Seq<u8>) -> (u32, u32, u32, u32)
    decreases m.len(),
{
    if m.len() < 64 {
        s
    } else {
        md4_blocks(md4_compress_spec(s, m.take(64)), m.skip(64))
    }
}

/// Folding a block-aligned prefix and then the rest equals folding the
/// concatenation: the engine of chunk-invariance.
pub proof fn lemma_md4_blocks_concat(s: (u32, u32, u32, u32), a: Seq<u8>, b: Seq<u8>)
    requires
        a.len() % 64 == 0,
    ensures
        md4_blocks(s, a + b) == md4_blocks(md4_blocks(s, a), b),
    decreases a.len(),
{
    if a.len() == 0 {
        assert(a + b =~= b);
    } else {
        assert(a.len() >= 64);
        assert((a + b).take(64) =~= a.take(64));
        assert((a + b).skip(64) =~= a.skip(64) + b);
        assert(a.skip(64).len() % 64 == 0);
        lemma_md4_blocks_concat(md4_compress_spec(s, a.take(64)), a.skip(64), b);
    }
}

/// Little-endian serialization of the final state.
pub open spec fn md4_output(s: (u32, u32, u32, u32)) -> Seq<u8> {
    le32_bytes(s.0) + le32_bytes(s.1) + le32_bytes(s.2) + le32_bytes(s.3)
}

/// The MD4 digest of an arbitrary byte sequence.
pub open spec fn md4_of(m: Seq<u8>) -> Seq<u8> {
    md4_output(md4_blocks(md4_init(), pad_md_le64(m)))
}

/// Fold over an explicit list of blocks, as `update_blocks` consumes them.
pub open spec fn md4_blocks_list(s: (u32, u32, u32, u32), bs: Seq<[u8; 64]>) -> (u32, u32, u32, u32)
    decreases bs.len(),
{
    if bs.len() == 0 {
        s
    } else {
        md4_blocks_list(md4_compress_spec(s, bs[0]@), bs.skip(1))
    }
}

/// Core MD4 hasher state: the four chaining words and the wrapped count
/// of processed blocks.
#[derive(Clone, Copy, Debug)]
pub struct Md4Core {
    pub block_len: u64,
    pub state: (u32, u32, u32, u32),
}

impl Default for Md4Core {
    fn default() -> (r: Self)
        ensures
            r.state == md4_init(),
            r.block_len == 0,
    {
        Md4Core { block_len: 0, state: (0x67452301u32, 0xefcdab89u32, 0x98badcfeu32, 0x10325476u32) }
    }
}

impl Md4Core {
    pub fn reset(&mut self)
        ensures
            final(self).state == md4_init(),
            final(self).block_len == 0,
    {
        self.block_len = 0;
        self.state = (0x67452301u32, 0xefcdab89u32, 0x98badcfeu32, 0x10325476u32);
    }

    /// Consume a list of complete blocks; the block counter wraps mod 2^64.
    pub fn update_blocks(&mut self, blocks: &[[u8; 64]])
        ensures
            final(self).state == md4_blocks_list(old(self).state, blocks@),
            final(self).block_len == vstd::wrapping::u64_specs::wrapping_add(
                old(self).block_len,
                blocks@.len() as u64,
            ),
    {
        self.block_len = self.block_len.wrapping_add(blocks.len() as u64);
        proof {
            assert(blocks@.skip(0) =~= blocks@);
        }
        let mut i: usize = 0;
        while i < blocks.len()
            invariant
                i <= blocks.len(),
                self.block_len == vstd::wrapping::u64_specs::wrapping_add(
                    old(self).block_len,
                    blocks@.len() as u64,
                ),
                md4_blocks_list(self.state, blocks@.skip(i as int)) == md4_blocks_list(
                    old(self).state,
                    blocks@,
                ),
            decreases blocks.len() - i,
        {
            proof {
                assert(blocks@.skip(i as int)[0] == blocks@[i as int]);
                assert(blocks@.skip(i as int).skip(1) =~= blocks@.skip(i as int + 1));
            }
            let blk = blocks[i];
            md4_compress(&mut self.state, &blk);
            i += 1;
        }
        proof {
            assert(blocks@.skip(blocks@.len() as int) =~= Seq::<[u8; 64]>::empty());
        }
    }

    /// Pad the buffered tail, fold the final block or blocks, and emit the
    /// 16 digest bytes little-endian.
    pub fn finalize_fixed_core(&mut self, buffer: &mut BlockBuffer64) -> (out: [u8; 16])
        requires
            old(buffer).wf(),
        ensures
            out@ == md4_output(
                md4_blocks(
                    old(self).state,
                    tail_pad_le64(
                        old(buffer)@,
                        md_bitlen_from(old(self).block_len, old(buffer).pos as u64),
                    ),
                ),
            ),
    {
        let bitlen = self.block_len.wrapping_mul(64).wrapping_add(buffer.pos as u64).wrapping_mul(8);
        let pos = buffer.pos;
        let ghost tail = buffer@;
        let ghost padded = tail_pad_le64(tail, bitlen);
        buffer.block[pos] = 0x80;
        let mut i: usize = pos + 1;
        while i < 64
            invariant
                pos + 1 <= i <= 64,
                buffer.block@.len() == 64,
                buffer.block@.take(pos as int) == tail,
                buffer.block@[pos as int] == 0x80u8,
                forall|j: int| pos < j < i ==> buffer.block@[j] == 0u8,
            decreases 64 - i,
        {
            buffer.block[i] = 0;
            i += 1;
        }
        if pos < 56 {
            buffer.block[56] = bitlen as u8;
            buffer.block[57] = (bitlen >> 8) as u8;
            buffer.block[58] = (bitlen >> 16) as u8;
            buffer.block[59] = (bitlen >> 24) as u8;
            buffer.block[60] = (bitlen >> 32) as u8;
            buffer.block[61] = (bitlen >> 40) as u8;
            buffer.block[62] = (bitlen >> 48) as u8;
            buffer.block[63] = (bitlen >> 56) as u8;
            proof {
                reveal_with_fuel(md4_blocks, 3);
                assert(md_pad_zeros(tail.len()) == 55 - pos);
                assert(padded.len() == 64);
                assert(buffer.block@ =~= padded);
                assert(padded.skip(64).len() == 0);
            }
            md4_compress(&mut self.state, &buffer.block);
            proof {
                assert(padded.take(64) =~= buffer.block@);
                assert(self.state == md4_blocks(old(self).state, padded));
            }
        } else {
            md4_compress(&mut self.state, &buffer.block);
            let ghost first = buffer.block@;
            let mut last = [0u8; 64];
            last[56] = bitlen as u8;
            last[57] = (bitlen >> 8) as u8;
            last[58] = (bitlen >> 16) as u8;
            last[59] = (bitlen >> 24) as u8;
            last[60] = (bitlen >> 32) as u8;
            last[61] = (bitlen >> 40) as u8;
            last[62] = (bitlen >> 48) as u8;
            last[63] = (bitlen >> 56) as u8;
            md4_compress(&mut self.state, &last);
            proof {
                reveal_with_fuel(md4_blocks, 3);
                assert(md_pad_zeros(tail.len()) == 119 - pos);
                assert(padded.len() == 128);
                assert(padded.take(64) =~= first);
                assert(padded.skip(64).take(64) =~= last@);
                assert(padded.skip(64).skip(64).len() == 0);
                assert(padded.skip(64) =~= padded.skip(64).take(64) + padded.skip(64).skip(64));
                assert(self.state == md4_blocks(old(self).state, padded));
            }
        }
        let mut out = [0u8; 16];
        out[0] = self.state.0 as u8;
        out[1] = (self.state.0 >> 8) as u8;
        out[2] = (self.state.0 >> 16) as u8;
        out[3] = (self.state.0 >> 24) as u8;
        out[4] = self.state.1 as u8;
        out[5] = (self.state.1 >> 8) as u8;
        out[6] = (self.state.1 >> 16) as u8;
        out[7] = (self.state.1 >> 24) as u8;
        out[8] = self.state.2 as u8;
        out[9] = (self.state.2 >> 8) as u8;
        out[10] = (self.state.2 >> 16) as u8;
        out[11] = (self.state.2 >> 24) as u8;
        out[12] = self.state.3 as u8;
        out[13] = (self.state.3 >> 8) as u8;
        out[14] = (self.state.3 >> 16) as u8;
        out[15] = (self.state.3 >> 24) as u8;
        proof {
            assert(out@ =~= md4_output(self.state));
        }
        out
    }
}


/// Streaming MD4 hasher. Its view is the exact byte sequence fed so far;
/// `finalize` is pinned to `md4_of` of that sequence, so how the input was
/// chunked across `update` calls can never affect the digest.
#[derive(Clone, Copy)]
pub struct Md4 {
    core: Md4Core,
    buffer: BlockBuffer64,
    msg: Ghost<Seq<u8>>,
}

impl View for Md4 {
    type V = Seq<u8>;

    closed spec fn view(&self) -> Seq<u8> {
        self.msg@
    }
}

impl Md4 {
    /// The compressed prefix, buffered tail, and wrapped block counter all
    /// agree with the message fed so far.
    pub closed spec fn wf(&self) -> bool {
        let l = self.msg@.len();
        let full = (l - (l % 64)) as int;
        &&& self.buffer.wf()
        &&& self.buffer.pos == l % 64
        &&& self.buffer@ == self.msg@.skip(full)
        &&& self.core.state == md4_blocks(md4_init(), self.msg@.take(full))
        &&& self.core.block_len == (l / 64) % 0x1_0000_0000_0000_0000
    }

    pub fn new() -> (r: Self)
        ensures
            r.wf(),
            r@ == Seq::<u8>::empty(),
    {
        let r = Md4 {
            core: Default::default(),
            buffer: BlockBuffer64::new(),
            msg: Ghost(Seq::empty()),
        };
        proof {
            assert(r.msg@.take(0) =~= Seq::<u8>::empty());
            assert(r.msg@.skip(0) =~= Seq::<u8>::empty());
        }
        r
    }

    /// Absorb a chunk of any length; the view grows by exactly that chunk.
    pub fn update(&mut self, data: &[u8])
        requires
            old(self).wf(),
        ensures
            final(self).wf(),
            final(self)@ == old(self)@ + data@,
    {
        let ghost m0 = self.msg@;
        proof {
            assert(m0 + data@.take(0) =~= m0);
        }
        let mut i: usize = 0;
        while i < data.len()
            invariant
                i <= data.len(),
                self.wf(),
                self.msg@ == m0 + data@.take(i as int),
            decreases data.len() - i,
        {
            let b = data[i];
            let ghost m = self.msg@;
            let ghost l = m.len();
            let ghost full = (l - (l % 64)) as int;
            let pos = self.buffer.pos;
            self.buffer.block[pos] = b;
            self.buffer.pos = pos + 1;
            self.msg = Ghost(m + seq![b]);
            proof {
                assert(data@.take(i as int + 1) =~= data@.take(i as int) + seq![b]);
                assert(self.msg@ =~= m0 + data@.take(i as int + 1));
                assert(self.msg@.len() == l + 1);
                assert(self.msg@.take(full) =~= m.take(full));
                assert(self.msg@.skip(full) =~= m.skip(full) + seq![b]);
                assert(self.buffer.block@.take(pos as int + 1) =~= m.skip(full) + seq![b]);
            }
            if self.buffer.pos == 64 {
                md4_compress(&mut self.core.state, &self.buffer.block);
                self.core.block_len = self.core.block_len.wrapping_add(1);
                self.buffer.pos = 0;
                proof {
                    reveal_with_fuel(md4_blocks, 2);
                    let m2 = self.msg@;
                    let l2 = m2.len();
                    assert(l % 64 == 63);
                    assert(l2 % 64 == 0);
                    assert(full == l2 - 64);
                    assert(self.buffer.block@ =~= m2.skip(full));
                    assert(self.buffer.block@.len() == 64);
                    lemma_md4_blocks_concat(md4_init(), m2.take(full), m2.skip(full));
                    assert(m2.take(full) + m2.skip(full) =~= m2);
                    assert(m2.skip(full).take(64) =~= m2.skip(full));
                    assert(m2.take(l2 as int) =~= m2);
                    assert(self.buffer.block@.take(0) =~= m2.skip(l2 as int));
                    assert(l2 / 64 == l / 64 + 1);
                    vstd::arithmetic::div_mod::lemma_add_mod_noop(
                        (l / 64) as int,
                        1,
                        0x1_0000_0000_0000_0000,
                    );
                }
            }
            i += 1;
        }
        proof {
            assert(data@.take(data@.len() as int) =~= data@);
        }
    }

    /// Pad and emit the digest of everything fed so far. The hasher itself
    /// is left untouched, matching a pure read of the stream's digest.
    #[verifier::rlimit(60)]
    pub fn finalize(&self) -> (out: [u8; 16])
        requires
            self.wf(),
        ensures
            out@ == md4_of(self@),
    {
        let mut core = self.core;
        let mut buffer = self.buffer;
        let out = core.finalize_fixed_core(&mut buffer);
        proof {
            let l = self.msg@.len();
            let full = (l - (l % 64)) as int;
            lemma_pad_md_le64_split(self.msg@);
            lemma_md_bitlen_wrap(l);
            assert(self.msg@.take(full).len() % 64 == 0);
            lemma_md4_blocks_concat(
                md4_init(),
                self.msg@.take(full),
                tail_pad_le64(self.msg@.skip(full), md_bitlen64(l)),
            );
        }
        out
    }

    /// Restore the fixed initial state, discarding all buffered input.
    pub fn reset(&mut self)
        ensures
            final(self).wf(),
            final(self)@ == Seq::<u8>::empty(),
    {
        self.core.reset();
        self.buffer.pos = 0;
        self.msg = Ghost(Seq::empty());
        proof {
            assert(self.msg@.take(0) =~= Seq::<u8>::empty());
            assert(self.msg@.skip(0) =~= Seq::<u8>::empty());
            assert(self.buffer.block@.take(0) =~= Seq::<u8>::empty());
        }
    }
}

} // verus!
