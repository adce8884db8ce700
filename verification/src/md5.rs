//! The MD5 hash: four 32-bit state words, 64-byte blocks, little-endian
//! word order, and a processed-block counter that wraps mod 2^64 (the
//! published "length mod 2^64" semantics, intentionally kept).

use vstd::prelude::*;
use crate::words::{wadd, rotl32, rotl32_spec, le32, le32_at, le32_bytes};
use crate::pad::{pad_md_le64, tail_pad_le64, md_bitlen_from, md_bitlen64, md_pad_zeros, lemma_pad_md_le64_split, lemma_md_bitlen_wrap};
use crate::buffer::BlockBuffer64;

verus! {

pub open spec fn md5_f(x: u32, y: u32, z: u32) -> u32 {
    (x & y) | (!x & z)
}

pub open spec fn md5_g(x: u32, y: u32, z: u32) -> u32 {
    (x & z) | (y & !z)
}

pub open spec fn md5_h(x: u32, y: u32, z: u32) -> u32 {
    x ^ y ^ z
}

pub open spec fn md5_i(x: u32, y: u32, z: u32) -> u32 {
    y ^ (x | !z)
}

fn md5_step_f(a: u32, b: u32, c: u32, d: u32, x: u32, t: u32, s: u32) -> (r: u32)
    requires
        0 < s < 32,
    ensures
        r == wadd(b, rotl32_spec(wadd(wadd(wadd(a, md5_f(b, c, d)), x), t), s)),
{
    b.wrapping_add(rotl32(a.wrapping_add((b & c) | (!b & d)).wrapping_add(x).wrapping_add(t), s))
}

fn md5_step_g(a: u32, b: u32, c: u32, d: u32, x: u32, t: u32, s: u32) -> (r: u32)
    requires
        0 < s < 32,
    ensures
        r == wadd(b, rotl32_spec(wadd(wadd(wadd(a, md5_g(b, c, d)), x), t), s)),
{
    b.wrapping_add(rotl32(a.wrapping_add((b & d) | (c & !d)).wrapping_add(x).wrapping_add(t), s))
}

fn md5_step_h(a: u32, b: u32, c: u32, d: u32, x: u32, t: u32, s: u32) -> (r: u32)
    requires
        0 < s < 32,
    ensures
        r == wadd(b, rotl32_spec(wadd(wadd(wadd(a, md5_h(b, c, d)), x), t), s)),
{
    b.wrapping_add(rotl32(a.wrapping_add(b ^ c ^ d).wrapping_add(x).wrapping_add(t), s))
}

fn md5_step_i(a: u32, b: u32, c: u32, d: u32, x: u32, t: u32, s: u32) -> (r: u32)
    requires
        0 < s < 32,
    ensures
        r == wadd(b, rotl32_spec(wadd(wadd(wadd(a, md5_i(b, c, d)), x), t), s)),
{
    b.wrapping_add(rotl32(a.wrapping_add(c ^ (b | !d)).wrapping_add(x).wrapping_add(t), s))
}

/// One application of the MD5 compression function to a 64-byte block.
#[verifier::opaque]
pub open spec fn md5_compress_spec(s: (u32, u32, u32, u32), b: Seq<u8>) -> (u32, u32, u32, u32)
    recommends
        b.len() == 64,
{
    let x0 = le32_at(b, 0);
    let x1 = le32_at(b, 1);
    let x2 = le32_at(b, 2);
    let x3 = le32_at(b, 3);
    let x4 = le32_at(b, 4);
    let x5 = le32_at(b, 5);
    let x6 = le32_at(b, 6);
    let x7 = le32_at(b, 7);
    let x8 = le32_at(b, 8);
    let x9 = le32_at(b, 9);
    let x10 = le32_at(b, 10);
    let x11 = le32_at(b, 11);
    let x12 = le32_at(b, 12);
    let x13 = le32_at(b, 13);
    let x14 = le32_at(b, 14);
    let x15 = le32_at(b, 15);
    let v0 = wadd(s.1, rotl32_spec(wadd(wadd(wadd(s.0, md5_f(s.1, s.2, s.3)), x0), 0xd76aa478u32), 7));
    let v1 = wadd(v0, rotl32_spec(wadd(wadd(wadd(s.3, md5_f(v0, s.1, s.2)), x1), 0xe8c7b756u32), 12));
    let v2 = wadd(v1, rotl32_spec(wadd(wadd(wadd(s.2, md5_f(v1, v0, s.1)), x2), 0x242070dbu32), 17));
    let v3 = wadd(v2, rotl32_spec(wadd(wadd(wadd(s.1, md5_f(v2, v1, v0)), x3), 0xc1bdceeeu32), 22));
    let v4 = wadd(v3, rotl32_spec(wadd(wadd(wadd(v0, md5_f(v3, v2, v1)), x4), 0xf57c0fafu32), 7));
    let v5 = wadd(v4, rotl32_spec(wadd(wadd(wadd(v1, md5_f(v4, v3, v2)), x5), 0x4787c62au32), 12));
    let v6 = wadd(v5, rotl32_spec(wadd(wadd(wadd(v2, md5_f(v5, v4, v3)), x6), 0xa8304613u32), 17));
    let v7 = wadd(v6, rotl32_spec(wadd(wadd(wadd(v3, md5_f(v6, v5, v4)), x7), 0xfd469501u32), 22));
    let v8 = wadd(v7, rotl32_spec(wadd(wadd(wadd(v4, md5_f(v7, v6, v5)), x8), 0x698098d8u32), 7));
    let v9 = wadd(v8, rotl32_spec(wadd(wadd(wadd(v5, md5_f(v8, v7, v6)), x9), 0x8b44f7afu32), 12));
    let v10 = wadd(v9, rotl32_spec(wadd(wadd(wadd(v6, md5_f(v9, v8, v7)), x10), 0xffff5bb1u32), 17));
    let v11 = wadd(v10, rotl32_spec(wadd(wadd(wadd(v7, md5_f(v10, v9, v8)), x11), 0x895cd7beu32), 22));
    let v12 = wadd(v11, rotl32_spec(wadd(wadd(wadd(v8, md5_f(v11, v10, v9)), x12), 0x6b901122u32), 7));
    let v13 = wadd(v12, rotl32_spec(wadd(wadd(wadd(v9, md5_f(v12, v11, v10)), x13), 0xfd987193u32), 12));
    let v14 = wadd(v13, rotl32_spec(wadd(wadd(wadd(v10, md5_f(v13, v12, v11)), x14), 0xa679438eu32), 17));
    let v15 = wadd(v14, rotl32_spec(wadd(wadd(wadd(v11, md5_f(v14, v13, v12)), x15), 0x49b40821u32), 22));
    let v16 = wadd(v15, rotl32_spec(wadd(wadd(wadd(v12, md5_g(v15, v14, v13)), x1), 0xf61e2562u32), 5));
    let v17 = wadd(v16, rotl32_spec(wadd(wadd(wadd(v13, md5_g(v16, v15, v14)), x6), 0xc040b340u32), 9));
    let v18 = wadd(v17, rotl32_spec(wadd(wadd(wadd(v14, md5_g(v17, v16, v15)), x11), 0x265e5a51u32), 14));
    let v19 = wadd(v18, rotl32_spec(wadd(wadd(wadd(v15, md5_g(v18, v17, v16)), x0), 0xe9b6c7aau32), 20));
    let v20 = wadd(v19, rotl32_spec(wadd(wadd(wadd(v16, md5_g(v19, v18, v17)), x5), 0xd62f105du32), 5));
    let v21 = wadd(v20, rotl32_spec(wadd(wadd(wadd(v17, md5_g(v20, v19, v18)), x10), 0x02441453u32), 9));
    let v22 = wadd(v21, rotl32_spec(wadd(wadd(wadd(v18, md5_g(v21, v20, v19)), x15), 0xd8a1e681u32), 14));
    let v23 = wadd(v22, rotl32_spec(wadd(wadd(wadd(v19, md5_g(v22, v21, v20)), x4), 0xe7d3fbc8u32), 20));
    let v24 = wadd(v23, rotl32_spec(wadd(wadd(wadd(v20, md5_g(v23, v22, v21)), x9), 0x21e1cde6u32), 5));
    let v25 = wadd(v24, rotl32_spec(wadd(wadd(wadd(v21, md5_g(v24, v23, v22)), x14), 0xc33707d6u32), 9));
    let v26 = wadd(v25, rotl32_spec(wadd(wadd(wadd(v22, md5_g(v25, v24, v23)), x3), 0xf4d50d87u32), 14));
    let v27 = wadd(v26, rotl32_spec(wadd(wadd(wadd(v23, md5_g(v26, v25, v24)), x8), 0x455a14edu32), 20));
    let v28 = wadd(v27, rotl32_spec(wadd(wadd(wadd(v24, md5_g(v27, v26, v25)), x13), 0xa9e3e905u32), 5));
    let v29 = wadd(v28, rotl32_spec(wadd(wadd(wadd(v25, md5_g(v28, v27, v26)), x2), 0xfcefa3f8u32), 9));
    let v30 = wadd(v29, rotl32_spec(wadd(wadd(wadd(v26, md5_g(v29, v28, v27)), x7), 0x676f02d9u32), 14));
    let v31 = wadd(v30, rotl32_spec(wadd(wadd(wadd(v27, md5_g(v30, v29, v28)), x12), 0x8d2a4c8au32), 20));
    let v32 = wadd(v31, rotl32_spec(wadd(wadd(wadd(v28, md5_h(v31, v30, v29)), x5), 0xfffa3942u32), 4));
    let v33 = wadd(v32, rotl32_spec(wadd(wadd(wadd(v29, md5_h(v32, v31, v30)), x8), 0x8771f681u32), 11));
    let v34 = wadd(v33, rotl32_spec(wadd(wadd(wadd(v30, md5_h(v33, v32, v31)), x11), 0x6d9d6122u32), 16));
    let v35 = wadd(v34, rotl32_spec(wadd(wadd(wadd(v31, md5_h(v34, v33, v32)), x14), 0xfde5380cu32), 23));
    let v36 = wadd(v35, rotl32_spec(wadd(wadd(wadd(v32, md5_h(v35, v34, v33)), x1), 0xa4beea44u32), 4));
    let v37 = wadd(v36, rotl32_spec(wadd(wadd(wadd(v33, md5_h(v36, v35, v34)), x4), 0x4bdecfa9u32), 11));
    let v38 = wadd(v37, rotl32_spec(wadd(wadd(wadd(v34, md5_h(v37, v36, v35)), x7), 0xf6bb4b60u32), 16));
    let v39 = wadd(v38, rotl32_spec(wadd(wadd(wadd(v35, md5_h(v38, v37, v36)), x10), 0xbebfbc70u32), 23));
    let v40 = wadd(v39, rotl32_spec(wadd(wadd(wadd(v36, md5_h(v39, v38, v37)), x13), 0x289b7ec6u32), 4));
    let v41 = wadd(v40, rotl32_spec(wadd(wadd(wadd(v37, md5_h(v40, v39, v38)), x0), 0xeaa127fau32), 11));
    let v42 = wadd(v41, rotl32_spec(wadd(wadd(wadd(v38, md5_h(v41, v40, v39)), x3), 0xd4ef3085u32), 16));
    let v43 = wadd(v42, rotl32_spec(wadd(wadd(wadd(v39, md5_h(v42, v41, v40)), x6), 0x04881d05u32), 23));
    let v44 = wadd(v43, rotl32_spec(wadd(wadd(wadd(v40, md5_h(v43, v42, v41)), x9), 0xd9d4d039u32), 4));
    let v45 = wadd(v44, rotl32_spec(wadd(wadd(wadd(v41, md5_h(v44, v43, v42)), x12), 0xe6db99e5u32), 11));
    let v46 = wadd(v45, rotl32_spec(wadd(wadd(wadd(v42, md5_h(v45, v44, v43)), x15), 0x1fa27cf8u32), 16));
    let v47 = wadd(v46, rotl32_spec(wadd(wadd(wadd(v43, md5_h(v46, v45, v44)), x2), 0xc4ac5665u32), 23));
    let v48 = wadd(v47, rotl32_spec(wadd(wadd(wadd(v44, md5_i(v47, v46, v45)), x0), 0xf4292244u32), 6));
    let v49 = wadd(v48, rotl32_spec(wadd(wadd(wadd(v45, md5_i(v48, v47, v46)), x7), 0x432aff97u32), 10));
    let v50 = wadd(v49, rotl32_spec(wadd(wadd(wadd(v46, md5_i(v49, v48, v47)), x14), 0xab9423a7u32), 15));
    let v51 = wadd(v50, rotl32_spec(wadd(wadd(wadd(v47, md5_i(v50, v49, v48)), x5), 0xfc93a039u32), 21));
    let v52 = wadd(v51, rotl32_spec(wadd(wadd(wadd(v48, md5_i(v51, v50, v49)), x12), 0x655b59c3u32), 6));
    let v53 = wadd(v52, rotl32_spec(wadd(wadd(wadd(v49, md5_i(v52, v51, v50)), x3), 0x8f0ccc92u32), 10));
    let v54 = wadd(v53, rotl32_spec(wadd(wadd(wadd(v50, md5_i(v53, v52, v51)), x10), 0xffeff47du32), 15));
    let v55 = wadd(v54, rotl32_spec(wadd(wadd(wadd(v51, md5_i(v54, v53, v52)), x1), 0x85845dd1u32), 21));
    let v56 = wadd(v55, rotl32_spec(wadd(wadd(wadd(v52, md5_i(v55, v54, v53)), x8), 0x6fa87e4fu32), 6));
    let v57 = wadd(v56, rotl32_spec(wadd(wadd(wadd(v53, md5_i(v56, v55, v54)), x15), 0xfe2ce6e0u32), 10));
    let v58 = wadd(v57, rotl32_spec(wadd(wadd(wadd(v54, md5_i(v57, v56, v55)), x6), 0xa3014314u32), 15));
    let v59 = wadd(v58, rotl32_spec(wadd(wadd(wadd(v55, md5_i(v58, v57, v56)), x13), 0x4e0811a1u32), 21));
    let v60 = wadd(v59, rotl32_spec(wadd(wadd(wadd(v56, md5_i(v59, v58, v57)), x4), 0xf7537e82u32), 6));
    let v61 = wadd(v60, rotl32_spec(wadd(wadd(wadd(v57, md5_i(v60, v59, v58)), x11), 0xbd3af235u32), 10));
    let v62 = wadd(v61, rotl32_spec(wadd(wadd(wadd(v58, md5_i(v61, v60, v59)), x2), 0x2ad7d2bbu32), 15));
    let v63 = wadd(v62, rotl32_spec(wadd(wadd(wadd(v59, md5_i(v62, v61, v60)), x9), 0xeb86d391u32), 21));
    (wadd(s.0, v60), wadd(s.1, v63), wadd(s.2, v62), wadd(s.3, v61))
}

/// The MD5 compression function: folds one 64-byte block into the state.
#[verifier::rlimit(60)]
pub fn md5_compress(state: &mut (u32, u32, u32, u32), block: &[u8; 64])
    ensures
        *final(state) == md5_compress_spec(*old(state), block@),
{
    proof {
        reveal(md5_compress_spec);
    }
    let x0 = le32(block[0], block[1], block[2], block[3]);
    let x1 = le32(block[4], block[5], block[6], block[7]);
    let x2 = le32(block[8], block[9], block[10], block[11]);
    let x3 = le32(block[12], block[13], block[14], block[15]);
    let x4 = le32(block[16], block[17], block[18], block[19]);
    let x5 = le32(block[20], block[21], block[22], block[23]);
    let x6 = le32(block[24], block[25], block[26], block[27]);
    let x7 = le32(block[28], block[29], block[30], block[31]);
    let x8 = le32(block[32], block[33], block[34], block[35]);
    let x9 = le32(block[36], block[37], block[38], block[39]);
    let x10 = le32(block[40], block[41], block[42], block[43]);
    let x11 = le32(block[44], block[45], block[46], block[47]);
    let x12 = le32(block[48], block[49], block[50], block[51]);
    let x13 = le32(block[52], block[53], block[54], block[55]);
    let x14 = le32(block[56], block[57], block[58], block[59]);
    let x15 = le32(block[60], block[61], block[62], block[63]);
    let mut a = state.0;
    let mut b = state.1;
    let mut c = state.2;
    let mut d = state.3;
    let t = md5_step_f(a, b, c, d, x0, 0xd76aa478u32, 7);
    a = d; d = c; c = b; b = t;
    let t = md5_step_f(a, b, c, d, x1, 0xe8c7b756u32, 12);
    a = d; d = c; c = b; b = t;
    let t = md5_step_f(a, b, c, d, x2, 0x242070dbu32, 17);
    a = d; d = c; c = b; b = t;
    let t = md5_step_f(a, b, c, d, x3, 0xc1bdceeeu32, 22);
    a = d; d = c; c = b; b = t;
    let t = md5_step_f(a, b, c, d, x4, 0xf57c0fafu32, 7);
    a = d; d = c; c = b; b = t;
    let t = md5_step_f(a, b, c, d, x5, 0x4787c62au32, 12);
    a = d; d = c; c = b; b = t;
    let t = md5_step_f(a, b, c, d, x6, 0xa8304613u32, 17);
    a = d; d = c; c = b; b = t;
    let t = md5_step_f(a, b, c, d, x7, 0xfd469501u32, 22);
    a = d; d = c; c = b; b = t;
    let t = md5_step_f(a, b, c, d, x8, 0x698098d8u32, 7);
    a = d; d = c; c = b; b = t;
    let t = md5_step_f(a, b, c, d, x9, 0x8b44f7afu32, 12);
    a = d; d = c; c = b; b = t;
    let t = md5_step_f(a, b, c, d, x10, 0xffff5bb1u32, 17);
    a = d; d = c; c = b; b = t;
    let t = md5_step_f(a, b, c, d, x11, 0x895cd7beu32, 22);
    a = d; d = c; c = b; b = t;
    let t = md5_step_f(a, b, c, d, x12, 0x6b901122u32, 7);
    a = d; d = c; c = b; b = t;
    let t = md5_step_f(a, b, c, d, x13, 0xfd987193u32, 12);
    a = d; d = c; c = b; b = t;
    let t = md5_step_f(a, b, c, d, x14, 0xa679438eu32, 17);
    a = d; d = c; c = b; b = t;
    let t = md5_step_f(a, b, c, d, x15, 0x49b40821u32, 22);
    a = d; d = c; c = b; b = t;
    let t = md5_step_g(a, b, c, d, x1, 0xf61e2562u32, 5);
    a = d; d = c; c = b; b = t;
    let t = md5_step_g(a, b, c, d, x6, 0xc040b340u32, 9);
    a = d; d = c; c = b; b = t;
    let t = md5_step_g(a, b, c, d, x11, 0x265e5a51u32, 14);
    a = d; d = c; c = b; b = t;
    let t = md5_step_g(a, b, c, d, x0, 0xe9b6c7aau32, 20);
    a = d; d = c; c = b; b = t;
    let t = md5_step_g(a, b, c, d, x5, 0xd62f105du32, 5);
    a = d; d = c; c = b; b = t;
    let t = md5_step_g(a, b, c, d, x10, 0x02441453u32, 9);
    a = d; d = c; c = b; b = t;
    let t = md5_step_g(a, b, c, d, x15, 0xd8a1e681u32, 14);
    a = d; d = c; c = b; b = t;
    let t = md5_step_g(a, b, c, d, x4, 0xe7d3fbc8u32, 20);
    a = d; d = c; c = b; b = t;
    let t = md5_step_g(a, b, c, d, x9, 0x21e1cde6u32, 5);
    a = d; d = c; c = b; b = t;
    let t = md5_step_g(a, b, c, d, x14, 0xc33707d6u32, 9);
    a = d; d = c; c = b; b = t;
    let t = md5_step_g(a, b, c, d, x3, 0xf4d50d87u32, 14);
    a = d; d = c; c = b; b = t;
    let t = md5_step_g(a, b, c, d, x8, 0x455a14edu32, 20);
    a = d; d = c; c = b; b = t;
    let t = md5_step_g(a, b, c, d, x13, 0xa9e3e905u32, 5);
    a = d; d = c; c = b; b = t;
    let t = md5_step_g(a, b, c, d, x2, 0xfcefa3f8u32, 9);
    a = d; d = c; c = b; b = t;
    let t = md5_step_g(a, b, c, d, x7, 0x676f02d9u32, 14);
    a = d; d = c; c = b; b = t;
    let t = md5_step_g(a, b, c, d, x12, 0x8d2a4c8au32, 20);
    a = d; d = c; c = b; b = t;
    let t = md5_step_h(a, b, c, d, x5, 0xfffa3942u32, 4);
    a = d; d = c; c = b; b = t;
    let t = md5_step_h(a, b, c, d, x8, 0x8771f681u32, 11);
    a = d; d = c; c = b; b = t;
    let t = md5_step_h(a, b, c, d, x11, 0x6d9d6122u32, 16);
    a = d; d = c; c = b; b = t;
    let t = md5_step_h(a, b, c, d, x14, 0xfde5380cu32, 23);
    a = d; d = c; c = b; b = t;
    let t = md5_step_h(a, b, c, d, x1, 0xa4beea44u32, 4);
    a = d; d = c; c = b; b = t;
    let t = md5_step_h(a, b, c, d, x4, 0x4bdecfa9u32, 11);
    a = d; d = c; c = b; b = t;
    let t = md5_step_h(a, b, c, d, x7, 0xf6bb4b60u32, 16);
    a = d; d = c; c = b; b = t;
    let t = md5_step_h(a, b, c, d, x10, 0xbebfbc70u32, 23);
    a = d; d = c; c = b; b = t;
    let t = md5_step_h(a, b, c, d, x13, 0x289b7ec6u32, 4);
    a = d; d = c; c = b; b = t;
    let t = md5_step_h(a, b, c, d, x0, 0xeaa127fau32, 11);
    a = d; d = c; c = b; b = t;
    let t = md5_step_h(a, b, c, d, x3, 0xd4ef3085u32, 16);
    a = d; d = c; c = b; b = t;
    let t = md5_step_h(a, b, c, d, x6, 0x04881d05u32, 23);
    a = d; d = c; c = b; b = t;
    let t = md5_step_h(a, b, c, d, x9, 0xd9d4d039u32, 4);
    a = d; d = c; c = b; b = t;
    let t = md5_step_h(a, b, c, d, x12, 0xe6db99e5u32, 11);
    a = d; d = c; c = b; b = t;
    let t = md5_step_h(a, b, c, d, x15, 0x1fa27cf8u32, 16);
    a = d; d = c; c = b; b = t;
    let t = md5_step_h(a, b, c, d, x2, 0xc4ac5665u32, 23);
    a = d; d = c; c = b; b = t;
    let t = md5_step_i(a, b, c, d, x0, 0xf4292244u32, 6);
    a = d; d = c; c = b; b = t;
    let t = md5_step_i(a, b, c, d, x7, 0x432aff97u32, 10);
    a = d; d = c; c = b; b = t;
    let t = md5_step_i(a, b, c, d, x14, 0xab9423a7u32, 15);
    a = d; d = c; c = b; b = t;
    let t = md5_step_i(a, b, c, d, x5, 0xfc93a039u32, 21);
    a = d; d = c; c = b; b = t;
    let t = md5_step_i(a, b, c, d, x12, 0x655b59c3u32, 6);
    a = d; d = c; c = b; b = t;
    let t = md5_step_i(a, b, c, d, x3, 0x8f0ccc92u32, 10);
    a = d; d = c; c = b; b = t;
    let t = md5_step_i(a, b, c, d, x10, 0xffeff47du32, 15);
    a = d; d = c; c = b; b = t;
    let t = md5_step_i(a, b, c, d, x1, 0x85845dd1u32, 21);
    a = d; d = c; c = b; b = t;
    let t = md5_step_i(a, b, c, d, x8, 0x6fa87e4fu32, 6);
    a = d; d = c; c = b; b = t;
    let t = md5_step_i(a, b, c, d, x15, 0xfe2ce6e0u32, 10);
    a = d; d = c; c = b; b = t;
    let t = md5_step_i(a, b, c, d, x6, 0xa3014314u32, 15);
    a = d; d = c; c = b; b = t;
    let t = md5_step_i(a, b, c, d, x13, 0x4e0811a1u32, 21);
    a = d; d = c; c = b; b = t;
    let t = md5_step_i(a, b, c, d, x4, 0xf7537e82u32, 6);
    a = d; d = c; c = b; b = t;
    let t = md5_step_i(a, b, c, d, x11, 0xbd3af235u32, 10);
    a = d; d = c; c = b; b = t;
    let t = md5_step_i(a, b, c, d, x2, 0x2ad7d2bbu32, 15);
    a = d; d = c; c = b; b = t;
    let t = md5_step_i(a, b, c, d, x9, 0xeb86d391u32, 21);
    a = d; d = c; c = b; b = t;
    state.0 = state.0.wrapping_add(a);
    state.1 = state.1.wrapping_add(b);
    state.2 = state.2.wrapping_add(c);
    state.3 = state.3.wrapping_add(d);
}

pub open spec fn md5_init() -> (u32, u32, u32, u32) {
    (0x67452301u32, 0xefcdab89u32, 0x98badcfeu32, 0x10325476u32)
}

/// Fold the compression function over every complete 64-byte block of `m`.
pub open spec fn md5_blocks(s: (u32, u32, u32, u32), m: Seq<u8>) -> (u32, u32, u32, u32)
    decreases m.len(),
{
    if m.len() < 64 {
        s
    } else {
        md5_blocks(md5_compress_spec(s, m.take(64)), m.skip(64))
    }
}

/// Folding a block-aligned prefix and then the rest equals folding the
/// concatenation: the engine of chunk-invariance.
pub proof fn lemma_md5_blocks_concat(s: (u32, u32, u32, u32), a: Seq<u8>, b: Seq<u8>)
    requires
        a.len() % 64 == 0,
    ensures
        md5_blocks(s, a + b) == md5_blocks(md5_blocks(s, a), b),
    decreases a.len(),
{
    if a.len() == 0 {
        assert(a + b =~= b);
    } else {
        assert(a.len() >= 64);
        assert((a + b).take(64) =~= a.take(64));
        assert((a + b).skip(64) =~= a.skip(64) + b);
        assert(a.skip(64).len() % 64 == 0);
        lemma_md5_blocks_concat(md5_compress_spec(s, a.take(64)), a.skip(64), b);
    }
}

/// Little-endian serialization of the final state.
pub open spec fn md5_output(s: (u32, u32, u32, u32)) -> Seq<u8> {
    le32_bytes(s.0) + le32_bytes(s.1) + le32_bytes(s.2) + le32_bytes(s.3)
}

/// The MD5 digest of an arbitrary byte sequence.
pub open spec fn md5_of(m: Seq<u8>) -> Seq<u8> {
    md5_output(md5_blocks(md5_init(), pad_md_le64(m)))
}

/// Fold over an explicit list of blocks, as `update_blocks` consumes them.
pub open spec fn md5_blocks_list(s: (u32, u32, u32, u32), bs: Seq<[u8; 64]>) -> (u32, u32, u32, u32)
    decreases bs.len(),
{
    if bs.len() == 0 {
        s
    } else {
        md5_blocks_list(md5_compress_spec(s, bs[0]@), bs.skip(1))
    }
}

/// Core MD5 hasher state: the four chaining words and the wrapped count
/// of processed blocks.
#[derive(Clone, Copy, Debug)]
pub struct Md5Core {
    pub block_len: u64,
    pub state: (u32, u32, u32, u32),
}

impl Default for Md5Core {
    fn default() -> (r: Self)
        ensures
            r.state == md5_init(),
            r.block_len == 0,
    {
        Md5Core { block_len: 0, state: (0x67452301u32, 0xefcdab89u32, 0x98badcfeu32, 0x10325476u32) }
    }
}

impl Md5Core {
    pub fn reset(&mut self)
        ensures
            final(self).state == md5_init(),
            final(self).block_len == 0,
    {
        self.block_len = 0;
        self.state = (0x67452301u32, 0xefcdab89u32, 0x98badcfeu32, 0x10325476u32);
    }

    /// Consume a list of complete blocks; the block counter wraps mod 2^64.
    pub fn update_blocks(&mut self, blocks: &[[u8; 64]])
        ensures
            final(self).state == md5_blocks_list(old(self).state, blocks@),
            final(self).block_len == vstd::wrapping::u64_specs::wrapping_add(
                old(self).block_len,
                blocks@.len() as u64,
            ),
    {
        self.block_len = self.block_len.wrapping_add(blocks.len() as u64);
        proof {
            assert(blocks@.skip(0) =~= blocks@);
        }
        let mut i: usize = 0;
        while i < blocks.len()
            invariant
                i <= blocks.len(),
                self.block_len == vstd::wrapping::u64_specs::wrapping_add(
                    old(self).block_len,
                    blocks@.len() as u64,
                ),
                md5_blocks_list(self.state, blocks@.skip(i as int)) == md5_blocks_list(
                    old(self).state,
                    blocks@,
                ),
            decreases blocks.len() - i,
        {
            proof {
                assert(blocks@.skip(i as int)[0] == blocks@[i as int]);
                assert(blocks@.skip(i as int).skip(1) =~= blocks@.skip(i as int + 1));
            }
            let blk = blocks[i];
            md5_compress(&mut self.state, &blk);
            i += 1;
        }
        proof {
            assert(blocks@.skip(blocks@.len() as int) =~= Seq::<[u8; 64]>::empty());
        }
    }

    /// Pad the buffered tail, fold the final block or blocks, and emit the
    /// 16 digest bytes little-endian.
    pub fn finalize_fixed_core(&mut self, buffer: &mut BlockBuffer64) -> (out: [u8; 16])
        requires
            old(buffer).wf(),
        ensures
            out@ == md5_output(
                md5_blocks(
                    old(self).state,
                    tail_pad_le64(
                        old(buffer)@,
                        md_bitlen_from(old(self).block_len, old(buffer).pos as u64),
                    ),
                ),
            ),
    {
        let bitlen = self.block_len.wrapping_mul(64).wrapping_add(buffer.pos as u64).wrapping_mul(8);
        let pos = buffer.pos;
        let ghost tail = buffer@;
        let ghost padded = tail_pad_le64(tail, bitlen);
        buffer.block[pos] = 0x80;
        let mut i: usize = pos + 1;
        while i < 64
            invariant
                pos + 1 <= i <= 64,
                buffer.block@.len() == 64,
                buffer.block@.take(pos as int) == tail,
                buffer.block@[pos as int] == 0x80u8,
                forall|j: int| pos < j < i ==> buffer.block@[j] == 0u8,
            decreases 64 - i,
        {
            buffer.block[i] = 0;
            i += 1;
        }
        if pos < 56 {
            buffer.block[56] = bitlen as u8;
            buffer.block[57] = (bitlen >> 8) as u8;
            buffer.block[58] = (bitlen >> 16) as u8;
            buffer.block[59] = (bitlen >> 24) as u8;
            buffer.block[60] = (bitlen >> 32) as u8;
            buffer.block[61] = (bitlen >> 40) as u8;
            buffer.block[62] = (bitlen >> 48) as u8;
            buffer.block[63] = (bitlen >> 56) as u8;
            proof {
                reveal_with_fuel(md5_blocks, 3);
                assert(md_pad_zeros(tail.len()) == 55 - pos);
                assert(padded.len() == 64);
                assert(buffer.block@ =~= padded);
                assert(padded.skip(64).len() == 0);
            }
            md5_compress(&mut self.state, &buffer.block);
            proof {
                assert(padded.take(64) =~= buffer.block@);
                assert(self.state == md5_blocks(old(self).state, padded));
            }
        } else {
            md5_compress(&mut self.state, &buffer.block);
            let ghost first = buffer.block@;
            let mut last = [0u8; 64];
            last[56] = bitlen as u8;
            last[57] = (bitlen >> 8) as u8;
            last[58] = (bitlen >> 16) as u8;
            last[59] = (bitlen >> 24) as u8;
            last[60] = (bitlen >> 32) as u8;
            last[61] = (bitlen >> 40) as u8;
            last[62] = (bitlen >> 48) as u8;
            last[63] = (bitlen >> 56) as u8;
            md5_compress(&mut self.state, &last);
            proof {
                reveal_with_fuel(md5_blocks, 3);
                assert(md_pad_zeros(tail.len()) == 119 - pos);
                assert(padded.len() == 128);
                assert(padded.take(64) =~= first);
                assert(padded.skip(64).take(64) =~= last@);
                assert(padded.skip(64).skip(64).len() == 0);
                assert(padded.skip(64) =~= padded.skip(64).take(64) + padded.skip(64).skip(64));
                assert(self.state == md5_blocks(old(self).state, padded));
            }
        }
        let mut out = [0u8; 16];
        out[0] = self.state.0 as u8;
        out[1] = (self.state.0 >> 8) as u8;
        out[2] = (self.state.0 >> 16) as u8;
        out[3] = (self.state.0 >> 24) as u8;
        out[4] = self.state.1 as u8;
        out[5] = (self.state.1 >> 8) as u8;
        out[6] = (self.state.1 >> 16) as u8;
        out[7] = (self.state.1 >> 24) as u8;
        out[8] = self.state.2 as u8;
        out[9] = (self.state.2 >> 8) as u8;
        out[10] = (self.state.2 >> 16) as u8;
        out[11] = (self.state.2 >> 24) as u8;
        out[12] = self.state.3 as u8;
        out[13] = (self.state.3 >> 8) as u8;
        out[14] = (self.state.3 >> 16) as u8;
        out[15] = (self.state.3 >> 24) as u8;
        proof {
            assert(out@ =~= md5_output(self.state));
        }
        out
    }
}


/// Streaming MD5 hasher. Its view is the exact byte sequence fed so far;
/// `finalize` is pinned to `md5_of` of that sequence, so how the input was
/// chunked across `update` calls can never affect the digest.
#[derive(Clone, Copy)]
pub struct Md5 {
    core: Md5Core,
    buffer: BlockBuffer64,
    msg: Ghost<Seq<u8>>,
}

impl View for Md5 {
    type V = Seq<u8>;

    closed spec fn view(&self) -> Seq<u8> {
        self.msg@
    }
}

impl Md5 {
    /// The compressed prefix, buffered tail, and wrapped block counter all
    /// agree with the message fed so far.
    pub closed spec fn wf(&self) -> bool {
        let l = self.msg@.len();
        let full = (l - (l % 64)) as int;
        &&& self.buffer.wf()
        &&& self.buffer.pos == l % 64
        &&& self.buffer@ == self.msg@.skip(full)
        &&& self.core.state == md5_blocks(md5_init(), self.msg@.take(full))
        &&& self.core.block_len == (l / 64) % 0x1_0000_0000_0000_0000
    }

    pub fn new() -> (r: Self)
        ensures
            r.wf(),
            r@ == Seq::<u8>::empty(),
    {
        let r = Md5 {
            core: Default::default(),
            buffer: BlockBuffer64::new(),
            msg: Ghost(Seq::empty()),
        };
        proof {
            assert(r.msg@.take(0) =~= Seq::<u8>::empty());
            assert(r.msg@.skip(0) =~= Seq::<u8>::empty());
        }
        r
    }

    /// Absorb a chunk of any length; the view grows by exactly that chunk.
    pub fn update(&mut self, data: &[u8])
        requires
            old(self).wf(),
        ensures
            final(self).wf(),
            final(self)@ == old(self)@ + data@,
    {
        let ghost m0 = self.msg@;
        proof {
            assert(m0 + data@.take(0) =~= m0);
        }
        let mut i: usize = 0;
        while i < data.len()
            invariant
                i <= data.len(),
                self.wf(),
                self.msg@ == m0 + data@.take(i as int),
            decreases data.len() - i,
        {
            let b = data[i];
            let ghost m = self.msg@;
            let ghost l = m.len();
            let ghost full = (l - (l % 64)) as int;
            let pos = self.buffer.pos;
            self.buffer.block[pos] = b;
            self.buffer.pos = pos + 1;
            self.msg = Ghost(m + seq![b]);
            proof {
                assert(data@.take(i as int + 1) =~= data@.take(i as int) + seq![b]);
                assert(self.msg@ =~= m0 + data@.take(i as int + 1));
                assert(self.msg@.len() == l + 1);
                assert(self.msg@.take(full) =~= m.take(full));
                assert(self.msg@.skip(full) =~= m.skip(full) + seq![b]);
                assert(self.buffer.block@.take(pos as int + 1) =~= m.skip(full) + seq![b]);
            }
            if self.buffer.pos == 64 {
                md5_compress(&mut self.core.state, &self.buffer.block);
                self.core.block_len = self.core.block_len.wrapping_add(1);
                self.buffer.pos = 0;
                proof {
                    reveal_with_fuel(md5_blocks, 2);
                    let m2 = self.msg@;
                    let l2 = m2.len();
                    assert(l % 64 == 63);
                    assert(l2 % 64 == 0);
                    assert(full == l2 - 64);
                    assert(self.buffer.block@ =~= m2.skip(full));
                    assert(self.buffer.block@.len() == 64);
                    lemma_md5_blocks_concat(md5_init(), m2.take(full), m2.skip(full));
                    assert(m2.take(full) + m2.skip(full) =~= m2);
                    assert(m2.skip(full).take(64) =~= m2.skip(full));
                    assert(m2.take(l2 as int) =~= m2);
                    assert(self.buffer.block@.take(0) =~= m2.skip(l2 as int));
                    assert(l2 / 64 == l / 64 + 1);
                    vstd::arithmetic::div_mod::lemma_add_mod_noop(
                        (l / 64) as int,
                        1,
                        0x1_0000_0000_0000_0000,
                    );
                }
            }
            i += 1;
        }
        proof {
            assert(data@.take(data@.len() as int) =~= data@);
        }
    }

    /// Pad and emit the digest of everything fed so far. The hasher itself
    /// is left untouched, matching a pure read of the stream's digest.
    #[verifier::rlimit(60)]
    pub fn finalize(&self) -> (out: [u8; 16])
        requires
            self.wf(),
        ensures
            out@ == md5_of(self@),
    {
        let mut core = self.core;
        let mut buffer = self.buffer;
        let out = core.finalize_fixed_core(&mut buffer);
        proof {
            let l = self.msg@.len();
            let full = (l - (l % 64)) as int;
            lemma_pad_md_le64_split(self.msg@);
            lemma_md_bitlen_wrap(l);
            assert(self.msg@.take(full).len() % 64 == 0);
            lemma_md5_blocks_concat(
                md5_init(),
                self.msg@.take(full),
                tail_pad_le64(self.msg@.skip(full), md_bitlen64(l)),
            );
        }
        out
    }

    /// Restore the fixed initial state, discarding all buffered input.
    pub fn reset(&mut self)
        ensures
            final(self).wf(),
            final(self)@ == Seq::<u8>::empty(),
    {
        self.core.reset();
        self.buffer.pos = 0;
        self.msg = Ghost(Seq::empty());
        proof {
            assert(self.msg@.take(0) =~= Seq::<u8>::empty());
            assert(self.msg@.skip(0) =~= Seq::<u8>::empty());
            assert(self.buffer.block@.take(0) =~= Seq::<u8>::empty());
        }
    }
}

} // verus!
