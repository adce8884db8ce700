//! The SHA-512 compression primitive: eight 64-bit state words folded
//! over 128-byte blocks, big-endian word order. Only the compression
//! function is exposed; callers drive their own buffering, and an
//! accelerated replacement must be observationally identical to this one.

use vstd::prelude::*;
use crate::words::{wadd64, be64, be64_at, rotr64, rotr64_spec};

verus! {

/// The 80 round constants: the fractional parts of the cube roots of the
/// first eighty primes.
pub const SHA512_K: [u64; 80] = [
    0x428a2f98d728ae22, 0x7137449123ef65cd, 0xb5c0fbcfec4d3b2f, 0xe9b5dba58189dbbc,
    0x3956c25bf348b538, 0x59f111f1b605d019, 0x923f82a4af194f9b, 0xab1c5ed5da6d8118,
    0xd807aa98a3030242, 0x12835b0145706fbe, 0x243185be4ee4b28c, 0x550c7dc3d5ffb4e2,
    0x72be5d74f27b896f, 0x80deb1fe3b1696b1, 0x9bdc06a725c71235, 0xc19bf174cf692694,
    0xe49b69c19ef14ad2, 0xefbe4786384f25e3, 0x0fc19dc68b8cd5b5, 0x240ca1cc77ac9c65,
    0x2de92c6f592b0275, 0x4a7484aa6ea6e483, 0x5cb0a9dcbd41fbd4, 0x76f988da831153b5,
    0x983e5152ee66dfab, 0xa831c66d2db43210, 0xb00327c898fb213f, 0xbf597fc7beef0ee4,
    0xc6e00bf33da88fc2, 0xd5a79147930aa725, 0x06ca6351e003826f, 0x142929670a0e6e70,
    0x27b70a8546d22ffc, 0x2e1b21385c26c926, 0x4d2c6dfc5ac42aed, 0x53380d139d95b3df,
    0x650a73548baf63de, 0x766a0abb3c77b2a8, 0x81c2c92e47edaee6, 0x92722c851482353b,
    0xa2bfe8a14cf10364, 0xa81a664bbc423001, 0xc24b8b70d0f89791, 0xc76c51a30654be30,
    0xd192e819d6ef5218, 0xd69906245565a910, 0xf40e35855771202a, 0x106aa07032bbd1b8,
    0x19a4c116b8d2d0c8, 0x1e376c085141ab53, 0x2748774cdf8eeb99, 0x34b0bcb5e19b48a8,
    0x391c0cb3c5c95a63, 0x4ed8aa4ae3418acb, 0x5b9cca4f7763e373, 0x682e6ff3d6b2b8a3,
    0x748f82ee5defb2fc, 0x78a5636f43172f60, 0x84c87814a1f0ab72, 0x8cc702081a6439ec,
    0x90befffa23631e28, 0xa4506cebde82bde9, 0xbef9a3f7b2c67915, 0xc67178f2e372532b,
    0xca273eceea26619c, 0xd186b8c721c0c207, 0xeada7dd6cde0eb1e, 0xf57d4f7fee6ed178,
    0x06f067aa72176fba, 0x0a637dc5a2c898a6, 0x113f9804bef90dae, 0x1b710b35131c471b,
    0x28db77f523047d84, 0x32caab7b40c72493, 0x3c9ebe0a15c9bebc, 0x431d67c49c100d4c,
    0x4cc5d4becb3e42b6, 0x597f299cfc657e2a, 0x5fcb6fab3ad6faec, 0x6c44198c4a475817,
];

pub open spec fn sha512_ch(e: u64, f: u64, g: u64) -> u64 {
    (e & f) ^ (!e & g)
}

pub open spec fn sha512_maj(a: u64, b: u64, c: u64) -> u64 {
    (a & b) ^ (a & c) ^ (b & c)
}

pub open spec fn sha512_e0(a: u64) -> u64 {
    rotr64_spec(a, 28) ^ rotr64_spec(a, 34) ^ rotr64_spec(a, 39)
}

pub open spec fn sha512_e1(e: u64) -> u64 {
    rotr64_spec(e, 14) ^ rotr64_spec(e, 18) ^ rotr64_spec(e, 41)
}

pub open spec fn sha512_s0(x: u64) -> u64 {
    rotr64_spec(x, 1) ^ rotr64_spec(x, 8) ^ (x >> 7)
}

pub open spec fn sha512_s1(x: u64) -> u64 {
    rotr64_spec(x, 19) ^ rotr64_spec(x, 61) ^ (x >> 6)
}

fn sha512_sched(a: u64, b: u64, c: u64, d: u64) -> (r: u64)
    ensures
        r == wadd64(wadd64(wadd64(a, sha512_s0(b)), c), sha512_s1(d)),
{
    a.wrapping_add(rotr64(b, 1) ^ rotr64(b, 8) ^ (b >> 7)).wrapping_add(c).wrapping_add(
        rotr64(d, 19) ^ rotr64(d, 61) ^ (d >> 6),
    )
}

fn sha512_round1(e: u64, f: u64, g: u64, h: u64, k: u64, w: u64) -> (r: u64)
    ensures
        r == wadd64(wadd64(wadd64(wadd64(h, sha512_e1(e)), sha512_ch(e, f, g)), k), w),
{
    h.wrapping_add(rotr64(e, 14) ^ rotr64(e, 18) ^ rotr64(e, 41)).wrapping_add(
        (e & f) ^ (!e & g),
    ).wrapping_add(k).wrapping_add(w)
}

fn sha512_round2(a: u64, b: u64, c: u64) -> (r: u64)
    ensures
        r == wadd64(sha512_e0(a), sha512_maj(a, b, c)),
{
    (rotr64(a, 28) ^ rotr64(a, 34) ^ rotr64(a, 39)).wrapping_add((a & b) ^ (a & c) ^ (b & c))
}

/// Rounds `i..80`, carried out over a sliding 16-word schedule window:
/// the head of the window is this round's message word, and the word
/// sixteen rounds ahead is recurrently pushed at the tail.
pub open spec fn sha512_rounds(s: (u64, u64, u64, u64, u64, u64, u64, u64), win: (u64, u64, u64, u64, u64, u64, u64, u64, u64, u64, u64, u64, u64, u64, u64, u64), i: nat) -> (u64, u64, u64, u64, u64, u64, u64, u64)
    decreases 80 - i,
{
    if i >= 80 {
        s
    } else {
        let w = win.0;
        let t1 = wadd64(
            wadd64(wadd64(wadd64(s.7, sha512_e1(s.4)), sha512_ch(s.4, s.5, s.6)), SHA512_K[i as int]),
            w,
        );
        let t2 = wadd64(sha512_e0(s.0), sha512_maj(s.0, s.1, s.2));
        let s2 = (wadd64(t1, t2), s.0, s.1, s.2, wadd64(s.3, t1), s.4, s.5, s.6);
        let next = wadd64(wadd64(wadd64(win.0, sha512_s0(win.1)), win.9), sha512_s1(win.14));
        sha512_rounds(s2, (win.1, win.2, win.3, win.4, win.5, win.6, win.7, win.8, win.9, win.10, win.11, win.12, win.13, win.14, win.15, next), i + 1)
    }
}

/// One application of the SHA-512 compression function to a 128-byte
/// block: 80 rounds from the block's schedule, then the feed-forward add.
pub open spec fn sha512_compress_spec(s: (u64, u64, u64, u64, u64, u64, u64, u64), b: Seq<u8>) -> (u64, u64, u64, u64, u64, u64, u64, u64)
    recommends
        b.len() == 128,
{
    let r = sha512_rounds(s, (be64_at(b, 0), be64_at(b, 1), be64_at(b, 2), be64_at(b, 3), be64_at(b, 4), be64_at(b, 5), be64_at(b, 6), be64_at(b, 7), be64_at(b, 8), be64_at(b, 9), be64_at(b, 10), be64_at(b, 11), be64_at(b, 12), be64_at(b, 13), be64_at(b, 14), be64_at(b, 15)), 0);
    (
        wadd64(s.0, r.0),
        wadd64(s.1, r.1),
        wadd64(s.2, r.2),
        wadd64(s.3, r.3),
        wadd64(s.4, r.4),
        wadd64(s.5, r.5),
        wadd64(s.6, r.6),
        wadd64(s.7, r.7),
    )
}

fn sha512_block(s: (u64, u64, u64, u64, u64, u64, u64, u64), block: &[u8; 128]) -> (r: (u64, u64, u64, u64, u64, u64, u64, u64))
    ensures
        r == sha512_compress_spec(s, block@),
{
    let w0 = be64(block[0], block[1], block[2], block[3], block[4], block[5], block[6], block[7]);
    let w1 = be64(block[8], block[9], block[10], block[11], block[12], block[13], block[14], block[15]);
    let w2 = be64(block[16], block[17], block[18], block[19], block[20], block[21], block[22], block[23]);
    let w3 = be64(block[24], block[25], block[26], block[27], block[28], block[29], block[30], block[31]);
    let w4 = be64(block[32], block[33], block[34], block[35], block[36], block[37], block[38], block[39]);
    let w5 = be64(block[40], block[41], block[42], block[43], block[44], block[45], block[46], block[47]);
    let w6 = be64(block[48], block[49], block[50], block[51], block[52], block[53], block[54], block[55]);
    let w7 = be64(block[56], block[57], block[58], block[59], block[60], block[61], block[62], block[63]);
    let w8 = be64(block[64], block[65], block[66], block[67], block[68], block[69], block[70], block[71]);
    let w9 = be64(block[72], block[73], block[74], block[75], block[76], block[77], block[78], block[79]);
    let w10 = be64(block[80], block[81], block[82], block[83], block[84], block[85], block[86], block[87]);
    let w11 = be64(block[88], block[89], block[90], block[91], block[92], block[93], block[94], block[95]);
    let w12 = be64(block[96], block[97], block[98], block[99], block[100], block[101], block[102], block[103]);
    let w13 = be64(block[104], block[105], block[106], block[107], block[108], block[109], block[110], block[111]);
    let w14 = be64(block[112], block[113], block[114], block[115], block[116], block[117], block[118], block[119]);
    let w15 = be64(block[120], block[121], block[122], block[123], block[124], block[125], block[126], block[127]);
    let mut win = (w0, w1, w2, w3, w4, w5, w6, w7, w8, w9, w10, w11, w12, w13, w14, w15);
    let mut st = s;
    let ghost win0 = win;
    let mut i: usize = 0;
    while i < 80
        invariant
            i <= 80,
            sha512_rounds(st, win, i as nat) == sha512_rounds(s, win0, 0),
        decreases 80 - i,
    {
        let t1 = sha512_round1(st.4, st.5, st.6, st.7, SHA512_K[i], win.0);
        let t2 = sha512_round2(st.0, st.1, st.2);
        st = (t1.wrapping_add(t2), st.0, st.1, st.2, st.3.wrapping_add(t1), st.4, st.5, st.6);
        let next = sha512_sched(win.0, win.1, win.9, win.14);
        win = (win.1, win.2, win.3, win.4, win.5, win.6, win.7, win.8, win.9, win.10, win.11, win.12, win.13, win.14, win.15, next);
        i += 1;
    }
    (
        s.0.wrapping_add(st.0),
        s.1.wrapping_add(st.1),
        s.2.wrapping_add(st.2),
        s.3.wrapping_add(st.3),
        s.4.wrapping_add(st.4),
        s.5.wrapping_add(st.5),
        s.6.wrapping_add(st.6),
        s.7.wrapping_add(st.7),
    )
}

/// Fold the compression function over an explicit list of 128-byte
/// blocks, in order.
pub open spec fn sha512_blocks_list(s: (u64, u64, u64, u64, u64, u64, u64, u64), bs: Seq<[u8; 128]>) -> (u64, u64, u64, u64, u64, u64, u64, u64)
    decreases bs.len(),
{
    if bs.len() == 0 {
        s
    } else {
        sha512_blocks_list(sha512_compress_spec(s, bs[0]@), bs.skip(1))
    }
}

/// SHA-512 compression function: fold each block of `blocks` into the
/// state in order. This is the exact contract an accelerated
/// replacement has to honor: a pure transform of the state, nothing else.
pub fn compress512(state: &mut [u64; 8], blocks: &[[u8; 128]])
    ensures
        (
            final(state)[0],
            final(state)[1],
            final(state)[2],
            final(state)[3],
            final(state)[4],
            final(state)[5],
            final(state)[6],
            final(state)[7],
        ) == sha512_blocks_list(
            (
                old(state)[0],
                old(state)[1],
                old(state)[2],
                old(state)[3],
                old(state)[4],
                old(state)[5],
                old(state)[6],
                old(state)[7],
            ),
            blocks@,
        ),
{
    let mut cur = (
        state[0],
        state[1],
        state[2],
        state[3],
        state[4],
        state[5],
        state[6],
        state[7],
    );
    proof {
        assert(blocks@.skip(0) =~= blocks@);
    }
    let ghost orig = cur;
    let mut i: usize = 0;
    while i < blocks.len()
        invariant
            i <= blocks.len(),
            sha512_blocks_list(cur, blocks@.skip(i as int)) == sha512_blocks_list(orig, blocks@),
        decreases blocks.len() - i,
    {
        proof {
            assert(blocks@.skip(i as int)[0] == blocks@[i as int]);
            assert(blocks@.skip(i as int).skip(1) =~= blocks@.skip(i as int + 1));
        }
        cur = sha512_block(cur, &blocks[i]);
        i += 1;
    }
    proof {
        assert(blocks@.skip(blocks@.len() as int) =~= Seq::<[u8; 128]>::empty());
    }
    state[0] = cur.0;
    state[1] = cur.1;
    state[2] = cur.2;
    state[3] = cur.3;
    state[4] = cur.4;
    state[5] = cur.5;
    state[6] = cur.6;
    state[7] = cur.7;
}

} // verus!
