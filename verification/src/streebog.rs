//! The Streebog (GOST R 34.11-2012) hash family: a keyed 512-bit
//! permutation over eight 64-bit words, a 256-bit message-length counter
//! kept as eight 32-bit limbs, and a byte-wise carry-chained running sum
//! of every block, folded in twice at finalization.

use vstd::prelude::*;
use crate::words::{le64, le64_at, le64_bytes, zero_bytes};
use crate::streebog_tables::{ST0, ST1, ST2, ST3, ST4, ST5, ST6, ST7};
use crate::buffer::BlockBuffer64;

verus! {

/// Word-wise XOR of two 512-bit states.
pub open spec fn xor8(a: (u64, u64, u64, u64, u64, u64, u64, u64), b: (u64, u64, u64, u64, u64, u64, u64, u64)) -> (u64, u64, u64, u64, u64, u64, u64, u64) {
    (
        a.0 ^ b.0,
        a.1 ^ b.1,
        a.2 ^ b.2,
        a.3 ^ b.3,
        a.4 ^ b.4,
        a.5 ^ b.5,
        a.6 ^ b.6,
        a.7 ^ b.7,
    )
}

pub open spec fn zero8() -> (u64, u64, u64, u64, u64, u64, u64, u64) {
    (0u64, 0u64, 0u64, 0u64, 0u64, 0u64, 0u64, 0u64)
}

/// The shared diffusion transform: every output word XORs eight table
/// rows selected by one byte column of the input words.
#[verifier::opaque]
pub open spec fn lps_spec(s: (u64, u64, u64, u64, u64, u64, u64, u64)) -> (u64, u64, u64, u64, u64, u64, u64, u64) {
    (
        ST0[(s.0 as u8) as int] ^ ST1[(s.1 as u8) as int] ^ ST2[(s.2 as u8) as int] ^ ST3[(s.3 as u8) as int] ^ ST4[(s.4 as u8) as int] ^ ST5[(s.5 as u8) as int] ^ ST6[(s.6 as u8) as int] ^ ST7[(s.7 as u8) as int],
        ST0[((s.0 >> 8) as u8) as int] ^ ST1[((s.1 >> 8) as u8) as int] ^ ST2[((s.2 >> 8) as u8) as int] ^ ST3[((s.3 >> 8) as u8) as int] ^ ST4[((s.4 >> 8) as u8) as int] ^ ST5[((s.5 >> 8) as u8) as int] ^ ST6[((s.6 >> 8) as u8) as int] ^ ST7[((s.7 >> 8) as u8) as int],
        ST0[((s.0 >> 16) as u8) as int] ^ ST1[((s.1 >> 16) as u8) as int] ^ ST2[((s.2 >> 16) as u8) as int] ^ ST3[((s.3 >> 16) as u8) as int] ^ ST4[((s.4 >> 16) as u8) as int] ^ ST5[((s.5 >> 16) as u8) as int] ^ ST6[((s.6 >> 16) as u8) as int] ^ ST7[((s.7 >> 16) as u8) as int],
        ST0[((s.0 >> 24) as u8) as int] ^ ST1[((s.1 >> 24) as u8) as int] ^ ST2[((s.2 >> 24) as u8) as int] ^ ST3[((s.3 >> 24) as u8) as int] ^ ST4[((s.4 >> 24) as u8) as int] ^ ST5[((s.5 >> 24) as u8) as int] ^ ST6[((s.6 >> 24) as u8) as int] ^ ST7[((s.7 >> 24) as u8) as int],
        ST0[((s.0 >> 32) as u8) as int] ^ ST1[((s.1 >> 32) as u8) as int] ^ ST2[((s.2 >> 32) as u8) as int] ^ ST3[((s.3 >> 32) as u8) as int] ^ ST4[((s.4 >> 32) as u8) as int] ^ ST5[((s.5 >> 32) as u8) as int] ^ ST6[((s.6 >> 32) as u8) as int] ^ ST7[((s.7 >> 32) as u8) as int],
        ST0[((s.0 >> 40) as u8) as int] ^ ST1[((s.1 >> 40) as u8) as int] ^ ST2[((s.2 >> 40) as u8) as int] ^ ST3[((s.3 >> 40) as u8) as int] ^ ST4[((s.4 >> 40) as u8) as int] ^ ST5[((s.5 >> 40) as u8) as int] ^ ST6[((s.6 >> 40) as u8) as int] ^ ST7[((s.7 >> 40) as u8) as int],
        ST0[((s.0 >> 48) as u8) as int] ^ ST1[((s.1 >> 48) as u8) as int] ^ ST2[((s.2 >> 48) as u8) as int] ^ ST3[((s.3 >> 48) as u8) as int] ^ ST4[((s.4 >> 48) as u8) as int] ^ ST5[((s.5 >> 48) as u8) as int] ^ ST6[((s.6 >> 48) as u8) as int] ^ ST7[((s.7 >> 48) as u8) as int],
        ST0[((s.0 >> 56) as u8) as int] ^ ST1[((s.1 >> 56) as u8) as int] ^ ST2[((s.2 >> 56) as u8) as int] ^ ST3[((s.3 >> 56) as u8) as int] ^ ST4[((s.4 >> 56) as u8) as int] ^ ST5[((s.5 >> 56) as u8) as int] ^ ST6[((s.6 >> 56) as u8) as int] ^ ST7[((s.7 >> 56) as u8) as int],
    )
}

/// XOR `n` into `h`, then apply the substitution-diffusion transform.
pub fn lps(h: &mut (u64, u64, u64, u64, u64, u64, u64, u64), n: &(u64, u64, u64, u64, u64, u64, u64, u64))
    ensures
        *final(h) == lps_spec(xor8(*old(h), *n)),
{
    proof {
        reveal(lps_spec);
    }
    let s = (
        h.0 ^ n.0,
        h.1 ^ n.1,
        h.2 ^ n.2,
        h.3 ^ n.3,
        h.4 ^ n.4,
        h.5 ^ n.5,
        h.6 ^ n.6,
        h.7 ^ n.7,
    );
    let r0 = ST0[(s.0 as u8) as usize] ^ ST1[(s.1 as u8) as usize] ^ ST2[(s.2 as u8) as usize] ^ ST3[(s.3 as u8) as usize] ^ ST4[(s.4 as u8) as usize] ^ ST5[(s.5 as u8) as usize] ^ ST6[(s.6 as u8) as usize] ^ ST7[(s.7 as u8) as usize];
    let r1 = ST0[((s.0 >> 8) as u8) as usize] ^ ST1[((s.1 >> 8) as u8) as usize] ^ ST2[((s.2 >> 8) as u8) as usize] ^ ST3[((s.3 >> 8) as u8) as usize] ^ ST4[((s.4 >> 8) as u8) as usize] ^ ST5[((s.5 >> 8) as u8) as usize] ^ ST6[((s.6 >> 8) as u8) as usize] ^ ST7[((s.7 >> 8) as u8) as usize];
    let r2 = ST0[((s.0 >> 16) as u8) as usize] ^ ST1[((s.1 >> 16) as u8) as usize] ^ ST2[((s.2 >> 16) as u8) as usize] ^ ST3[((s.3 >> 16) as u8) as usize] ^ ST4[((s.4 >> 16) as u8) as usize] ^ ST5[((s.5 >> 16) as u8) as usize] ^ ST6[((s.6 >> 16) as u8) as usize] ^ ST7[((s.7 >> 16) as u8) as usize];
    let r3 = ST0[((s.0 >> 24) as u8) as usize] ^ ST1[((s.1 >> 24) as u8) as usize] ^ ST2[((s.2 >> 24) as u8) as usize] ^ ST3[((s.3 >> 24) as u8) as usize] ^ ST4[((s.4 >> 24) as u8) as usize] ^ ST5[((s.5 >> 24) as u8) as usize] ^ ST6[((s.6 >> 24) as u8) as usize] ^ ST7[((s.7 >> 24) as u8) as usize];
    let r4 = ST0[((s.0 >> 32) as u8) as usize] ^ ST1[((s.1 >> 32) as u8) as usize] ^ ST2[((s.2 >> 32) as u8) as usize] ^ ST3[((s.3 >> 32) as u8) as usize] ^ ST4[((s.4 >> 32) as u8) as usize] ^ ST5[((s.5 >> 32) as u8) as usize] ^ ST6[((s.6 >> 32) as u8) as usize] ^ ST7[((s.7 >> 32) as u8) as usize];
    let r5 = ST0[((s.0 >> 40) as u8) as usize] ^ ST1[((s.1 >> 40) as u8) as usize] ^ ST2[((s.2 >> 40) as u8) as usize] ^ ST3[((s.3 >> 40) as u8) as usize] ^ ST4[((s.4 >> 40) as u8) as usize] ^ ST5[((s.5 >> 40) as u8) as usize] ^ ST6[((s.6 >> 40) as u8) as usize] ^ ST7[((s.7 >> 40) as u8) as usize];
    let r6 = ST0[((s.0 >> 48) as u8) as usize] ^ ST1[((s.1 >> 48) as u8) as usize] ^ ST2[((s.2 >> 48) as u8) as usize] ^ ST3[((s.3 >> 48) as u8) as usize] ^ ST4[((s.4 >> 48) as u8) as usize] ^ ST5[((s.5 >> 48) as u8) as usize] ^ ST6[((s.6 >> 48) as u8) as usize] ^ ST7[((s.7 >> 48) as u8) as usize];
    let r7 = ST0[((s.0 >> 56) as u8) as usize] ^ ST1[((s.1 >> 56) as u8) as usize] ^ ST2[((s.2 >> 56) as u8) as usize] ^ ST3[((s.3 >> 56) as u8) as usize] ^ ST4[((s.4 >> 56) as u8) as usize] ^ ST5[((s.5 >> 56) as u8) as usize] ^ ST6[((s.6 >> 56) as u8) as usize] ^ ST7[((s.7 >> 56) as u8) as usize];
    *h = (r0, r1, r2, r3, r4, r5, r6, r7);
}

/// The keyed permutation g(n, h, m): derive a key from `h` XOR `n`, run
/// twelve rounds alternating the transform on the message block and on
/// the key with the round constants, then close Miyaguchi-Preneel style.
#[verifier::opaque]
pub open spec fn stb_g_spec(h: (u64, u64, u64, u64, u64, u64, u64, u64), n: (u64, u64, u64, u64, u64, u64, u64, u64), m: (u64, u64, u64, u64, u64, u64, u64, u64)) -> (u64, u64, u64, u64, u64, u64, u64, u64) {
    let k0 = lps_spec(xor8(h, n));
    let b0 = m;
    let b1 = lps_spec(xor8(b0, k0));
    let k1 = lps_spec(xor8(k0, (0xdd806559f2a64507u64, 0x05767436cc744d23u64, 0xa2422a08a460d315u64, 0x4b7ce09192676901u64, 0x714eb88d7585c4fcu64, 0x2f6a76432e45d016u64, 0xebcb2f81c0657c1fu64, 0xb1085bda1ecadae9u64)));
    let b2 = lps_spec(xor8(b1, k1));
    let k2 = lps_spec(xor8(k1, (0xe679047021b19bb7u64, 0x55dda21bd7cbcd56u64, 0x5cb561c2db0aa7cau64, 0x9ab5176b12d69958u64, 0x61d55e0f16b50131u64, 0xf3feea720a232b98u64, 0x4fe39d460f70b5d7u64, 0x6fa3b58aa99d2f1au64)));
    let b3 = lps_spec(xor8(b2, k2));
    let k3 = lps_spec(xor8(k2, (0x991e96f50aba0ab2u64, 0xc2b6f443867adb31u64, 0xc1c93a376062db09u64, 0xd3e20fe490359eb1u64, 0xf2ea7514b1297b7bu64, 0x06f15e5f529c1f8bu64, 0x0a39fc286a3d8435u64, 0xf574dcac2bce2fc7u64)));
    let b4 = lps_spec(xor8(b3, k3));
    let k4 = lps_spec(xor8(k3, (0x220cbebc84e3d12eu64, 0x3453eaa193e837f1u64, 0xd8b71333935203beu64, 0xa9d72c82ed03d675u64, 0x9d721cad685e353fu64, 0x488e857e335c3c7du64, 0xf948e1a05d71e4ddu64, 0xef1fdfb3e81566d2u64)));
    let b5 = lps_spec(xor8(b4, k4));
    let k5 = lps_spec(xor8(k4, (0x601758fd7c6cfe57u64, 0x7a56a27ea9ea63f5u64, 0xdfff00b723271a16u64, 0xbfcd1747253af5a3u64, 0x359e35d7800fffbdu64, 0x7f151c1f1686104au64, 0x9a3f410c6ca92363u64, 0x4bea6bacad474799u64)));
    let b6 = lps_spec(xor8(b5, k5));
    let k6 = lps_spec(xor8(k5, (0xfa68407a46647d6eu64, 0xbf71c57236904f35u64, 0x0af21f66c2bec6b6u64, 0xcffaa6b71c9ab7b4u64, 0x187f9ab49af08ec6u64, 0x2d66c4f95142a46cu64, 0x6fa4c33b7a3039c0u64, 0xae4faeae1d3ad3d9u64)));
    let b7 = lps_spec(xor8(b6, k6));
    let k7 = lps_spec(xor8(k6, (0x8886564d3a14d493u64, 0x3517454ca23c4af3u64, 0x06476983284a0504u64, 0x0992abc52d822c37u64, 0xd3473e33197a93c9u64, 0x399ec6c7e6bf87c9u64, 0x51ac86febf240954u64, 0xf4c70e16eeaac5ecu64)));
    let b8 = lps_spec(xor8(b7, k7));
    let k8 = lps_spec(xor8(k7, (0xa47f0dd4bf02e71eu64, 0x36acc2355951a8d9u64, 0x69d18d2bd1a5c42fu64, 0xf4892bcb929b0690u64, 0x89b4443b4ddbc49au64, 0x4eb7f8719c36de1eu64, 0x03e7aa020c6e4141u64, 0x9b1f5b424d93c9a7u64)));
    let b9 = lps_spec(xor8(b8, k8));
    let k9 = lps_spec(xor8(k8, (0x7261445183235adbu64, 0x0e38dc92cb1f2a60u64, 0x7b2b8a9aa6079c54u64, 0x800a440bdbb2ceb1u64, 0x3cd955b7e00d0984u64, 0x3a7d3a1b25894224u64, 0x944c9ad8ec165fdeu64, 0x378f5a541631229bu64)));
    let b10 = lps_spec(xor8(b9, k9));
    let k10 = lps_spec(xor8(k9, (0x74b4c7fb98459cedu64, 0x3698fad1153bb6c3u64, 0x7a1e6c303b7652f4u64, 0x9fe76702af69334bu64, 0x1fffe18a1b336103u64, 0x8941e71cff8a78dbu64, 0x382ae548b2e4f3f3u64, 0xabbedea680056f52u64)));
    let b11 = lps_spec(xor8(b10, k10));
    let k11 = lps_spec(xor8(k10, (0x6bcaa4cd81f32d1bu64, 0xdea2594ac06fd85du64, 0xefbacd1d7d476e98u64, 0x8a1d71efea48b9cau64, 0x2001802114846679u64, 0xd8fa6bbbebab0761u64, 0x3002c6cd635afe94u64, 0x7bcd9ed0efc889fbu64)));
    let b12 = lps_spec(xor8(b11, k11));
    let k12 = lps_spec(xor8(k11, (0x48bc924af11bd720u64, 0xfaf417d5d9b21b99u64, 0xe71da4aa88e12852u64, 0x5d80ef9d1891cc86u64, 0xf82012d430219f9bu64, 0xcda43c32bcdf1d77u64, 0xd21380b00449b17au64, 0x378ee767f11631bau64)));
    xor8(xor8(xor8(h, b12), k12), m)
}

/// The message block of a 64-byte slice, as eight little-endian words.
pub open spec fn stb_m_words(b: Seq<u8>) -> (u64, u64, u64, u64, u64, u64, u64, u64)
    recommends
        b.len() == 64,
{
    (le64_at(b, 0), le64_at(b, 1), le64_at(b, 2), le64_at(b, 3), le64_at(b, 4), le64_at(b, 5), le64_at(b, 6), le64_at(b, 7))
}

/// The length counter as a 512-bit block: eight 32-bit limbs little-endian
/// in the low half, zeros above.
pub open spec fn stb_n_words(n: (u32, u32, u32, u32, u32, u32, u32, u32)) -> (u64, u64, u64, u64, u64, u64, u64, u64) {
    (
        (n.0 as u64) | ((n.1 as u64) << 32),
        (n.2 as u64) | ((n.3 as u64) << 32),
        (n.4 as u64) | ((n.5 as u64) << 32),
        (n.6 as u64) | ((n.7 as u64) << 32),
        0u64,
        0u64,
        0u64,
        0u64,
    )
}

/// Add `add` into the eight-limb 256-bit counter, least significant limb
/// first, propagating carries and discarding overflow past 256 bits.
pub open spec fn stb_n_add(n: (u32, u32, u32, u32, u32, u32, u32, u32), add: u32) -> (u32, u32, u32, u32, u32, u32, u32, u32) {
    let t0 = n.0 + add;
    let l0 = (t0 % 0x1_0000_0000) as u32;
    let t1 = n.1 + t0 / 0x1_0000_0000;
    let l1 = (t1 % 0x1_0000_0000) as u32;
    let t2 = n.2 + t1 / 0x1_0000_0000;
    let l2 = (t2 % 0x1_0000_0000) as u32;
    let t3 = n.3 + t2 / 0x1_0000_0000;
    let l3 = (t3 % 0x1_0000_0000) as u32;
    let t4 = n.4 + t3 / 0x1_0000_0000;
    let l4 = (t4 % 0x1_0000_0000) as u32;
    let t5 = n.5 + t4 / 0x1_0000_0000;
    let l5 = (t5 % 0x1_0000_0000) as u32;
    let t6 = n.6 + t5 / 0x1_0000_0000;
    let l6 = (t6 % 0x1_0000_0000) as u32;
    let t7 = n.7 + t6 / 0x1_0000_0000;
    let l7 = (t7 % 0x1_0000_0000) as u32;
    (l0, l1, l2, l3, l4, l5, l6, l7)
}

/// One step of multi-precision addition over 32-bit limbs.
pub fn adc(a: &mut u32, b: u32, carry: &mut u32)
    ensures
        *final(a) == ((*old(a) + b + *old(carry)) % 0x1_0000_0000) as u32,
        *final(carry) == ((*old(a) + b + *old(carry)) / 0x1_0000_0000) as u32,
{
    let ret = (*a as u64) + (b as u64) + (*carry as u64);
    proof {
        assert(ret as u32 == (ret % 0x1_0000_0000) as u32 && (ret >> 32) as u32 == (ret
            / 0x1_0000_0000) as u32) by (bit_vector);
    }
    *a = ret as u32;
    *carry = (ret >> 32) as u32;
}

/// The byte-wise carry-chained sum of two equal-length byte strings:
/// little-endian addition with the final carry discarded.
pub open spec fn stb_sum(a: Seq<u8>, b: Seq<u8>, c: nat) -> Seq<u8>
    recommends
        a.len() == b.len(),
    decreases a.len(),
{
    if a.len() == 0 {
        Seq::empty()
    } else {
        let s = a[0] + b[0] + c;
        seq![(s % 256) as u8] + stb_sum(a.skip(1), b.skip(1), (s / 256) as nat)
    }
}

/// The running state: hash accumulator, message-length counter, and the
/// byte-wise running sum of all blocks.
#[derive(Clone, Copy, Debug)]
pub struct StreebogState {
    pub h: (u64, u64, u64, u64, u64, u64, u64, u64),
    pub n: (u32, u32, u32, u32, u32, u32, u32, u32),
    pub sigma: [u8; 64],
}

/// The triple a `StreebogState` stands for in specifications.
pub open spec fn stb_view(st: StreebogState) -> ((u64, u64, u64, u64, u64, u64, u64, u64), (u32, u32, u32, u32, u32, u32, u32, u32), Seq<u8>) {
    (st.h, st.n, st.sigma@)
}

/// One compression step on a complete or final block: fold the block into
/// the hash keyed by the counter, then account `msg_len` bytes and add
/// the block into the running sum.
#[verifier::opaque]
pub open spec fn stb_compress_spec(
    st: ((u64, u64, u64, u64, u64, u64, u64, u64), (u32, u32, u32, u32, u32, u32, u32, u32), Seq<u8>),
    b: Seq<u8>,
    msg_len: u32,
) -> ((u64, u64, u64, u64, u64, u64, u64, u64), (u32, u32, u32, u32, u32, u32, u32, u32), Seq<u8>)
    recommends
        b.len() == 64,
        msg_len <= 64,
{
    (
        stb_g_spec(st.0, stb_n_words(st.1), stb_m_words(b)),
        stb_n_add(st.1, (8 * msg_len) as u32),
        stb_sum(st.2, b, 0),
    )
}

impl StreebogState {
    /// Apply the keyed permutation to the hash accumulator.
    pub fn g(&mut self, n: &(u64, u64, u64, u64, u64, u64, u64, u64), m: &(u64, u64, u64, u64, u64, u64, u64, u64))
        ensures
            final(self).h == stb_g_spec(old(self).h, *n, *m),
            final(self).n == old(self).n,
            final(self).sigma == old(self).sigma,
    {
        proof {
            reveal(stb_g_spec);
        }
        let h = self.h;
    let mut key = self.h;
    let mut block = *m;
    lps(&mut key, n);
    lps(&mut block, &key);
    lps(&mut key, &(0xdd806559f2a64507u64, 0x05767436cc744d23u64, 0xa2422a08a460d315u64, 0x4b7ce09192676901u64, 0x714eb88d7585c4fcu64, 0x2f6a76432e45d016u64, 0xebcb2f81c0657c1fu64, 0xb1085bda1ecadae9u64));
    lps(&mut block, &key);
    lps(&mut key, &(0xe679047021b19bb7u64, 0x55dda21bd7cbcd56u64, 0x5cb561c2db0aa7cau64, 0x9ab5176b12d69958u64, 0x61d55e0f16b50131u64, 0xf3feea720a232b98u64, 0x4fe39d460f70b5d7u64, 0x6fa3b58aa99d2f1au64));
    lps(&mut block, &key);
    lps(&mut key, &(0x991e96f50aba0ab2u64, 0xc2b6f443867adb31u64, 0xc1c93a376062db09u64, 0xd3e20fe490359eb1u64, 0xf2ea7514b1297b7bu64, 0x06f15e5f529c1f8bu64, 0x0a39fc286a3d8435u64, 0xf574dcac2bce2fc7u64));
    lps(&mut block, &key);
    lps(&mut key, &(0x220cbebc84e3d12eu64, 0x3453eaa193e837f1u64, 0xd8b71333935203beu64, 0xa9d72c82ed03d675u64, 0x9d721cad685e353fu64, 0x488e857e335c3c7du64, 0xf948e1a05d71e4ddu64, 0xef1fdfb3e81566d2u64));
    lps(&mut block, &key);
    lps(&mut key, &(0x601758fd7c6cfe57u64, 0x7a56a27ea9ea63f5u64, 0xdfff00b723271a16u64, 0xbfcd1747253af5a3u64, 0x359e35d7800fffbdu64, 0x7f151c1f1686104au64, 0x9a3f410c6ca92363u64, 0x4bea6bacad474799u64));
    lps(&mut block, &key);
    lps(&mut key, &(0xfa68407a46647d6eu64, 0xbf71c57236904f35u64, 0x0af21f66c2bec6b6u64, 0xcffaa6b71c9ab7b4u64, 0x187f9ab49af08ec6u64, 0x2d66c4f95142a46cu64, 0x6fa4c33b7a3039c0u64, 0xae4faeae1d3ad3d9u64));
    lps(&mut block, &key);
    lps(&mut key, &(0x8886564d3a14d493u64, 0x3517454ca23c4af3u64, 0x06476983284a0504u64, 0x0992abc52d822c37u64, 0xd3473e33197a93c9u64, 0x399ec6c7e6bf87c9u64, 0x51ac86febf240954u64, 0xf4c70e16eeaac5ecu64));
    lps(&mut block, &key);
    lps(&mut key, &(0xa47f0dd4bf02e71eu64, 0x36acc2355951a8d9u64, 0x69d18d2bd1a5c42fu64, 0xf4892bcb929b0690u64, 0x89b4443b4ddbc49au64, 0x4eb7f8719c36de1eu64, 0x03e7aa020c6e4141u64, 0x9b1f5b424d93c9a7u64));
    lps(&mut block, &key);
    lps(&mut key, &(0x7261445183235adbu64, 0x0e38dc92cb1f2a60u64, 0x7b2b8a9aa6079c54u64, 0x800a440bdbb2ceb1u64, 0x3cd955b7e00d0984u64, 0x3a7d3a1b25894224u64, 0x944c9ad8ec165fdeu64, 0x378f5a541631229bu64));
    lps(&mut block, &key);
    lps(&mut key, &(0x74b4c7fb98459cedu64, 0x3698fad1153bb6c3u64, 0x7a1e6c303b7652f4u64, 0x9fe76702af69334bu64, 0x1fffe18a1b336103u64, 0x8941e71cff8a78dbu64, 0x382ae548b2e4f3f3u64, 0xabbedea680056f52u64));
    lps(&mut block, &key);
    lps(&mut key, &(0x6bcaa4cd81f32d1bu64, 0xdea2594ac06fd85du64, 0xefbacd1d7d476e98u64, 0x8a1d71efea48b9cau64, 0x2001802114846679u64, 0xd8fa6bbbebab0761u64, 0x3002c6cd635afe94u64, 0x7bcd9ed0efc889fbu64));
    lps(&mut block, &key);
    lps(&mut key, &(0x48bc924af11bd720u64, 0xfaf417d5d9b21b99u64, 0xe71da4aa88e12852u64, 0x5d80ef9d1891cc86u64, 0xf82012d430219f9bu64, 0xcda43c32bcdf1d77u64, 0xd21380b00449b17au64, 0x378ee767f11631bau64));
    self.h = (self.h.0 ^ block.0 ^ key.0 ^ m.0, self.h.1 ^ block.1 ^ key.1 ^ m.1, self.h.2 ^ block.2 ^ key.2 ^ m.2, self.h.3 ^ block.3 ^ key.3 ^ m.3, self.h.4 ^ block.4 ^ key.4 ^ m.4, self.h.5 ^ block.5 ^ key.5 ^ m.5, self.h.6 ^ block.6 ^ key.6 ^ m.6, self.h.7 ^ block.7 ^ key.7 ^ m.7);
    }

    /// Account `len` message bytes in the 256-bit bit counter.
    pub fn update_n(&mut self, len: u32)
        requires
            len <= 64,
        ensures
            final(self).n == stb_n_add(old(self).n, (8 * len) as u32),
            final(self).h == old(self).h,
            final(self).sigma == old(self).sigma,
    {
        let mut carry: u32 = 0;
        adc(&mut self.n.0, 8 * len, &mut carry);
        adc(&mut self.n.1, 0, &mut carry);
        adc(&mut self.n.2, 0, &mut carry);
        adc(&mut self.n.3, 0, &mut carry);
        adc(&mut self.n.4, 0, &mut carry);
        adc(&mut self.n.5, 0, &mut carry);
        adc(&mut self.n.6, 0, &mut carry);
        adc(&mut self.n.7, 0, &mut carry);
    }

    /// Add a block into the byte-wise carry-chained running sum.
    pub fn update_sigma(&mut self, m: &[u8; 64])
        ensures
            final(self).sigma@ == stb_sum(old(self).sigma@, m@, 0),
            final(self).h == old(self).h,
            final(self).n == old(self).n,
    {
        let ghost s0 = self.sigma@;
        let mut carry: u16 = 0;
        let mut i: usize = 0;
        proof {
            assert(s0.skip(0) =~= s0);
            assert(m@.skip(0) =~= m@);
            assert(self.sigma@.take(0) =~= Seq::<u8>::empty());
            assert(Seq::<u8>::empty() + stb_sum(s0, m@, 0) =~= stb_sum(s0, m@, 0));
        }
        while i < 64
            invariant
                i <= 64,
                carry <= 1,
                self.sigma@.len() == 64,
                m@.len() == 64,
                s0.len() == 64,
                self.h == old(self).h,
                self.n == old(self).n,
                self.sigma@.skip(i as int) =~= s0.skip(i as int),
                stb_sum(s0, m@, 0) == self.sigma@.take(i as int) + stb_sum(
                    s0.skip(i as int),
                    m@.skip(i as int),
                    carry as nat,
                ),
            decreases 64 - i,
        {
            let s: u16 = (self.sigma[i] as u16) + (m[i] as u16) + carry;
            let ghost pre = self.sigma@;
            self.sigma[i] = (s % 256) as u8;
            carry = s / 256;
            proof {
                assert(s0.skip(i as int)[0] == s0[i as int]);
                assert(m@.skip(i as int)[0] == m@[i as int]);
                assert(s0.skip(i as int).skip(1) =~= s0.skip(i as int + 1));
                assert(m@.skip(i as int).skip(1) =~= m@.skip(i as int + 1));
                assert(self.sigma@.skip(i as int + 1) =~= s0.skip(i as int + 1));
                assert(self.sigma@.take(i as int + 1) =~= pre.take(i as int) + seq![
                    (s % 256) as u8,
                ]);
                assert((pre.take(i as int) + seq![(s % 256) as u8]) + stb_sum(
                    s0.skip(i as int + 1),
                    m@.skip(i as int + 1),
                    (s / 256) as nat,
                ) =~= pre.take(i as int) + (seq![(s % 256) as u8] + stb_sum(
                    s0.skip(i as int + 1),
                    m@.skip(i as int + 1),
                    (s / 256) as nat,
                )));
            }
            i += 1;
        }
        proof {
            assert(s0.skip(64).len() == 0);
            assert(stb_sum(s0.skip(64), m@.skip(64), carry as nat) =~= Seq::<u8>::empty());
            assert(self.sigma@.take(64) =~= self.sigma@);
        }
    }

    /// The counter block handed to the keyed permutation.
    pub fn get_n_bytes(&self) -> (r: (u64, u64, u64, u64, u64, u64, u64, u64))
        ensures
            r == stb_n_words(self.n),
    {
        (
            (self.n.0 as u64) | ((self.n.1 as u64) << 32),
            (self.n.2 as u64) | ((self.n.3 as u64) << 32),
            (self.n.4 as u64) | ((self.n.5 as u64) << 32),
            (self.n.6 as u64) | ((self.n.7 as u64) << 32),
            0u64,
            0u64,
            0u64,
            0u64,
        )
    }

    /// One full compression step on a block carrying `msg_len` valid bytes.
    pub fn compress(&mut self, block: &[u8; 64], msg_len: u32)
        requires
            msg_len <= 64,
        ensures
            stb_view(*final(self)) == stb_compress_spec(stb_view(*old(self)), block@, msg_len),
    {
        proof {
            reveal(stb_compress_spec);
        }
        let n = self.get_n_bytes();
        let w0 = le64(block[0], block[1], block[2], block[3], block[4], block[5], block[6], block[7]);
        let w1 = le64(block[8], block[9], block[10], block[11], block[12], block[13], block[14], block[15]);
        let w2 = le64(block[16], block[17], block[18], block[19], block[20], block[21], block[22], block[23]);
        let w3 = le64(block[24], block[25], block[26], block[27], block[28], block[29], block[30], block[31]);
        let w4 = le64(block[32], block[33], block[34], block[35], block[36], block[37], block[38], block[39]);
        let w5 = le64(block[40], block[41], block[42], block[43], block[44], block[45], block[46], block[47]);
        let w6 = le64(block[48], block[49], block[50], block[51], block[52], block[53], block[54], block[55]);
        let w7 = le64(block[56], block[57], block[58], block[59], block[60], block[61], block[62], block[63]);
        let m = (w0, w1, w2, w3, w4, w5, w6, w7);
        self.g(&n, &m);
        self.update_n(msg_len);
        self.update_sigma(block);
    }

    /// Consume a list of complete 64-byte blocks.
    pub fn update_blocks(&mut self, blocks: &[[u8; 64]])
        ensures
            stb_view(*final(self)) == stb_blocks_list(stb_view(*old(self)), blocks@),
    {
        proof {
            assert(blocks@.skip(0) =~= blocks@);
        }
        let mut i: usize = 0;
        while i < blocks.len()
            invariant
                i <= blocks.len(),
                stb_blocks_list(stb_view(*self), blocks@.skip(i as int)) == stb_blocks_list(
                    stb_view(*old(self)),
                    blocks@,
                ),
            decreases blocks.len() - i,
        {
            proof {
                assert(blocks@.skip(i as int)[0] == blocks@[i as int]);
                assert(blocks@.skip(i as int).skip(1) =~= blocks@.skip(i as int + 1));
            }
            let blk = blocks[i];
            self.compress(&blk, 64);
            i += 1;
        }
        proof {
            assert(blocks@.skip(blocks@.len() as int) =~= Seq::<[u8; 64]>::empty());
        }
    }

    /// Pad the buffered tail with the single marker bit, compress it with
    /// its exact byte count, then fold in the length counter and the
    /// running sum with two more keyed permutations.
    pub fn finalize(&mut self, buffer: &mut BlockBuffer64)
        requires
            old(buffer).wf(),
        ensures
            final(self).h == stb_final_h(stb_view(*old(self)), old(buffer)@),
    {
        proof {
            reveal(stb_compress_spec);
        }
        let pos = buffer.pos;
        let ghost tail = buffer@;
        buffer.block[pos] = 1;
        let mut i: usize = pos + 1;
        while i < 64
            invariant
                pos + 1 <= i <= 64,
                buffer.block@.len() == 64,
                buffer.block@.take(pos as int) == tail,
                buffer.block@[pos as int] == 1u8,
                forall|j: int| pos < j < i ==> buffer.block@[j] == 0u8,
            decreases 64 - i,
        {
            buffer.block[i] = 0;
            i += 1;
        }
        proof {
            assert(buffer.block@ =~= tail + seq![1u8] + zero_bytes((63 - tail.len()) as nat));
        }
        self.compress(&buffer.block, pos as u32);
        let n = self.get_n_bytes();
        let z = (0u64, 0u64, 0u64, 0u64, 0u64, 0u64, 0u64, 0u64);
        self.g(&z, &n);
        let sig = self.sigma;
        let w0 = le64(sig[0], sig[1], sig[2], sig[3], sig[4], sig[5], sig[6], sig[7]);
        let w1 = le64(sig[8], sig[9], sig[10], sig[11], sig[12], sig[13], sig[14], sig[15]);
        let w2 = le64(sig[16], sig[17], sig[18], sig[19], sig[20], sig[21], sig[22], sig[23]);
        let w3 = le64(sig[24], sig[25], sig[26], sig[27], sig[28], sig[29], sig[30], sig[31]);
        let w4 = le64(sig[32], sig[33], sig[34], sig[35], sig[36], sig[37], sig[38], sig[39]);
        let w5 = le64(sig[40], sig[41], sig[42], sig[43], sig[44], sig[45], sig[46], sig[47]);
        let w6 = le64(sig[48], sig[49], sig[50], sig[51], sig[52], sig[53], sig[54], sig[55]);
        let w7 = le64(sig[56], sig[57], sig[58], sig[59], sig[60], sig[61], sig[62], sig[63]);
        let m = (w0, w1, w2, w3, w4, w5, w6, w7);
        self.g(&z, &m);
    }
}

/// The hash value after the three finalization permutations.
pub open spec fn stb_final_h(st: ((u64, u64, u64, u64, u64, u64, u64, u64), (u32, u32, u32, u32, u32, u32, u32, u32), Seq<u8>), tail: Seq<u8>) -> (u64, u64, u64, u64, u64, u64, u64, u64)
    recommends
        tail.len() < 64,
{
    let block = tail + seq![1u8] + zero_bytes((63 - tail.len()) as nat);
    let st1 = stb_compress_spec(st, block, tail.len() as u32);
    let h2 = stb_g_spec(st1.0, zero8(), stb_n_words(st1.1));
    stb_g_spec(h2, zero8(), stb_m_words(st1.2))
}

/// Fold the compression step over every complete 64-byte block of `m`.
pub open spec fn stb_blocks(s: ((u64, u64, u64, u64, u64, u64, u64, u64), (u32, u32, u32, u32, u32, u32, u32, u32), Seq<u8>), m: Seq<u8>) -> ((u64, u64, u64, u64, u64, u64, u64, u64), (u32, u32, u32, u32, u32, u32, u32, u32), Seq<u8>)
    decreases m.len(),
{
    if m.len() < 64 {
        s
    } else {
        stb_blocks(stb_compress_spec(s, m.take(64), 64), m.skip(64))
    }
}

/// Fold over an explicit list of blocks.
pub open spec fn stb_blocks_list(
    s: ((u64, u64, u64, u64, u64, u64, u64, u64), (u32, u32, u32, u32, u32, u32, u32, u32), Seq<u8>),
    bs: Seq<[u8; 64]>,
) -> ((u64, u64, u64, u64, u64, u64, u64, u64), (u32, u32, u32, u32, u32, u32, u32, u32), Seq<u8>)
    decreases bs.len(),
{
    if bs.len() == 0 {
        s
    } else {
        stb_blocks_list(stb_compress_spec(s, bs[0]@, 64), bs.skip(1))
    }
}

/// Folding a block-aligned prefix and then the rest equals folding the
/// concatenation: the engine of chunk-invariance.
pub proof fn lemma_stb_blocks_concat(s: ((u64, u64, u64, u64, u64, u64, u64, u64), (u32, u32, u32, u32, u32, u32, u32, u32), Seq<u8>), a: Seq<u8>, b: Seq<u8>)
    requires
        a.len() % 64 == 0,
    ensures
        stb_blocks(s, a + b) == stb_blocks(stb_blocks(s, a), b),
    decreases a.len(),
{
    if a.len() == 0 {
        assert(a + b =~= b);
    } else {
        assert(a.len() >= 64);
        assert((a + b).take(64) =~= a.take(64));
        assert((a + b).skip(64) =~= a.skip(64) + b);
        assert(a.skip(64).len() % 64 == 0);
        lemma_stb_blocks_concat(stb_compress_spec(s, a.take(64), 64), a.skip(64), b);
    }
}

/// The fixed initial state: the hash accumulator filled with `fill` in
/// every byte, counters zero.
pub open spec fn stb_init(fill: u64) -> ((u64, u64, u64, u64, u64, u64, u64, u64), (u32, u32, u32, u32, u32, u32, u32, u32), Seq<u8>) {
    (
        (fill, fill, fill, fill, fill, fill, fill, fill),
        (0u32, 0u32, 0u32, 0u32, 0u32, 0u32, 0u32, 0u32),
        zero_bytes(64),
    )
}

/// Little-endian serialization of the full 512-bit hash value.
pub open spec fn stb512_output(h: (u64, u64, u64, u64, u64, u64, u64, u64)) -> Seq<u8> {
    le64_bytes(h.0) + le64_bytes(h.1) + le64_bytes(h.2) + le64_bytes(h.3) + le64_bytes(h.4)
        + le64_bytes(h.5) + le64_bytes(h.6) + le64_bytes(h.7)
}

/// The high half of the accumulator: the Streebog-256 digest.
pub open spec fn stb256_output(h: (u64, u64, u64, u64, u64, u64, u64, u64)) -> Seq<u8> {
    le64_bytes(h.4) + le64_bytes(h.5) + le64_bytes(h.6) + le64_bytes(h.7)
}

/// The Streebog-512 digest of an arbitrary byte sequence.
pub open spec fn streebog512_of(m: Seq<u8>) -> Seq<u8> {
    let l = m.len();
    let full = (l - (l % 64)) as int;
    stb512_output(stb_final_h(stb_blocks(stb_init(0), m.take(full)), m.skip(full)))
}

/// The Streebog-256 digest of an arbitrary byte sequence.
pub open spec fn streebog256_of(m: Seq<u8>) -> Seq<u8> {
    let l = m.len();
    let full = (l - (l % 64)) as int;
    stb256_output(stb_final_h(stb_blocks(stb_init(0x0101010101010101), m.take(full)), m.skip(full)))
}

#[verifier::rlimit(100)]
fn stb_emit512(h: (u64, u64, u64, u64, u64, u64, u64, u64)) -> (out: [u8; 64])
    ensures
        out@ == stb512_output(h),
{
    let mut out = [0u8; 64];
    out[0] = h.0 as u8;
    out[1] = (h.0 >> 8) as u8;
    out[2] = (h.0 >> 16) as u8;
    out[3] = (h.0 >> 24) as u8;
    out[4] = (h.0 >> 32) as u8;
    out[5] = (h.0 >> 40) as u8;
    out[6] = (h.0 >> 48) as u8;
    out[7] = (h.0 >> 56) as u8;
    out[8] = h.1 as u8;
    out[9] = (h.1 >> 8) as u8;
    out[10] = (h.1 >> 16) as u8;
    out[11] = (h.1 >> 24) as u8;
    out[12] = (h.1 >> 32) as u8;
    out[13] = (h.1 >> 40) as u8;
    out[14] = (h.1 >> 48) as u8;
    out[15] = (h.1 >> 56) as u8;
    out[16] = h.2 as u8;
    out[17] = (h.2 >> 8) as u8;
    out[18] = (h.2 >> 16) as u8;
    out[19] = (h.2 >> 24) as u8;
    out[20] = (h.2 >> 32) as u8;
    out[21] = (h.2 >> 40) as u8;
    out[22] = (h.2 >> 48) as u8;
    out[23] = (h.2 >> 56) as u8;
    out[24] = h.3 as u8;
    out[25] = (h.3 >> 8) as u8;
    out[26] = (h.3 >> 16) as u8;
    out[27] = (h.3 >> 24) as u8;
    out[28] = (h.3 >> 32) as u8;
    out[29] = (h.3 >> 40) as u8;
    out[30] = (h.3 >> 48) as u8;
    out[31] = (h.3 >> 56) as u8;
    out[32] = h.4 as u8;
    out[33] = (h.4 >> 8) as u8;
    out[34] = (h.4 >> 16) as u8;
    out[35] = (h.4 >> 24) as u8;
    out[36] = (h.4 >> 32) as u8;
    out[37] = (h.4 >> 40) as u8;
    out[38] = (h.4 >> 48) as u8;
    out[39] = (h.4 >> 56) as u8;
    out[40] = h.5 as u8;
    out[41] = (h.5 >> 8) as u8;
    out[42] = (h.5 >> 16) as u8;
    out[43] = (h.5 >> 24) as u8;
    out[44] = (h.5 >> 32) as u8;
    out[45] = (h.5 >> 40) as u8;
    out[46] = (h.5 >> 48) as u8;
    out[47] = (h.5 >> 56) as u8;
    out[48] = h.6 as u8;
    out[49] = (h.6 >> 8) as u8;
    out[50] = (h.6 >> 16) as u8;
    out[51] = (h.6 >> 24) as u8;
    out[52] = (h.6 >> 32) as u8;
    out[53] = (h.6 >> 40) as u8;
    out[54] = (h.6 >> 48) as u8;
    out[55] = (h.6 >> 56) as u8;
    out[56] = h.7 as u8;
    out[57] = (h.7 >> 8) as u8;
    out[58] = (h.7 >> 16) as u8;
    out[59] = (h.7 >> 24) as u8;
    out[60] = (h.7 >> 32) as u8;
    out[61] = (h.7 >> 40) as u8;
    out[62] = (h.7 >> 48) as u8;
    out[63] = (h.7 >> 56) as u8;
    proof {
        let t = stb512_output(h);
        assert(t.len() == 64);
        assert forall|j: int| 0 <= j < 64 implies out@[j] == t[j] by {
            if j < 8 {
                assert(t[j] == le64_bytes(h.0)[j]);
            } else if j < 16 {
                assert(t[j] == le64_bytes(h.1)[j - 8]);
            } else if j < 24 {
                assert(t[j] == le64_bytes(h.2)[j - 16]);
            } else if j < 32 {
                assert(t[j] == le64_bytes(h.3)[j - 24]);
            } else if j < 40 {
                assert(t[j] == le64_bytes(h.4)[j - 32]);
            } else if j < 48 {
                assert(t[j] == le64_bytes(h.5)[j - 40]);
            } else if j < 56 {
                assert(t[j] == le64_bytes(h.6)[j - 48]);
            } else {
                assert(t[j] == le64_bytes(h.7)[j - 56]);
            }
        }
        assert(out@ =~= t);
    }
    out
}

#[verifier::rlimit(100)]
fn stb_emit256(h: (u64, u64, u64, u64, u64, u64, u64, u64)) -> (out: [u8; 32])
    ensures
        out@ == stb256_output(h),
{
    let mut out = [0u8; 32];
    out[0] = h.4 as u8;
    out[1] = (h.4 >> 8) as u8;
    out[2] = (h.4 >> 16) as u8;
    out[3] = (h.4 >> 24) as u8;
    out[4] = (h.4 >> 32) as u8;
    out[5] = (h.4 >> 40) as u8;
    out[6] = (h.4 >> 48) as u8;
    out[7] = (h.4 >> 56) as u8;
    out[8] = h.5 as u8;
    out[9] = (h.5 >> 8) as u8;
    out[10] = (h.5 >> 16) as u8;
    out[11] = (h.5 >> 24) as u8;
    out[12] = (h.5 >> 32) as u8;
    out[13] = (h.5 >> 40) as u8;
    out[14] = (h.5 >> 48) as u8;
    out[15] = (h.5 >> 56) as u8;
    out[16] = h.6 as u8;
    out[17] = (h.6 >> 8) as u8;
    out[18] = (h.6 >> 16) as u8;
    out[19] = (h.6 >> 24) as u8;
    out[20] = (h.6 >> 32) as u8;
    out[21] = (h.6 >> 40) as u8;
    out[22] = (h.6 >> 48) as u8;
    out[23] = (h.6 >> 56) as u8;
    out[24] = h.7 as u8;
    out[25] = (h.7 >> 8) as u8;
    out[26] = (h.7 >> 16) as u8;
    out[27] = (h.7 >> 24) as u8;
    out[28] = (h.7 >> 32) as u8;
    out[29] = (h.7 >> 40) as u8;
    out[30] = (h.7 >> 48) as u8;
    out[31] = (h.7 >> 56) as u8;
    proof {
        assert(out@ =~= stb256_output(h));
    }
    out
}

/// Core Streebog-512 hasher state.
#[derive(Clone, Copy, Debug)]
pub struct Streebog512Core {
    pub state: StreebogState,
}

impl Default for Streebog512Core {
    fn default() -> (r: Self)
        ensures
            stb_view(r.state) == stb_init(0),
    {
        let r = Streebog512Core {
            state: StreebogState {
                h: (0u64, 0u64, 0u64, 0u64, 0u64, 0u64, 0u64, 0u64),
                n: (0u32, 0u32, 0u32, 0u32, 0u32, 0u32, 0u32, 0u32),
                sigma: [0u8; 64],
            },
        };
        proof {
            assert(r.state.sigma@ =~= zero_bytes(64));
        }
        r
    }
}

impl Streebog512Core {
    pub fn reset(&mut self)
        ensures
            stb_view(final(self).state) == stb_init(0),
    {
        *self = Default::default();
    }

    /// Consume a list of complete 64-byte blocks.
    pub fn update_blocks(&mut self, blocks: &[[u8; 64]])
        ensures
            stb_view(final(self).state) == stb_blocks_list(stb_view(old(self).state), blocks@),
    {
        self.state.update_blocks(blocks);
    }

    /// Run the three-stage finalization and emit the digest.
    pub fn finalize_fixed_core(&mut self, buffer: &mut BlockBuffer64) -> (out: [u8; 64])
        requires
            old(buffer).wf(),
        ensures
            out@ == stb512_output(stb_final_h(stb_view(old(self).state), old(buffer)@)),
    {
        self.state.finalize(buffer);
        stb_emit512(self.state.h)
    }
}

/// Core Streebog-256 hasher state.
#[derive(Clone, Copy, Debug)]
pub struct Streebog256Core {
    pub state: StreebogState,
}

impl Default for Streebog256Core {
    fn default() -> (r: Self)
        ensures
            stb_view(r.state) == stb_init(0x0101010101010101),
    {
        let r = Streebog256Core {
            state: StreebogState {
                h: (0x0101010101010101u64, 0x0101010101010101u64, 0x0101010101010101u64, 0x0101010101010101u64, 0x0101010101010101u64, 0x0101010101010101u64, 0x0101010101010101u64, 0x0101010101010101u64),
                n: (0u32, 0u32, 0u32, 0u32, 0u32, 0u32, 0u32, 0u32),
                sigma: [0u8; 64],
            },
        };
        proof {
            assert(r.state.sigma@ =~= zero_bytes(64));
        }
        r
    }
}

impl Streebog256Core {
    pub fn reset(&mut self)
        ensures
            stb_view(final(self).state) == stb_init(0x0101010101010101),
    {
        *self = Default::default();
    }

    /// Consume a list of complete 64-byte blocks.
    pub fn update_blocks(&mut self, blocks: &[[u8; 64]])
        ensures
            stb_view(final(self).state) == stb_blocks_list(stb_view(old(self).state), blocks@),
    {
        self.state.update_blocks(blocks);
    }

    /// Run the three-stage finalization and emit the digest.
    pub fn finalize_fixed_core(&mut self, buffer: &mut BlockBuffer64) -> (out: [u8; 32])
        requires
            old(buffer).wf(),
        ensures
            out@ == stb256_output(stb_final_h(stb_view(old(self).state), old(buffer)@)),
    {
        self.state.finalize(buffer);
        stb_emit256(self.state.h)
    }
}

/// Streaming Streebog hasher. Its view is the exact byte sequence fed so
/// far; `finalize` is pinned to `streebog512_of` of that sequence, so how the
/// input was chunked across `update` calls can never affect the digest.
#[derive(Clone, Copy)]
pub struct Streebog512 {
    core: Streebog512Core,
    buffer: BlockBuffer64,
    msg: Ghost<Seq<u8>>,
}

impl View for Streebog512 {
    type V = Seq<u8>;

    closed spec fn view(&self) -> Seq<u8> {
        self.msg@
    }
}

impl Streebog512 {
    /// The compressed prefix, buffered tail, and both accumulators agree
    /// with the message fed so far.
    pub closed spec fn wf(&self) -> bool {
        let l = self.msg@.len();
        let full = (l - (l % 64)) as int;
        &&& self.buffer.wf()
        &&& self.buffer.pos == l % 64
        &&& self.buffer@ == self.msg@.skip(full)
        &&& stb_view(self.core.state) == stb_blocks(stb_init(0), self.msg@.take(full))
    }

    pub fn new() -> (r: Self)
        ensures
            r.wf(),
            r@ == Seq::<u8>::empty(),
    {
        let r = Streebog512 {
            core: Default::default(),
            buffer: BlockBuffer64::new(),
            msg: Ghost(Seq::empty()),
        };
        proof {
            assert(r.msg@.take(0) =~= Seq::<u8>::empty());
            assert(r.msg@.skip(0) =~= Seq::<u8>::empty());
        }
        r
    }

    /// Absorb a chunk of any length; the view grows by exactly that chunk.
    #[verifier::rlimit(100)]
    pub fn update(&mut self, data: &[u8])
        requires
            old(self).wf(),
        ensures
            final(self).wf(),
            final(self)@ == old(self)@ + data@,
    {
        let ghost m0 = self.msg@;
        proof {
            assert(m0 + data@.take(0) =~= m0);
        }
        let mut i: usize = 0;
        while i < data.len()
            invariant
                i <= data.len(),
                self.wf(),
                self.msg@ == m0 + data@.take(i as int),
            decreases data.len() - i,
        {
            let b = data[i];
            let ghost m = self.msg@;
            let ghost l = m.len();
            let ghost full = (l - (l % 64)) as int;
            let pos = self.buffer.pos;
            self.buffer.block[pos] = b;
            self.buffer.pos = pos + 1;
            self.msg = Ghost(m + seq![b]);
            proof {
                assert(data@.take(i as int + 1) =~= data@.take(i as int) + seq![b]);
                assert(self.msg@ =~= m0 + data@.take(i as int + 1));
                assert(self.msg@.len() == l + 1);
                assert(self.msg@.take(full) =~= m.take(full));
                assert(self.msg@.skip(full) =~= m.skip(full) + seq![b]);
                assert(self.buffer.block@.take(pos as int + 1) =~= m.skip(full) + seq![b]);
            }
            if self.buffer.pos == 64 {
                self.core.state.compress(&self.buffer.block, 64);
                self.buffer.pos = 0;
                proof {
                    reveal_with_fuel(stb_blocks, 2);
                    let m2 = self.msg@;
                    let l2 = m2.len();
                    assert(l % 64 == 63);
                    assert(l2 % 64 == 0);
                    assert(full == l2 - 64);
                    assert(self.buffer.block@ =~= m2.skip(full));
                    assert(self.buffer.block@.len() == 64);
                    lemma_stb_blocks_concat(stb_init(0), m2.take(full), m2.skip(full));
                    assert(m2.take(full) + m2.skip(full) =~= m2);
                    assert(m2.skip(full).take(64) =~= m2.skip(full));
                    assert(m2.take(l2 as int) =~= m2);
                    assert(self.buffer.block@.take(0) =~= m2.skip(l2 as int));
                }
            }
            i += 1;
        }
        proof {
            assert(data@.take(data@.len() as int) =~= data@);
        }
    }

    /// Pad and emit the digest of everything fed so far. The hasher itself
    /// is left untouched, matching a pure read of the stream's digest.
    #[verifier::rlimit(60)]
    pub fn finalize(&self) -> (out: [u8; 64])
        requires
            self.wf(),
        ensures
            out@ == streebog512_of(self@),
    {
        let mut core = self.core;
        let mut buffer = self.buffer;
        let out = core.finalize_fixed_core(&mut buffer);
        out
    }

    /// Restore the fixed initial state, discarding all buffered input.
    pub fn reset(&mut self)
        ensures
            final(self).wf(),
            final(self)@ == Seq::<u8>::empty(),
    {
        self.core.reset();
        self.buffer.pos = 0;
        self.msg = Ghost(Seq::empty());
        proof {
            assert(self.msg@.take(0) =~= Seq::<u8>::empty());
            assert(self.msg@.skip(0) =~= Seq::<u8>::empty());
            assert(self.buffer.block@.take(0) =~= Seq::<u8>::empty());
        }
    }
}

/// Streaming Streebog hasher. Its view is the exact byte sequence fed so
/// far; `finalize` is pinned to `streebog256_of` of that sequence, so how the
/// input was chunked across `update` calls can never affect the digest.
#[derive(Clone, Copy)]
pub struct Streebog256 {
    core: Streebog256Core,
    buffer: BlockBuffer64,
    msg: Ghost<Seq<u8>>,
}

impl View for Streebog256 {
    type V = Seq<u8>;

    closed spec fn view(&self) -> Seq<u8> {
        self.msg@
    }
}

impl Streebog256 {
    /// The compressed prefix, buffered tail, and both accumulators agree
    /// with the message fed so far.
    pub closed spec fn wf(&self) -> bool {
        let l = self.msg@.len();
        let full = (l - (l % 64)) as int;
        &&& self.buffer.wf()
        &&& self.buffer.pos == l % 64
        &&& self.buffer@ == self.msg@.skip(full)
        &&& stb_view(self.core.state) == stb_blocks(stb_init(0x0101010101010101), self.msg@.take(full))
    }

    pub fn new() -> (r: Self)
        ensures
            r.wf(),
            r@ == Seq::<u8>::empty(),
    {
        let r = Streebog256 {
            core: Default::default(),
            buffer: BlockBuffer64::new(),
            msg: Ghost(Seq::empty()),
        };
        proof {
            assert(r.msg@.take(0) =~= Seq::<u8>::empty());
            assert(r.msg@.skip(0) =~= Seq::<u8>::empty());
        }
        r
    }

    /// Absorb a chunk of any length; the view grows by exactly that chunk.
    #[verifier::rlimit(100)]
    pub fn update(&mut self, data: &[u8])
        requires
            old(self).wf(),
        ensures
            final(self).wf(),
            final(self)@ == old(self)@ + data@,
    {
        let ghost m0 = self.msg@;
        proof {
            assert(m0 + data@.take(0) =~= m0);
        }
        let mut i: usize = 0;
        while i < data.len()
            invariant
                i <= data.len(),
                self.wf(),
                self.msg@ == m0 + data@.take(i as int),
            decreases data.len() - i,
        {
            let b = data[i];
            let ghost m = self.msg@;
            let ghost l = m.len();
            let ghost full = (l - (l % 64)) as int;
            let pos = self.buffer.pos;
            self.buffer.block[pos] = b;
            self.buffer.pos = pos + 1;
            self.msg = Ghost(m + seq![b]);
            proof {
                assert(data@.take(i as int + 1) =~= data@.take(i as int) + seq![b]);
                assert(self.msg@ =~= m0 + data@.take(i as int + 1));
                assert(self.msg@.len() == l + 1);
                assert(self.msg@.take(full) =~= m.take(full));
                assert(self.msg@.skip(full) =~= m.skip(full) + seq![b]);
                assert(self.buffer.block@.take(pos as int + 1) =~= m.skip(full) + seq![b]);
            }
            if self.buffer.pos == 64 {
                self.core.state.compress(&self.buffer.block, 64);
                self.buffer.pos = 0;
                proof {
                    reveal_with_fuel(stb_blocks, 2);
                    let m2 = self.msg@;
                    let l2 = m2.len();
                    assert(l % 64 == 63);
                    assert(l2 % 64 == 0);
                    assert(full == l2 - 64);
                    assert(self.buffer.block@ =~= m2.skip(full));
                    assert(self.buffer.block@.len() == 64);
                    lemma_stb_blocks_concat(stb_init(0x0101010101010101), m2.take(full), m2.skip(full));
                    assert(m2.take(full) + m2.skip(full) =~= m2);
                    assert(m2.skip(full).take(64) =~= m2.skip(full));
                    assert(m2.take(l2 as int) =~= m2);
                    assert(self.buffer.block@.take(0) =~= m2.skip(l2 as int));
                }
            }
            i += 1;
        }
        proof {
            assert(data@.take(data@.len() as int) =~= data@);
        }
    }

    /// Pad and emit the digest of everything fed so far. The hasher itself
    /// is left untouched, matching a pure read of the stream's digest.
    #[verifier::rlimit(60)]
    pub fn finalize(&self) -> (out: [u8; 32])
        requires
            self.wf(),
        ensures
            out@ == streebog256_of(self@),
    {
        let mut core = self.core;
        let mut buffer = self.buffer;
        let out = core.finalize_fixed_core(&mut buffer);
        out
    }

    /// Restore the fixed initial state, discarding all buffered input.
    pub fn reset(&mut self)
        ensures
            final(self).wf(),
            final(self)@ == Seq::<u8>::empty(),
    {
        self.core.reset();
        self.buffer.pos = 0;
        self.msg = Ghost(Seq::empty());
        proof {
            assert(self.msg@.take(0) =~= Seq::<u8>::empty());
            assert(self.msg@.skip(0) =~= Seq::<u8>::empty());
            assert(self.buffer.block@.take(0) =~= Seq::<u8>::empty());
        }
    }
}

} // verus!
