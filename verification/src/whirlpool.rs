//! The Whirlpool hash: an AES-like wide block cipher in Miyaguchi-Preneel
//! mode over eight 64-bit words, big-endian word order, with a 256-bit
//! bit-length counter kept as four carry-propagated 64-bit limbs.

use vstd::prelude::*;
use crate::words::{be64, be64_at, be64_bytes, zero_bytes};
use crate::whirlpool_tables::{WT0, WT1, WT2, WT3, WT4, WT5, WT6, WT7};
use crate::buffer::BlockBuffer64;

verus! {

/// One keying/diffusion round: every output word XORs eight table rows
/// selected by the bytes of the input words along the circulant diagonal.
#[verifier::opaque]
pub open spec fn wp_theta_spec(s: (u64, u64, u64, u64, u64, u64, u64, u64)) -> (u64, u64, u64, u64, u64, u64, u64, u64) {
    (
        WT0[((s.0 >> 56) as u8) as int] ^ WT1[((s.7 >> 48) as u8) as int] ^ WT2[((s.6 >> 40) as u8) as int] ^ WT3[((s.5 >> 32) as u8) as int] ^ WT4[((s.4 >> 24) as u8) as int] ^ WT5[((s.3 >> 16) as u8) as int] ^ WT6[((s.2 >> 8) as u8) as int] ^ WT7[(s.1 as u8) as int],
        WT0[((s.1 >> 56) as u8) as int] ^ WT1[((s.0 >> 48) as u8) as int] ^ WT2[((s.7 >> 40) as u8) as int] ^ WT3[((s.6 >> 32) as u8) as int] ^ WT4[((s.5 >> 24) as u8) as int] ^ WT5[((s.4 >> 16) as u8) as int] ^ WT6[((s.3 >> 8) as u8) as int] ^ WT7[(s.2 as u8) as int],
        WT0[((s.2 >> 56) as u8) as int] ^ WT1[((s.1 >> 48) as u8) as int] ^ WT2[((s.0 >> 40) as u8) as int] ^ WT3[((s.7 >> 32) as u8) as int] ^ WT4[((s.6 >> 24) as u8) as int] ^ WT5[((s.5 >> 16) as u8) as int] ^ WT6[((s.4 >> 8) as u8) as int] ^ WT7[(s.3 as u8) as int],
        WT0[((s.3 >> 56) as u8) as int] ^ WT1[((s.2 >> 48) as u8) as int] ^ WT2[((s.1 >> 40) as u8) as int] ^ WT3[((s.0 >> 32) as u8) as int] ^ WT4[((s.7 >> 24) as u8) as int] ^ WT5[((s.6 >> 16) as u8) as int] ^ WT6[((s.5 >> 8) as u8) as int] ^ WT7[(s.4 as u8) as int],
        WT0[((s.4 >> 56) as u8) as int] ^ WT1[((s.3 >> 48) as u8) as int] ^ WT2[((s.2 >> 40) as u8) as int] ^ WT3[((s.1 >> 32) as u8) as int] ^ WT4[((s.0 >> 24) as u8) as int] ^ WT5[((s.7 >> 16) as u8) as int] ^ WT6[((s.6 >> 8) as u8) as int] ^ WT7[(s.5 as u8) as int],
        WT0[((s.5 >> 56) as u8) as int] ^ WT1[((s.4 >> 48) as u8) as int] ^ WT2[((s.3 >> 40) as u8) as int] ^ WT3[((s.2 >> 32) as u8) as int] ^ WT4[((s.1 >> 24) as u8) as int] ^ WT5[((s.0 >> 16) as u8) as int] ^ WT6[((s.7 >> 8) as u8) as int] ^ WT7[(s.6 as u8) as int],
        WT0[((s.6 >> 56) as u8) as int] ^ WT1[((s.5 >> 48) as u8) as int] ^ WT2[((s.4 >> 40) as u8) as int] ^ WT3[((s.3 >> 32) as u8) as int] ^ WT4[((s.2 >> 24) as u8) as int] ^ WT5[((s.1 >> 16) as u8) as int] ^ WT6[((s.0 >> 8) as u8) as int] ^ WT7[(s.7 as u8) as int],
        WT0[((s.7 >> 56) as u8) as int] ^ WT1[((s.6 >> 48) as u8) as int] ^ WT2[((s.5 >> 40) as u8) as int] ^ WT3[((s.4 >> 32) as u8) as int] ^ WT4[((s.3 >> 24) as u8) as int] ^ WT5[((s.2 >> 16) as u8) as int] ^ WT6[((s.1 >> 8) as u8) as int] ^ WT7[(s.0 as u8) as int],
    )
}

fn wp_theta(s: (u64, u64, u64, u64, u64, u64, u64, u64)) -> (r: (u64, u64, u64, u64, u64, u64, u64, u64))
    ensures
        r == wp_theta_spec(s),
{
    proof {
        reveal(wp_theta_spec);
    }
    let r0 = WT0[((s.0 >> 56) as u8) as usize] ^ WT1[((s.7 >> 48) as u8) as usize] ^ WT2[((s.6 >> 40) as u8) as usize] ^ WT3[((s.5 >> 32) as u8) as usize] ^ WT4[((s.4 >> 24) as u8) as usize] ^ WT5[((s.3 >> 16) as u8) as usize] ^ WT6[((s.2 >> 8) as u8) as usize] ^ WT7[(s.1 as u8) as usize];
    let r1 = WT0[((s.1 >> 56) as u8) as usize] ^ WT1[((s.0 >> 48) as u8) as usize] ^ WT2[((s.7 >> 40) as u8) as usize] ^ WT3[((s.6 >> 32) as u8) as usize] ^ WT4[((s.5 >> 24) as u8) as usize] ^ WT5[((s.4 >> 16) as u8) as usize] ^ WT6[((s.3 >> 8) as u8) as usize] ^ WT7[(s.2 as u8) as usize];
    let r2 = WT0[((s.2 >> 56) as u8) as usize] ^ WT1[((s.1 >> 48) as u8) as usize] ^ WT2[((s.0 >> 40) as u8) as usize] ^ WT3[((s.7 >> 32) as u8) as usize] ^ WT4[((s.6 >> 24) as u8) as usize] ^ WT5[((s.5 >> 16) as u8) as usize] ^ WT6[((s.4 >> 8) as u8) as usize] ^ WT7[(s.3 as u8) as usize];
    let r3 = WT0[((s.3 >> 56) as u8) as usize] ^ WT1[((s.2 >> 48) as u8) as usize] ^ WT2[((s.1 >> 40) as u8) as usize] ^ WT3[((s.0 >> 32) as u8) as usize] ^ WT4[((s.7 >> 24) as u8) as usize] ^ WT5[((s.6 >> 16) as u8) as usize] ^ WT6[((s.5 >> 8) as u8) as usize] ^ WT7[(s.4 as u8) as usize];
    let r4 = WT0[((s.4 >> 56) as u8) as usize] ^ WT1[((s.3 >> 48) as u8) as usize] ^ WT2[((s.2 >> 40) as u8) as usize] ^ WT3[((s.1 >> 32) as u8) as usize] ^ WT4[((s.0 >> 24) as u8) as usize] ^ WT5[((s.7 >> 16) as u8) as usize] ^ WT6[((s.6 >> 8) as u8) as usize] ^ WT7[(s.5 as u8) as usize];
    let r5 = WT0[((s.5 >> 56) as u8) as usize] ^ WT1[((s.4 >> 48) as u8) as usize] ^ WT2[((s.3 >> 40) as u8) as usize] ^ WT3[((s.2 >> 32) as u8) as usize] ^ WT4[((s.1 >> 24) as u8) as usize] ^ WT5[((s.0 >> 16) as u8) as usize] ^ WT6[((s.7 >> 8) as u8) as usize] ^ WT7[(s.6 as u8) as usize];
    let r6 = WT0[((s.6 >> 56) as u8) as usize] ^ WT1[((s.5 >> 48) as u8) as usize] ^ WT2[((s.4 >> 40) as u8) as usize] ^ WT3[((s.3 >> 32) as u8) as usize] ^ WT4[((s.2 >> 24) as u8) as usize] ^ WT5[((s.1 >> 16) as u8) as usize] ^ WT6[((s.0 >> 8) as u8) as usize] ^ WT7[(s.7 as u8) as usize];
    let r7 = WT0[((s.7 >> 56) as u8) as usize] ^ WT1[((s.6 >> 48) as u8) as usize] ^ WT2[((s.5 >> 40) as u8) as usize] ^ WT3[((s.4 >> 32) as u8) as usize] ^ WT4[((s.3 >> 24) as u8) as usize] ^ WT5[((s.2 >> 16) as u8) as usize] ^ WT6[((s.1 >> 8) as u8) as usize] ^ WT7[(s.0 as u8) as usize];
    (r0, r1, r2, r3, r4, r5, r6, r7)
}

/// One application of the compression function to a 64-byte block:
/// ten rounds of the keyed permutation, closed Miyaguchi-Preneel style.
#[verifier::opaque]
pub open spec fn wp_compress_spec(st: (u64, u64, u64, u64, u64, u64, u64, u64), b: Seq<u8>) -> (u64, u64, u64, u64, u64, u64, u64, u64)
    recommends
        b.len() == 64,
{
    let m = (be64_at(b, 0), be64_at(b, 1), be64_at(b, 2), be64_at(b, 3), be64_at(b, 4), be64_at(b, 5), be64_at(b, 6), be64_at(b, 7));
    let k = st;
    let w = (st.0 ^ m.0, st.1 ^ m.1, st.2 ^ m.2, st.3 ^ m.3, st.4 ^ m.4, st.5 ^ m.5, st.6 ^ m.6, st.7 ^ m.7);
    let kt1 = wp_theta_spec(k);
    let k1 = (kt1.0 ^ 0x1823c6e887b8014fu64, kt1.1, kt1.2, kt1.3, kt1.4, kt1.5, kt1.6, kt1.7);
    let wt1 = wp_theta_spec(w);
    let w1 = (wt1.0 ^ k1.0, wt1.1 ^ k1.1, wt1.2 ^ k1.2, wt1.3 ^ k1.3, wt1.4 ^ k1.4, wt1.5 ^ k1.5, wt1.6 ^ k1.6, wt1.7 ^ k1.7);
    let kt2 = wp_theta_spec(k1);
    let k2 = (kt2.0 ^ 0x36a6d2f5796f9152u64, kt2.1, kt2.2, kt2.3, kt2.4, kt2.5, kt2.6, kt2.7);
    let wt2 = wp_theta_spec(w1);
    let w2 = (wt2.0 ^ k2.0, wt2.1 ^ k2.1, wt2.2 ^ k2.2, wt2.3 ^ k2.3, wt2.4 ^ k2.4, wt2.5 ^ k2.5, wt2.6 ^ k2.6, wt2.7 ^ k2.7);
    let kt3 = wp_theta_spec(k2);
    let k3 = (kt3.0 ^ 0x60bc9b8ea30c7b35u64, kt3.1, kt3.2, kt3.3, kt3.4, kt3.5, kt3.6, kt3.7);
    let wt3 = wp_theta_spec(w2);
    let w3 = (wt3.0 ^ k3.0, wt3.1 ^ k3.1, wt3.2 ^ k3.2, wt3.3 ^ k3.3, wt3.4 ^ k3.4, wt3.5 ^ k3.5, wt3.6 ^ k3.6, wt3.7 ^ k3.7);
    let kt4 = wp_theta_spec(k3);
    let k4 = (kt4.0 ^ 0x1de0d7c22e4bfe57u64, kt4.1, kt4.2, kt4.3, kt4.4, kt4.5, kt4.6, kt4.7);
    let wt4 = wp_theta_spec(w3);
    let w4 = (wt4.0 ^ k4.0, wt4.1 ^ k4.1, wt4.2 ^ k4.2, wt4.3 ^ k4.3, wt4.4 ^ k4.4, wt4.5 ^ k4.5, wt4.6 ^ k4.6, wt4.7 ^ k4.7);
    let kt5 = wp_theta_spec(k4);
    let k5 = (kt5.0 ^ 0x157737e59ff04adau64, kt5.1, kt5.2, kt5.3, kt5.4, kt5.5, kt5.6, kt5.7);
    let wt5 = wp_theta_spec(w4);
    let w5 = (wt5.0 ^ k5.0, wt5.1 ^ k5.1, wt5.2 ^ k5.2, wt5.3 ^ k5.3, wt5.4 ^ k5.4, wt5.5 ^ k5.5, wt5.6 ^ k5.6, wt5.7 ^ k5.7);
    let kt6 = wp_theta_spec(k5);
    let k6 = (kt6.0 ^ 0x58c9290ab1a06b85u64, kt6.1, kt6.2, kt6.3, kt6.4, kt6.5, kt6.6, kt6.7);
    let wt6 = wp_theta_spec(w5);
    let w6 = (wt6.0 ^ k6.0, wt6.1 ^ k6.1, wt6.2 ^ k6.2, wt6.3 ^ k6.3, wt6.4 ^ k6.4, wt6.5 ^ k6.5, wt6.6 ^ k6.6, wt6.7 ^ k6.7);
    let kt7 = wp_theta_spec(k6);
    let k7 = (kt7.0 ^ 0xbd5d10f4cb3e0567u64, kt7.1, kt7.2, kt7.3, kt7.4, kt7.5, kt7.6, kt7.7);
    let wt7 = wp_theta_spec(w6);
    let w7 = (wt7.0 ^ k7.0, wt7.1 ^ k7.1, wt7.2 ^ k7.2, wt7.3 ^ k7.3, wt7.4 ^ k7.4, wt7.5 ^ k7.5, wt7.6 ^ k7.6, wt7.7 ^ k7.7);
    let kt8 = wp_theta_spec(k7);
    let k8 = (kt8.0 ^ 0xe427418ba77d95d8u64, kt8.1, kt8.2, kt8.3, kt8.4, kt8.5, kt8.6, kt8.7);
    let wt8 = wp_theta_spec(w7);
    let w8 = (wt8.0 ^ k8.0, wt8.1 ^ k8.1, wt8.2 ^ k8.2, wt8.3 ^ k8.3, wt8.4 ^ k8.4, wt8.5 ^ k8.5, wt8.6 ^ k8.6, wt8.7 ^ k8.7);
    let kt9 = wp_theta_spec(k8);
    let k9 = (kt9.0 ^ 0xfbee7c66dd17479eu64, kt9.1, kt9.2, kt9.3, kt9.4, kt9.5, kt9.6, kt9.7);
    let wt9 = wp_theta_spec(w8);
    let w9 = (wt9.0 ^ k9.0, wt9.1 ^ k9.1, wt9.2 ^ k9.2, wt9.3 ^ k9.3, wt9.4 ^ k9.4, wt9.5 ^ k9.5, wt9.6 ^ k9.6, wt9.7 ^ k9.7);
    let kt10 = wp_theta_spec(k9);
    let k10 = (kt10.0 ^ 0xca2dbf07ad5a8333u64, kt10.1, kt10.2, kt10.3, kt10.4, kt10.5, kt10.6, kt10.7);
    let wt10 = wp_theta_spec(w9);
    let w10 = (wt10.0 ^ k10.0, wt10.1 ^ k10.1, wt10.2 ^ k10.2, wt10.3 ^ k10.3, wt10.4 ^ k10.4, wt10.5 ^ k10.5, wt10.6 ^ k10.6, wt10.7 ^ k10.7);
    (st.0 ^ w10.0 ^ m.0, st.1 ^ w10.1 ^ m.1, st.2 ^ w10.2 ^ m.2, st.3 ^ w10.3 ^ m.3, st.4 ^ w10.4 ^ m.4, st.5 ^ w10.5 ^ m.5, st.6 ^ w10.6 ^ m.6, st.7 ^ w10.7 ^ m.7)
}

/// The compression function: folds one 64-byte block into the state.
#[verifier::rlimit(60)]
pub fn wp_compress(state: &mut (u64, u64, u64, u64, u64, u64, u64, u64), block: &[u8; 64])
    ensures
        *final(state) == wp_compress_spec(*old(state), block@),
{
    proof {
        reveal(wp_compress_spec);
    }
    let m0 = be64(block[0], block[1], block[2], block[3], block[4], block[5], block[6], block[7]);
    let m1 = be64(block[8], block[9], block[10], block[11], block[12], block[13], block[14], block[15]);
    let m2 = be64(block[16], block[17], block[18], block[19], block[20], block[21], block[22], block[23]);
    let m3 = be64(block[24], block[25], block[26], block[27], block[28], block[29], block[30], block[31]);
    let m4 = be64(block[32], block[33], block[34], block[35], block[36], block[37], block[38], block[39]);
    let m5 = be64(block[40], block[41], block[42], block[43], block[44], block[45], block[46], block[47]);
    let m6 = be64(block[48], block[49], block[50], block[51], block[52], block[53], block[54], block[55]);
    let m7 = be64(block[56], block[57], block[58], block[59], block[60], block[61], block[62], block[63]);
    let mut k = *state;
    let mut w = (state.0 ^ m0, state.1 ^ m1, state.2 ^ m2, state.3 ^ m3, state.4 ^ m4, state.5 ^ m5, state.6 ^ m6, state.7 ^ m7);
    let kt = wp_theta(k);
    k = (kt.0 ^ 0x1823c6e887b8014fu64, kt.1, kt.2, kt.3, kt.4, kt.5, kt.6, kt.7);
    let wt = wp_theta(w);
    w = (wt.0 ^ k.0, wt.1 ^ k.1, wt.2 ^ k.2, wt.3 ^ k.3, wt.4 ^ k.4, wt.5 ^ k.5, wt.6 ^ k.6, wt.7 ^ k.7);
    let kt = wp_theta(k);
    k = (kt.0 ^ 0x36a6d2f5796f9152u64, kt.1, kt.2, kt.3, kt.4, kt.5, kt.6, kt.7);
    let wt = wp_theta(w);
    w = (wt.0 ^ k.0, wt.1 ^ k.1, wt.2 ^ k.2, wt.3 ^ k.3, wt.4 ^ k.4, wt.5 ^ k.5, wt.6 ^ k.6, wt.7 ^ k.7);
    let kt = wp_theta(k);
    k = (kt.0 ^ 0x60bc9b8ea30c7b35u64, kt.1, kt.2, kt.3, kt.4, kt.5, kt.6, kt.7);
    let wt = wp_theta(w);
    w = (wt.0 ^ k.0, wt.1 ^ k.1, wt.2 ^ k.2, wt.3 ^ k.3, wt.4 ^ k.4, wt.5 ^ k.5, wt.6 ^ k.6, wt.7 ^ k.7);
    let kt = wp_theta(k);
    k = (kt.0 ^ 0x1de0d7c22e4bfe57u64, kt.1, kt.2, kt.3, kt.4, kt.5, kt.6, kt.7);
    let wt = wp_theta(w);
    w = (wt.0 ^ k.0, wt.1 ^ k.1, wt.2 ^ k.2, wt.3 ^ k.3, wt.4 ^ k.4, wt.5 ^ k.5, wt.6 ^ k.6, wt.7 ^ k.7);
    let kt = wp_theta(k);
    k = (kt.0 ^ 0x157737e59ff04adau64, kt.1, kt.2, kt.3, kt.4, kt.5, kt.6, kt.7);
    let wt = wp_theta(w);
    w = (wt.0 ^ k.0, wt.1 ^ k.1, wt.2 ^ k.2, wt.3 ^ k.3, wt.4 ^ k.4, wt.5 ^ k.5, wt.6 ^ k.6, wt.7 ^ k.7);
    let kt = wp_theta(k);
    k = (kt.0 ^ 0x58c9290ab1a06b85u64, kt.1, kt.2, kt.3, kt.4, kt.5, kt.6, kt.7);
    let wt = wp_theta(w);
    w = (wt.0 ^ k.0, wt.1 ^ k.1, wt.2 ^ k.2, wt.3 ^ k.3, wt.4 ^ k.4, wt.5 ^ k.5, wt.6 ^ k.6, wt.7 ^ k.7);
    let kt = wp_theta(k);
    k = (kt.0 ^ 0xbd5d10f4cb3e0567u64, kt.1, kt.2, kt.3, kt.4, kt.5, kt.6, kt.7);
    let wt = wp_theta(w);
    w = (wt.0 ^ k.0, wt.1 ^ k.1, wt.2 ^ k.2, wt.3 ^ k.3, wt.4 ^ k.4, wt.5 ^ k.5, wt.6 ^ k.6, wt.7 ^ k.7);
    let kt = wp_theta(k);
    k = (kt.0 ^ 0xe427418ba77d95d8u64, kt.1, kt.2, kt.3, kt.4, kt.5, kt.6, kt.7);
    let wt = wp_theta(w);
    w = (wt.0 ^ k.0, wt.1 ^ k.1, wt.2 ^ k.2, wt.3 ^ k.3, wt.4 ^ k.4, wt.5 ^ k.5, wt.6 ^ k.6, wt.7 ^ k.7);
    let kt = wp_theta(k);
    k = (kt.0 ^ 0xfbee7c66dd17479eu64, kt.1, kt.2, kt.3, kt.4, kt.5, kt.6, kt.7);
    let wt = wp_theta(w);
    w = (wt.0 ^ k.0, wt.1 ^ k.1, wt.2 ^ k.2, wt.3 ^ k.3, wt.4 ^ k.4, wt.5 ^ k.5, wt.6 ^ k.6, wt.7 ^ k.7);
    let kt = wp_theta(k);
    k = (kt.0 ^ 0xca2dbf07ad5a8333u64, kt.1, kt.2, kt.3, kt.4, kt.5, kt.6, kt.7);
    let wt = wp_theta(w);
    w = (wt.0 ^ k.0, wt.1 ^ k.1, wt.2 ^ k.2, wt.3 ^ k.3, wt.4 ^ k.4, wt.5 ^ k.5, wt.6 ^ k.6, wt.7 ^ k.7);
    *state = (state.0 ^ w.0 ^ m0, state.1 ^ w.1 ^ m1, state.2 ^ w.2 ^ m2, state.3 ^ w.3 ^ m3, state.4 ^ w.4 ^ m4, state.5 ^ w.5 ^ m5, state.6 ^ w.6 ^ m6, state.7 ^ w.7 ^ m7);
}

/// Add `add` into the four-limb 256-bit counter, most significant limb
/// first, propagating carries and discarding overflow past 256 bits.
pub open spec fn wp_len_add(n: (u64, u64, u64, u64), add: u64) -> (u64, u64, u64, u64) {
    let t3 = n.3 + add;
    let l3 = (t3 % 0x1_0000_0000_0000_0000) as u64;
    let c3 = t3 / 0x1_0000_0000_0000_0000;
    let t2 = n.2 + c3;
    let l2 = (t2 % 0x1_0000_0000_0000_0000) as u64;
    let c2 = t2 / 0x1_0000_0000_0000_0000;
    let t1 = n.1 + c2;
    let l1 = (t1 % 0x1_0000_0000_0000_0000) as u64;
    let c1 = t1 / 0x1_0000_0000_0000_0000;
    let t0 = n.0 + c1;
    let l0 = (t0 % 0x1_0000_0000_0000_0000) as u64;
    (l0, l1, l2, l3)
}

/// One step of multi-precision addition: sum a limb, an addend and the
/// incoming carry, keeping the low 64 bits and handing the carry on.
pub fn adc(a: &mut u64, b: u64, carry: &mut u64)
    ensures
        *final(a) == ((*old(a) + b + *old(carry)) % 0x1_0000_0000_0000_0000) as u64,
        *final(carry) == ((*old(a) + b + *old(carry)) / 0x1_0000_0000_0000_0000) as u64,
{
    let ret = (*a as u128) + (b as u128) + (*carry as u128);
    proof {
        assert(ret as u64 == (ret % 0x1_0000_0000_0000_0000) as u64 && (ret >> 64) as u64 == (ret / 0x1_0000_0000_0000_0000) as u64)
            by (bit_vector);
    }
    *a = ret as u64;
    *carry = (ret >> 64) as u64;
}

/// Fold the compression function and the block-length accounting over
/// every complete 64-byte block of `m`: each block adds 512 bits.
pub open spec fn wp_blocks(s: ((u64, u64, u64, u64, u64, u64, u64, u64), (u64, u64, u64, u64)), m: Seq<u8>) -> ((u64, u64, u64, u64, u64, u64, u64, u64), (u64, u64, u64, u64))
    decreases m.len(),
{
    if m.len() < 64 {
        s
    } else {
        wp_blocks((wp_compress_spec(s.0, m.take(64)), wp_len_add(s.1, 512)), m.skip(64))
    }
}

/// State-only fold, used for the final padded block or blocks, whose
/// bytes no longer feed the counter.
pub open spec fn wp_sblocks(s: (u64, u64, u64, u64, u64, u64, u64, u64), m: Seq<u8>) -> (u64, u64, u64, u64, u64, u64, u64, u64)
    decreases m.len(),
{
    if m.len() < 64 {
        s
    } else {
        wp_sblocks(wp_compress_spec(s, m.take(64)), m.skip(64))
    }
}

/// Folding a block-aligned prefix and then the rest equals folding the
/// concatenation: the engine of chunk-invariance.
pub proof fn lemma_wp_blocks_concat(s: ((u64, u64, u64, u64, u64, u64, u64, u64), (u64, u64, u64, u64)), a: Seq<u8>, b: Seq<u8>)
    requires
        a.len() % 64 == 0,
    ensures
        wp_blocks(s, a + b) == wp_blocks(wp_blocks(s, a), b),
    decreases a.len(),
{
    if a.len() == 0 {
        assert(a + b =~= b);
    } else {
        assert(a.len() >= 64);
        assert((a + b).take(64) =~= a.take(64));
        assert((a + b).skip(64) =~= a.skip(64) + b);
        assert(a.skip(64).len() % 64 == 0);
        lemma_wp_blocks_concat(
            (wp_compress_spec(s.0, a.take(64)), wp_len_add(s.1, 512)),
            a.skip(64),
            b,
        );
    }
}

/// Zero bytes between the marker and the 32-byte length field.
pub open spec fn wp_pad_zeros(l: nat) -> nat {
    ((31 - (l as int) % 64) % 64) as nat
}

/// The padding suffix: marker, zero fill, and the 256-bit counter as four
/// big-endian limbs, always closing a 64-byte block.
pub open spec fn wp_tail_pad(tail: Seq<u8>, n: (u64, u64, u64, u64)) -> Seq<u8> {
    tail + seq![0x80u8] + zero_bytes(wp_pad_zeros(tail.len())) + be64_bytes(n.0) + be64_bytes(n.1)
        + be64_bytes(n.2) + be64_bytes(n.3)
}

pub open spec fn wp_init() -> ((u64, u64, u64, u64, u64, u64, u64, u64), (u64, u64, u64, u64)) {
    ((0u64, 0u64, 0u64, 0u64, 0u64, 0u64, 0u64, 0u64), (0u64, 0u64, 0u64, 0u64))
}

/// Big-endian serialization of the final state.
pub open spec fn wp_output(s: (u64, u64, u64, u64, u64, u64, u64, u64)) -> Seq<u8> {
    be64_bytes(s.0) + be64_bytes(s.1) + be64_bytes(s.2) + be64_bytes(s.3) + be64_bytes(s.4)
        + be64_bytes(s.5) + be64_bytes(s.6) + be64_bytes(s.7)
}

/// The Whirlpool digest of an arbitrary byte sequence: fold the full
/// blocks while accumulating the bit length, close the counter with the
/// final partial block, then fold the padded suffix.
pub open spec fn wp_of(m: Seq<u8>) -> Seq<u8> {
    let l = m.len();
    let full = (l - (l % 64)) as int;
    let p = wp_blocks(wp_init(), m.take(full));
    let n = wp_len_add(p.1, (8 * (l % 64)) as u64);
    wp_output(wp_sblocks(p.0, wp_tail_pad(m.skip(full), n)))
}

/// Fold over an explicit list of blocks, as `update_blocks` consumes them.
pub open spec fn wp_blocks_list(s: ((u64, u64, u64, u64, u64, u64, u64, u64), (u64, u64, u64, u64)), bs: Seq<[u8; 64]>) -> ((u64, u64, u64, u64, u64, u64, u64, u64), (u64, u64, u64, u64))
    decreases bs.len(),
{
    if bs.len() == 0 {
        s
    } else {
        wp_blocks_list((wp_compress_spec(s.0, bs[0]@), wp_len_add(s.1, 512)), bs.skip(1))
    }
}

/// Write the four counter limbs big-endian into the last 32 bytes of a
/// block.
#[verifier::rlimit(100)]
fn wp_write_len(block: &mut [u8; 64], n: (u64, u64, u64, u64))
    ensures
        final(block)@ =~= old(block)@.take(32) + be64_bytes(n.0) + be64_bytes(n.1) + be64_bytes(
            n.2,
        ) + be64_bytes(n.3),
{
    block[32] = (n.0 >> 56) as u8;
    block[33] = (n.0 >> 48) as u8;
    block[34] = (n.0 >> 40) as u8;
    block[35] = (n.0 >> 32) as u8;
    block[36] = (n.0 >> 24) as u8;
    block[37] = (n.0 >> 16) as u8;
    block[38] = (n.0 >> 8) as u8;
    block[39] = n.0 as u8;
    block[40] = (n.1 >> 56) as u8;
    block[41] = (n.1 >> 48) as u8;
    block[42] = (n.1 >> 40) as u8;
    block[43] = (n.1 >> 32) as u8;
    block[44] = (n.1 >> 24) as u8;
    block[45] = (n.1 >> 16) as u8;
    block[46] = (n.1 >> 8) as u8;
    block[47] = n.1 as u8;
    block[48] = (n.2 >> 56) as u8;
    block[49] = (n.2 >> 48) as u8;
    block[50] = (n.2 >> 40) as u8;
    block[51] = (n.2 >> 32) as u8;
    block[52] = (n.2 >> 24) as u8;
    block[53] = (n.2 >> 16) as u8;
    block[54] = (n.2 >> 8) as u8;
    block[55] = n.2 as u8;
    block[56] = (n.3 >> 56) as u8;
    block[57] = (n.3 >> 48) as u8;
    block[58] = (n.3 >> 40) as u8;
    block[59] = (n.3 >> 32) as u8;
    block[60] = (n.3 >> 24) as u8;
    block[61] = (n.3 >> 16) as u8;
    block[62] = (n.3 >> 8) as u8;
    block[63] = n.3 as u8;
    proof {
        assert(block@ =~= old(block)@.take(32) + be64_bytes(n.0) + be64_bytes(n.1) + be64_bytes(
            n.2,
        ) + be64_bytes(n.3));
    }
}

/// Serialize the eight state words big-endian.
#[verifier::rlimit(100)]
fn wp_emit(s: (u64, u64, u64, u64, u64, u64, u64, u64)) -> (out: [u8; 64])
    ensures
        out@ == wp_output(s),
{
    let mut out = [0u8; 64];
    out[0] = (s.0 >> 56) as u8;
    out[1] = (s.0 >> 48) as u8;
    out[2] = (s.0 >> 40) as u8;
    out[3] = (s.0 >> 32) as u8;
    out[4] = (s.0 >> 24) as u8;
    out[5] = (s.0 >> 16) as u8;
    out[6] = (s.0 >> 8) as u8;
    out[7] = s.0 as u8;
    out[8] = (s.1 >> 56) as u8;
    out[9] = (s.1 >> 48) as u8;
    out[10] = (s.1 >> 40) as u8;
    out[11] = (s.1 >> 32) as u8;
    out[12] = (s.1 >> 24) as u8;
    out[13] = (s.1 >> 16) as u8;
    out[14] = (s.1 >> 8) as u8;
    out[15] = s.1 as u8;
    out[16] = (s.2 >> 56) as u8;
    out[17] = (s.2 >> 48) as u8;
    out[18] = (s.2 >> 40) as u8;
    out[19] = (s.2 >> 32) as u8;
    out[20] = (s.2 >> 24) as u8;
    out[21] = (s.2 >> 16) as u8;
    out[22] = (s.2 >> 8) as u8;
    out[23] = s.2 as u8;
    out[24] = (s.3 >> 56) as u8;
    out[25] = (s.3 >> 48) as u8;
    out[26] = (s.3 >> 40) as u8;
    out[27] = (s.3 >> 32) as u8;
    out[28] = (s.3 >> 24) as u8;
    out[29] = (s.3 >> 16) as u8;
    out[30] = (s.3 >> 8) as u8;
    out[31] = s.3 as u8;
    out[32] = (s.4 >> 56) as u8;
    out[33] = (s.4 >> 48) as u8;
    out[34] = (s.4 >> 40) as u8;
    out[35] = (s.4 >> 32) as u8;
    out[36] = (s.4 >> 24) as u8;
    out[37] = (s.4 >> 16) as u8;
    out[38] = (s.4 >> 8) as u8;
    out[39] = s.4 as u8;
    out[40] = (s.5 >> 56) as u8;
    out[41] = (s.5 >> 48) as u8;
    out[42] = (s.5 >> 40) as u8;
    out[43] = (s.5 >> 32) as u8;
    out[44] = (s.5 >> 24) as u8;
    out[45] = (s.5 >> 16) as u8;
    out[46] = (s.5 >> 8) as u8;
    out[47] = s.5 as u8;
    out[48] = (s.6 >> 56) as u8;
    out[49] = (s.6 >> 48) as u8;
    out[50] = (s.6 >> 40) as u8;
    out[51] = (s.6 >> 32) as u8;
    out[52] = (s.6 >> 24) as u8;
    out[53] = (s.6 >> 16) as u8;
    out[54] = (s.6 >> 8) as u8;
    out[55] = s.6 as u8;
    out[56] = (s.7 >> 56) as u8;
    out[57] = (s.7 >> 48) as u8;
    out[58] = (s.7 >> 40) as u8;
    out[59] = (s.7 >> 32) as u8;
    out[60] = (s.7 >> 24) as u8;
    out[61] = (s.7 >> 16) as u8;
    out[62] = (s.7 >> 8) as u8;
    out[63] = s.7 as u8;
    proof {
        let t = wp_output(s);
        assert(t.len() == 64);
        assert forall|j: int| 0 <= j < 64 implies out@[j] == t[j] by {
            if j < 8 {
                assert(t[j] == be64_bytes(s.0)[j]);
            } else if j < 16 {
                assert(t[j] == be64_bytes(s.1)[j - 8]);
            } else if j < 24 {
                assert(t[j] == be64_bytes(s.2)[j - 16]);
            } else if j < 32 {
                assert(t[j] == be64_bytes(s.3)[j - 24]);
            } else if j < 40 {
                assert(t[j] == be64_bytes(s.4)[j - 32]);
            } else if j < 48 {
                assert(t[j] == be64_bytes(s.5)[j - 40]);
            } else if j < 56 {
                assert(t[j] == be64_bytes(s.6)[j - 48]);
            } else {
                assert(t[j] == be64_bytes(s.7)[j - 56]);
            }
        }
        assert(out@ =~= t);
    }
    out
}

/// Core Whirlpool hasher state: eight chaining words and the 256-bit
/// bit-length counter.
#[derive(Clone, Copy, Debug)]
pub struct WhirlpoolCore {
    pub bit_len: (u64, u64, u64, u64),
    pub state: (u64, u64, u64, u64, u64, u64, u64, u64),
}

impl Default for WhirlpoolCore {
    fn default() -> (r: Self)
        ensures
            (r.state, r.bit_len) == wp_init(),
    {
        WhirlpoolCore {
            bit_len: (0u64, 0u64, 0u64, 0u64),
            state: (0u64, 0u64, 0u64, 0u64, 0u64, 0u64, 0u64, 0u64),
        }
    }
}

impl WhirlpoolCore {
    pub fn reset(&mut self)
        ensures
            (final(self).state, final(self).bit_len) == wp_init(),
    {
        self.bit_len = (0u64, 0u64, 0u64, 0u64);
        self.state = (0u64, 0u64, 0u64, 0u64, 0u64, 0u64, 0u64, 0u64);
    }

    /// Add a bit count into the running 256-bit length counter.
    pub fn update_len(&mut self, len: u64)
        ensures
            final(self).bit_len == wp_len_add(old(self).bit_len, len),
            final(self).state == old(self).state,
    {
        let mut carry: u64 = 0;
        adc(&mut self.bit_len.3, len, &mut carry);
        adc(&mut self.bit_len.2, 0, &mut carry);
        adc(&mut self.bit_len.1, 0, &mut carry);
        adc(&mut self.bit_len.0, 0, &mut carry);
    }

    /// Consume a list of complete blocks, adding 512 bits per block.
    pub fn update_blocks(&mut self, blocks: &[[u8; 64]])
        ensures
            (final(self).state, final(self).bit_len) == wp_blocks_list(
                (old(self).state, old(self).bit_len),
                blocks@,
            ),
    {
        proof {
            assert(blocks@.skip(0) =~= blocks@);
        }
        let mut i: usize = 0;
        while i < blocks.len()
            invariant
                i <= blocks.len(),
                wp_blocks_list((self.state, self.bit_len), blocks@.skip(i as int)) == wp_blocks_list(
                    (old(self).state, old(self).bit_len),
                    blocks@,
                ),
            decreases blocks.len() - i,
        {
            proof {
                assert(blocks@.skip(i as int)[0] == blocks@[i as int]);
                assert(blocks@.skip(i as int).skip(1) =~= blocks@.skip(i as int + 1));
            }
            let blk = blocks[i];
            self.update_len(512);
            wp_compress(&mut self.state, &blk);
            i += 1;
        }
        proof {
            assert(blocks@.skip(blocks@.len() as int) =~= Seq::<[u8; 64]>::empty());
        }
    }

    /// Close the counter with the buffered byte count, pad, fold the final
    /// block or blocks, and emit the 64 digest bytes big-endian.
    #[verifier::rlimit(80)]
    pub fn finalize_fixed_core(&mut self, buffer: &mut BlockBuffer64) -> (out: [u8; 64])
        requires
            old(buffer).wf(),
        ensures
            out@ == wp_output(
                wp_sblocks(
                    old(self).state,
                    wp_tail_pad(
                        old(buffer)@,
                        wp_len_add(old(self).bit_len, (8 * old(buffer).pos) as u64),
                    ),
                ),
            ),
    {
        let pos = buffer.pos;
        self.update_len((8 * pos) as u64);
        let ghost tail = buffer@;
        let ghost padded = wp_tail_pad(tail, self.bit_len);
        buffer.block[pos] = 0x80;
        let mut i: usize = pos + 1;
        while i < 64
            invariant
                pos + 1 <= i <= 64,
                buffer.block@.len() == 64,
                buffer.block@.take(pos as int) == tail,
                buffer.block@[pos as int] == 0x80u8,
                forall|j: int| pos < j < i ==> buffer.block@[j] == 0u8,
            decreases 64 - i,
        {
            buffer.block[i] = 0;
            i += 1;
        }
        if pos < 32 {
            wp_write_len(&mut buffer.block, self.bit_len);
            proof {
                reveal_with_fuel(wp_sblocks, 3);
                assert(wp_pad_zeros(tail.len()) == 31 - pos);
                assert(padded.len() == 64);
                assert(buffer.block@ =~= padded);
                assert(padded.skip(64).len() == 0);
            }
            wp_compress(&mut self.state, &buffer.block);
            proof {
                assert(padded.take(64) =~= buffer.block@);
                assert(self.state == wp_sblocks(old(self).state, padded));
            }
        } else {
            wp_compress(&mut self.state, &buffer.block);
            let ghost first = buffer.block@;
            let mut last = [0u8; 64];
            wp_write_len(&mut last, self.bit_len);
            proof {
                assert(last@.take(32) =~= zero_bytes(32));
            }
            wp_compress(&mut self.state, &last);
            proof {
                reveal_with_fuel(wp_sblocks, 3);
                assert(wp_pad_zeros(tail.len()) == 95 - pos);
                assert(padded.len() == 128);
                assert(padded.take(64) =~= first);
                assert(padded.skip(64).take(64) =~= last@);
                assert(padded.skip(64).skip(64).len() == 0);
                assert(padded.skip(64) =~= padded.skip(64).take(64) + padded.skip(64).skip(64));
                assert(self.state == wp_sblocks(old(self).state, padded));
            }
        }
        let out = wp_emit(self.state);
        out
    }
}

/// Streaming Whirlpool hasher. Its view is the exact byte sequence fed so
/// far; `finalize` is pinned to `wp_of` of that sequence, so how the input
/// was chunked across `update` calls can never affect the digest.
#[derive(Clone, Copy)]
pub struct Whirlpool {
    core: WhirlpoolCore,
    buffer: BlockBuffer64,
    msg: Ghost<Seq<u8>>,
}

impl View for Whirlpool {
    type V = Seq<u8>;

    closed spec fn view(&self) -> Seq<u8> {
        self.msg@
    }
}

impl Whirlpool {
    /// The compressed prefix, buffered tail, and bit-length limbs all
    /// agree with the message fed so far.
    pub closed spec fn wf(&self) -> bool {
        let l = self.msg@.len();
        let full = (l - (l % 64)) as int;
        &&& self.buffer.wf()
        &&& self.buffer.pos == l % 64
        &&& self.buffer@ == self.msg@.skip(full)
        &&& (self.core.state, self.core.bit_len) == wp_blocks(wp_init(), self.msg@.take(full))
    }

    pub fn new() -> (r: Self)
        ensures
            r.wf(),
            r@ == Seq::<u8>::empty(),
    {
        let r = Whirlpool {
            core: Default::default(),
            buffer: BlockBuffer64::new(),
            msg: Ghost(Seq::empty()),
        };
        proof {
            assert(r.msg@.take(0) =~= Seq::<u8>::empty());
            assert(r.msg@.skip(0) =~= Seq::<u8>::empty());
        }
        r
    }

    /// Absorb a chunk of any length; the view grows by exactly that chunk.
    pub fn update(&mut self, data: &[u8])
        requires
            old(self).wf(),
        ensures
            final(self).wf(),
            final(self)@ == old(self)@ + data@,
    {
        let ghost m0 = self.msg@;
        proof {
            assert(m0 + data@.take(0) =~= m0);
        }
        let mut i: usize = 0;
        while i < data.len()
            invariant
                i <= data.len(),
                self.wf(),
                self.msg@ == m0 + data@.take(i as int),
            decreases data.len() - i,
        {
            let b = data[i];
            let ghost m = self.msg@;
            let ghost l = m.len();
            let ghost full = (l - (l % 64)) as int;
            let pos = self.buffer.pos;
            self.buffer.block[pos] = b;
            self.buffer.pos = pos + 1;
            self.msg = Ghost(m + seq![b]);
            proof {
                assert(data@.take(i as int + 1) =~= data@.take(i as int) + seq![b]);
                assert(self.msg@ =~= m0 + data@.take(i as int + 1));
                assert(self.msg@.len() == l + 1);
                assert(self.msg@.take(full) =~= m.take(full));
                assert(self.msg@.skip(full) =~= m.skip(full) + seq![b]);
                assert(self.buffer.block@.take(pos as int + 1) =~= m.skip(full) + seq![b]);
            }
            if self.buffer.pos == 64 {
                self.core.update_len(512);
                wp_compress(&mut self.core.state, &self.buffer.block);
                self.buffer.pos = 0;
                proof {
                    reveal_with_fuel(wp_blocks, 2);
                    let m2 = self.msg@;
                    let l2 = m2.len();
                    assert(l % 64 == 63);
                    assert(l2 % 64 == 0);
                    assert(full == l2 - 64);
                    assert(self.buffer.block@ =~= m2.skip(full));
                    assert(self.buffer.block@.len() == 64);
                    lemma_wp_blocks_concat(wp_init(), m2.take(full), m2.skip(full));
                    assert(m2.take(full) + m2.skip(full) =~= m2);
                    assert(m2.skip(full).take(64) =~= m2.skip(full));
                    assert(m2.take(l2 as int) =~= m2);
                    assert(self.buffer.block@.take(0) =~= m2.skip(l2 as int));
                }
            }
            i += 1;
        }
        proof {
            assert(data@.take(data@.len() as int) =~= data@);
        }
    }

    /// Pad and emit the digest of everything fed so far. The hasher itself
    /// is left untouched, matching a pure read of the stream's digest.
    #[verifier::rlimit(60)]
    pub fn finalize(&self) -> (out: [u8; 64])
        requires
            self.wf(),
        ensures
            out@ == wp_of(self@),
    {
        let mut core = self.core;
        let mut buffer = self.buffer;
        let out = core.finalize_fixed_core(&mut buffer);
        out
    }

    /// Restore the fixed initial state, discarding all buffered input.
    pub fn reset(&mut self)
        ensures
            final(self).wf(),
            final(self)@ == Seq::<u8>::empty(),
    {
        self.core.reset();
        self.buffer.pos = 0;
        self.msg = Ghost(Seq::empty());
        proof {
            assert(self.msg@.take(0) =~= Seq::<u8>::empty());
            assert(self.msg@.skip(0) =~= Seq::<u8>::empty());
            assert(self.buffer.block@.take(0) =~= Seq::<u8>::empty());
        }
    }
}

} // verus!
