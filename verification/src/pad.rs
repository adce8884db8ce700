//! The padding policies shared by the engines, stated over byte sequences.
//!
//! The MD4/MD5/RIPEMD family appends a `0x80` marker, zero-fills to 56 mod
//! 64, and closes with the total bit length as a little-endian 64-bit word
//! (taken mod 2^64, which is the published semantics for MD4/MD5 even when
//! the block counter wraps).

use vstd::prelude::*;
use crate::words::{le64_bytes, zero_bytes};

verus! {

/// Number of zero bytes between the `0x80` marker and the 8-byte length
/// field, for a message of `l` bytes.
pub open spec fn md_pad_zeros(l: nat) -> nat {
    ((55 - (l as int) % 64) % 64) as nat
}

/// Total message bit length reduced mod 2^64.
pub open spec fn md_bitlen64(l: nat) -> u64 {
    ((8 * l) % 0x1_0000_0000_0000_0000) as u64
}

/// The fully padded message: marker, zero fill, little-endian bit length.
pub open spec fn pad_md_le64(m: Seq<u8>) -> Seq<u8> {
    m + seq![0x80u8] + zero_bytes(md_pad_zeros(m.len())) + le64_bytes(md_bitlen64(m.len()))
}

/// The padding suffix alone, applied to the final partial block. `bitlen`
/// is the already-encoded 64-bit length field.
pub open spec fn tail_pad_le64(tail: Seq<u8>, bitlen: u64) -> Seq<u8>
    recommends
        tail.len() < 64,
{
    tail + seq![0x80u8] + zero_bytes(md_pad_zeros(tail.len())) + le64_bytes(bitlen)
}

/// The length field as the drivers compute it at finalization: from the
/// wrapped 64-bit count of processed blocks and the buffered position.
pub open spec fn md_bitlen_from(block_len: u64, pos: u64) -> u64 {
    vstd::wrapping::u64_specs::wrapping_mul(
        vstd::wrapping::u64_specs::wrapping_add(
            vstd::wrapping::u64_specs::wrapping_mul(block_len, 64),
            pos,
        ),
        8,
    )
}

/// The wrapped block counter and buffer position recover the exact
/// bit length mod 2^64: counter wraparound never corrupts the length
/// field for any message length.
pub proof fn lemma_md_bitlen_wrap(l: nat)
    ensures
        md_bitlen_from(((l / 64) % 0x1_0000_0000_0000_0000) as u64, (l % 64) as u64)
            == md_bitlen64(l),
{
    let p = 0x1_0000_0000_0000_0000;
    let q = l / 64;
    let r = l % 64;
    vstd::arithmetic::div_mod::lemma_fundamental_div_mod(l as int, 64);
    vstd::arithmetic::div_mod::lemma_mul_mod_noop_left(q as int, 64, p as int);
    assert((((q % p) * 64) % p) == ((q * 64) % p));
    vstd::arithmetic::div_mod::lemma_add_mod_noop(((q * 64)) as int, r as int, p as int);
    assert((r % p) == r);
    assert(((((q % p) * 64) % p) + r) % p == ((q * 64 + r)) % p);
    assert(q * 64 + r == l);
    vstd::arithmetic::div_mod::lemma_mul_mod_noop_left(l as int, 8, p as int);
    assert((((l % p) * 8) % p) == ((l * 8) % p));
}

/// Splitting the padded message at the last block boundary of the raw
/// message: everything before is the full blocks already compressed,
/// everything after is the padding suffix built from the buffered tail.
pub proof fn lemma_pad_md_le64_split(m: Seq<u8>)
    ensures
        ({
            let pos = m.len() % 64;
            let full = (m.len() - pos) as int;
            &&& pad_md_le64(m) == m.take(full) + tail_pad_le64(
                m.skip(full),
                md_bitlen64(m.len()),
            )
            &&& tail_pad_le64(m.skip(full), md_bitlen64(m.len())).len() == (
            if pos <= 55 {
                64int
            } else {
                128int
            })
            &&& pad_md_le64(m).len() % 64 == 0
        }),
{
    let pos = m.len() % 64;
    let full = (m.len() - pos) as int;
    let tail = m.skip(full);
    assert(tail.len() == pos);
    assert(md_pad_zeros(tail.len()) == md_pad_zeros(m.len()));
    assert(m =~= m.take(full) + tail);
    assert(pad_md_le64(m) =~= m.take(full) + tail_pad_le64(tail, md_bitlen64(m.len())));
}

} // verus!
