//! The MD2 hash: a 48-byte permutation array driven by an S-box derived
//! from the digits of pi, a 16-byte running checksum chained block to
//! block, 16-byte blocks, and PKCS-style byte padding with one extra
//! compress pass over the checksum at finalization.

use vstd::prelude::*;
use crate::buffer::BlockBuffer16;
use crate::md2_table::MD2_S;

verus! {

/// One sweep of the S-box-driven XOR diffusion over positions `k..48`.
pub open spec fn md2_pass(x: Seq<u8>, t: u8, k: nat) -> (Seq<u8>, u8)
    recommends
        x.len() == 48,
        k <= 48,
    decreases 48 - k,
{
    if k >= 48 {
        (x, t)
    } else {
        let v = (x[k as int] ^ MD2_S[t as int]) as u8;
        md2_pass(x.update(k as int, v), v, k + 1)
    }
}

/// Rounds `j..18` of the diffusion, re-seeding the carry byte with the
/// round number after each sweep.
pub open spec fn md2_rounds(x: Seq<u8>, t: u8, j: nat) -> Seq<u8>
    recommends
        x.len() == 48,
        j <= 18,
    decreases 18 - j,
{
    if j >= 18 {
        x
    } else {
        let p = md2_pass(x, t, 0);
        md2_rounds(p.0, vstd::wrapping::u8_specs::wrapping_add(p.1, j as u8), j + 1)
    }
}

/// The checksum sweep: each byte XORs an S-box lookup keyed by the block
/// byte XOR the previous output byte.
pub open spec fn md2_csum(c: Seq<u8>, blk: Seq<u8>, l: u8, k: nat) -> Seq<u8>
    recommends
        c.len() == 16,
        blk.len() == 16,
        k <= 16,
    decreases 16 - k,
{
    if k >= 16 {
        c
    } else {
        let v = (c[k as int] ^ MD2_S[(blk[k as int] ^ l) as int]) as u8;
        md2_csum(c.update(k as int, v), blk, v, k + 1)
    }
}

/// The working array before diffusion: prior state, the block, and their
/// XOR, concatenated.
pub open spec fn md2_x_init(x: Seq<u8>, blk: Seq<u8>) -> Seq<u8>
    recommends
        x.len() == 48,
        blk.len() == 16,
{
    Seq::new(
        48,
        |i: int|
            if i < 16 {
                x[i]
            } else if i < 32 {
                blk[i - 16]
            } else {
                (blk[i - 32] ^ x[i - 32]) as u8
            },
    )
}

/// One application of the MD2 compression function: diffuse the block
/// through the permutation array and update the running checksum.
pub open spec fn md2_compress_spec(st: (Seq<u8>, Seq<u8>), blk: Seq<u8>) -> (Seq<u8>, Seq<u8>)
    recommends
        st.0.len() == 48,
        st.1.len() == 16,
        blk.len() == 16,
{
    (md2_rounds(md2_x_init(st.0, blk), 0, 0), md2_csum(st.1, blk, st.1[15], 0))
}

/// Fold the compression function over every complete 16-byte block.
pub open spec fn md2_blocks(st: (Seq<u8>, Seq<u8>), m: Seq<u8>) -> (Seq<u8>, Seq<u8>)
    decreases m.len(),
{
    if m.len() < 16 {
        st
    } else {
        md2_blocks(md2_compress_spec(st, m.take(16)), m.skip(16))
    }
}

/// Folding a block-aligned prefix and then the rest equals folding the
/// concatenation: the engine of chunk-invariance.
pub proof fn lemma_md2_blocks_concat(s: (Seq<u8>, Seq<u8>), a: Seq<u8>, b: Seq<u8>)
    requires
        a.len() % 16 == 0,
    ensures
        md2_blocks(s, a + b) == md2_blocks(md2_blocks(s, a), b),
    decreases a.len(),
{
    if a.len() == 0 {
        assert(a + b =~= b);
    } else {
        assert(a.len() >= 16);
        assert((a + b).take(16) =~= a.take(16));
        assert((a + b).skip(16) =~= a.skip(16) + b);
        assert(a.skip(16).len() % 16 == 0);
        lemma_md2_blocks_concat(md2_compress_spec(s, a.take(16)), a.skip(16), b);
    }
}

pub open spec fn md2_init() -> (Seq<u8>, Seq<u8>) {
    (Seq::new(48, |i: int| 0u8), Seq::new(16, |i: int| 0u8))
}

/// PKCS-style byte padding: append `k` bytes of value `k`, where `k` is
/// the distance to the next block boundary, a whole block if already
/// aligned.
pub open spec fn md2_pad(m: Seq<u8>) -> Seq<u8> {
    let k = (16 - (m.len() as int) % 16) as nat;
    m + Seq::new(k, |i: int| k as u8)
}

/// The MD2 digest: fold the padded message, then one extra compress pass
/// over the running checksum, and take the first 16 bytes of the array.
pub open spec fn md2_of(m: Seq<u8>) -> Seq<u8> {
    let st = md2_blocks(md2_init(), md2_pad(m));
    let st2 = md2_compress_spec(st, st.1);
    st2.0.take(16)
}

/// Fold over an explicit list of blocks.
pub open spec fn md2_blocks_list(st: (Seq<u8>, Seq<u8>), bs: Seq<[u8; 16]>) -> (Seq<u8>, Seq<u8>)
    decreases bs.len(),
{
    if bs.len() == 0 {
        st
    } else {
        md2_blocks_list(md2_compress_spec(st, bs[0]@), bs.skip(1))
    }
}

/// Core MD2 hasher state: the 48-byte permutation array and the 16-byte
/// running checksum.
#[derive(Clone, Copy, Debug)]
pub struct Md2Core {
    pub x: [u8; 48],
    pub checksum: [u8; 16],
}

impl Default for Md2Core {
    fn default() -> (r: Self)
        ensures
            (r.x@, r.checksum@) == md2_init(),
    {
        let r = Md2Core { x: [0u8; 48], checksum: [0u8; 16] };
        proof {
            assert(r.x@ =~= md2_init().0);
            assert(r.checksum@ =~= md2_init().1);
        }
        r
    }
}

impl Md2Core {
    pub fn reset(&mut self)
        ensures
            (final(self).x@, final(self).checksum@) == md2_init(),
    {
        *self = Default::default();
    }

    /// Fold one 16-byte block into the state.
    pub fn compress(&mut self, block: &[u8; 16])
        ensures
            (final(self).x@, final(self).checksum@) == md2_compress_spec(
                (old(self).x@, old(self).checksum@),
                block@,
            ),
    {
        let ghost x0 = self.x@;
        let mut j: usize = 0;
        while j < 16
            invariant
                j <= 16,
                self.x@.len() == 48,
                self.checksum == old(self).checksum,
                forall|i: int| 0 <= i < 16 ==> self.x@[i] == x0[i],
                forall|i: int| 0 <= i < j ==> self.x@[16 + i] == block@[i],
                forall|i: int| 0 <= i < j ==> self.x@[32 + i] == (block@[i] ^ x0[i]) as u8,
            decreases 16 - j,
        {
            self.x[16 + j] = block[j];
            self.x[32 + j] = block[j] ^ self.x[j];
            j += 1;
        }
        proof {
            assert(self.x@ =~= md2_x_init(x0, block@));
        }
        let ghost xi = self.x@;
        let mut t: u8 = 0;
        let mut round: usize = 0;
        while round < 18
            invariant
                round <= 18,
                self.x@.len() == 48,
                self.checksum == old(self).checksum,
                md2_rounds(self.x@, t, round as nat) == md2_rounds(xi, 0, 0),
            decreases 18 - round,
        {
            let ghost xr = self.x@;
            let ghost tr = t;
            let mut k: usize = 0;
            while k < 48
                invariant
                    k <= 48,
                    self.x@.len() == 48,
                    self.checksum == old(self).checksum,
                    md2_pass(self.x@, t, k as nat) == md2_pass(xr, tr, 0),
                decreases 48 - k,
            {
                let v = self.x[k] ^ MD2_S[t as usize];
                self.x[k] = v;
                t = v;
                k += 1;
            }
            t = t.wrapping_add(round as u8);
            round += 1;
        }
        let ghost c0 = self.checksum@;
        let mut l = self.checksum[15];
        let mut k: usize = 0;
        while k < 16
            invariant
                k <= 16,
                self.checksum@.len() == 16,
                self.x@.len() == 48,
                md2_rounds(xi, 0, 0) == self.x@,
                md2_csum(self.checksum@, block@, l, k as nat) == md2_csum(c0, block@, c0[15], 0),
            decreases 16 - k,
        {
            let v = self.checksum[k] ^ MD2_S[(block[k] ^ l) as usize];
            self.checksum[k] = v;
            l = v;
            k += 1;
        }
    }

    /// Consume a list of complete 16-byte blocks.
    pub fn update_blocks(&mut self, blocks: &[[u8; 16]])
        ensures
            (final(self).x@, final(self).checksum@) == md2_blocks_list(
                (old(self).x@, old(self).checksum@),
                blocks@,
            ),
    {
        proof {
            assert(blocks@.skip(0) =~= blocks@);
        }
        let mut i: usize = 0;
        while i < blocks.len()
            invariant
                i <= blocks.len(),
                self.x@.len() == 48,
                self.checksum@.len() == 16,
                md2_blocks_list((self.x@, self.checksum@), blocks@.skip(i as int))
                    == md2_blocks_list((old(self).x@, old(self).checksum@), blocks@),
            decreases blocks.len() - i,
        {
            proof {
                assert(blocks@.skip(i as int)[0] == blocks@[i as int]);
                assert(blocks@.skip(i as int).skip(1) =~= blocks@.skip(i as int + 1));
            }
            let blk = blocks[i];
            self.compress(&blk);
            i += 1;
        }
        proof {
            assert(blocks@.skip(blocks@.len() as int) =~= Seq::<[u8; 16]>::empty());
        }
    }

    /// Pad the buffered tail byte-marker style, compress it, compress the
    /// running checksum as one more block, and emit the first 16 bytes of
    /// the permutation array.
    pub fn finalize_fixed_core(&mut self, buffer: &mut BlockBuffer16) -> (out: [u8; 16])
        requires
            old(buffer).wf(),
        ensures
            out@ == md2_finalize_spec((old(self).x@, old(self).checksum@), old(buffer)@),
    {
        let pos = buffer.pos;
        let pad = (16 - pos) as u8;
        let ghost tail = buffer@;
        let mut i: usize = pos;
        while i < 16
            invariant
                pos < 16,
                pad == (16 - pos) as u8,
                pos <= i <= 16,
                buffer.block@.len() == 16,
                buffer.block@.take(pos as int) == tail,
                forall|j: int| pos <= j < i ==> buffer.block@[j] == (16 - pos) as u8,
            decreases 16 - i,
        {
            buffer.block[i] = pad;
            i += 1;
        }
        proof {
            assert(buffer.block@ =~= tail + Seq::new((16 - tail.len()) as nat, |j: int| (16
                - tail.len()) as u8));
        }
        self.compress(&buffer.block);
        let cs = self.checksum;
        self.compress(&cs);
        let mut out = [0u8; 16];
        let mut k: usize = 0;
        while k < 16
            invariant
                k <= 16,
                out@.len() == 16,
                self.x@.len() == 48,
                forall|j: int| 0 <= j < k ==> out@[j] == self.x@[j],
            decreases 16 - k,
        {
            out[k] = self.x[k];
            k += 1;
        }
        proof {
            assert(out@ =~= self.x@.take(16));
        }
        out
    }
}

/// The digest produced from a state and the buffered tail: pad, compress,
/// then compress the checksum.
pub open spec fn md2_finalize_spec(st: (Seq<u8>, Seq<u8>), tail: Seq<u8>) -> Seq<u8>
    recommends
        tail.len() < 16,
{
    let blk = tail + Seq::new((16 - tail.len()) as nat, |i: int| (16 - tail.len()) as u8);
    let st1 = md2_compress_spec(st, blk);
    let st2 = md2_compress_spec(st1, st1.1);
    st2.0.take(16)
}


/// Streaming MD2 hasher. Its view is the exact byte sequence fed so far;
/// `finalize` is pinned to `md2_of` of that sequence, so how the input
/// was chunked across `update` calls can never affect the digest.
#[derive(Clone, Copy)]
pub struct Md2 {
    core: Md2Core,
    buffer: BlockBuffer16,
    msg: Ghost<Seq<u8>>,
}

impl View for Md2 {
    type V = Seq<u8>;

    closed spec fn view(&self) -> Seq<u8> {
        self.msg@
    }
}

impl Md2 {
    /// The compressed prefix and buffered tail agree with the message fed
    /// so far; the checksum chains along with the permutation array.
    pub closed spec fn wf(&self) -> bool {
        let l = self.msg@.len();
        let full = (l - (l % 16)) as int;
        &&& self.buffer.wf()
        &&& self.buffer.pos == l % 16
        &&& self.buffer@ == self.msg@.skip(full)
        &&& (self.core.x@, self.core.checksum@) == md2_blocks(md2_init(), self.msg@.take(full))
    }

    pub fn new() -> (r: Self)
        ensures
            r.wf(),
            r@ == Seq::<u8>::empty(),
    {
        let r = Md2 {
            core: Default::default(),
            buffer: BlockBuffer16::new(),
            msg: Ghost(Seq::empty()),
        };
        proof {
            assert(r.msg@.take(0) =~= Seq::<u8>::empty());
            assert(r.msg@.skip(0) =~= Seq::<u8>::empty());
        }
        r
    }

    /// Absorb a chunk of any length; the view grows by exactly that chunk.
    pub fn update(&mut self, data: &[u8])
        requires
            old(self).wf(),
        ensures
            final(self).wf(),
            final(self)@ == old(self)@ + data@,
    {
        let ghost m0 = self.msg@;
        proof {
            assert(m0 + data@.take(0) =~= m0);
        }
        let mut i: usize = 0;
        while i < data.len()
            invariant
                i <= data.len(),
                self.wf(),
                self.msg@ == m0 + data@.take(i as int),
            decreases data.len() - i,
        {
            let b = data[i];
            let ghost m = self.msg@;
            let ghost l = m.len();
            let ghost full = (l - (l % 16)) as int;
            let pos = self.buffer.pos;
            self.buffer.block[pos] = b;
            self.buffer.pos = pos + 1;
            self.msg = Ghost(m + seq![b]);
            proof {
                assert(data@.take(i as int + 1) =~= data@.take(i as int) + seq![b]);
                assert(self.msg@ =~= m0 + data@.take(i as int + 1));
                assert(self.msg@.len() == l + 1);
                assert(self.msg@.take(full) =~= m.take(full));
                assert(self.msg@.skip(full) =~= m.skip(full) + seq![b]);
                assert(self.buffer.block@.take(pos as int + 1) =~= m.skip(full) + seq![b]);
            }
            if self.buffer.pos == 16 {
                self.core.compress(&self.buffer.block);
                self.buffer.pos = 0;
                proof {
                    reveal_with_fuel(md2_blocks, 2);
                    let m2 = self.msg@;
                    let l2 = m2.len();
                    assert(l % 16 == 15);
                    assert(l2 % 16 == 0);
                    assert(full == l2 - 16);
                    assert(self.buffer.block@ =~= m2.skip(full));
                    assert(self.buffer.block@.len() == 16);
                    lemma_md2_blocks_concat(md2_init(), m2.take(full), m2.skip(full));
                    assert(m2.take(full) + m2.skip(full) =~= m2);
                    assert(m2.skip(full).take(16) =~= m2.skip(full));
                    assert(m2.take(l2 as int) =~= m2);
                    assert(self.buffer.block@.take(0) =~= m2.skip(l2 as int));
                }
            }
            i += 1;
        }
        proof {
            assert(data@.take(data@.len() as int) =~= data@);
        }
    }

    /// Pad and emit the digest of everything fed so far. The hasher itself
    /// is left untouched, matching a pure read of the stream's digest.
    #[verifier::rlimit(60)]
    pub fn finalize(&self) -> (out: [u8; 16])
        requires
            self.wf(),
        ensures
            out@ == md2_of(self@),
    {
        let mut core = self.core;
        let mut buffer = self.buffer;
        let out = core.finalize_fixed_core(&mut buffer);
        proof {
            reveal_with_fuel(md2_blocks, 3);
            let m = self.msg@;
            let l = m.len();
            let full = (l - (l % 16)) as int;
            let tail = m.skip(full);
            let blk = tail + Seq::new((16 - tail.len()) as nat, |i: int| (16 - tail.len()) as u8);
            assert(blk.len() == 16);
            assert(m.take(full).len() % 16 == 0);
            assert(md2_pad(m) =~= m.take(full) + blk);
            lemma_md2_blocks_concat(md2_init(), m.take(full), blk);
            assert(blk.take(16) =~= blk);
            assert(blk.skip(16).len() == 0);
        }
        out
    }

    /// Restore the fixed initial state, discarding all buffered input.
    pub fn reset(&mut self)
        ensures
            final(self).wf(),
            final(self)@ == Seq::<u8>::empty(),
    {
        self.core.reset();
        self.buffer.pos = 0;
        self.msg = Ghost(Seq::empty());
        proof {
            assert(self.msg@.take(0) =~= Seq::<u8>::empty());
            assert(self.msg@.skip(0) =~= Seq::<u8>::empty());
            assert(self.buffer.block@.take(0) =~= Seq::<u8>::empty());
        }
    }
}

} // verus!
