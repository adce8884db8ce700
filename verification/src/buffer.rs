//! The incremental block buffers: a partially filled block and its fill
//! position. The position stays strictly below the block size between
//! calls; it reaches the block size only transiently inside the call that
//! flushes the completed block.

use vstd::prelude::*;

verus! {

/// Block buffer for the 64-byte-block engines.
#[derive(Clone, Copy)]
pub struct BlockBuffer64 {
    pub block: [u8; 64],
    pub pos: usize,
}

impl BlockBuffer64 {
    /// The bytes buffered so far this block.
    pub open spec fn view(&self) -> Seq<u8> {
        self.block@.take(self.pos as int)
    }

    pub open spec fn wf(&self) -> bool {
        self.pos < 64
    }

    pub fn new() -> (r: Self)
        ensures
            r.wf(),
            r@ == Seq::<u8>::empty(),
    {
        let r = BlockBuffer64 { block: [0u8; 64], pos: 0 };
        proof {
            assert(r@ =~= Seq::<u8>::empty());
        }
        r
    }

    pub fn get_pos(&self) -> (r: usize)
        ensures
            r == self.pos,
    {
        self.pos
    }
}

/// Block buffer for the 16-byte-block MD2 engine.
#[derive(Clone, Copy)]
pub struct BlockBuffer16 {
    pub block: [u8; 16],
    pub pos: usize,
}

impl BlockBuffer16 {
    pub open spec fn view(&self) -> Seq<u8> {
        self.block@.take(self.pos as int)
    }

    pub open spec fn wf(&self) -> bool {
        self.pos < 16
    }

    pub fn new() -> (r: Self)
        ensures
            r.wf(),
            r@ == Seq::<u8>::empty(),
    {
        let r = BlockBuffer16 { block: [0u8; 16], pos: 0 };
        proof {
            assert(r@ =~= Seq::<u8>::empty());
        }
        r
    }

    pub fn get_pos(&self) -> (r: usize)
        ensures
            r == self.pos,
    {
        self.pos
    }
}

} // verus!
