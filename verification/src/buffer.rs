//! The sample buffer: the ordered, growable destination for normalized
//! captured samples, stored as binary32 bit patterns.
//!
//! The buffer is the only state shared between the audio callback and a
//! consumer; the caller holds it behind one lock and keeps the critical
//! section short. This module provides the verified single-writer logic:
//! append preserves arrival order exactly — no reordering, no drops — and
//! drain hands every buffered sample out under the same exclusion.

use vstd::prelude::*;

verus! {

/// The in-memory destination of one capture session. Growth is unbounded by
/// design: the caller decides when to drain, and a long capture without a
/// drain is the caller's risk.
pub struct SampleBuffer {
    samples: Vec<u32>,
}

impl View for SampleBuffer {
    type V = Seq<u32>;

    closed spec fn view(&self) -> Seq<u32> {
        self.samples@
    }
}

impl SampleBuffer {
    /// An empty buffer for a new capture session.
    pub fn new() -> (b: SampleBuffer)
        ensures
            b@ == Seq::<u32>::empty(),
    {
        SampleBuffer { samples: Vec::new() }
    }

    /// The number of samples accumulated so far.
    pub fn len(&self) -> (n: usize)
        ensures
            n == self@.len(),
    {
        self.samples.len()
    }

    /// Appends one converted callback block. Atomic with respect to the
    /// exclusion the caller provides; arrival order is preserved across
    /// repeated calls and nothing already buffered moves.
    pub fn append(&mut self, block: &[u32])
        ensures
            final(self)@ == old(self)@ + block@,
    {
        let mut i: usize = 0;
        while i < block.len()
            invariant
                i <= block@.len(),
                self@ == old(self)@ + block@.subrange(0, i as int),
            decreases block@.len() - i,
        {
            self.samples.push(block[i]);
            proof {
                assert(old(self)@ + block@.subrange(0, i as int) + seq![block@[i as int]]
                    =~= old(self)@ + block@.subrange(0, i as int + 1));
            }
            i += 1;
        }
        proof {
            assert(old(self)@ + block@.subrange(0, block@.len() as int) =~= old(self)@ + block@);
        }
    }

    /// Drains every buffered sample in arrival order, leaving the buffer
    /// empty: the read-side counterpart of `append`, run under the same
    /// exclusion.
    pub fn drain(&mut self) -> (r: Vec<u32>)
        ensures
            r@ == old(self)@,
            final(self)@ == Seq::<u32>::empty(),
    {
        let mut r: Vec<u32> = Vec::new();
        core::mem::swap(&mut r, &mut self.samples);
        r
    }
}

/// The concatenation of callback blocks, in invocation order.
pub open spec fn concat_blocks(blocks: Seq<Seq<u32>>) -> Seq<u32>
    decreases blocks.len(),
{
    if blocks.len() == 0 {
        Seq::<u32>::empty()
    } else {
        concat_blocks(blocks.drop_last()) + blocks.last()
    }
}

/// The sum of the block sizes.
pub open spec fn total_block_len(blocks: Seq<Seq<u32>>) -> nat
    decreases blocks.len(),
{
    if blocks.len() == 0 {
        0
    } else {
        total_block_len(blocks.drop_last()) + blocks.last().len()
    }
}

/// Law: the concatenation of any sequence of blocks is exactly as long as
/// the sum of the block sizes.
pub proof fn lemma_concat_blocks_len(blocks: Seq<Seq<u32>>)
    ensures
        concat_blocks(blocks).len() == total_block_len(blocks),
    decreases blocks.len(),
{
    if blocks.len() > 0 {
        lemma_concat_blocks_len(blocks.drop_last());
    }
}

impl SampleBuffer {
    /// Law, run to completion: a buffer that receives a sequence of blocks
    /// in invocation order holds exactly their concatenation — the sum of
    /// the block sizes long, with no interleaving, reordering or drops.
    pub fn append_blocks(&mut self, blocks: &Vec<Vec<u32>>)
        ensures
            final(self)@ == old(self)@ + concat_blocks(
                blocks@.map_values(|b: Vec<u32>| b@),
            ),
    {
        let ghost all = blocks@.map_values(|b: Vec<u32>| b@);
        let mut i: usize = 0;
        while i < blocks.len()
            invariant
                i <= blocks@.len(),
                all == blocks@.map_values(|b: Vec<u32>| b@),
                self@ == old(self)@ + concat_blocks(all.subrange(0, i as int)),
            decreases blocks@.len() - i,
        {
            self.append(blocks[i].as_slice());
            proof {
                let next = all.subrange(0, i as int + 1);
                assert(next.drop_last() =~= all.subrange(0, i as int));
                assert(next.last() == blocks@[i as int]@);
            }
            i += 1;
        }
        proof {
            assert(all.subrange(0, all.len() as int) =~= all);
        }
    }
}

} // verus!
