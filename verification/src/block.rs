//! Reusable buffers for decoded audio: a single multi-channel block, a
//! cache window made of several blocks, and an opaque payload that exists
//! only to be dropped on the server's thread.

use vstd::prelude::*;

verus! {

/// Number of blocks that make up one cache window.
pub const CACHE_BLOCK_COUNT: usize = 4;

/// A decoded audio buffer: one sample sequence per channel, tagged with the
/// frame at which the decode actually started (`starting_frame_in_file`) and
/// the frame the requester asked for (`wanted_start_smp`). Exactly one party
/// owns a block at any instant; ownership moves by value through messages.
pub struct DataBlock<S> {
    pub block: Vec<Vec<S>>,
    pub starting_frame_in_file: usize,
    pub wanted_start_smp: usize,
}

impl<S> DataBlock<S> {
    /// How many channels this block carries.
    pub open spec fn num_channels(&self) -> int {
        self.block@.len() as int
    }

    /// All channels hold the same number of samples.
    pub open spec fn channels_uniform(&self) -> bool {
        forall|i: int| 0 <= i < self.block@.len() ==> #[trigger] self.block@[i]@.len() == self.frames()
    }

    /// Number of decoded frames the block currently holds (the length of its
    /// first channel; zero for a channel-less block).
    pub open spec fn frames(&self) -> int {
        if self.block@.len() == 0 {
            0
        } else {
            self.block@[0]@.len() as int
        }
    }

    /// A fresh, empty block with the given number of channels and zeroed tags.
    pub fn new(num_channels: usize) -> (r: Self)
        ensures
            r.num_channels() == num_channels as int,
            r.frames() == 0,
            r.channels_uniform(),
            r.starting_frame_in_file == 0,
            r.wanted_start_smp == 0,
    {
        let mut block: Vec<Vec<S>> = Vec::new();
        let mut c: usize = 0;
        while c < num_channels
            invariant
                c <= num_channels,
                block@.len() == c as int,
                forall|i: int| 0 <= i < c ==> #[trigger] block@[i]@.len() == 0,
            decreases num_channels - c,
        {
            block.push(Vec::new());
            c = c + 1;
        }
        DataBlock { block, starting_frame_in_file: 0, wanted_start_smp: 0 }
    }
}

/// An ordered run of blocks representing a contiguous pre-decoded window
/// starting at `wanted_start_smp`. Same single-ownership discipline as
/// `DataBlock`.
pub struct DataBlockCache<S> {
    pub blocks: Vec<DataBlock<S>>,
    pub wanted_start_smp: usize,
}

impl<S> DataBlockCache<S> {
    /// How many blocks the window holds.
    pub open spec fn num_blocks(&self) -> int {
        self.blocks@.len() as int
    }

    /// A fresh cache window of `CACHE_BLOCK_COUNT` empty blocks, each with
    /// the given number of channels.
    pub fn new(num_channels: usize) -> (r: Self)
        ensures
            r.num_blocks() == CACHE_BLOCK_COUNT as int,
            forall|i: int|
                0 <= i < r.blocks@.len() ==> (#[trigger] r.blocks@[i]).num_channels()
                    == num_channels as int,
            r.wanted_start_smp == 0,
    {
        let mut blocks: Vec<DataBlock<S>> = Vec::new();
        let mut c: usize = 0;
        while c < CACHE_BLOCK_COUNT
            invariant
                c <= CACHE_BLOCK_COUNT,
                blocks@.len() == c as int,
                forall|i: int|
                    0 <= i < c ==> (#[trigger] blocks@[i]).num_channels() == num_channels as int,
            decreases CACHE_BLOCK_COUNT - c,
        {
            blocks.push(DataBlock::new(num_channels));
            c = c + 1;
        }
        DataBlockCache { blocks, wanted_start_smp: 0 }
    }
}

/// An owned payload that the real-time side hands over with the close signal
/// so that its buffers are freed on the server's thread, never on the
/// real-time thread.
pub struct HeapData<S> {
    pub block_pool: Vec<DataBlock<S>>,
    pub cache_pool: Vec<DataBlockCache<S>>,
}

} // verus!
