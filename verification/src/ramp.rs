//! A deterministic in-memory decoder: every sample equals its frame index.
//! It exercises the whole decoder contract without touching a disk, which
//! makes it a verified reference implementation and a convenient test source.

use vstd::prelude::*;

use crate::block::DataBlock;
use crate::decoder::Decoder;
use crate::decoder::FileInfo;

verus! {

/// Channel count a ramp file opened by name reports.
pub const RAMP_NUM_CHANNELS: usize = 2;

/// Total frame count a ramp file opened by name reports.
pub const RAMP_NUM_FRAMES: usize = 10000;

/// Sample rate a ramp file opened by name reports.
pub const RAMP_SAMPLE_RATE: u32 = 44100;

/// Frames produced per decode by a ramp file opened by name.
pub const RAMP_BLOCK_FRAMES: usize = 256;

/// Decoder-specific parameters of a ramp file; a ramp file has none.
#[derive(Clone)]
pub struct RampParams;

/// Why opening a ramp file failed.
#[derive(Debug, PartialEq, Eq)]
pub enum RampOpenError {
    /// The file name was empty.
    InvalidFile,
    /// The requested start lies beyond the end of the file.
    StartBeyondEnd,
}

/// Why a decode or seek on a ramp file failed.
#[derive(Debug, PartialEq, Eq)]
pub enum RampFatalError {
    /// The requested seek target lies beyond the end of the file.
    SeekBeyondEnd,
}

/// How many frames one decode by `d` produces into a block of `nch`
/// channels: none into a channel-less block or at the end of the file, else
/// a full block, clamped to the frames that remain.
pub open spec fn ramp_frames_per_decode(d: RampDecoder, nch: int) -> int {
    if nch == 0 || d.pos >= d.num_frames {
        0
    } else if (d.block_frames as int) < d.num_frames - d.pos {
        d.block_frames as int
    } else {
        d.num_frames - d.pos
    }
}

/// An in-memory decoder over a virtual file of `num_frames` frames whose
/// sample at frame `f` is `f` itself, on every one of `num_channels`
/// channels. Each decode produces at most `block_frames` frames.
pub struct RampDecoder {
    pub num_channels: usize,
    pub num_frames: usize,
    pub sample_rate: u32,
    pub block_frames: usize,
    pub pos: usize,
}

impl RampDecoder {
    /// Build a ramp decoder with an explicit shape, positioned at
    /// `start_frame`; rejected when the start lies beyond the end.
    pub fn with_shape(
        num_channels: usize,
        num_frames: usize,
        sample_rate: u32,
        block_frames: usize,
        start_frame: usize,
    ) -> (r: Result<(Self, FileInfo<RampParams>), RampOpenError>)
        ensures
            start_frame <= num_frames <==> r is Ok,
            start_frame > num_frames ==> r matches Err(RampOpenError::StartBeyondEnd),
            r matches Ok((d, info)) ==> {
                &&& d.frame_pos() == start_frame as int
                &&& d.pos == start_frame
                &&& d.num_channels == num_channels
                &&& d.num_frames == num_frames
                &&& d.sample_rate == sample_rate
                &&& d.block_frames == block_frames
                &&& info.num_channels == num_channels
                &&& info.num_frames == num_frames
                &&& info.sample_rate == sample_rate
            },
    {
        if start_frame > num_frames {
            return Err(RampOpenError::StartBeyondEnd);
        }
        let d = RampDecoder { num_channels, num_frames, sample_rate, block_frames, pos: start_frame };
        let info = FileInfo {
            params: RampParams,
            num_frames,
            num_channels,
            sample_rate,
        };
        Ok((d, info))
    }
}

impl Decoder for RampDecoder {
    type Params = RampParams;

    type OpenError = RampOpenError;

    type FatalError = RampFatalError;

    type Sample = u64;

    open spec fn frame_pos(&self) -> int {
        self.pos as int
    }

    /// Any non-empty file name opens a ramp file with the default shape;
    /// an empty name is an invalid file.
    fn new(file: &str, start_frame: usize) -> (r: Result<
        (Self, FileInfo<RampParams>),
        RampOpenError,
    >)
        ensures
            r is Ok <==> (file@.len() > 0 && start_frame <= RAMP_NUM_FRAMES),
            file@.len() == 0 ==> r matches Err(RampOpenError::InvalidFile),
            file@.len() > 0 && start_frame > RAMP_NUM_FRAMES ==> r matches Err(
                RampOpenError::StartBeyondEnd,
            ),
            r matches Ok((d, info)) ==> {
                &&& d.pos == start_frame
                &&& d.num_channels == RAMP_NUM_CHANNELS
                &&& d.num_frames == RAMP_NUM_FRAMES
                &&& d.sample_rate == RAMP_SAMPLE_RATE
                &&& d.block_frames == RAMP_BLOCK_FRAMES
                &&& info.num_channels == RAMP_NUM_CHANNELS
                &&& info.num_frames == RAMP_NUM_FRAMES
                &&& info.sample_rate == RAMP_SAMPLE_RATE
            },
    {
        if file.is_empty() {
            return Err(RampOpenError::InvalidFile);
        }
        RampDecoder::with_shape(
            RAMP_NUM_CHANNELS,
            RAMP_NUM_FRAMES,
            RAMP_SAMPLE_RATE,
            RAMP_BLOCK_FRAMES,
            start_frame,
        )
    }

    fn decode_into(&mut self, block: &mut DataBlock<u64>) -> (r: Result<(), RampFatalError>)
        ensures
            r is Ok,
            final(self).num_channels == old(self).num_channels,
            final(self).num_frames == old(self).num_frames,
            final(self).sample_rate == old(self).sample_rate,
            final(self).block_frames == old(self).block_frames,
            final(self).pos == old(self).pos + ramp_frames_per_decode(
                *old(self),
                old(block).block@.len() as int,
            ),
            forall|c: int|
                0 <= c < final(block).block@.len() ==> (#[trigger] final(block).block@[c])@.len()
                    == ramp_frames_per_decode(*old(self), old(block).block@.len() as int),
            forall|c: int, j: int|
                0 <= c < final(block).block@.len() && 0 <= j < ramp_frames_per_decode(
                    *old(self),
                    old(block).block@.len() as int,
                ) ==> (#[trigger] final(block).block@[c]@[j]) as int == old(self).pos + j,
    {
        let num_channels = block.block.len();
        let remaining = if self.pos >= self.num_frames {
            0
        } else {
            self.num_frames - self.pos
        };
        let count = if num_channels == 0 {
            0
        } else if self.block_frames < remaining {
            self.block_frames
        } else {
            remaining
        };
        let mut channels: Vec<Vec<u64>> = Vec::new();
        let mut c: usize = 0;
        while c < num_channels
            invariant
                c <= num_channels,
                channels@.len() == c as int,
                count <= usize::MAX - self.pos,
                *self == *old(self),
                count as int == ramp_frames_per_decode(*old(self), num_channels as int),
                forall|i: int| 0 <= i < c ==> #[trigger] channels@[i]@.len() == count as int,
                forall|i: int, k: int|
                    0 <= i < c && 0 <= k < count ==> (#[trigger] channels@[i]@[k]) as int
                        == self.pos + k,
            decreases num_channels - c,
        {
            let mut chan: Vec<u64> = Vec::new();
            let mut j: usize = 0;
            while j < count
                invariant
                    j <= count,
                    count <= usize::MAX - self.pos,
                    *self == *old(self),
                    chan@.len() == j as int,
                    forall|k: int| 0 <= k < j ==> (#[trigger] chan@[k]) as int == self.pos + k,
                decreases count - j,
            {
                chan.push((self.pos + j) as u64);
                j = j + 1;
            }
            channels.push(chan);
            c = c + 1;
        }
        block.block = channels;
        self.pos = self.pos + count;
        Ok(())
    }

    fn seek_to(&mut self, frame: usize) -> (r: Result<(), RampFatalError>)
        ensures
            r is Ok <==> frame <= old(self).num_frames,
            frame > old(self).num_frames ==> r matches Err(RampFatalError::SeekBeyondEnd),
            r is Ok ==> final(self).pos == frame,
            final(self).num_channels == old(self).num_channels,
            final(self).num_frames == old(self).num_frames,
            final(self).sample_rate == old(self).sample_rate,
            final(self).block_frames == old(self).block_frames,
            r is Err ==> *final(self) == *old(self),
    {
        if frame > self.num_frames {
            return Err(RampFatalError::SeekBeyondEnd);
        }
        self.pos = frame;
        Ok(())
    }

    fn current_frame(&self) -> (r: usize) {
        self.pos
    }
}

} // verus!
