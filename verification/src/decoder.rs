//! The capability interface the server requires of an audio decoder, and the
//! immutable file metadata a decoder reports at open time.

use vstd::prelude::*;

use crate::block::DataBlock;

verus! {

/// Decoder-reported, immutable metadata: channel count, total frame count,
/// sample rate, and decoder-specific parameters. Produced once at open time
/// and never mutated afterwards.
pub struct FileInfo<P> {
    pub params: P,
    pub num_frames: usize,
    pub num_channels: usize,
    pub sample_rate: u32,
}

impl<P: Clone> Clone for FileInfo<P> {
    fn clone(&self) -> (r: Self)
        ensures
            r.num_frames == self.num_frames,
            r.num_channels == self.num_channels,
            r.sample_rate == self.sample_rate,
    {
        FileInfo {
            params: self.params.clone(),
            num_frames: self.num_frames,
            num_channels: self.num_channels,
            sample_rate: self.sample_rate,
        }
    }
}

/// What the server requires of any audio decoder: open a file at a starting
/// position, decode forward into caller-supplied blocks, seek, and report the
/// current position. One implementation per audio format.
pub trait Decoder: Sized {
    /// Decoder-specific metadata carried inside `FileInfo`.
    type Params: Clone;

    /// Error reported when opening a file fails.
    type OpenError;

    /// Error reported by `decode_into` or `seek_to`; always fatal to the server.
    type FatalError;

    /// The sample type the decoder produces.
    type Sample;

    /// The decoder's current position, in frames from the start of the file.
    spec fn frame_pos(&self) -> int;

    /// Open `file` positioned at `start_frame`, reporting the file's metadata.
    fn new(file: &str, start_frame: usize) -> (r: Result<
        (Self, FileInfo<Self::Params>),
        Self::OpenError,
    >)
        ensures
            r matches Ok((d, _)) ==> d.frame_pos() == start_frame as int,
    ;

    /// Fill `block` starting at the decoder's current position, advancing the
    /// position by the number of frames produced. The caller's tags and the
    /// block's channel count are left alone; a successful decode fills every
    /// channel to the same length. Must not allocate.
    fn decode_into(&mut self, block: &mut DataBlock<Self::Sample>) -> (r: Result<
        (),
        Self::FatalError,
    >)
        ensures
            r is Ok ==> {
                &&& final(block).starting_frame_in_file == old(block).starting_frame_in_file
                &&& final(block).wanted_start_smp == old(block).wanted_start_smp
                &&& final(block).num_channels() == old(block).num_channels()
                &&& final(block).channels_uniform()
                &&& final(self).frame_pos() == old(self).frame_pos() + final(block).frames()
            },
    ;

    /// Reposition the decoder without decoding.
    fn seek_to(&mut self, frame: usize) -> (r: Result<(), Self::FatalError>)
        ensures
            r is Ok ==> final(self).frame_pos() == frame as int,
    ;

    /// Report the decoder's current position without side effects.
    fn current_frame(&self) -> (r: usize)
        ensures
            r as int == self.frame_pos(),
    ;
}

} // verus!
