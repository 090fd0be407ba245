//! The typed request/response vocabulary exchanged between the real-time
//! side and the server, together with the ghost log entries the server keeps
//! of every response it produces.

use vstd::prelude::*;

use crate::block::DataBlock;
use crate::block::DataBlockCache;

verus! {

/// A request from the real-time side to the server. Any buffer a request
/// carries moves, with its ownership, into the server.
pub enum ClientToServerMsg<S> {
    /// Fill a block (the supplied one, a pooled one, or a fresh one) starting
    /// at `starting_frame_in_file` and send it back under `block_index`.
    ReadIntoBlock { block_index: usize, block: Option<DataBlock<S>>, starting_frame_in_file: usize },
    /// Hand a block back to the server's pool for reuse.
    DisposeBlock { block: DataBlock<S> },
    /// Reposition the decoder.
    SeekTo { frame: usize },
    /// Fill a cache window starting at `starting_frame_in_file`, without
    /// disturbing the decoder's streaming position, and send it back under
    /// `cache_index`.
    Cache { cache_index: usize, cache: Option<DataBlockCache<S>>, starting_frame_in_file: usize },
    /// Hand a cache window back to the server's pool for reuse.
    DisposeCache { cache: DataBlockCache<S> },
}

/// A response from the server to the real-time side. Any buffer a response
/// carries moves, with its ownership, to the real-time side.
pub enum ServerToClientMsg<S, E> {
    /// The block filled for a `ReadIntoBlock` request.
    ReadIntoBlockRes { block_index: usize, block: DataBlock<S> },
    /// The cache window filled for a `Cache` request.
    CacheRes { cache_index: usize, cache: DataBlockCache<S> },
    /// A decode or seek failed; the server has stopped for good.
    FatalError(E),
}

/// What the server records of one response it produced: the message's kind
/// and the plain facts of its payload.
pub enum ResponseLog {
    Read { block_index: int, starting_frame_in_file: int, wanted_start_smp: int, num_channels: int },
    Cache { cache_index: int, wanted_start_smp: int, num_blocks: int },
    Fatal,
}

/// The log entry a given response message leaves behind.
pub open spec fn response_log_of<S, E>(m: ServerToClientMsg<S, E>) -> ResponseLog {
    match m {
        ServerToClientMsg::ReadIntoBlockRes { block_index, block } => ResponseLog::Read {
            block_index: block_index as int,
            starting_frame_in_file: block.starting_frame_in_file as int,
            wanted_start_smp: block.wanted_start_smp as int,
            num_channels: block.num_channels(),
        },
        ServerToClientMsg::CacheRes { cache_index, cache } => ResponseLog::Cache {
            cache_index: cache_index as int,
            wanted_start_smp: cache.wanted_start_smp as int,
            num_blocks: cache.num_blocks(),
        },
        ServerToClientMsg::FatalError(_) => ResponseLog::Fatal,
    }
}

} // verus!
