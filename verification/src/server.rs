//! The streaming server: a worker that owns a decoder, receives read, seek
//! and cache requests over bounded single-producer/single-consumer queues,
//! fills reusable buffers and returns them, and stops for good either on a
//! close signal or on the first decode or seek failure.
//!
//! The worker's thread, and the fixed sleep between polls, live with the
//! embedding program; everything the server decides and does between sleeps
//! is here, verified. `poll` runs one bounded step of the dispatch loop: it
//! gives the close signal priority, then delivers the pending response if
//! one is waiting for queue room, then services the next request. The
//! embedder keeps calling `poll`, sleeping for its fixed wait interval
//! whenever `poll` reports there was nothing to do or no room to send.

use vstd::prelude::*;

use crate::block::CACHE_BLOCK_COUNT;
use crate::block::DataBlock;
use crate::block::DataBlockCache;
use crate::block::HeapData;
use crate::decoder::Decoder;
use crate::decoder::FileInfo;
use crate::msg::ClientToServerMsg;
use crate::msg::ResponseLog;
use crate::msg::ServerToClientMsg;
use crate::msg::response_log_of;
use crate::queue::queue_is_full;
use crate::queue::queue_pop;
use crate::queue::queue_push;

verus! {

/// What one `poll` found. `Stopped`: the server had already terminated and
/// nothing was touched. `Closed`: a close signal arrived; no pending request
/// was serviced and no response was produced. `SendBlocked`: a response is
/// still waiting for room in the response queue; wait, then poll again.
/// `Worked`: a response was delivered or a request was serviced; poll again
/// at once. `Idle`: no close signal and no request was available; wait, then
/// poll again.
#[derive(Debug, PartialEq, Eq)]
pub enum PollStatus {
    Stopped,
    Closed,
    SendBlocked,
    Worked,
    Idle,
}

/// Which sequence a pool is left with after obtaining a working buffer: the
/// pool itself when the requester supplied a buffer or the pool was empty
/// (a fresh buffer is then constructed), else the pool without its most
/// recently disposed entry.
pub open spec fn pool_after_obtain<T>(pool: Seq<T>, supplied: bool) -> Seq<T> {
    if supplied || pool.len() == 0 {
        pool
    } else {
        pool.drop_last()
    }
}

/// Channel count of the working block a read request is served with: the
/// supplied block's, else the most recently pooled block's, else the file's.
pub open spec fn obtained_block_channels<S>(
    supplied: Option<DataBlock<S>>,
    pool: Seq<DataBlock<S>>,
    file_channels: int,
) -> int {
    match supplied {
        Some(b) => b.num_channels(),
        None => if pool.len() > 0 {
            pool.last().num_channels()
        } else {
            file_channels
        },
    }
}

/// Block count of the working cache window a cache request is served with:
/// the supplied window's, else the most recently pooled window's, else the
/// count a fresh window is built with.
pub open spec fn obtained_cache_blocks<S>(
    supplied: Option<DataBlockCache<S>>,
    pool: Seq<DataBlockCache<S>>,
) -> int {
    match supplied {
        Some(c) => c.num_blocks(),
        None => if pool.len() > 0 {
            pool.last().num_blocks()
        } else {
            CACHE_BLOCK_COUNT as int
        },
    }
}

/// Channel count of block `i` of the working cache window a cache request is
/// served with: the supplied window's, else the most recently pooled
/// window's, else the file's (a fresh window's blocks are sized to it).
pub open spec fn obtained_cache_block_channels<S>(
    supplied: Option<DataBlockCache<S>>,
    pool: Seq<DataBlockCache<S>>,
    file_channels: int,
    i: int,
) -> int {
    match supplied {
        Some(c) => c.blocks@[i].num_channels(),
        None => if pool.len() > 0 {
            pool.last().blocks@[i].num_channels()
        } else {
            file_channels
        },
    }
}

/// The background streaming server. It exclusively owns its decoder and its
/// two pools; the three queues are its only connection to the real-time side.
pub struct ReadServer<D: Decoder> {
    pub to_client_tx: rtrb::Producer<ServerToClientMsg<D::Sample, D::FatalError>>,
    pub from_client_rx: rtrb::Consumer<ClientToServerMsg<D::Sample>>,
    pub close_signal_rx: rtrb::Consumer<Option<HeapData<D::Sample>>>,
    pub decoder: D,
    pub file_info: FileInfo<D::Params>,
    pub block_pool: Vec<DataBlock<D::Sample>>,
    pub cache_pool: Vec<DataBlockCache<D::Sample>>,
    /// The response produced by the last serviced request, while it waits
    /// for room in the response queue.
    pub outbox: Option<ServerToClientMsg<D::Sample, D::FatalError>>,
    pub run: bool,
    /// Ghost log of every response this server has handed to the response
    /// queue, oldest first.
    pub responses: Ghost<Seq<ResponseLog>>,
}

impl<D: Decoder> ReadServer<D> {
    /// A fatal error response is terminal: wherever one stands in the log it
    /// is the last entry, the server is no longer running and nothing else
    /// is waiting to be sent. A pending fatal response means the server has
    /// already stopped; any other pending response means it is still running.
    pub open spec fn wf(&self) -> bool {
        &&& (forall|i: int|
            0 <= i < self.responses@.len() && (#[trigger] self.responses@[i]) is Fatal ==> !self.run
                && i == self.responses@.len() - 1 && self.outbox is None)
        &&& (match self.outbox {
            Some(m) => if m is FatalError {
                !self.run
            } else {
                self.run
            },
            None => true,
        })
    }

    /// The server is still in its dispatch loop.
    pub open spec fn running(&self) -> bool {
        self.run
    }

    /// The serviced request failed in the decoder: the server is stopped and
    /// exactly a fatal error response is pending.
    pub open spec fn fatal_outcome(pre: Self, post: Self) -> bool {
        &&& !post.run
        &&& post.outbox matches Some(ServerToClientMsg::FatalError(_))
    }

    /// Everything a dispose-block request does: the block joins the pool
    /// (most recent last) and nothing else moves.
    pub open spec fn dispose_block_served(pre: Self, post: Self, block: DataBlock<D::Sample>) -> bool {
        &&& post.block_pool@ == pre.block_pool@.push(block)
        &&& post.responses@ == pre.responses@
        &&& post.outbox == pre.outbox
        &&& post.run == pre.run
        &&& post.decoder == pre.decoder
        &&& post.file_info == pre.file_info
        &&& post.cache_pool == pre.cache_pool
    }

    /// Everything a dispose-cache request does: the window joins the pool
    /// and nothing else moves.
    pub open spec fn dispose_cache_served(
        pre: Self,
        post: Self,
        cache: DataBlockCache<D::Sample>,
    ) -> bool {
        &&& post.cache_pool@ == pre.cache_pool@.push(cache)
        &&& post.responses@ == pre.responses@
        &&& post.outbox == pre.outbox
        &&& post.run == pre.run
        &&& post.decoder == pre.decoder
        &&& post.file_info == pre.file_info
        &&& post.block_pool == pre.block_pool
    }

    /// Everything a read request does: the block pool follows the obtain
    /// rule, and either a read response is pending whose block carries the
    /// requested frame in both tags, the shape of exactly the obtained block
    /// and the frames the decoder advanced by — or the decode failed and the
    /// server stopped with a pending fatal response.
    pub open spec fn read_served(
        pre: Self,
        post: Self,
        block_index: int,
        supplied: Option<DataBlock<D::Sample>>,
        start: int,
    ) -> bool {
        &&& post.responses@ == pre.responses@
        &&& post.file_info == pre.file_info
        &&& post.cache_pool == pre.cache_pool
        &&& post.block_pool@ == pool_after_obtain(pre.block_pool@, supplied is Some)
        &&& ({
            ||| (post.run && (post.outbox matches Some(
                ServerToClientMsg::ReadIntoBlockRes { block_index: bi, block: b },
            ) && bi == block_index && b.starting_frame_in_file == start && b.wanted_start_smp
                == start && b.num_channels() == obtained_block_channels(
                supplied,
                pre.block_pool@,
                pre.file_info.num_channels as int,
            ) && b.channels_uniform() && post.decoder.frame_pos() == pre.decoder.frame_pos()
                + b.frames()))
            ||| Self::fatal_outcome(pre, post)
        })
    }

    /// Everything a seek request does: either the decoder stands at the
    /// requested frame with nothing pending, or the seek failed and the
    /// server stopped with a pending fatal response.
    pub open spec fn seek_served(pre: Self, post: Self, frame: int) -> bool {
        &&& post.responses@ == pre.responses@
        &&& post.file_info == pre.file_info
        &&& post.block_pool == pre.block_pool
        &&& post.cache_pool == pre.cache_pool
        &&& ({
            ||| (post.run && post.outbox is None && post.decoder.frame_pos() == frame)
            ||| Self::fatal_outcome(pre, post)
        })
    }

    /// Everything a cache request does: the cache pool follows the obtain
    /// rule, and either a cache response is pending whose window carries the
    /// requested frame, the block count and per-block channel counts of
    /// exactly the obtained window (the file's channel count when freshly
    /// built), every block uniformly filled, with the decoder back at the
    /// position it held before the request — or a decoder call failed and
    /// the server stopped with a pending fatal response.
    pub open spec fn cache_served(
        pre: Self,
        post: Self,
        cache_index: int,
        supplied: Option<DataBlockCache<D::Sample>>,
        start: int,
    ) -> bool {
        &&& post.responses@ == pre.responses@
        &&& post.file_info == pre.file_info
        &&& post.block_pool == pre.block_pool
        &&& post.cache_pool@ == pool_after_obtain(pre.cache_pool@, supplied is Some)
        &&& ({
            ||| (post.run && (post.outbox matches Some(
                ServerToClientMsg::CacheRes { cache_index: ci, cache: c },
            ) && ci == cache_index && c.wanted_start_smp == start && c.num_blocks()
                == obtained_cache_blocks(supplied, pre.cache_pool@) && (forall|i: int|
                0 <= i < c.blocks@.len() ==> (#[trigger] c.blocks@[i]).channels_uniform()
                    && c.blocks@[i].num_channels() == obtained_cache_block_channels(
                    supplied,
                    pre.cache_pool@,
                    pre.file_info.num_channels as int,
                    i,
                )) && post.decoder.frame_pos() == pre.decoder.frame_pos()))
            ||| Self::fatal_outcome(pre, post)
        })
    }

    /// No response is waiting for room in the response queue.
    pub open spec fn outbox_empty(&self) -> bool {
        self.outbox is None
    }

    /// A server around an already opened decoder, before its first poll:
    /// running, with empty pools, an empty outbox and an empty response log.
    pub fn with_decoder(
        decoder: D,
        file_info: FileInfo<D::Params>,
        to_client_tx: rtrb::Producer<ServerToClientMsg<D::Sample, D::FatalError>>,
        from_client_rx: rtrb::Consumer<ClientToServerMsg<D::Sample>>,
        close_signal_rx: rtrb::Consumer<Option<HeapData<D::Sample>>>,
    ) -> (server: Self)
        ensures
            server.wf(),
            server.running(),
            server.outbox_empty(),
            server.responses@ == Seq::<ResponseLog>::empty(),
            server.block_pool@.len() == 0,
            server.cache_pool@.len() == 0,
            server.decoder == decoder,
            server.file_info == file_info,
    {
        ReadServer {
            to_client_tx,
            from_client_rx,
            close_signal_rx,
            decoder,
            file_info,
            block_pool: Vec::new(),
            cache_pool: Vec::new(),
            outbox: None,
            run: true,
            responses: Ghost(Seq::empty()),
        }
    }

    /// The open handshake's synchronous half: open the decoder at
    /// `start_frame_in_file` and either wrap it in a fresh server, together
    /// with a copy of the file's metadata for the caller, or report why the
    /// open failed. Exactly one of the two outcomes is produced.
    pub fn open(
        file: &str,
        start_frame_in_file: usize,
        to_client_tx: rtrb::Producer<ServerToClientMsg<D::Sample, D::FatalError>>,
        from_client_rx: rtrb::Consumer<ClientToServerMsg<D::Sample>>,
        close_signal_rx: rtrb::Consumer<Option<HeapData<D::Sample>>>,
    ) -> (r: Result<(Self, FileInfo<D::Params>), D::OpenError>)
        ensures
            r matches Ok((server, info)) ==> {
                &&& server.wf()
                &&& server.running()
                &&& server.outbox_empty()
                &&& server.responses@ == Seq::<ResponseLog>::empty()
                &&& server.block_pool@.len() == 0
                &&& server.cache_pool@.len() == 0
                &&& server.decoder.frame_pos() == start_frame_in_file as int
                &&& info.num_channels == server.file_info.num_channels
                &&& info.num_frames == server.file_info.num_frames
                &&& info.sample_rate == server.file_info.sample_rate
            },
    {
        match D::new(file, start_frame_in_file) {
            Ok((decoder, file_info)) => {
                let info = file_info.clone();
                let server = Self::with_decoder(
                    decoder,
                    file_info,
                    to_client_tx,
                    from_client_rx,
                    close_signal_rx,
                );
                Ok((server, info))
            },
            Err(e) => Err(e),
        }
    }

    /// The decoder's current position, as the server sees it.
    pub fn current_frame(&self) -> (r: usize)
        ensures
            r as int == self.decoder.frame_pos(),
    {
        self.decoder.current_frame()
    }

    /// Poll the close-signal queue once. A value there — even an empty one —
    /// stops the server; any payload is dropped on the server's thread.
    fn check_close(&mut self) -> (closed: bool)
        ensures
            final(self).responses@ == old(self).responses@,
            final(self).outbox == old(self).outbox,
            final(self).decoder == old(self).decoder,
            final(self).file_info == old(self).file_info,
            final(self).block_pool == old(self).block_pool,
            final(self).cache_pool == old(self).cache_pool,
            closed ==> !final(self).run,
            !closed ==> final(self).run == old(self).run,
    {
        match queue_pop(&mut self.close_signal_rx) {
            Some(heap_data) => {
                // Drop the payload here, on the server's thread.
                let _ = heap_data;
                self.run = false;
                true
            },
            None => false,
        }
    }

    /// Hand the pending response (if any) to the response queue, if the
    /// queue has room. A delivered response is appended to the log.
    fn try_flush(&mut self) -> (sent: bool)
        requires
            old(self).wf(),
        ensures
            final(self).wf(),
            final(self).run == old(self).run,
            final(self).decoder == old(self).decoder,
            final(self).file_info == old(self).file_info,
            final(self).block_pool == old(self).block_pool,
            final(self).cache_pool == old(self).cache_pool,
            !sent ==> final(self).outbox == old(self).outbox && final(self).responses@ == old(self).responses@,
            sent ==> (old(self).outbox matches Some(m) && final(self).outbox is None && final(self).responses@ == old(self).responses@.push(response_log_of(m))),
    {
        match self.outbox.take() {
            None => false,
            Some(m) => {
                if queue_is_full(&self.to_client_tx) {
                    self.outbox = Some(m);
                    false
                } else {
                    let ghost entry = response_log_of(m);
                    match queue_push(&mut self.to_client_tx, m) {
                        None => {
                            proof {
                                self.responses@ = self.responses@.push(entry);
                            }
                            true
                        },
                        Some(back) => {
                            // A slot observed free cannot refill under the
                            // queue's only producer, but nothing is assumed
                            // of it: a push that hands the response back
                            // leaves it pending and the log untouched.
                            self.outbox = Some(back);
                            false
                        },
                    }
                }
            },
        }
    }

    /// Store a disposed block in the pool for reuse (most recent first).
    pub fn handle_dispose_block(&mut self, block: DataBlock<D::Sample>)
        requires
            old(self).wf(),
        ensures
            final(self).wf(),
            Self::dispose_block_served(*old(self), *final(self), block),
    {
        self.block_pool.push(block);
    }

    /// Store a disposed cache window in the pool for reuse.
    pub fn handle_dispose_cache(&mut self, cache: DataBlockCache<D::Sample>)
        requires
            old(self).wf(),
        ensures
            final(self).wf(),
            Self::dispose_cache_served(*old(self), *final(self), cache),
    {
        self.cache_pool.push(cache);
    }

    /// Serve a read request: obtain a working block — the supplied one if
    /// present, else the most recently pooled one, else a fresh one sized to
    /// the file's channel count — tag it with the requested frame, decode
    /// into it, and leave the result (or the fatal error) in the outbox.
    pub fn handle_read_into_block(
        &mut self,
        block_index: usize,
        block: Option<DataBlock<D::Sample>>,
        starting_frame_in_file: usize,
    )
        requires
            old(self).wf(),
            old(self).running(),
            old(self).outbox_empty(),
        ensures
            final(self).wf(),
            Self::read_served(
                *old(self),
                *final(self),
                block_index as int,
                block,
                starting_frame_in_file as int,
            ),
    {
        let mut work = match block {
            Some(b) => b,
            None => match self.block_pool.pop() {
                Some(b) => b,
                None => DataBlock::new(self.file_info.num_channels),
            },
        };
        work.starting_frame_in_file = starting_frame_in_file;
        work.wanted_start_smp = starting_frame_in_file;
        match self.decoder.decode_into(&mut work) {
            Ok(()) => {
                self.outbox = Some(ServerToClientMsg::ReadIntoBlockRes { block_index, block: work });
            },
            Err(e) => {
                self.outbox = Some(ServerToClientMsg::FatalError(e));
                self.run = false;
            },
        }
    }

    /// Serve a seek request: reposition the decoder, or leave the fatal
    /// error in the outbox.
    pub fn handle_seek_to(&mut self, frame: usize)
        requires
            old(self).wf(),
            old(self).running(),
            old(self).outbox_empty(),
        ensures
            final(self).wf(),
            Self::seek_served(*old(self), *final(self), frame as int),
    {
        match self.decoder.seek_to(frame) {
            Ok(()) => {},
            Err(e) => {
                self.outbox = Some(ServerToClientMsg::FatalError(e));
                self.run = false;
            },
        }
    }

    /// Serve a cache request: obtain a working window — supplied, pooled or
    /// fresh — remember the decoder's position, seek to the requested frame,
    /// decode into every block of the window in order, seek back, and leave
    /// the filled window (or the first fatal error) in the outbox. On
    /// success the decoder stands exactly where it stood before.
    pub fn handle_cache(
        &mut self,
        cache_index: usize,
        cache: Option<DataBlockCache<D::Sample>>,
        starting_frame_in_file: usize,
    )
        requires
            old(self).wf(),
            old(self).running(),
            old(self).outbox_empty(),
        ensures
            final(self).wf(),
            Self::cache_served(
                *old(self),
                *final(self),
                cache_index as int,
                cache,
                starting_frame_in_file as int,
            ),
    {
        let mut work = match cache {
            Some(c) => c,
            None => match self.cache_pool.pop() {
                Some(c) => c,
                None => DataBlockCache::new(self.file_info.num_channels),
            },
        };
        work.wanted_start_smp = starting_frame_in_file;
        let ghost total_blocks = work.blocks@.len() as int;
        let ghost orig_blocks = work.blocks@;
        proof {
            assert(forall|j: int|
                0 <= j < total_blocks ==> (#[trigger] orig_blocks[j]).num_channels()
                    == obtained_cache_block_channels(
                    cache,
                    old(self).cache_pool@,
                    old(self).file_info.num_channels as int,
                    j,
                ));
        }

        let current_frame = self.decoder.current_frame();

        // Seek to the position the requester wants cached.
        match self.decoder.seek_to(starting_frame_in_file) {
            Ok(()) => {},
            Err(e) => {
                self.outbox = Some(ServerToClientMsg::FatalError(e));
                self.run = false;
                return ;
            },
        }

        // Fill the window block by block, in order.
        let mut filled: Vec<DataBlock<D::Sample>> = Vec::new();
        while work.blocks.len() > 0
            invariant
                old(self).wf(),
                old(self).running(),
                old(self).outbox_empty(),
                self.run == old(self).run,
                self.outbox == old(self).outbox,
                self.responses@ == old(self).responses@,
                self.file_info == old(self).file_info,
                self.block_pool == old(self).block_pool,
                self.cache_pool@ == pool_after_obtain(old(self).cache_pool@, cache is Some),
                filled@.len() + work.blocks@.len() == total_blocks,
                total_blocks == obtained_cache_blocks(cache, old(self).cache_pool@),
                total_blocks == orig_blocks.len(),
                work.blocks@ == orig_blocks.subrange(filled@.len() as int, total_blocks),
                forall|j: int|
                    0 <= j < total_blocks ==> (#[trigger] orig_blocks[j]).num_channels()
                        == obtained_cache_block_channels(
                        cache,
                        old(self).cache_pool@,
                        old(self).file_info.num_channels as int,
                        j,
                    ),
                forall|j: int|
                    0 <= j < filled@.len() ==> (#[trigger] filled@[j]).channels_uniform()
                        && filled@[j].num_channels() == orig_blocks[j].num_channels(),
                work.wanted_start_smp == starting_frame_in_file,
                current_frame as int == old(self).decoder.frame_pos(),
            decreases work.blocks@.len(),
        {
            let ghost k = filled@.len() as int;
            let mut b = work.blocks.remove(0);
            proof {
                assert(b == orig_blocks[k]);
                assert(work.blocks@ =~= orig_blocks.subrange(k + 1, total_blocks));
            }
            match self.decoder.decode_into(&mut b) {
                Ok(()) => {
                    filled.push(b);
                },
                Err(e) => {
                    self.outbox = Some(ServerToClientMsg::FatalError(e));
                    self.run = false;
                    return ;
                },
            }
        }
        work.blocks = filled;

        // Seek back so the request leaves the streaming position untouched.
        match self.decoder.seek_to(current_frame) {
            Ok(()) => {},
            Err(e) => {
                self.outbox = Some(ServerToClientMsg::FatalError(e));
                self.run = false;
                return ;
            },
        }

        self.outbox = Some(ServerToClientMsg::CacheRes { cache_index, cache: work });
    }

    /// Serve one request.
    pub fn handle_msg(&mut self, msg: ClientToServerMsg<D::Sample>)
        requires
            old(self).wf(),
            old(self).running(),
            old(self).outbox_empty(),
        ensures
            final(self).wf(),
            final(self).responses@ == old(self).responses@,
            final(self).file_info == old(self).file_info,
            final(self).run ==> old(self).run,
            !final(self).run ==> Self::fatal_outcome(*old(self), *final(self)),
            msg matches ClientToServerMsg::ReadIntoBlock {
                block_index,
                block,
                starting_frame_in_file,
            } ==> Self::read_served(
                *old(self),
                *final(self),
                block_index as int,
                block,
                starting_frame_in_file as int,
            ),
            msg matches ClientToServerMsg::DisposeBlock { block } ==> Self::dispose_block_served(
                *old(self),
                *final(self),
                block,
            ),
            msg matches ClientToServerMsg::SeekTo { frame } ==> Self::seek_served(
                *old(self),
                *final(self),
                frame as int,
            ),
            msg matches ClientToServerMsg::Cache {
                cache_index,
                cache,
                starting_frame_in_file,
            } ==> Self::cache_served(
                *old(self),
                *final(self),
                cache_index as int,
                cache,
                starting_frame_in_file as int,
            ),
            msg matches ClientToServerMsg::DisposeCache { cache } ==> Self::dispose_cache_served(
                *old(self),
                *final(self),
                cache,
            ),
    {
        match msg {
            ClientToServerMsg::ReadIntoBlock { block_index, block, starting_frame_in_file } => {
                self.handle_read_into_block(block_index, block, starting_frame_in_file);
            },
            ClientToServerMsg::DisposeBlock { block } => {
                self.handle_dispose_block(block);
            },
            ClientToServerMsg::SeekTo { frame } => {
                self.handle_seek_to(frame);
            },
            ClientToServerMsg::Cache { cache_index, cache, starting_frame_in_file } => {
                self.handle_cache(cache_index, cache, starting_frame_in_file);
            },
            ClientToServerMsg::DisposeCache { cache } => {
                self.handle_dispose_cache(cache);
            },
        }
    }

    /// One bounded step of the dispatch loop. The close signal is checked
    /// before anything else and discards all pending work; a stopped server
    /// touches nothing and reports `Stopped` forever after.
    pub fn poll(&mut self) -> (status: PollStatus)
        requires
            old(self).wf(),
        ensures
            final(self).wf(),
            final(self).file_info == old(self).file_info,
            old(self).responses@.is_prefix_of(final(self).responses@),
            final(self).run ==> old(self).run,
            (status is Stopped <==> (!old(self).run && old(self).outbox is None)),
            status is Stopped ==> *final(self) == *old(self),
            status is Closed ==> !final(self).run && final(self).outbox is None && final(self).responses@ == old(self).responses@ && final(self).decoder == old(self).decoder
                && final(self).block_pool == old(self).block_pool && final(self).cache_pool == old(self).cache_pool,
            status is SendBlocked ==> final(self).run == old(self).run && final(self).outbox == old(self).outbox && final(self).responses@ == old(self).responses@ && final(self).decoder
                == old(self).decoder,
            status is Idle ==> final(self).run == old(self).run && final(self).outbox is None
                && final(self).responses@ == old(self).responses@ && final(self).decoder == old(self).decoder && final(self).block_pool == old(self).block_pool && final(self).cache_pool
                == old(self).cache_pool,
            status is SendBlocked ==> old(self).outbox is Some,
            status is Worked ==> final(self).responses@.len() <= old(self).responses@.len() + 1,
            status is Worked && old(self).outbox is Some ==> (old(self).outbox matches Some(m)
                && final(self).outbox is None && final(self).responses@ == old(self).responses@.push(response_log_of(m)) && final(self).run == old(self).run && final(self).decoder == old(self).decoder && final(self).block_pool == old(self).block_pool
                && final(self).cache_pool == old(self).cache_pool),
            status is Worked && old(self).outbox is None ==> old(self).run,
    {
        if self.outbox.is_some() {
            // Deliver (or, on a close, abandon) the pending response first.
            if self.check_close() {
                self.outbox = None;
                return PollStatus::Closed;
            }
            if self.try_flush() {
                return PollStatus::Worked;
            }
            return PollStatus::SendBlocked;
        }
        if !self.run {
            return PollStatus::Stopped;
        }
        if self.check_close() {
            return PollStatus::Closed;
        }
        match queue_pop(&mut self.from_client_rx) {
            Some(msg) => {
                self.handle_msg(msg);
                let _ = self.try_flush();
                PollStatus::Worked
            },
            None => PollStatus::Idle,
        }
    }
}

/// Law: a fatal error response is terminal. Wherever a fatal entry stands in
/// a well-formed server's response log, it is the log's last entry, nothing
/// further is pending, and the server is stopped — and `poll` leaves a
/// stopped server untouched, so no later response can ever be produced.
pub proof fn lemma_fatal_response_is_terminal<D: Decoder>(server: ReadServer<D>, i: int)
    requires
        server.wf(),
        0 <= i < server.responses@.len(),
        server.responses@[i] is Fatal,
    ensures
        !server.running(),
        server.outbox_empty(),
        i == server.responses@.len() - 1,
{
}

} // verus!
