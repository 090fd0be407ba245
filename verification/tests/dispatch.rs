//! The server's dispatch loop, driven through its queues one poll at a time.

use read_server::ClientToServerMsg;
use read_server::DataBlock;
use read_server::DataBlockCache;
use read_server::HeapData;
use read_server::PollStatus;
use read_server::ReadServer;
use read_server::ServerToClientMsg;
use read_server::CACHE_BLOCK_COUNT;
use read_server::ramp::RampDecoder;
use read_server::ramp::RampFatalError;
use read_server::ramp::RampOpenError;

type Req = ClientToServerMsg<u64>;
type Res = ServerToClientMsg<u64, RampFatalError>;
type Close = Option<HeapData<u64>>;

struct Rig {
    server: ReadServer<RampDecoder>,
    req_tx: rtrb::Producer<Req>,
    res_rx: rtrb::Consumer<Res>,
    close_tx: rtrb::Producer<Close>,
}

/// A server over the default ramp file (2 channels, 10,000 frames), with a
/// response queue of the given capacity.
fn rig(start_frame: usize, res_capacity: usize) -> Rig {
    let (to_client_tx, res_rx) = rtrb::RingBuffer::new(res_capacity);
    let (req_tx, from_client_rx) = rtrb::RingBuffer::new(16);
    let (close_tx, close_rx) = rtrb::RingBuffer::new(1);
    let (server, info) =
        ReadServer::<RampDecoder>::open("song", start_frame, to_client_tx, from_client_rx, close_rx)
            .unwrap();
    assert_eq!(info.num_channels, 2);
    assert_eq!(info.num_frames, 10000);
    assert_eq!(info.sample_rate, 44100);
    Rig { server, req_tx, res_rx, close_tx }
}

#[test]
fn open_valid_file_reports_metadata() {
    let (to_client_tx, _res_rx) = rtrb::RingBuffer::<Res>::new(4);
    let (_req_tx, from_client_rx) = rtrb::RingBuffer::<Req>::new(4);
    let (_close_tx, close_rx) = rtrb::RingBuffer::<Close>::new(1);
    let (_server, info) =
        ReadServer::<RampDecoder>::open("song", 0, to_client_tx, from_client_rx, close_rx).unwrap();
    assert_eq!(info.num_channels, 2);
    assert_eq!(info.num_frames, 10000);
    assert_eq!(info.sample_rate, 44100);
}

#[test]
fn open_invalid_file_reports_error() {
    let (to_client_tx, _res_rx) = rtrb::RingBuffer::<Res>::new(4);
    let (_req_tx, from_client_rx) = rtrb::RingBuffer::<Req>::new(4);
    let (_close_tx, close_rx) = rtrb::RingBuffer::<Close>::new(1);
    let r = ReadServer::<RampDecoder>::open("", 0, to_client_tx, from_client_rx, close_rx);
    assert!(matches!(r, Err(RampOpenError::InvalidFile)));
}

#[test]
fn read_into_block_round_trip() {
    let mut rig = rig(0, 8);
    rig.req_tx
        .push(Req::ReadIntoBlock { block_index: 3, block: None, starting_frame_in_file: 0 })
        .unwrap();
    assert_eq!(rig.server.poll(), PollStatus::Worked);
    match rig.res_rx.pop().unwrap() {
        Res::ReadIntoBlockRes { block_index, block } => {
            assert_eq!(block_index, 3);
            assert_eq!(block.starting_frame_in_file, 0);
            assert_eq!(block.wanted_start_smp, 0);
            assert_eq!(block.block.len(), 2);
            let want: Vec<u64> = (0..256).collect();
            assert_eq!(block.block[0], want);
            assert_eq!(block.block[1], want);
        }
        _ => panic!("expected a read response"),
    }
    assert_eq!(rig.server.poll(), PollStatus::Idle);
}

#[test]
fn pool_reuse_after_dispose() {
    let mut rig = rig(0, 8);
    // A disposed block with an unusual channel count marks the pool: a block
    // built fresh for this 2-channel file could never have 5 channels.
    let marker: DataBlock<u64> = DataBlock::new(5);
    rig.req_tx.push(Req::DisposeBlock { block: marker }).unwrap();
    assert_eq!(rig.server.poll(), PollStatus::Worked);
    rig.req_tx
        .push(Req::ReadIntoBlock { block_index: 0, block: None, starting_frame_in_file: 0 })
        .unwrap();
    assert_eq!(rig.server.poll(), PollStatus::Worked);
    match rig.res_rx.pop().unwrap() {
        Res::ReadIntoBlockRes { block, .. } => {
            assert_eq!(block.block.len(), 5);
        }
        _ => panic!("expected a read response"),
    }
}

#[test]
fn supplied_block_is_used() {
    let mut rig = rig(0, 8);
    let supplied: DataBlock<u64> = DataBlock::new(4);
    rig.req_tx
        .push(Req::ReadIntoBlock { block_index: 1, block: Some(supplied), starting_frame_in_file: 7 })
        .unwrap();
    assert_eq!(rig.server.poll(), PollStatus::Worked);
    match rig.res_rx.pop().unwrap() {
        Res::ReadIntoBlockRes { block_index, block } => {
            assert_eq!(block_index, 1);
            assert_eq!(block.block.len(), 4);
            assert_eq!(block.starting_frame_in_file, 7);
            assert_eq!(block.wanted_start_smp, 7);
        }
        _ => panic!("expected a read response"),
    }
}

#[test]
fn cache_preserves_position() {
    let mut rig = rig(0, 8);
    rig.req_tx.push(Req::SeekTo { frame: 5000 }).unwrap();
    assert_eq!(rig.server.poll(), PollStatus::Worked);
    assert_eq!(rig.server.current_frame(), 5000);

    rig.req_tx
        .push(Req::Cache { cache_index: 1, cache: None, starting_frame_in_file: 9000 })
        .unwrap();
    assert_eq!(rig.server.poll(), PollStatus::Worked);
    match rig.res_rx.pop().unwrap() {
        Res::CacheRes { cache_index, cache } => {
            assert_eq!(cache_index, 1);
            assert_eq!(cache.wanted_start_smp, 9000);
            assert_eq!(cache.blocks.len(), CACHE_BLOCK_COUNT);
            // The window was decoded in order, starting at the wanted frame.
            assert_eq!(cache.blocks[0].block[0][0], 9000);
            assert_eq!(cache.blocks[1].block[0][0], 9256);
        }
        _ => panic!("expected a cache response"),
    }
    // The seek-fill-seek-back sequence left the streaming position alone.
    assert_eq!(rig.server.current_frame(), 5000);
}

#[test]
fn cache_pool_reuse_after_dispose() {
    let mut rig = rig(0, 8);
    // A two-block window marks the pool: a fresh window always has
    // CACHE_BLOCK_COUNT blocks.
    let marker: DataBlockCache<u64> = DataBlockCache {
        blocks: vec![DataBlock::new(2), DataBlock::new(2)],
        wanted_start_smp: 0,
    };
    rig.req_tx.push(Req::DisposeCache { cache: marker }).unwrap();
    assert_eq!(rig.server.poll(), PollStatus::Worked);
    rig.req_tx
        .push(Req::Cache { cache_index: 0, cache: None, starting_frame_in_file: 100 })
        .unwrap();
    assert_eq!(rig.server.poll(), PollStatus::Worked);
    match rig.res_rx.pop().unwrap() {
        Res::CacheRes { cache, .. } => {
            assert_eq!(cache.blocks.len(), 2);
            assert_eq!(cache.wanted_start_smp, 100);
        }
        _ => panic!("expected a cache response"),
    }
}

#[test]
fn fatal_error_is_terminal() {
    let mut rig = rig(0, 8);
    rig.req_tx.push(Req::SeekTo { frame: 20000 }).unwrap();
    rig.req_tx
        .push(Req::ReadIntoBlock { block_index: 0, block: None, starting_frame_in_file: 0 })
        .unwrap();
    assert_eq!(rig.server.poll(), PollStatus::Worked);
    // Exactly one fatal error response comes out...
    assert!(matches!(rig.res_rx.pop().unwrap(), Res::FatalError(RampFatalError::SeekBeyondEnd)));
    // ...and the queued request is never serviced: the server is stopped.
    assert_eq!(rig.server.poll(), PollStatus::Stopped);
    assert_eq!(rig.server.poll(), PollStatus::Stopped);
    assert!(rig.res_rx.pop().is_err());
}

#[test]
fn close_takes_priority_over_pending_requests() {
    let mut rig = rig(0, 8);
    rig.req_tx
        .push(Req::ReadIntoBlock { block_index: 0, block: None, starting_frame_in_file: 0 })
        .unwrap();
    rig.req_tx.push(Req::SeekTo { frame: 1 }).unwrap();
    rig.close_tx.push(None).unwrap();
    // The close signal wins: no pending request produces a response.
    assert_eq!(rig.server.poll(), PollStatus::Closed);
    assert!(rig.res_rx.pop().is_err());
    assert_eq!(rig.server.poll(), PollStatus::Stopped);
}

#[test]
fn close_carries_heap_data_to_the_server_thread() {
    let mut rig = rig(0, 8);
    let payload = HeapData { block_pool: vec![DataBlock::new(2)], cache_pool: vec![] };
    rig.close_tx.push(Some(payload)).unwrap();
    assert_eq!(rig.server.poll(), PollStatus::Closed);
    assert_eq!(rig.server.poll(), PollStatus::Stopped);
}

#[test]
fn send_waits_for_room_then_delivers_in_order() {
    let mut rig = rig(0, 1);
    rig.req_tx
        .push(Req::ReadIntoBlock { block_index: 0, block: None, starting_frame_in_file: 0 })
        .unwrap();
    rig.req_tx
        .push(Req::ReadIntoBlock { block_index: 1, block: None, starting_frame_in_file: 256 })
        .unwrap();
    // First response fills the only slot.
    assert_eq!(rig.server.poll(), PollStatus::Worked);
    // Second request is serviced but its response has no room yet.
    assert_eq!(rig.server.poll(), PollStatus::Worked);
    assert_eq!(rig.server.poll(), PollStatus::SendBlocked);
    // The consumer drains a slot; the pending response goes out.
    match rig.res_rx.pop().unwrap() {
        Res::ReadIntoBlockRes { block_index, .. } => assert_eq!(block_index, 0),
        _ => panic!("expected a read response"),
    }
    assert_eq!(rig.server.poll(), PollStatus::Worked);
    match rig.res_rx.pop().unwrap() {
        Res::ReadIntoBlockRes { block_index, block } => {
            assert_eq!(block_index, 1);
            assert_eq!(block.starting_frame_in_file, 256);
            assert_eq!(block.block[0][0], 256);
        }
        _ => panic!("expected a read response"),
    }
    assert_eq!(rig.server.poll(), PollStatus::Idle);
}

#[test]
fn close_during_send_wait_abandons_the_response() {
    let mut rig = rig(0, 1);
    rig.req_tx
        .push(Req::ReadIntoBlock { block_index: 0, block: None, starting_frame_in_file: 0 })
        .unwrap();
    rig.req_tx
        .push(Req::ReadIntoBlock { block_index: 1, block: None, starting_frame_in_file: 256 })
        .unwrap();
    assert_eq!(rig.server.poll(), PollStatus::Worked);
    assert_eq!(rig.server.poll(), PollStatus::Worked);
    assert_eq!(rig.server.poll(), PollStatus::SendBlocked);
    rig.close_tx.push(None).unwrap();
    assert_eq!(rig.server.poll(), PollStatus::Closed);
    // Only the first response was ever delivered.
    assert!(matches!(rig.res_rx.pop().unwrap(), Res::ReadIntoBlockRes { block_index: 0, .. }));
    assert!(rig.res_rx.pop().is_err());
    assert_eq!(rig.server.poll(), PollStatus::Stopped);
}

#[test]
fn scenario_read_seek_cache() {
    // A 2-channel, 10,000-frame file, driven through a whole session.
    let mut rig = rig(0, 8);

    rig.req_tx
        .push(Req::ReadIntoBlock { block_index: 0, block: None, starting_frame_in_file: 0 })
        .unwrap();
    assert_eq!(rig.server.poll(), PollStatus::Worked);
    match rig.res_rx.pop().unwrap() {
        Res::ReadIntoBlockRes { block_index, block } => {
            assert_eq!(block_index, 0);
            assert_eq!(block.starting_frame_in_file, 0);
        }
        _ => panic!("expected a read response"),
    }

    rig.req_tx.push(Req::SeekTo { frame: 5000 }).unwrap();
    assert_eq!(rig.server.poll(), PollStatus::Worked);
    assert_eq!(rig.server.current_frame(), 5000);

    rig.req_tx
        .push(Req::Cache { cache_index: 1, cache: None, starting_frame_in_file: 9000 })
        .unwrap();
    assert_eq!(rig.server.poll(), PollStatus::Worked);
    match rig.res_rx.pop().unwrap() {
        Res::CacheRes { cache_index, cache } => {
            assert_eq!(cache_index, 1);
            assert_eq!(cache.wanted_start_smp, 9000);
        }
        _ => panic!("expected a cache response"),
    }
    assert_eq!(rig.server.current_frame(), 5000);
}

#[test]
fn read_at_end_of_file_returns_empty_block() {
    let mut rig = rig(10000, 8);
    rig.req_tx
        .push(Req::ReadIntoBlock { block_index: 0, block: None, starting_frame_in_file: 10000 })
        .unwrap();
    assert_eq!(rig.server.poll(), PollStatus::Worked);
    match rig.res_rx.pop().unwrap() {
        Res::ReadIntoBlockRes { block, .. } => {
            assert_eq!(block.starting_frame_in_file, 10000);
            assert_eq!(block.block.len(), 2);
            assert!(block.block[0].is_empty());
        }
        _ => panic!("expected a read response"),
    }
}

#[test]
fn pool_reuse_is_most_recent_first() {
    let mut rig = rig(0, 8);
    // Two marked blocks: channel counts a fresh block never has.
    rig.req_tx.push(Req::DisposeBlock { block: DataBlock::new(5) }).unwrap();
    rig.req_tx.push(Req::DisposeBlock { block: DataBlock::new(7) }).unwrap();
    assert_eq!(rig.server.poll(), PollStatus::Worked);
    assert_eq!(rig.server.poll(), PollStatus::Worked);

    // The most recently disposed block is reused first.
    rig.req_tx
        .push(Req::ReadIntoBlock { block_index: 0, block: None, starting_frame_in_file: 0 })
        .unwrap();
    assert_eq!(rig.server.poll(), PollStatus::Worked);
    match rig.res_rx.pop().unwrap() {
        Res::ReadIntoBlockRes { block, .. } => assert_eq!(block.block.len(), 7),
        _ => panic!("expected a read response"),
    }
    rig.req_tx
        .push(Req::ReadIntoBlock { block_index: 1, block: None, starting_frame_in_file: 0 })
        .unwrap();
    assert_eq!(rig.server.poll(), PollStatus::Worked);
    match rig.res_rx.pop().unwrap() {
        Res::ReadIntoBlockRes { block, .. } => assert_eq!(block.block.len(), 5),
        _ => panic!("expected a read response"),
    }
}
