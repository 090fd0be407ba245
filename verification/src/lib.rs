pub mod block;
pub mod decoder;
pub mod msg;
pub mod queue;
pub mod ramp;
pub mod server;

pub use block::CACHE_BLOCK_COUNT;
pub use block::DataBlock;
pub use block::DataBlockCache;
pub use block::HeapData;
pub use decoder::Decoder;
pub use decoder::FileInfo;
pub use msg::ClientToServerMsg;
pub use msg::ServerToClientMsg;
pub use server::PollStatus;
pub use server::ReadServer;
