//! Black-box testing of programs that send UDP packets: a mock server records
//! every datagram it receives, and a registered mock states how many packets it
//! expects and which matchers decide whether a packet is one it expects.

pub mod background_task;
pub mod error;
pub mod matcher;
pub mod mock;
pub mod mock_server;

pub use background_task::{LoopControl, ServerEvent};
pub use error::VerificationError;
pub use matcher::PacketMatcher;
pub use mock::Mock;
pub use mock_server::Packet;
