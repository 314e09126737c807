//! A safe layer over the ENet reliable-UDP engine: packet delivery modes and
//! their flag encoding, IPv4 addresses in the engine's representation, host
//! configuration limits, the decoding of the engine's poll results, and the
//! process-wide reference count that brackets the engine's global
//! initialisation.

pub mod address;
pub mod error;
pub mod host;
pub mod keep_alive;
pub mod packet;

pub use address::{Address, EnetAddress};
pub use error::Error;
pub use host::{BandwidthLimit, ChannelLimit, PollOutcome};
pub use keep_alive::EnetKeepAlive;
pub use packet::{Packet, PacketMode};
