use vstd::prelude::*;

verus! {

/// The failures that this layer reports to its callers.
///
/// The engine's native error codes are carried unchanged and never
/// reinterpreted.
#[derive(Debug, Clone, Copy, PartialEq, Eq)]
pub enum Error {
    /// A hostname lookup failed; carries the engine's code.
    Resolution(i32),
    /// The engine could not allocate storage for a packet.
    Allocation,
    /// Polling the engine failed; carries the (negative) engine result.
    Service(i32),
    /// The engine could not create an outbound peer.
    Connect,
    /// A peer index outside the host's peer table.
    PeerIndexOutOfRange { index: usize, peer_count: usize },
}

} // verus!
