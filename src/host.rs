use vstd::prelude::*;

use crate::error::Error;

verus! {

/// The largest number of channels the engine allows per peer.
pub const MAXIMUM_CHANNEL_COUNT: usize = 255;

/// Represents a bandwidth limit or unlimited.
#[derive(Debug, Clone, Copy, PartialEq, Eq, Hash)]
pub enum BandwidthLimit {
    /// No limit on bandwidth
    Unlimited,
    /// Bandwidth limit in bytes/second
    Limited(u32),
}

/// Represents a channel limit or unlimited.
#[derive(Debug, Clone, Copy, PartialEq, Eq, Hash)]
pub enum ChannelLimit {
    /// Maximum limit on the number of channels
    Maximum,
    /// Channel limit
    Limited(usize),
}

/// The engine value for a channel limit: 0 asks for the maximum.
pub open spec fn channel_limit_value(l: ChannelLimit) -> usize {
    match l {
        ChannelLimit::Maximum => 0,
        ChannelLimit::Limited(n) => n,
    }
}

/// The channel limit that a stored, nonzero engine value stands for.
pub open spec fn channel_limit_of(v: usize) -> ChannelLimit {
    if v == MAXIMUM_CHANNEL_COUNT {
        ChannelLimit::Maximum
    } else {
        ChannelLimit::Limited(v)
    }
}

/// The value that the engine keeps when asked for a channel limit: zero, or
/// anything above the maximum, is kept as the maximum.
pub open spec fn engine_kept_channel_limit(requested: usize) -> usize {
    if requested == 0 || requested > MAXIMUM_CHANNEL_COUNT {
        MAXIMUM_CHANNEL_COUNT
    } else {
        requested
    }
}

/// The engine value for a bandwidth limit: 0 is unlimited.
pub open spec fn bandwidth_value(b: BandwidthLimit) -> u32 {
    match b {
        BandwidthLimit::Unlimited => 0,
        BandwidthLimit::Limited(n) => n,
    }
}

/// A host configured with the maximum channel limit reads back the
/// maximum, and one configured with a limit of `n` channels, `n` above zero
/// and below the engine's maximum, reads back `n`.
pub proof fn lemma_channel_limit_read_back(l: ChannelLimit)
    requires
        l matches ChannelLimit::Limited(n) ==> 0 < n < MAXIMUM_CHANNEL_COUNT,
    ensures
        engine_kept_channel_limit(channel_limit_value(l)) != 0,
        channel_limit_of(engine_kept_channel_limit(channel_limit_value(l))) == l,
        l == ChannelLimit::Maximum ==> engine_kept_channel_limit(channel_limit_value(l))
            == MAXIMUM_CHANNEL_COUNT,
{
}

impl ChannelLimit {
    /// The engine value for this limit.
    pub fn to_enet_usize(&self) -> (r: usize)
        ensures
            r == channel_limit_value(*self),
    {
        match *self {
            ChannelLimit::Maximum => 0,
            ChannelLimit::Limited(l) => l,
        }
    }

    /// The limit that a stored engine value stands for. The engine never
    /// stores 0, so 0 is a broken invariant and may not be passed.
    pub fn from_enet_usize(enet_val: usize) -> (r: ChannelLimit)
        requires
            enet_val != 0,
        ensures
            r == channel_limit_of(enet_val),
    {
        if enet_val == MAXIMUM_CHANNEL_COUNT {
            ChannelLimit::Maximum
        } else {
            ChannelLimit::Limited(enet_val)
        }
    }
}

impl BandwidthLimit {
    /// The engine value for this limit.
    pub fn to_enet_u32(&self) -> (r: u32)
        ensures
            r == bandwidth_value(*self),
    {
        match *self {
            BandwidthLimit::Unlimited => 0,
            BandwidthLimit::Limited(l) => l,
        }
    }

    /// Create a bandwidth limit value from a u32. 0 is unlimited
    pub fn from_enet_u32(enet_val: u32) -> (r: BandwidthLimit)
        ensures
            enet_val == 0 ==> r == BandwidthLimit::Unlimited,
            enet_val != 0 ==> r == BandwidthLimit::Limited(enet_val),
    {
        match enet_val {
            0 => BandwidthLimit::Unlimited,
            l => BandwidthLimit::Limited(l),
        }
    }
}

/// What one poll of the engine (service or check for events) produced.
#[derive(Debug, Clone, Copy, PartialEq, Eq)]
pub enum PollOutcome {
    /// The engine filled in an event.
    EventReady,
    /// Nothing happened before the timeout.
    NoEvent,
}

impl PollOutcome {
    /// Decodes the engine's poll result: positive when an event is ready,
    /// zero when there is none, negative on a transport fault.
    pub fn from_engine_result(res: i32) -> (r: Result<PollOutcome, Error>)
        ensures
            res > 0 ==> r == Ok::<PollOutcome, Error>(PollOutcome::EventReady),
            res == 0 ==> r == Ok::<PollOutcome, Error>(PollOutcome::NoEvent),
            res < 0 ==> r == Err::<PollOutcome, Error>(Error::Service(res)),
    {
        if res > 0 {
            Ok(PollOutcome::EventReady)
        } else if res == 0 {
            Ok(PollOutcome::NoEvent)
        } else {
            Err(Error::Service(res))
        }
    }
}

/// Checks an index into a host's peer table of `peer_count` slots.
pub fn checked_peer_index(index: usize, peer_count: usize) -> (r: Result<usize, Error>)
    ensures
        index < peer_count ==> r == Ok::<usize, Error>(index),
        index >= peer_count ==> r == Err::<usize, Error>(
            Error::PeerIndexOutOfRange { index, peer_count },
        ),
{
    if index < peer_count {
        Ok(index)
    } else {
        Err(Error::PeerIndexOutOfRange { index, peer_count })
    }
}

} // verus!
