use vstd::prelude::*;
use vstd::slice::slice_to_vec;

use crate::error::Error;

verus! {

/// The engine's flag bit for reliable delivery.
pub const RELIABLE_FLAG: u32 = 1;

/// The engine's flag bit for unsequenced delivery.
pub const UNSEQUENCED_FLAG: u32 = 2;

/// Mode that can be set when transmitting a packet.
///
/// The engine does not support reliable but unsequenced packets, so that
/// combination has no variant.
#[derive(Copy, Clone, Debug, Hash, Eq, PartialEq)]
pub enum PacketMode {
    /// The packet will be sent unreliably but sequenced (the engine's default).
    UnreliableSequenced,
    /// The packet will be sent unreliably and unsequenced.
    UnreliableUnsequenced,
    /// The packet will be sent reliably and sequenced with other reliable packets.
    ReliableSequenced,
}

/// The engine flags that encode a mode.
pub open spec fn flags_of(m: PacketMode) -> u32 {
    match m {
        PacketMode::UnreliableSequenced => 0,
        PacketMode::UnreliableUnsequenced => UNSEQUENCED_FLAG,
        PacketMode::ReliableSequenced => RELIABLE_FLAG,
    }
}

/// Whether a flag value is the encoding of one of the three modes.
pub open spec fn is_mode_flags(f: u32) -> bool {
    f == 0 || f == UNSEQUENCED_FLAG || f == RELIABLE_FLAG
}

/// The mode that a valid flag value encodes.
pub open spec fn mode_of_flags(f: u32) -> PacketMode
    recommends
        is_mode_flags(f),
{
    if f == RELIABLE_FLAG {
        PacketMode::ReliableSequenced
    } else if f == UNSEQUENCED_FLAG {
        PacketMode::UnreliableUnsequenced
    } else {
        PacketMode::UnreliableSequenced
    }
}

/// The mode that a name stands for, if any.
pub open spec fn mode_named(name: Seq<char>) -> Option<PacketMode> {
    if name == "unreliable"@ {
        Some(PacketMode::UnreliableSequenced)
    } else if name == "unsequenced"@ {
        Some(PacketMode::UnreliableUnsequenced)
    } else if name == "reliable"@ {
        Some(PacketMode::ReliableSequenced)
    } else {
        None
    }
}

/// Encoding a mode as engine flags and decoding those flags gives the mode
/// back; the three encodings are the only valid flag values, and decoding a
/// valid value then encoding it again gives the value back.
pub proof fn lemma_flags_round_trip(m: PacketMode, f: u32)
    ensures
        is_mode_flags(flags_of(m)),
        mode_of_flags(flags_of(m)) == m,
        is_mode_flags(f) ==> flags_of(mode_of_flags(f)) == f,
{
}

/// Whether two strings hold the same characters.
fn same_chars(s: &str, t: &str) -> (r: bool)
    ensures
        r == (s@ == t@),
{
    let n = s.unicode_len();
    if n != t.unicode_len() {
        return false;
    }
    let mut i: usize = 0;
    while i < n
        invariant
            n == s@.len(),
            n == t@.len(),
            i <= n,
            s@.subrange(0, i as int) == t@.subrange(0, i as int),
        decreases n - i,
    {
        if s.get_char(i) != t.get_char(i) {
            assert(s@[i as int] != t@[i as int]);
            return false;
        }
        assert(s@.subrange(0, i + 1) == s@.subrange(0, i as int).push(s@[i as int]));
        assert(t@.subrange(0, i + 1) == t@.subrange(0, i as int).push(t@[i as int]));
        i = i + 1;
    }
    assert(s@ == s@.subrange(0, n as int));
    assert(t@ == t@.subrange(0, n as int));
    true
}

impl PacketMode {
    /// Returns whether this represents a reliable mode.
    pub fn is_reliable(&self) -> (r: bool)
        ensures
            r == (*self == PacketMode::ReliableSequenced),
    {
        match self {
            PacketMode::UnreliableSequenced => false,
            PacketMode::UnreliableUnsequenced => false,
            PacketMode::ReliableSequenced => true,
        }
    }

    /// Returns whether this represents a sequenced mode.
    pub fn is_sequenced(&self) -> (r: bool)
        ensures
            r == (*self != PacketMode::UnreliableUnsequenced),
    {
        match self {
            PacketMode::UnreliableSequenced => true,
            PacketMode::UnreliableUnsequenced => false,
            PacketMode::ReliableSequenced => true,
        }
    }

    /// The engine flags for this mode.
    pub fn to_sys_flags(&self) -> (r: u32)
        ensures
            r == flags_of(*self),
    {
        match self {
            PacketMode::UnreliableSequenced => 0,
            PacketMode::UnreliableUnsequenced => UNSEQUENCED_FLAG,
            PacketMode::ReliableSequenced => RELIABLE_FLAG,
        }
    }

    /// The mode that engine flags encode; any other flag value is a broken
    /// invariant of this layer and may not be passed.
    pub fn from_sys_flags(sys_flags: u32) -> (r: PacketMode)
        requires
            is_mode_flags(sys_flags),
        ensures
            r == mode_of_flags(sys_flags),
            flags_of(r) == sys_flags,
    {
        if sys_flags == RELIABLE_FLAG {
            PacketMode::ReliableSequenced
        } else if sys_flags == UNSEQUENCED_FLAG {
            PacketMode::UnreliableUnsequenced
        } else {
            PacketMode::UnreliableSequenced
        }
    }

    /// Returns a packet mode from matching against an input string:
    /// "unreliable", "unsequenced" or "reliable", exactly.
    pub fn from_string(string: &str) -> (r: Option<PacketMode>)
        ensures
            r == mode_named(string@),
    {
        if same_chars(string, "unreliable") {
            Some(PacketMode::UnreliableSequenced)
        } else if same_chars(string, "unsequenced") {
            Some(PacketMode::UnreliableUnsequenced)
        } else if same_chars(string, "reliable") {
            Some(PacketMode::ReliableSequenced)
        } else {
            None
        }
    }
}

/// A packet that can be sent or retrieved on a connection: its bytes and
/// its delivery mode, exclusively owned.
#[derive(Debug)]
pub struct Packet {
    data: Vec<u8>,
    mode: PacketMode,
}

impl View for Packet {
    type V = (Seq<u8>, PacketMode);

    closed spec fn view(&self) -> (Seq<u8>, PacketMode) {
        (self.data@, self.mode)
    }
}

impl Packet {
    /// Creates a new packet holding a copy of `data`, sent with `mode`.
    ///
    /// The packet owns its storage; the engine's copy is made when the
    /// packet is handed over for sending.
    pub fn new(data: &[u8], mode: PacketMode) -> (r: Result<Packet, Error>)
        ensures
            r matches Ok(p) && p@ == (data@, mode),
    {
        Ok(Packet { data: slice_to_vec(data), mode })
    }

    /// Returns an independent copy of this packet.
    pub fn copy(other_packet: &Packet) -> (r: Result<Packet, Error>)
        ensures
            r matches Ok(p) && p@ == other_packet@,
    {
        Packet::new(other_packet.data(), other_packet.packet_mode())
    }

    /// Returns a reference to the bytes inside this packet.
    pub fn data(&self) -> (r: &[u8])
        ensures
            r@ == self@.0,
    {
        self.data.as_slice()
    }

    /// Returns the delivery mechanism for this packet.
    pub fn packet_mode(&self) -> (r: PacketMode)
        ensures
            r == self@.1,
    {
        self.mode
    }
}

} // verus!
