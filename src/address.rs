use vstd::prelude::*;

use crate::error::Error;

verus! {

/// The engine's representation of an IPv4 endpoint, as plain values.
///
/// `host` is the address as a 32-bit number in host order (the first octet
/// is the most significant byte); the engine stores it in network byte
/// order, which the code that talks to the engine converts with `to_be` /
/// `from_be`.
#[derive(Debug, Clone, Copy, PartialEq, Eq)]
pub struct EnetAddress {
    pub host: u32,
    pub port: u16,
}

/// The number whose big-endian bytes are `a`, `b`, `c`, `d`.
pub open spec fn be_value(a: u8, b: u8, c: u8, d: u8) -> u32 {
    ((a as u32) << 24u32) | ((b as u32) << 16u32) | ((c as u32) << 8u32) | (d as u32)
}

/// The 32-bit host value of four octets.
pub open spec fn host_of_octets(o: Seq<u8>) -> u32
    recommends
        o.len() == 4,
{
    be_value(o[0], o[1], o[2], o[3])
}

/// The four octets of a 32-bit host value, most significant first.
pub open spec fn octets_of_host(h: u32) -> Seq<u8> {
    seq![(h >> 24u32) as u8, (h >> 16u32) as u8, (h >> 8u32) as u8, h as u8]
}

/// Relies on byteorder's `NetworkEndian::read_u32`: the four bytes read as a
/// big-endian number.
#[verifier::external_body]
fn read_network_u32(bytes: &[u8; 4]) -> (r: u32)
    ensures
        r == be_value(bytes[0], bytes[1], bytes[2], bytes[3]),
{
    <byteorder::NetworkEndian as byteorder::ByteOrder>::read_u32(bytes)
}

/// An IPv4 address and port that can be used with the engine.
#[derive(Clone, Copy, Debug, PartialEq, Eq)]
pub struct Address {
    ip: [u8; 4],
    port: u16,
}

impl View for Address {
    type V = (Seq<u8>, u16);

    closed spec fn view(&self) -> (Seq<u8>, u16) {
        (self.ip@, self.port)
    }
}

/// Converting octets to the engine's host value and back gives the octets;
/// converting a host value to octets and back gives the value.
pub proof fn lemma_native_round_trip(o: Seq<u8>, h: u32)
    requires
        o.len() == 4,
    ensures
        octets_of_host(host_of_octets(o)) == o,
        host_of_octets(octets_of_host(h)) == h,
{
    let (a, b, c, d) = (o[0], o[1], o[2], o[3]);
    let v = be_value(a, b, c, d);
    assert((v >> 24u32) as u8 == a && (v >> 16u32) as u8 == b && (v >> 8u32) as u8 == c
        && v as u8 == d) by (bit_vector)
        requires
            v == ((a as u32) << 24u32) | ((b as u32) << 16u32) | ((c as u32) << 8u32) | (d as u32),
    ;
    assert(octets_of_host(v) =~= o);
    let w = octets_of_host(h);
    assert(be_value((h >> 24u32) as u8, (h >> 16u32) as u8, (h >> 8u32) as u8, h as u8) == h)
        by (bit_vector);
    assert(host_of_octets(w) == be_value(
        (h >> 24u32) as u8,
        (h >> 16u32) as u8,
        (h >> 8u32) as u8,
        h as u8,
    ));
}

impl Address {
    /// Create a new address from an ip and a port.
    pub fn new(ip: [u8; 4], port: u16) -> (r: Address)
        ensures
            r@ == (ip@, port),
    {
        Address { ip, port }
    }

    /// The address that a hostname lookup produced: the engine's result
    /// code `res` (zero on success) and the address it filled in.
    pub fn from_resolution(res: i32, resolved: &EnetAddress) -> (r: Result<Address, Error>)
        ensures
            res != 0 ==> r == Err::<Address, Error>(Error::Resolution(res)),
            res == 0 ==> (r matches Ok(a) && a@ == (octets_of_host(resolved.host), resolved.port)),
    {
        if res != 0 {
            return Err(Error::Resolution(res));
        }
        Ok(Address::from_enet_address(resolved))
    }

    /// Return the ip of this address
    pub fn ip(&self) -> (r: [u8; 4])
        ensures
            r@ == self@.0,
    {
        self.ip
    }

    /// Returns the port of this address
    pub fn port(&self) -> (r: u16)
        ensures
            r == self@.1,
    {
        self.port
    }

    /// The engine's representation of this address.
    pub fn to_enet_address(&self) -> (r: EnetAddress)
        ensures
            r.host == host_of_octets(self@.0),
            r.port == self@.1,
    {
        EnetAddress { host: read_network_u32(&self.ip), port: self.port }
    }

    /// The address that the engine's representation stands for.
    pub fn from_enet_address(addr: &EnetAddress) -> (r: Address)
        ensures
            r@ == (octets_of_host(addr.host), addr.port),
    {
        let h = addr.host;
        let ip: [u8; 4] = [(h >> 24u32) as u8, (h >> 16u32) as u8, (h >> 8u32) as u8, h as u8];
        assert(ip@ =~= octets_of_host(h));
        Address::new(ip, addr.port)
    }
}

} // verus!
