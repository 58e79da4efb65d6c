//! What goes over the wire: ASCII payloads in UDP datagrams on the loopback
//! interface.

use vstd::prelude::*;
use vstd::string::is_ascii;
use vstd::string::is_ascii_spec_bytes;

verus! {

/// The address of the loopback interface, 127.0.0.1.
pub const LOOPBACK: [u8; 4] = [127, 0, 0, 1];

/// The source port that lets the system pick a free one for the time of one
/// transmission.
pub const EPHEMERAL_PORT: u16 = 0;

/// The ASCII bytes of a text: one byte for each character.
pub open spec fn ascii(text: Seq<char>) -> Seq<u8> {
    text.map_values(|c: char| c as u8)
}

/// The payload that tells the indicator to terminate.
pub open spec fn quit_token() -> Seq<u8> {
    ascii(seq!['q', 'u', 'i', 't'])
}

/// The bytes of a text that holds ASCII characters only.
pub(crate) fn ascii_bytes(text: &'static str) -> (bytes: &'static [u8])
    requires
        is_ascii(text),
    ensures
        bytes@ == ascii(text@),
{
    broadcast use is_ascii_spec_bytes;

    text.as_bytes()
}

/// One end of a transmission: an IPv4 address and a UDP port.
#[derive(Clone, Copy, Debug, PartialEq, Eq)]
pub struct Endpoint {
    /// The four octets of the address, first octet first.
    pub host: [u8; 4],
    /// The UDP port.
    pub port: u16,
}

impl Endpoint {
    /// Whether this is `port` on the loopback interface.
    pub open spec fn is_loopback(self, port: u16) -> bool {
        &&& self.host@ == seq![127u8, 0u8, 0u8, 1u8]
        &&& self.port == port
    }

    /// The given port on the loopback interface.
    pub(crate) fn loopback(port: u16) -> (endpoint: Endpoint)
        ensures
            endpoint.is_loopback(port),
    {
        Endpoint { host: LOOPBACK, port }
    }
}

/// A single UDP datagram for the caller to transmit.
///
/// The caller binds a socket to `source`, sends `payload` to `destination` in
/// one piece, and closes the socket again, whether or not the send succeeded.
#[derive(Clone, Copy, Debug, PartialEq, Eq)]
pub struct Datagram {
    /// The local end to send from.
    pub source: Endpoint,
    /// The indicator's end.
    pub destination: Endpoint,
    /// The bytes to send, with no framing and no terminator.
    pub payload: &'static [u8],
}

impl Datagram {
    /// Whether this datagram takes exactly `payload` from a port of the
    /// system's choosing to the indicator that listens on `port`, both on the
    /// loopback interface.
    pub open spec fn carries(self, port: u16, payload: Seq<u8>) -> bool {
        &&& self.source.is_loopback(EPHEMERAL_PORT)
        &&& self.destination.is_loopback(port)
        &&& self.payload@ == payload
    }

    /// The datagram that takes `payload` to the indicator on `port`.
    pub(crate) fn to_indicator(port: u16, payload: &'static [u8]) -> (datagram: Datagram)
        ensures
            datagram.carries(port, payload@),
    {
        Datagram {
            source: Endpoint::loopback(EPHEMERAL_PORT),
            destination: Endpoint::loopback(port),
            payload,
        }
    }
}

} // verus!
