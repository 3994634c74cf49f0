//! The parts of a datagram's header and of its sender's address that the
//! dispatch logic reads, held as plain values.
use vstd::prelude::*;

verus! {

/// The kind of a QUIC packet.
#[derive(Clone, Copy, Debug, PartialEq, Eq, Structural)]
pub enum PacketType {
    Initial,
    Retry,
    Handshake,
    ZeroRtt,
    VersionNegotiation,
    Short,
}

/// The header fields of a received datagram.
pub struct PacketHeader {
    pub ty: PacketType,
    pub version: u32,
    /// Destination connection identifier.
    pub dcid: Vec<u8>,
    /// Source connection identifier.
    pub scid: Vec<u8>,
    /// Address-validation token; empty where the packet carries none.
    pub token: Vec<u8>,
}

/// The sender or receiver of a datagram: IP address bytes and port.
pub struct PeerAddr {
    pub ip: Vec<u8>,
    pub port: u16,
}

impl PeerAddr {
    /// The address bytes: four for IPv4, sixteen for IPv6.
    pub open spec fn ip_view(&self) -> Seq<u8> {
        self.ip@
    }

    pub open spec fn wf(&self) -> bool {
        self.ip_view().len() == 4 || self.ip_view().len() == 16
    }

    /// An address from its IP bytes, `None` unless there are four or sixteen.
    pub fn new(ip: Vec<u8>, port: u16) -> (r: Option<PeerAddr>)
        ensures
            r is Some <==> (ip@.len() == 4 || ip@.len() == 16),
            r is Some ==> r->Some_0.ip_view() == ip@ && r->Some_0.port == port && r->Some_0.wf(),
    {
        if ip.len() == 4 || ip.len() == 16 {
            Some(PeerAddr { ip, port })
        } else {
            None
        }
    }

    pub fn ip(&self) -> (r: &[u8])
        ensures
            r@ == self.ip_view(),
    {
        self.ip.as_slice()
    }

    pub fn is_ipv6(&self) -> (r: bool)
        ensures
            r == (self.ip_view().len() == 16),
    {
        self.ip.len() == 16
    }
}

} // verus!
