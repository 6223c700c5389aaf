//! Destination addressing: an IP address or a domain name, with a port.
//!
//! Addresses are held as plain values so that every rule about them can be
//! stated directly; conversion to and from the operating system's socket
//! address types happens outside the library.

use vstd::prelude::*;

verus! {

/// An IP address, version 4 as its four octets or version 6 as its eight
/// 16-bit segments.
#[derive(Clone, Copy, Debug, PartialEq, Eq, Hash, Structural)]
pub enum IpAddr {
    V4(u8, u8, u8, u8),
    V6(u16, u16, u16, u16, u16, u16, u16, u16),
}

/// A socket address: an IP address together with a port.
#[derive(Clone, Copy, Debug, PartialEq, Eq, Hash, Structural)]
pub struct SocketAddr {
    pub ip: IpAddr,
    pub port: u16,
}

impl SocketAddr {
    /// Builds a socket address from its parts.
    pub fn new(ip: IpAddr, port: u16) -> (r: SocketAddr)
        ensures
            r.ip == ip,
            r.port == port,
    {
        SocketAddr { ip, port }
    }
}

/// A destination: either a literal IP address or a domain name, with a port.
/// A domain name is never resolved locally; resolution is delegated to the
/// upstream proxy.
#[derive(Debug)]
pub enum Address {
    IpAddr(IpAddr, u16),
    Domain(String, u16),
}

impl Clone for Address {
    fn clone(&self) -> (r: Address)
        ensures
            r == *self,
    {
        match self {
            Address::IpAddr(ip, port) => Address::IpAddr(*ip, *port),
            Address::Domain(name, port) => Address::Domain(name.clone(), *port),
        }
    }
}

impl Address {
    /// The port of the destination, whichever variant holds it.
    pub open spec fn spec_port(&self) -> u16 {
        match self {
            Address::IpAddr(_, port) => *port,
            Address::Domain(_, port) => *port,
        }
    }

    /// Returns the destination port.
    pub fn port(&self) -> (p: u16)
        ensures
            p == self.spec_port(),
    {
        match self {
            Address::IpAddr(_, port) => *port,
            Address::Domain(_, port) => *port,
        }
    }

}

impl From<SocketAddr> for Address {
    /// A known socket address is the destination with that IP and port.
    fn from(addr: SocketAddr) -> (r: Address) {
        Address::IpAddr(addr.ip, addr.port)
    }
}

impl vstd::std_specs::convert::FromSpecImpl<SocketAddr> for Address {
    open spec fn obeys_from_spec() -> bool {
        true
    }

    open spec fn from_spec(addr: SocketAddr) -> Address {
        Address::IpAddr(addr.ip, addr.port)
    }
}

/// The transport protocol of a relayed stream.
#[derive(Clone, Copy, Debug, PartialEq, Eq, Structural)]
pub enum L4Protocol {
    Tcp,
    Udp,
}

impl L4Protocol {
    /// The protocol's name, as diagnostics print it.
    pub fn name(&self) -> (s: String)
        ensures
            *self is Tcp ==> s@ == "Tcp"@,
            *self is Udp ==> s@ == "Udp"@,
    {
        match self {
            L4Protocol::Tcp => "Tcp".to_owned(),
            L4Protocol::Udp => "Udp".to_owned(),
        }
    }
}

/// One datagram of the packet-oriented relay path. The path is declared but
/// intentionally unimplemented: destination resolution for UDP associate is
/// out of scope, so no component ever relays one of these.
#[derive(Debug)]
pub struct UdpDatagram {
    pub frag: u8,
    pub dst_addr: Address,
    pub data: Vec<u8>,
}

} // verus!
