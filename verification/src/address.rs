use vstd::prelude::*;
use crate::error::Error;

verus! {

/// The host part of a socket address, as the integer that its octets spell
/// in network byte order.
#[derive(Clone, Copy, Debug, PartialEq, Eq, Hash, Structural)]
pub enum Host {
    V4(u32),
    V6(u128),
}

/// A network socket address: host and port.
#[derive(Clone, Copy, Debug, PartialEq, Eq, Hash, Structural)]
pub struct SocketAddress {
    pub host: Host,
    pub port: u16,
}

/// Where a message goes.
#[derive(Clone, Copy, Debug, PartialEq, Eq, Hash, Structural)]
pub enum Addr {
    /// A peer reached through a datagram socket.
    Socket(SocketAddress),
    /// An endpoint inside this process, known by its number. No transport of
    /// this crate routes it.
    Local(u64),
}

impl Addr {
    /// The socket address that a socket transport routes to, if there is one.
    pub open spec fn socket(self) -> Option<SocketAddress> {
        match self {
            Addr::Socket(socket) => Some(socket),
            Addr::Local(_) => None,
        }
    }

    /// Whether a socket transport can route this address.
    pub fn is_socket(&self) -> (r: bool)
        ensures
            r == self.socket().is_some(),
    {
        match self {
            Addr::Socket(_) => true,
            Addr::Local(_) => false,
        }
    }
}

/// What a socket transport does with an address: the socket address itself,
/// or `UnsupportedAddress` for every other kind.
pub open spec fn routed(addr: Addr) -> Result<SocketAddress, Error> {
    match addr.socket() {
        Some(socket) => Ok(socket),
        None => Err(Error::UnsupportedAddress),
    }
}

/// Resolves an address for a socket transport. Fails fast, before anything
/// touches the network, on an address that is no socket address.
pub fn route(addr: Addr) -> (r: Result<SocketAddress, Error>)
    ensures
        r == routed(addr),
{
    match addr {
        Addr::Socket(socket) => Ok(socket),
        Addr::Local(_) => Err(Error::UnsupportedAddress),
    }
}

} // verus!
