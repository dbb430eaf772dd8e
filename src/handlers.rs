//! The built-in command handlers. The deniers refuse their command at the
//! first step; the tunnels do real network I/O, which the application layer
//! performs on their behalf.
use vstd::prelude::*;
use crate::addr::SocksSocketAddr;
use crate::error::{Result, Socks5Error};
use crate::reply::Reply;

verus! {

/// The error with which every denier refuses its command.
pub open spec fn denied() -> Result<()> {
    Err(Socks5Error::Socks5Error(Reply::CommandNotSupported))
}

/// Refuses every CONNECT request.
#[derive(Debug, Clone, Copy, PartialEq, Eq, Structural)]
pub struct ConnectDenier;

impl ConnectDenier {
    /// Refuses to open a connection to `destination`.
    pub fn establish_connection(&mut self, destination: &SocksSocketAddr) -> (r: Result<()>)
        ensures
            r == denied(),
    {
        Err(Socks5Error::Socks5Error(Reply::CommandNotSupported))
    }
}

/// Refuses every BIND request.
#[derive(Debug, Clone, Copy, PartialEq, Eq, Structural)]
pub struct BindDenier;

impl BindDenier {
    /// Refuses to listen on behalf of a client that named `addr`.
    pub fn bind(&mut self, addr: &SocksSocketAddr) -> (r: Result<()>)
        ensures
            r == denied(),
    {
        Err(Socks5Error::Socks5Error(Reply::CommandNotSupported))
    }
}

/// Refuses every UDP ASSOCIATE request.
#[derive(Debug, Clone, Copy, PartialEq, Eq, Structural)]
pub struct AssociateDenier;

impl AssociateDenier {
    /// Refuses to open a UDP relay.
    pub fn bind(&self) -> (r: Result<()>)
        ensures
            r == denied(),
    {
        Err(Socks5Error::Socks5Error(Reply::CommandNotSupported))
    }
}

/// CONNECT by a direct TCP connection to the destination, with bytes pumped
/// both ways until either side ends.
#[derive(Debug, Clone, Copy, PartialEq, Eq, Structural)]
pub struct TunnelConnect;

/// BIND by a TCP listener on the requested address, with bytes pumped both
/// ways once the peer has connected.
#[derive(Debug, Clone, Copy, PartialEq, Eq, Structural)]
pub struct TunnelBind;

/// UDP ASSOCIATE by a UDP socket on a free local port.
#[derive(Debug, Clone, Copy, PartialEq, Eq, Structural)]
pub struct TunnelAssociate;

} // verus!
