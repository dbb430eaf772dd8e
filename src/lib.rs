//! Core of a SOCKS5 proxy server (RFC 1928 with the RFC 1929 username/password
//! sub-negotiation), written without I/O: byte codecs for every frame, the
//! per-connection state machine, and the decisions of the UDP ASSOCIATE relay.
//! The caller owns the sockets, feeds received bytes and handler results in,
//! and writes out the bytes that the library hands back.
use vstd::prelude::*;

pub mod addr;
pub mod auth;
pub mod command;
pub mod engine;
pub mod error;
pub mod handlers;
pub mod methods;
pub mod relay;
pub mod reply;
pub mod udp;
pub mod wire;

pub use addr::{Addr, AddressType, IpAddress, NetAddr, SocksSocketAddr};
pub use auth::{
    simple_user_authenticator, Authenticator, NoAuthAuthenticator, SingleUserValidator, User,
    UsernamePasswordAuthenticator,
};
pub use command::Command;
pub use engine::{Engine, GreetingStep, HandlerStep, Phase, Request};
pub use error::{Result, Socks5Error};
pub use handlers::{
    AssociateDenier, BindDenier, ConnectDenier, TunnelAssociate, TunnelBind, TunnelConnect,
};
pub use methods::AuthMethod;
pub use relay::{addrs_match, control_read, RelayAction, UdpRelay, MAX_DATAGRAM};
pub use reply::{IoErrorKind, Reply};
pub use udp::UdpMessage;
pub use wire::Parsed;

verus! {

/// Protocol version byte of SOCKS5.
pub const VERSION: u8 = 0x05;

/// Reserved byte; always zero on the wire.
pub const RESERVED: u8 = 0x00;

} // verus!
