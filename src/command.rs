//! The commands of a SOCKS5 request.
use vstd::prelude::*;

verus! {

/// A SOCKS5 request command.
#[derive(Debug, Clone, Copy, PartialEq, Eq, Structural)]
pub enum Command {
    /// Open a TCP connection to the destination (`0x01`).
    Connect,
    /// Listen for one inbound TCP connection (`0x02`).
    Bind,
    /// Relay UDP datagrams (`0x03`).
    UdpAssociate,
}

/// The command that a byte names, if any.
pub open spec fn command_of_byte(b: u8) -> Option<Command> {
    if b == 0x01 {
        Some(Command::Connect)
    } else if b == 0x02 {
        Some(Command::Bind)
    } else if b == 0x03 {
        Some(Command::UdpAssociate)
    } else {
        None
    }
}

impl Command {
    /// The byte of the command on the wire.
    pub open spec fn spec_to_u8(self) -> u8 {
        match self {
            Command::Connect => 0x01,
            Command::Bind => 0x02,
            Command::UdpAssociate => 0x03,
        }
    }

    /// Decodes a command byte; `None` for anything but `1`, `2` and `3`.
    pub fn from_u8(value: u8) -> (r: Option<Command>)
        ensures
            r == command_of_byte(value),
    {
        match value {
            0x01 => Some(Command::Connect),
            0x02 => Some(Command::Bind),
            0x03 => Some(Command::UdpAssociate),
            _ => None,
        }
    }

    /// Encodes the command as its byte.
    pub fn to_u8(&self) -> (r: u8)
        ensures
            r == self.spec_to_u8(),
            command_of_byte(r) == Some(*self),
    {
        match self {
            Command::Connect => 0x01,
            Command::Bind => 0x02,
            Command::UdpAssociate => 0x03,
        }
    }
}

} // verus!
