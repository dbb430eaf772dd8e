//! The library's error type.
use vstd::prelude::*;
use crate::reply::{reply_for_kind, IoErrorKind, Reply};

verus! {

/// Why a connection could not go on.
#[derive(Debug, Clone, Copy, PartialEq, Eq, Structural)]
pub enum Socks5Error {
    /// A protocol-level failure that has been, or is to be, told to the client as a reply.
    Socks5Error(Reply),
    /// A transport failure or a broken frame, by kind.
    IoError(IoErrorKind),
}

/// The outcome type of the library's fallible operations.
pub type Result<T> = core::result::Result<T, Socks5Error>;

/// The reply that an error stands for.
pub open spec fn reply_for_error(e: Socks5Error) -> Reply {
    match e {
        Socks5Error::Socks5Error(r) => r,
        Socks5Error::IoError(k) => reply_for_kind(k),
    }
}

impl Socks5Error {
    /// The reply that tells the client of this error: the reply itself, or
    /// the reply that the I/O kind maps to.
    pub fn to_reply(&self) -> (r: Reply)
        ensures
            r == reply_for_error(*self),
    {
        match self {
            Socks5Error::Socks5Error(r) => *r,
            Socks5Error::IoError(k) => Reply::from_error_kind(*k),
        }
    }
}

impl From<Socks5Error> for Reply {
    fn from(value: Socks5Error) -> (r: Reply) {
        value.to_reply()
    }
}

impl vstd::std_specs::convert::FromSpecImpl<Socks5Error> for Reply {
    open spec fn obeys_from_spec() -> bool {
        true
    }

    open spec fn from_spec(v: Socks5Error) -> Reply {
        reply_for_error(v)
    }
}

} // verus!
