//! Reply codes and the mapping from I/O error kinds to them.
use vstd::prelude::*;

verus! {

/// The reply code of a SOCKS5 reply frame.
#[derive(Debug, Clone, Copy, PartialEq, Eq, Structural)]
pub enum Reply {
    Success,
    GeneralFailure,
    ConnectionNotAllowedByRuleset,
    NetworkUnreachable,
    HostUnreachable,
    ConnectionRefused,
    TTLExpired,
    CommandNotSupported,
    AddressTypeNotSupported,
}

/// The kinds of I/O failure that the library tells apart; every kind that
/// the operating system reports and that is not listed here is `Other`.
#[derive(Debug, Clone, Copy, PartialEq, Eq, Structural)]
pub enum IoErrorKind {
    NotFound,
    PermissionDenied,
    ConnectionRefused,
    ConnectionReset,
    ConnectionAborted,
    NotConnected,
    AddrInUse,
    AddrNotAvailable,
    BrokenPipe,
    AlreadyExists,
    WouldBlock,
    InvalidInput,
    InvalidData,
    TimedOut,
    WriteZero,
    Interrupted,
    Unsupported,
    UnexpectedEof,
    Other,
}

/// The reply that a code names; every reserved code (`0x09` and above)
/// counts as `GeneralFailure`.
pub open spec fn reply_of_byte(b: u8) -> Option<Reply> {
    if b == 0 {
        Some(Reply::Success)
    } else if b == 1 {
        Some(Reply::GeneralFailure)
    } else if b == 2 {
        Some(Reply::ConnectionNotAllowedByRuleset)
    } else if b == 3 {
        Some(Reply::NetworkUnreachable)
    } else if b == 4 {
        Some(Reply::HostUnreachable)
    } else if b == 5 {
        Some(Reply::ConnectionRefused)
    } else if b == 6 {
        Some(Reply::TTLExpired)
    } else if b == 7 {
        Some(Reply::CommandNotSupported)
    } else if b == 8 {
        Some(Reply::AddressTypeNotSupported)
    } else {
        Some(Reply::GeneralFailure)
    }
}

/// The reply that stands for an I/O failure of the given kind.
pub open spec fn reply_for_kind(k: IoErrorKind) -> Reply {
    match k {
        IoErrorKind::ConnectionRefused => Reply::ConnectionRefused,
        IoErrorKind::ConnectionReset | IoErrorKind::ConnectionAborted | IoErrorKind::BrokenPipe
        | IoErrorKind::TimedOut => Reply::TTLExpired,
        IoErrorKind::NotConnected => Reply::NetworkUnreachable,
        IoErrorKind::AddrNotAvailable => Reply::AddressTypeNotSupported,
        IoErrorKind::PermissionDenied => Reply::ConnectionNotAllowedByRuleset,
        IoErrorKind::Unsupported => Reply::CommandNotSupported,
        IoErrorKind::NotFound | IoErrorKind::AddrInUse | IoErrorKind::InvalidInput
        | IoErrorKind::InvalidData | IoErrorKind::WriteZero | IoErrorKind::Interrupted
        | IoErrorKind::UnexpectedEof | IoErrorKind::AlreadyExists
        | IoErrorKind::WouldBlock => Reply::HostUnreachable,
        IoErrorKind::Other => Reply::GeneralFailure,
    }
}

impl Reply {
    /// The code of the reply on the wire.
    pub open spec fn spec_to_u8(self) -> u8 {
        match self {
            Reply::Success => 0,
            Reply::GeneralFailure => 1,
            Reply::ConnectionNotAllowedByRuleset => 2,
            Reply::NetworkUnreachable => 3,
            Reply::HostUnreachable => 4,
            Reply::ConnectionRefused => 5,
            Reply::TTLExpired => 6,
            Reply::CommandNotSupported => 7,
            Reply::AddressTypeNotSupported => 8,
        }
    }

    /// Decodes a reply code; a reserved code (`0x09` and above) decodes to
    /// `GeneralFailure`, so the result is always `Some`.
    pub fn from_u8(value: u8) -> (r: Option<Reply>)
        ensures
            r == reply_of_byte(value),
    {
        match value {
            0x00 => Some(Reply::Success),
            0x01 => Some(Reply::GeneralFailure),
            0x02 => Some(Reply::ConnectionNotAllowedByRuleset),
            0x03 => Some(Reply::NetworkUnreachable),
            0x04 => Some(Reply::HostUnreachable),
            0x05 => Some(Reply::ConnectionRefused),
            0x06 => Some(Reply::TTLExpired),
            0x07 => Some(Reply::CommandNotSupported),
            0x08 => Some(Reply::AddressTypeNotSupported),
            _ => Some(Reply::GeneralFailure),
        }
    }

    /// Encodes the reply as its code.
    pub fn to_u8(&self) -> (r: u8)
        ensures
            r == self.spec_to_u8(),
    {
        match self {
            Reply::Success => 0x00,
            Reply::GeneralFailure => 0x01,
            Reply::ConnectionNotAllowedByRuleset => 0x02,
            Reply::NetworkUnreachable => 0x03,
            Reply::HostUnreachable => 0x04,
            Reply::ConnectionRefused => 0x05,
            Reply::TTLExpired => 0x06,
            Reply::CommandNotSupported => 0x07,
            Reply::AddressTypeNotSupported => 0x08,
        }
    }

    /// The reply for an I/O failure of kind `kind`.
    pub fn from_error_kind(kind: IoErrorKind) -> (r: Reply)
        ensures
            r == reply_for_kind(kind),
    {
        match kind {
            IoErrorKind::NotFound => Reply::HostUnreachable,
            IoErrorKind::PermissionDenied => Reply::ConnectionNotAllowedByRuleset,
            IoErrorKind::ConnectionRefused => Reply::ConnectionRefused,
            IoErrorKind::ConnectionReset => Reply::TTLExpired,
            IoErrorKind::ConnectionAborted => Reply::TTLExpired,
            IoErrorKind::NotConnected => Reply::NetworkUnreachable,
            IoErrorKind::AddrInUse => Reply::HostUnreachable,
            IoErrorKind::AddrNotAvailable => Reply::AddressTypeNotSupported,
            IoErrorKind::BrokenPipe => Reply::TTLExpired,
            IoErrorKind::AlreadyExists => Reply::HostUnreachable,
            IoErrorKind::WouldBlock => Reply::HostUnreachable,
            IoErrorKind::InvalidInput => Reply::HostUnreachable,
            IoErrorKind::InvalidData => Reply::HostUnreachable,
            IoErrorKind::TimedOut => Reply::TTLExpired,
            IoErrorKind::WriteZero => Reply::HostUnreachable,
            IoErrorKind::Interrupted => Reply::HostUnreachable,
            IoErrorKind::Unsupported => Reply::CommandNotSupported,
            IoErrorKind::UnexpectedEof => Reply::HostUnreachable,
            IoErrorKind::Other => Reply::GeneralFailure,
        }
    }

    /// `Success` for a result that succeeded, else the reply for its error kind.
    pub fn from_io_result<T>(value: &Result<T, IoErrorKind>) -> (r: Reply)
        ensures
            r == match value {
                Ok(_) => Reply::Success,
                Err(k) => reply_for_kind(*k),
            },
    {
        match value {
            Ok(_) => Reply::Success,
            Err(kind) => Reply::from_error_kind(*kind),
        }
    }

    /// A short English description of the reply.
    pub fn description(&self) -> (r: &'static str)
        ensures
            r@ == reply_text(*self),
    {
        match self {
            Reply::Success => "Success",
            Reply::GeneralFailure => "General Failure",
            Reply::ConnectionNotAllowedByRuleset => "Connection Not Allowed By Ruleset",
            Reply::NetworkUnreachable => "Network Unreachable",
            Reply::HostUnreachable => "Host Unreachable",
            Reply::ConnectionRefused => "Connection Refused",
            Reply::TTLExpired => "TTL Expired",
            Reply::CommandNotSupported => "Command Not Supported",
            Reply::AddressTypeNotSupported => "Address Type Not Supported",
        }
    }
}

/// The description of each reply.
pub open spec fn reply_text(r: Reply) -> Seq<char> {
    match r {
        Reply::Success => "Success"@,
        Reply::GeneralFailure => "General Failure"@,
        Reply::ConnectionNotAllowedByRuleset => "Connection Not Allowed By Ruleset"@,
        Reply::NetworkUnreachable => "Network Unreachable"@,
        Reply::HostUnreachable => "Host Unreachable"@,
        Reply::ConnectionRefused => "Connection Refused"@,
        Reply::TTLExpired => "TTL Expired"@,
        Reply::CommandNotSupported => "Command Not Supported"@,
        Reply::AddressTypeNotSupported => "Address Type Not Supported"@,
    }
}

/// Encoding a reply and decoding its code gives the reply back.
pub proof fn lemma_reply_round_trip(r: Reply)
    ensures
        reply_of_byte(r.spec_to_u8()) == Some(r),
{
}

/// Every assigned code (`0x00..=0x08`) is the code of the reply it decodes
/// to; every reserved code decodes to `GeneralFailure`.
pub proof fn lemma_reply_code_round_trip(b: u8)
    ensures
        reply_of_byte(b) is Some,
        b <= 0x08 ==> reply_of_byte(b)->0.spec_to_u8() == b,
        b >= 0x09 ==> reply_of_byte(b) == Some(Reply::GeneralFailure),
{
}

} // verus!
