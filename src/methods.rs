//! Authentication method codes exchanged during method negotiation.
use vstd::prelude::*;

verus! {

pub const NO_AUTH_REQUIRED: u8 = 0x00;
pub const GSSAPI: u8 = 0x01;
pub const USERNAME_PASSWORD: u8 = 0x02;
pub const IANA_ASSIGNED_LOWER: u8 = 0x03;
pub const IANA_ASSIGNED_UPPER: u8 = 0x7F;
pub const PRIVATE_METHOD_LOWER: u8 = 0x80;
pub const PRIVATE_METHOD_UPPER: u8 = 0xFE;
pub const NO_ACCEPTABLE_METHODS: u8 = 0xFF;

/// The authentication methods of SOCKS5, one for each byte value.
#[derive(Debug, Clone, Copy, PartialEq, Eq, Structural)]
pub enum AuthMethod {
    /// No authentication is required.
    NoAuthRequired,
    /// GSSAPI authentication (never selected by the built-in authenticators).
    Gssapi,
    /// Username and password authentication (RFC 1929).
    UsernamePassword,
    /// A method assigned by IANA, `0x03..=0x7F`.
    IanaAssigned(u8),
    /// A method reserved for private use, `0x80..=0xFE`.
    PrivateMethods(u8),
    /// The server accepts none of the offered methods (`0xFF`).
    NoAcceptableMethods,
}

/// The method that a byte on the wire names.
pub open spec fn method_of_byte(b: u8) -> AuthMethod {
    if b == NO_AUTH_REQUIRED {
        AuthMethod::NoAuthRequired
    } else if b == GSSAPI {
        AuthMethod::Gssapi
    } else if b == USERNAME_PASSWORD {
        AuthMethod::UsernamePassword
    } else if b <= IANA_ASSIGNED_UPPER {
        AuthMethod::IanaAssigned(b)
    } else if b <= PRIVATE_METHOD_UPPER {
        AuthMethod::PrivateMethods(b)
    } else {
        AuthMethod::NoAcceptableMethods
    }
}

impl AuthMethod {
    /// Whether the value carries a byte that lies in its variant's range.
    pub open spec fn well_formed(self) -> bool {
        match self {
            AuthMethod::IanaAssigned(v) => IANA_ASSIGNED_LOWER <= v <= IANA_ASSIGNED_UPPER,
            AuthMethod::PrivateMethods(v) => PRIVATE_METHOD_LOWER <= v <= PRIVATE_METHOD_UPPER,
            _ => true,
        }
    }

    /// The byte that stands for the method on the wire.
    pub open spec fn spec_to_u8(self) -> u8 {
        match self {
            AuthMethod::NoAuthRequired => NO_AUTH_REQUIRED,
            AuthMethod::Gssapi => GSSAPI,
            AuthMethod::UsernamePassword => USERNAME_PASSWORD,
            AuthMethod::IanaAssigned(v) => v,
            AuthMethod::PrivateMethods(v) => v,
            AuthMethod::NoAcceptableMethods => NO_ACCEPTABLE_METHODS,
        }
    }

    /// Decodes a method byte; every byte names exactly one method.
    pub fn from_u8(value: u8) -> (r: AuthMethod)
        ensures
            r == method_of_byte(value),
            r.well_formed(),
    {
        if value == NO_AUTH_REQUIRED {
            AuthMethod::NoAuthRequired
        } else if value == GSSAPI {
            AuthMethod::Gssapi
        } else if value == USERNAME_PASSWORD {
            AuthMethod::UsernamePassword
        } else if value <= IANA_ASSIGNED_UPPER {
            AuthMethod::IanaAssigned(value)
        } else if value <= PRIVATE_METHOD_UPPER {
            AuthMethod::PrivateMethods(value)
        } else {
            AuthMethod::NoAcceptableMethods
        }
    }

    /// Encodes the method as its byte.
    pub fn to_u8(self) -> (r: u8)
        ensures
            r == self.spec_to_u8(),
    {
        match self {
            AuthMethod::NoAuthRequired => NO_AUTH_REQUIRED,
            AuthMethod::Gssapi => GSSAPI,
            AuthMethod::UsernamePassword => USERNAME_PASSWORD,
            AuthMethod::IanaAssigned(v) => v,
            AuthMethod::PrivateMethods(v) => v,
            AuthMethod::NoAcceptableMethods => NO_ACCEPTABLE_METHODS,
        }
    }
}

/// Decoding a byte and encoding the method again gives the byte back, for
/// every byte (including `0xFF`, which names `NoAcceptableMethods`).
pub proof fn lemma_method_byte_round_trip(b: u8)
    ensures
        method_of_byte(b).spec_to_u8() == b,
{
}

/// Encoding a well-formed method and decoding the byte gives the method back.
pub proof fn lemma_method_value_round_trip(m: AuthMethod)
    requires
        m.well_formed(),
    ensures
        method_of_byte(m.spec_to_u8()) == m,
{
}

} // verus!
