//! SOCKS addresses: the address-type byte, the address body and the port,
//! with their encoding and an incremental decoder.
use vstd::prelude::*;
use vstd::utf8::{
    decode_utf8, decode_utf8_encode_utf8, encode_utf8, encode_utf8_decode_utf8, encode_utf8_valid_utf8,
    valid_utf8,
};
use crate::wire::{append_bytes, copy_range, encode_port, port_bytes, port_of, string_from_utf8, Parsed};

verus! {

/// The address-type byte (`ATYP`) of a SOCKS address.
#[derive(Debug, Clone, Copy, PartialEq, Eq, Structural)]
pub enum AddressType {
    Ipv4,
    DomainName,
    Ipv6,
}

/// The address type that a byte names, if any.
pub open spec fn address_type_of_byte(b: u8) -> Option<AddressType> {
    if b == 0x01 {
        Some(AddressType::Ipv4)
    } else if b == 0x03 {
        Some(AddressType::DomainName)
    } else if b == 0x04 {
        Some(AddressType::Ipv6)
    } else {
        None
    }
}

impl AddressType {
    /// The byte of the address type on the wire.
    pub open spec fn spec_to_u8(self) -> u8 {
        match self {
            AddressType::Ipv4 => 0x01,
            AddressType::DomainName => 0x03,
            AddressType::Ipv6 => 0x04,
        }
    }

    /// Decodes an address-type byte; `None` for anything but `1`, `3` and `4`.
    pub fn from_u8(value: u8) -> (r: Option<AddressType>)
        ensures
            r == address_type_of_byte(value),
    {
        match value {
            0x01 => Some(AddressType::Ipv4),
            0x03 => Some(AddressType::DomainName),
            0x04 => Some(AddressType::Ipv6),
            _ => None,
        }
    }

    /// Encodes the address type as its byte.
    pub fn to_u8(&self) -> (r: u8)
        ensures
            r == self.spec_to_u8(),
            address_type_of_byte(r) == Some(*self),
    {
        match self {
            AddressType::Ipv4 => 0x01,
            AddressType::DomainName => 0x03,
            AddressType::Ipv6 => 0x04,
        }
    }
}

/// The host part of a SOCKS address.
#[derive(Debug, Clone, PartialEq, Eq)]
pub enum Addr {
    /// Four octets of an IPv4 address.
    Ipv4([u8; 4]),
    /// Sixteen octets of an IPv6 address.
    Ipv6([u8; 16]),
    /// A host name, sent as its UTF-8 bytes.
    Domain(String),
}

/// What a host address is: the octets of an IP address, or the characters of a name.
pub enum AddrView {
    Ipv4(Seq<u8>),
    Ipv6(Seq<u8>),
    Domain(Seq<char>),
}

/// What a SOCKS address is: a host and a port.
pub struct SocksAddrView {
    pub addr: AddrView,
    pub port: u16,
}

impl View for Addr {
    type V = AddrView;

    open spec fn view(&self) -> AddrView {
        match self {
            Addr::Ipv4(o) => AddrView::Ipv4(o@),
            Addr::Ipv6(o) => AddrView::Ipv6(o@),
            Addr::Domain(s) => AddrView::Domain(s@),
        }
    }
}

impl AddrView {
    /// An IP address has its full count of octets; a name takes 1 to 255 bytes.
    pub open spec fn well_formed(self) -> bool {
        match self {
            AddrView::Ipv4(o) => o.len() == 4,
            AddrView::Ipv6(o) => o.len() == 16,
            AddrView::Domain(s) => 1 <= encode_utf8(s).len() <= 255,
        }
    }

    /// The address-type byte and the address body.
    pub open spec fn bytes(self) -> Seq<u8> {
        match self {
            AddrView::Ipv4(o) => seq![0x01u8] + o,
            AddrView::Ipv6(o) => seq![0x04u8] + o,
            AddrView::Domain(s) => seq![0x03u8, encode_utf8(s).len() as u8] + encode_utf8(s),
        }
    }
}

impl SocksAddrView {
    pub open spec fn well_formed(self) -> bool {
        self.addr.well_formed()
    }

    /// `ATYP`, the address body, then the port in big-endian order.
    pub open spec fn bytes(self) -> Seq<u8> {
        self.addr.bytes() + port_bytes(self.port)
    }
}

/// The SOCKS address at the front of `b`, when it is there whole.
pub open spec fn parse_addr_spec(b: Seq<u8>) -> Parsed<SocksAddrView> {
    if b.len() < 1 {
        Parsed::Incomplete
    } else if b[0] == 0x01 {
        if b.len() < 7 {
            Parsed::Incomplete
        } else {
            Parsed::Done(
                SocksAddrView { addr: AddrView::Ipv4(b.subrange(1, 5)), port: port_of(b[5], b[6]) },
                7,
            )
        }
    } else if b[0] == 0x04 {
        if b.len() < 19 {
            Parsed::Incomplete
        } else {
            Parsed::Done(
                SocksAddrView {
                    addr: AddrView::Ipv6(b.subrange(1, 17)),
                    port: port_of(b[17], b[18]),
                },
                19,
            )
        }
    } else if b[0] == 0x03 {
        if b.len() < 2 {
            Parsed::Incomplete
        } else if b[1] == 0 {
            Parsed::Invalid
        } else if b.len() < 2 + b[1] {
            Parsed::Incomplete
        } else if !valid_utf8(b.subrange(2, 2 + b[1])) {
            Parsed::Invalid
        } else if b.len() < 4 + b[1] {
            Parsed::Incomplete
        } else {
            Parsed::Done(
                SocksAddrView {
                    addr: AddrView::Domain(decode_utf8(b.subrange(2, 2 + b[1]))),
                    port: port_of(b[2 + b[1]], b[3 + b[1]]),
                },
                (4 + b[1]) as usize,
            )
        }
    } else {
        Parsed::Invalid
    }
}

/// The all-zero IPv4 address with port 0.
pub open spec fn zero_addr() -> SocksAddrView {
    SocksAddrView { addr: AddrView::Ipv4(seq![0u8, 0, 0, 0]), port: 0 }
}

/// A host address and a port, as they stand in requests, replies and UDP headers.
#[derive(Debug, Clone, PartialEq, Eq)]
pub struct SocksSocketAddr {
    pub port: u16,
    pub addr: Addr,
}

impl View for SocksSocketAddr {
    type V = SocksAddrView;

    open spec fn view(&self) -> SocksAddrView {
        SocksAddrView { addr: self.addr@, port: self.port }
    }
}

impl Default for SocksSocketAddr {
    /// The all-zero IPv4 address with port 0.
    fn default() -> (r: SocksSocketAddr)
        ensures
            r@ == zero_addr(),
    {
        SocksSocketAddr::zero()
    }
}

impl Addr {
    /// The address-type byte that goes with the address.
    pub fn addr_type(&self) -> (r: AddressType)
        ensures
            r.spec_to_u8() == self@.bytes()[0],
    {
        match self {
            Addr::Ipv4(_) => AddressType::Ipv4,
            Addr::Ipv6(_) => AddressType::Ipv6,
            Addr::Domain(_) => AddressType::DomainName,
        }
    }
}

impl SocksSocketAddr {
    pub open spec fn well_formed(&self) -> bool {
        self@.well_formed()
    }

    /// The all-zero IPv4 address with port 0, sent in replies that report a failure.
    pub fn zero() -> (r: SocksSocketAddr)
        ensures
            r@ == zero_addr(),
            r.well_formed(),
    {
        let o: [u8; 4] = [0, 0, 0, 0];
        assert(o@ =~= seq![0u8, 0, 0, 0]);
        SocksSocketAddr { port: 0, addr: Addr::Ipv4(o) }
    }

    /// Encodes the address as `ATYP`, the address body and the big-endian port.
    pub fn to_bytes(&self) -> (r: Vec<u8>)
        requires
            self.well_formed(),
        ensures
            r@ == self@.bytes(),
    {
        let mut bytes: Vec<u8> = Vec::with_capacity(18);
        bytes.push(self.addr.addr_type().to_u8());
        match &self.addr {
            Addr::Ipv4(o) => append_bytes(&mut bytes, o),
            Addr::Ipv6(o) => append_bytes(&mut bytes, o),
            Addr::Domain(d) => {
                let body = d.as_str().as_bytes();
                bytes.push(body.len() as u8);
                append_bytes(&mut bytes, body);
            },
        }
        let port = encode_port(self.port);
        append_bytes(&mut bytes, &port);
        proof {
            match self@.addr {
                AddrView::Ipv4(o) => assert(bytes@ =~= self@.bytes()),
                AddrView::Ipv6(o) => assert(bytes@ =~= self@.bytes()),
                AddrView::Domain(s) => assert(bytes@ =~= self@.bytes()),
            }
        }
        bytes
    }

    /// Decodes the SOCKS address at the front of `buf`. An unknown address
    /// type, an empty name or a name that is not UTF-8 makes it `Invalid`.
    pub fn parse(buf: &[u8]) -> (r: Parsed<SocksSocketAddr>)
        ensures
            r@ == parse_addr_spec(buf@),
            r matches Parsed::Done(a, n) ==> a.well_formed() && n <= buf@.len(),
    {
        if buf.len() < 1 {
            return Parsed::Incomplete;
        }
        let atyp = AddressType::from_u8(buf[0]);
        match atyp {
            None => Parsed::Invalid,
            Some(AddressType::Ipv4) => {
                if buf.len() < 7 {
                    return Parsed::Incomplete;
                }
                let o: [u8; 4] = [buf[1], buf[2], buf[3], buf[4]];
                assert(o@ =~= buf@.subrange(1, 5));
                let port = buf[5] as u16 * 256 + buf[6] as u16;
                Parsed::Done(SocksSocketAddr { port, addr: Addr::Ipv4(o) }, 7)
            },
            Some(AddressType::Ipv6) => {
                if buf.len() < 19 {
                    return Parsed::Incomplete;
                }
                let o: [u8; 16] = [
                    buf[1], buf[2], buf[3], buf[4], buf[5], buf[6], buf[7], buf[8],
                    buf[9], buf[10], buf[11], buf[12], buf[13], buf[14], buf[15], buf[16],
                ];
                assert(o@ =~= buf@.subrange(1, 17));
                let port = buf[17] as u16 * 256 + buf[18] as u16;
                Parsed::Done(SocksSocketAddr { port, addr: Addr::Ipv6(o) }, 19)
            },
            Some(AddressType::DomainName) => {
                if buf.len() < 2 {
                    return Parsed::Incomplete;
                }
                let n = buf[1] as usize;
                if n == 0 {
                    return Parsed::Invalid;
                }
                if buf.len() < 2 + n {
                    return Parsed::Incomplete;
                }
                let name = copy_range(buf, 2, 2 + n);
                let ghost name_view = name@;
                match string_from_utf8(name) {
                    None => Parsed::Invalid,
                    Some(domain) => {
                        if buf.len() < 4 + n {
                            return Parsed::Incomplete;
                        }
                        proof {
                            decode_utf8_encode_utf8(name_view);
                        }
                        let port = buf[2 + n] as u16 * 256 + buf[3 + n] as u16;
                        Parsed::Done(SocksSocketAddr { port, addr: Addr::Domain(domain) }, 4 + n)
                    },
                }
            },
        }
    }
}

/// Decoding the encoding of a well-formed address, whatever follows it,
/// gives back the address and the length of its encoding.
pub proof fn lemma_addr_round_trip(a: SocksAddrView, rest: Seq<u8>)
    requires
        a.well_formed(),
    ensures
        parse_addr_spec(a.bytes() + rest) == Parsed::Done(a, a.bytes().len() as usize),
{
    let b = a.bytes() + rest;
    let pb = port_bytes(a.port);
    crate::wire::lemma_port_round_trip(a.port);
    match a.addr {
        AddrView::Ipv4(o) => {
            assert(b.subrange(1, 5) =~= o);
            assert(b[5] == pb[0] && b[6] == pb[1]);
        },
        AddrView::Ipv6(o) => {
            assert(b.subrange(1, 17) =~= o);
            assert(b[17] == pb[0] && b[18] == pb[1]);
        },
        AddrView::Domain(s) => {
            let e = encode_utf8(s);
            let n = e.len() as int;
            assert(b[1] == n as u8);
            assert(b.subrange(2, 2 + n) =~= e);
            encode_utf8_valid_utf8(s);
            encode_utf8_decode_utf8(s);
            assert(b[2 + n] == pb[0] && b[3 + n] == pb[1]);
        },
    }
}

/// An IP address.
#[derive(Debug, Clone, Copy)]
pub enum IpAddress {
    V4([u8; 4]),
    V6([u8; 16]),
}

/// A resolved socket address: an IP address and a port.
#[derive(Debug, Clone, Copy)]
pub struct NetAddr {
    pub ip: IpAddress,
    pub port: u16,
}

impl View for IpAddress {
    type V = AddrView;

    open spec fn view(&self) -> AddrView {
        match self {
            IpAddress::V4(o) => AddrView::Ipv4(o@),
            IpAddress::V6(o) => AddrView::Ipv6(o@),
        }
    }
}

impl View for NetAddr {
    type V = SocksAddrView;

    open spec fn view(&self) -> SocksAddrView {
        SocksAddrView { addr: self.ip@, port: self.port }
    }
}

fn same_octets(a: &[u8], b: &[u8]) -> (r: bool)
    ensures
        r == (a@ == b@),
{
    if a.len() != b.len() {
        return false;
    }
    let mut i: usize = 0;
    while i < a.len()
        invariant
            a@.len() == b@.len(),
            i <= a@.len(),
            forall|j: int| 0 <= j < i ==> a@[j] == b@[j],
        decreases a@.len() - i,
    {
        if a[i] != b[i] {
            return false;
        }
        i = i + 1;
    }
    assert(a@ =~= b@);
    true
}

impl PartialEq for IpAddress {
    fn eq(&self, other: &IpAddress) -> (r: bool) {
        match (self, other) {
            (IpAddress::V4(a), IpAddress::V4(b)) => same_octets(a, b),
            (IpAddress::V6(a), IpAddress::V6(b)) => same_octets(a, b),
            _ => false,
        }
    }
}

impl vstd::std_specs::cmp::PartialEqSpecImpl for IpAddress {
    open spec fn obeys_eq_spec() -> bool {
        true
    }

    open spec fn eq_spec(&self, other: &IpAddress) -> bool {
        self@ == other@
    }
}

impl Eq for IpAddress {
}

impl PartialEq for NetAddr {
    fn eq(&self, other: &NetAddr) -> (r: bool) {
        self.port == other.port && self.ip == other.ip
    }
}

impl vstd::std_specs::cmp::PartialEqSpecImpl for NetAddr {
    open spec fn obeys_eq_spec() -> bool {
        true
    }

    open spec fn eq_spec(&self, other: &NetAddr) -> bool {
        self@ == other@
    }
}

impl Eq for NetAddr {
}

impl SocksSocketAddr {
    /// The SOCKS form of a resolved socket address.
    pub fn from_net_addr(a: NetAddr) -> (r: SocksSocketAddr)
        ensures
            r@ == a@,
            r.well_formed(),
    {
        match a.ip {
            IpAddress::V4(o) => SocksSocketAddr { port: a.port, addr: Addr::Ipv4(o) },
            IpAddress::V6(o) => SocksSocketAddr { port: a.port, addr: Addr::Ipv6(o) },
        }
    }

    /// The socket address that an IP address stands for; `None` for a host
    /// name, which only a resolver can turn into addresses.
    pub fn to_net_addr(&self) -> (r: Option<NetAddr>)
        ensures
            r matches Some(n) ==> n@ == self@,
            r is None <==> self@.addr is Domain,
    {
        match &self.addr {
            Addr::Ipv4(o) => Some(NetAddr { ip: IpAddress::V4(*o), port: self.port }),
            Addr::Ipv6(o) => Some(NetAddr { ip: IpAddress::V6(*o), port: self.port }),
            Addr::Domain(_) => None,
        }
    }
}

} // verus!
