//! The decisions of the UDP ASSOCIATE relay: which datagrams come from the
//! client, where each datagram goes, and what ends the association.
use vstd::prelude::*;
use crate::addr::{AddrView, IpAddress, NetAddr, SocksAddrView, SocksSocketAddr};
use crate::error::Socks5Error;
use crate::reply::IoErrorKind;
use crate::udp::{parse_udp_spec, udp_bytes, UdpMessage, UdpMessageView};

verus! {

/// The largest datagram that is relayed; a longer one is dropped whole.
pub const MAX_DATAGRAM: usize = 4096;

/// Whether every octet is zero (the unspecified address of its family).
pub open spec fn all_zero(o: Seq<u8>) -> bool {
    forall|i: int| 0 <= i < o.len() ==> o[i] == 0
}

/// Whether the advertised address `a` admits datagrams from `s`: the same
/// family, the same IP unless `a`'s IP is unspecified, and the same port
/// unless `a`'s port is 0, which stands for any port.
pub open spec fn admits(a: SocksAddrView, s: SocksAddrView) -> bool {
    &&& (a.port == 0 || a.port == s.port)
    &&& match (a.addr, s.addr) {
        (AddrView::Ipv4(x), AddrView::Ipv4(y)) => all_zero(x) || x == y,
        (AddrView::Ipv6(x), AddrView::Ipv6(y)) => all_zero(x) || x == y,
        _ => false,
    }
}

/// Whether some address of `addrs` admits `s`.
pub open spec fn any_admits(addrs: Seq<SocksAddrView>, s: SocksAddrView) -> bool {
    exists|i: int| 0 <= i < addrs.len() && admits(#[trigger] addrs[i], s)
}

fn all_zero_bytes(o: &[u8]) -> (r: bool)
    ensures
        r == all_zero(o@),
{
    let mut i: usize = 0;
    while i < o.len()
        invariant
            i <= o@.len(),
            forall|j: int| 0 <= j < i ==> o@[j] == 0,
        decreases o@.len() - i,
    {
        if o[i] != 0 {
            return false;
        }
        i = i + 1;
    }
    true
}

fn is_unspecified(ip: &IpAddress) -> (r: bool)
    ensures
        r == match ip@ {
            AddrView::Ipv4(o) => all_zero(o),
            AddrView::Ipv6(o) => all_zero(o),
            _ => false,
        },
{
    match ip {
        IpAddress::V4(o) => all_zero_bytes(o),
        IpAddress::V6(o) => all_zero_bytes(o),
    }
}

/// Whether the advertised address `a` admits datagrams from `source`.
fn admits_one(a: &NetAddr, source: &NetAddr) -> (r: bool)
    ensures
        r == admits(a@, source@),
{
    if a.port != 0 && a.port != source.port {
        return false;
    }
    match (&a.ip, &source.ip) {
        (IpAddress::V4(_), IpAddress::V4(_)) | (IpAddress::V6(_), IpAddress::V6(_)) => {
            is_unspecified(&a.ip) || a.ip == source.ip
        },
        _ => false,
    }
}

/// The views of a list of socket addresses.
pub open spec fn addr_views(addrs: Seq<NetAddr>) -> Seq<SocksAddrView> {
    addrs.map_values(|a: NetAddr| a@)
}

/// Whether `udp_addr` is one of the addresses that the client advertised.
pub fn addrs_match(client_addrs: &[NetAddr], udp_addr: &NetAddr) -> (r: bool)
    ensures
        r == any_admits(addr_views(client_addrs@), udp_addr@),
{
    let ghost views = addr_views(client_addrs@);
    let mut i: usize = 0;
    while i < client_addrs.len()
        invariant
            i <= client_addrs@.len(),
            views == addr_views(client_addrs@),
            forall|j: int| 0 <= j < i ==> !admits(#[trigger] views[j], udp_addr@),
        decreases client_addrs@.len() - i,
    {
        if admits_one(&client_addrs[i], udp_addr) {
            assert(admits(views[i as int], udp_addr@));
            return true;
        }
        i = i + 1;
    }
    false
}

/// Where a datagram goes.
#[derive(Debug, Clone, PartialEq, Eq)]
pub enum RelayAction {
    /// Forward nothing.
    Drop,
    /// From the client: send `payload` to `dst`.
    ToServer { dst: SocksSocketAddr, payload: Vec<u8> },
    /// From a remote host: send `datagram`, the payload behind a header that
    /// names the sender, to the client.
    ToClient { client: NetAddr, datagram: Vec<u8> },
}

/// The state of one UDP association: the addresses that the client may send
/// from, and the client's address once its first datagram has come.
pub struct UdpRelay {
    client_addrs: Vec<NetAddr>,
    verified_client: Option<NetAddr>,
}

/// The client's address after a datagram from `source`, given the
/// advertised addresses and the address found so far.
pub open spec fn pinned_after(
    addrs: Seq<SocksAddrView>,
    verified: Option<SocksAddrView>,
    source: SocksAddrView,
) -> Option<SocksAddrView> {
    if verified is None && any_admits(addrs, source) {
        Some(source)
    } else {
        verified
    }
}

impl UdpRelay {
    /// The addresses that the client may send from.
    pub closed spec fn advertised(&self) -> Seq<SocksAddrView> {
        addr_views(self.client_addrs@)
    }

    /// The client's address, once known.
    pub closed spec fn client(&self) -> Option<SocksAddrView> {
        match self.verified_client {
            Some(c) => Some(c@),
            None => None,
        }
    }

    /// An association whose client may send from any of `client_addrs`;
    /// its address is not known yet.
    pub fn new(client_addrs: Vec<NetAddr>) -> (r: UdpRelay)
        ensures
            r.advertised() == addr_views(client_addrs@),
            r.client() is None,
    {
        UdpRelay { client_addrs, verified_client: None }
    }

    /// The client's address, once a datagram has come from it.
    pub fn verified_client(&self) -> (r: Option<NetAddr>)
        ensures
            r is Some <==> self.client() is Some,
            r matches Some(c) ==> self.client() == Some(c@),
    {
        self.verified_client
    }

    /// Decides where a datagram of `data.len()` bytes from `source` goes.
    /// The first datagram from an advertised address fixes the client.
    /// Datagrams before that, datagrams over `MAX_DATAGRAM` bytes, and the
    /// client's datagrams whose header is broken or has a fragment number
    /// are dropped.
    pub fn on_datagram(&mut self, source: NetAddr, data: &[u8]) -> (r: RelayAction)
        ensures
            final(self).advertised() == old(self).advertised(),
            data@.len() > MAX_DATAGRAM ==> r is Drop && final(self).client() == old(self).client(),
            data@.len() <= MAX_DATAGRAM ==> {
                let pinned = pinned_after(old(self).advertised(), old(self).client(), source@);
                &&& final(self).client() == pinned
                &&& match pinned {
                    None => r is Drop,
                    Some(c) => if c == source@ {
                        match parse_udp_spec(data@) {
                            Some(m) => if m.fragment_number == 0 {
                                r matches RelayAction::ToServer { dst, payload } && dst@ == m.dst
                                    && payload@ == m.data && dst.well_formed()
                            } else {
                                r is Drop
                            },
                            None => r is Drop,
                        }
                    } else {
                        r matches RelayAction::ToClient { client, datagram } && client@ == c
                            && datagram@ == udp_bytes(
                            UdpMessageView { fragment_number: 0, dst: source@, data: data@ },
                        )
                    },
                }
            },
    {
        if data.len() > MAX_DATAGRAM {
            return RelayAction::Drop;
        }
        if self.verified_client.is_none() && addrs_match(self.client_addrs.as_slice(), &source) {
            self.verified_client = Some(source);
        }
        let client = match self.verified_client {
            Some(c) => c,
            None => {
                return RelayAction::Drop;
            },
        };
        if client == source {
            match UdpMessage::parse(data) {
                Some(m) => {
                    if m.fragment_number == 0 {
                        RelayAction::ToServer { dst: m.dst, payload: m.data }
                    } else {
                        RelayAction::Drop
                    }
                },
                None => RelayAction::Drop,
            }
        } else {
            let response = UdpMessage {
                fragment_number: 0,
                dst: SocksSocketAddr::from_net_addr(source),
                data: crate::wire::copy_range(data, 0, data.len()),
            };
            assert(data@.subrange(0, data@.len() as int) =~= data@);
            RelayAction::ToClient { client, datagram: response.as_bytes() }
        }
    }
}

/// What a read of one byte on the control connection means during UDP
/// ASSOCIATE: end of stream ends the association cleanly; any byte is a
/// protocol violation; a read error is passed on.
pub fn control_read(result: Result<usize, IoErrorKind>) -> (r: crate::error::Result<()>)
    ensures
        r == match result {
            Ok(0) => Ok(()),
            Ok(_) => Err(Socks5Error::IoError(IoErrorKind::InvalidData)),
            Err(k) => Err(Socks5Error::IoError(k)),
        },
{
    match result {
        Ok(0) => Ok(()),
        Ok(_) => Err(Socks5Error::IoError(IoErrorKind::InvalidData)),
        Err(k) => Err(Socks5Error::IoError(k)),
    }
}

} // verus!
