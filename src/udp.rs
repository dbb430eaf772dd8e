//! The header that SOCKS5 puts in front of each relayed UDP datagram:
//! two reserved zero bytes, a fragment number and the destination address.
use vstd::prelude::*;
use crate::addr::{lemma_addr_round_trip, parse_addr_spec, SocksAddrView, SocksSocketAddr};
use crate::wire::{append_bytes, copy_range, Parsed};

verus! {

/// A datagram with its SOCKS UDP header taken apart.
#[derive(Debug, Clone, PartialEq, Eq)]
pub struct UdpMessage {
    pub fragment_number: u8,
    pub dst: SocksSocketAddr,
    pub data: Vec<u8>,
}

/// What a datagram is: its fragment number, address and payload.
pub struct UdpMessageView {
    pub fragment_number: u8,
    pub dst: SocksAddrView,
    pub data: Seq<u8>,
}

impl View for UdpMessage {
    type V = UdpMessageView;

    open spec fn view(&self) -> UdpMessageView {
        UdpMessageView { fragment_number: self.fragment_number, dst: self.dst@, data: self.data@ }
    }
}

/// The bytes of a datagram with a SOCKS UDP header.
pub open spec fn udp_bytes(m: UdpMessageView) -> Seq<u8> {
    seq![0u8, 0u8, m.fragment_number] + m.dst.bytes() + m.data
}

/// The datagram that `b` holds, if its header is valid.
pub open spec fn parse_udp_spec(b: Seq<u8>) -> Option<UdpMessageView> {
    if b.len() < 3 || b[0] != 0 || b[1] != 0 {
        None
    } else {
        match parse_addr_spec(b.subrange(3, b.len() as int)) {
            Parsed::Done(a, n) => Some(
                UdpMessageView {
                    fragment_number: b[2],
                    dst: a,
                    data: b.subrange(3 + n, b.len() as int),
                },
            ),
            _ => None,
        }
    }
}

impl UdpMessage {
    /// The header followed by the payload.
    pub fn as_bytes(&self) -> (r: Vec<u8>)
        requires
            self.dst.well_formed(),
        ensures
            r@ == udp_bytes(self@),
    {
        let mut res: Vec<u8> = Vec::with_capacity(3);
        res.push(0);
        res.push(0);
        res.push(self.fragment_number);
        let dst = self.dst.to_bytes();
        append_bytes(&mut res, dst.as_slice());
        append_bytes(&mut res, self.data.as_slice());
        assert(res@ =~= udp_bytes(self@));
        res
    }

    /// Takes a datagram apart. `None` when the reserved bytes are not zero or
    /// the address does not decode in full.
    pub fn parse(buf: &[u8]) -> (r: Option<UdpMessage>)
        ensures
            r matches Some(m) ==> parse_udp_spec(buf@) == Some(m@) && m.dst.well_formed(),
            r is None ==> parse_udp_spec(buf@) is None,
    {
        if buf.len() < 3 || buf[0] != 0 || buf[1] != 0 {
            return None;
        }
        let rest = copy_range(buf, 3, buf.len());
        match SocksSocketAddr::parse(rest.as_slice()) {
            Parsed::Done(dst, n) => {
                let data = copy_range(buf, 3 + n, buf.len());
                assert(data@ =~= buf@.subrange(3 + n, buf@.len() as int));
                Some(UdpMessage { fragment_number: buf[2], dst, data })
            },
            _ => None,
        }
    }
}

/// Taking apart a datagram that was put together from a well-formed address
/// gives back the fragment number, the address and the payload.
pub proof fn lemma_udp_round_trip(m: UdpMessageView)
    requires
        m.dst.well_formed(),
    ensures
        parse_udp_spec(udp_bytes(m)) == Some(m),
{
    let b = udp_bytes(m);
    assert(b.subrange(3, b.len() as int) =~= m.dst.bytes() + m.data);
    lemma_addr_round_trip(m.dst, m.data);
    let n = m.dst.bytes().len() as int;
    assert(b.subrange(3 + n, b.len() as int) =~= m.data);
}

} // verus!
