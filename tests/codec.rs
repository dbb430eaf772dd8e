use gerevs::{
    Addr, AddressType, AuthMethod, Command, IoErrorKind, NetAddr, IpAddress, Parsed, Reply,
    Socks5Error, SocksSocketAddr, UdpMessage,
};

#[test]
fn auth_method_bytes_round_trip() {
    for b in 0u16..=0xFE {
        let b = b as u8;
        assert_eq!(AuthMethod::from_u8(b).to_u8(), b);
    }
    assert_eq!(AuthMethod::from_u8(0xFF), AuthMethod::NoAcceptableMethods);
    assert_eq!(AuthMethod::NoAcceptableMethods.to_u8(), 0xFF);
}

#[test]
fn auth_method_ranges() {
    assert_eq!(AuthMethod::from_u8(0x00), AuthMethod::NoAuthRequired);
    assert_eq!(AuthMethod::from_u8(0x01), AuthMethod::Gssapi);
    assert_eq!(AuthMethod::from_u8(0x02), AuthMethod::UsernamePassword);
    assert_eq!(AuthMethod::from_u8(0x03), AuthMethod::IanaAssigned(0x03));
    assert_eq!(AuthMethod::from_u8(0x7F), AuthMethod::IanaAssigned(0x7F));
    assert_eq!(AuthMethod::from_u8(0x80), AuthMethod::PrivateMethods(0x80));
    assert_eq!(AuthMethod::from_u8(0xFE), AuthMethod::PrivateMethods(0xFE));
}

#[test]
fn command_codes() {
    assert_eq!(Command::from_u8(1), Some(Command::Connect));
    assert_eq!(Command::from_u8(2), Some(Command::Bind));
    assert_eq!(Command::from_u8(3), Some(Command::UdpAssociate));
    assert_eq!(Command::from_u8(0), None);
    assert_eq!(Command::from_u8(4), None);
    assert_eq!(Command::UdpAssociate.to_u8(), 3);
}

#[test]
fn address_type_codes() {
    assert_eq!(AddressType::from_u8(1), Some(AddressType::Ipv4));
    assert_eq!(AddressType::from_u8(3), Some(AddressType::DomainName));
    assert_eq!(AddressType::from_u8(4), Some(AddressType::Ipv6));
    assert_eq!(AddressType::from_u8(2), None);
    assert_eq!(AddressType::Ipv6.to_u8(), 4);
}

#[test]
fn reply_codes_round_trip() {
    let all = [
        Reply::Success,
        Reply::GeneralFailure,
        Reply::ConnectionNotAllowedByRuleset,
        Reply::NetworkUnreachable,
        Reply::HostUnreachable,
        Reply::ConnectionRefused,
        Reply::TTLExpired,
        Reply::CommandNotSupported,
        Reply::AddressTypeNotSupported,
    ];
    for (i, r) in all.iter().enumerate() {
        assert_eq!(r.to_u8(), i as u8);
        assert_eq!(Reply::from_u8(r.to_u8()), Some(*r));
    }
    assert_eq!(Reply::from_u8(9), Some(Reply::GeneralFailure));
    assert_eq!(Reply::from_u8(0x80), Some(Reply::GeneralFailure));
    assert_eq!(Reply::from_u8(0xFF), Some(Reply::GeneralFailure));
}

#[test]
fn reply_descriptions() {
    assert_eq!(Reply::TTLExpired.description(), "TTL Expired");
    assert_eq!(Reply::ConnectionNotAllowedByRuleset.description(), "Connection Not Allowed By Ruleset");
}

#[test]
fn error_kind_table() {
    let table = [
        (IoErrorKind::ConnectionRefused, Reply::ConnectionRefused),
        (IoErrorKind::ConnectionReset, Reply::TTLExpired),
        (IoErrorKind::ConnectionAborted, Reply::TTLExpired),
        (IoErrorKind::BrokenPipe, Reply::TTLExpired),
        (IoErrorKind::TimedOut, Reply::TTLExpired),
        (IoErrorKind::NotConnected, Reply::NetworkUnreachable),
        (IoErrorKind::AddrNotAvailable, Reply::AddressTypeNotSupported),
        (IoErrorKind::PermissionDenied, Reply::ConnectionNotAllowedByRuleset),
        (IoErrorKind::Unsupported, Reply::CommandNotSupported),
        (IoErrorKind::NotFound, Reply::HostUnreachable),
        (IoErrorKind::AddrInUse, Reply::HostUnreachable),
        (IoErrorKind::InvalidInput, Reply::HostUnreachable),
        (IoErrorKind::InvalidData, Reply::HostUnreachable),
        (IoErrorKind::WriteZero, Reply::HostUnreachable),
        (IoErrorKind::Interrupted, Reply::HostUnreachable),
        (IoErrorKind::UnexpectedEof, Reply::HostUnreachable),
        (IoErrorKind::AlreadyExists, Reply::HostUnreachable),
        (IoErrorKind::WouldBlock, Reply::HostUnreachable),
        (IoErrorKind::Other, Reply::GeneralFailure),
    ];
    for (k, r) in table {
        assert_eq!(Reply::from_error_kind(k), r);
    }
    assert_eq!(Reply::from_io_result::<u8>(&Ok(3)), Reply::Success);
    assert_eq!(Reply::from_io_result::<u8>(&Err(IoErrorKind::TimedOut)), Reply::TTLExpired);
}

#[test]
fn error_to_reply() {
    assert_eq!(Socks5Error::Socks5Error(Reply::CommandNotSupported).to_reply(), Reply::CommandNotSupported);
    assert_eq!(Socks5Error::IoError(IoErrorKind::ConnectionRefused).to_reply(), Reply::ConnectionRefused);
    let r: Reply = Socks5Error::IoError(IoErrorKind::Other).into();
    assert_eq!(r, Reply::GeneralFailure);
}

fn v4(a: [u8; 4], port: u16) -> SocksSocketAddr {
    SocksSocketAddr { port, addr: Addr::Ipv4(a) }
}

#[test]
fn encode_ipv4_address() {
    assert_eq!(v4([127, 0, 0, 1], 80).to_bytes(), vec![1, 127, 0, 0, 1, 0, 80]);
    assert_eq!(v4([8, 8, 8, 8], 0x1234).to_bytes(), vec![1, 8, 8, 8, 8, 0x12, 0x34]);
}

#[test]
fn encode_domain_address() {
    let a = SocksSocketAddr { port: 443, addr: Addr::Domain("example.com".to_string()) };
    let mut want = vec![3, 11];
    want.extend_from_slice(b"example.com");
    want.extend_from_slice(&[1, 0xBB]);
    assert_eq!(a.to_bytes(), want);
}

#[test]
fn address_round_trips() {
    let mut v6 = [0u8; 16];
    v6[15] = 1;
    let cases = vec![
        v4([127, 0, 0, 1], 80),
        v4([0, 0, 0, 0], 0),
        SocksSocketAddr { port: 65535, addr: Addr::Ipv6(v6) },
        SocksSocketAddr { port: 53, addr: Addr::Domain("dns.example".to_string()) },
        SocksSocketAddr { port: 1, addr: Addr::Domain("héllo".to_string()) },
    ];
    for a in cases {
        let mut bytes = a.to_bytes();
        let n = bytes.len();
        bytes.extend_from_slice(&[9, 9, 9]);
        assert_eq!(SocksSocketAddr::parse(&bytes), Parsed::Done(a.clone(), n));
    }
}

#[test]
fn address_decode_partial_and_invalid() {
    assert_eq!(SocksSocketAddr::parse(&[]), Parsed::Incomplete);
    assert_eq!(SocksSocketAddr::parse(&[1, 127, 0]), Parsed::Incomplete);
    assert_eq!(SocksSocketAddr::parse(&[2, 0, 0, 0, 0, 0, 0]), Parsed::Invalid);
    assert_eq!(SocksSocketAddr::parse(&[3, 0, 0, 80]), Parsed::Invalid);
    assert_eq!(SocksSocketAddr::parse(&[3, 2, 0xC3, 0x28, 0, 80]), Parsed::Invalid);
    assert_eq!(SocksSocketAddr::parse(&[3, 2, b'a', b'b']), Parsed::Incomplete);
    assert_eq!(
        SocksSocketAddr::parse(&[3, 2, b'a', b'b', 0, 80]),
        Parsed::Done(SocksSocketAddr { port: 80, addr: Addr::Domain("ab".to_string()) }, 6)
    );
}

#[test]
fn zero_address_bytes() {
    assert_eq!(SocksSocketAddr::zero().to_bytes(), vec![1, 0, 0, 0, 0, 0, 0]);
}

#[test]
fn net_addr_conversions() {
    let n = NetAddr { ip: IpAddress::V4([10, 0, 0, 2]), port: 8080 };
    let s = SocksSocketAddr::from_net_addr(n);
    assert_eq!(s, v4([10, 0, 0, 2], 8080));
    assert!(s.to_net_addr() == Some(n));
    let d = SocksSocketAddr { port: 1, addr: Addr::Domain("x".to_string()) };
    assert!(d.to_net_addr().is_none());
    assert_eq!(d.addr.addr_type(), AddressType::DomainName);
}

#[test]
fn udp_header_round_trip() {
    let m = UdpMessage { fragment_number: 0, dst: v4([8, 8, 8, 8], 53), data: b"Q".to_vec() };
    let bytes = m.as_bytes();
    assert_eq!(bytes, vec![0, 0, 0, 1, 8, 8, 8, 8, 0, 53, b'Q']);
    assert_eq!(UdpMessage::parse(&bytes), Some(m));
}

#[test]
fn udp_header_rejections() {
    assert_eq!(UdpMessage::parse(&[0, 1, 0, 1, 8, 8, 8, 8, 0, 53]), None);
    assert_eq!(UdpMessage::parse(&[0, 0]), None);
    assert_eq!(UdpMessage::parse(&[0, 0, 0, 1, 8, 8]), None);
    let m = UdpMessage::parse(&[0, 0, 7, 1, 1, 2, 3, 4, 0, 9]).unwrap();
    assert_eq!(m.fragment_number, 7);
    assert!(m.data.is_empty());
}

#[test]
fn default_address_is_zero() {
    assert_eq!(SocksSocketAddr::default(), SocksSocketAddr::zero());
}
