use gerevs::{addrs_match, control_read, IoErrorKind, IpAddress, NetAddr, RelayAction, Socks5Error, SocksSocketAddr, Addr, UdpRelay};

fn v4(a: [u8; 4], port: u16) -> NetAddr {
    NetAddr { ip: IpAddress::V4(a), port }
}

#[test]
fn udp_associate_round_trip() {
    let mut relay = UdpRelay::new(vec![v4([127, 0, 0, 1], 0)]);
    let client = v4([127, 0, 0, 1], 40000);
    let action = relay.on_datagram(client, &[0, 0, 0, 1, 8, 8, 8, 8, 0, 0x35, b'Q']);
    assert_eq!(
        action,
        RelayAction::ToServer {
            dst: SocksSocketAddr { port: 53, addr: Addr::Ipv4([8, 8, 8, 8]) },
            payload: b"Q".to_vec()
        }
    );
    assert!(relay.verified_client() == Some(client));
    let action = relay.on_datagram(v4([8, 8, 8, 8], 53), b"R");
    match action {
        RelayAction::ToClient { client: c, datagram } => {
            assert!(c == client);
            assert_eq!(datagram, vec![0, 0, 0, 1, 8, 8, 8, 8, 0, 0x35, b'R']);
        }
        other => panic!("unexpected {:?}", other),
    }
    assert_eq!(control_read(Ok(0)), Ok(()));
}

#[test]
fn unknown_sender_before_pinning_dropped() {
    let mut relay = UdpRelay::new(vec![v4([127, 0, 0, 1], 5000)]);
    assert_eq!(relay.on_datagram(v4([9, 9, 9, 9], 5000), b"x"), RelayAction::Drop);
    assert!(relay.verified_client().is_none());
    assert_eq!(relay.on_datagram(v4([127, 0, 0, 1], 5001), b"x"), RelayAction::Drop);
    assert!(relay.verified_client().is_none());
}

#[test]
fn fragments_and_oversize_dropped() {
    let client = v4([127, 0, 0, 1], 7000);
    let mut relay = UdpRelay::new(vec![client]);
    assert_eq!(relay.on_datagram(client, &[0, 0, 1, 1, 8, 8, 8, 8, 0, 53, 1]), RelayAction::Drop);
    assert!(relay.verified_client() == Some(client));
    assert_eq!(relay.on_datagram(client, &[0, 1, 0, 1, 8, 8, 8, 8, 0, 53, 1]), RelayAction::Drop);
    let big = vec![0u8; 4097];
    assert_eq!(relay.on_datagram(v4([1, 1, 1, 1], 1), &big), RelayAction::Drop);
}

#[test]
fn address_match_rule() {
    let src = v4([10, 0, 0, 5], 1234);
    assert!(addrs_match(&[v4([10, 0, 0, 5], 1234)], &src));
    assert!(addrs_match(&[v4([0, 0, 0, 0], 1234)], &src));
    assert!(addrs_match(&[v4([10, 0, 0, 5], 0)], &src));
    assert!(!addrs_match(&[v4([10, 0, 0, 6], 1234)], &src));
    assert!(!addrs_match(&[v4([10, 0, 0, 5], 1235)], &src));
    assert!(!addrs_match(&[], &src));
    let v6 = NetAddr { ip: IpAddress::V6([0; 16]), port: 1234 };
    assert!(!addrs_match(&[v6], &src));
    assert!(addrs_match(&[v4([1, 1, 1, 1], 1), v6, v4([0, 0, 0, 0], 0)], &src));
}

#[test]
fn control_stream_events() {
    assert_eq!(control_read(Ok(1)), Err(Socks5Error::IoError(IoErrorKind::InvalidData)));
    assert_eq!(
        control_read(Err(IoErrorKind::ConnectionReset)),
        Err(Socks5Error::IoError(IoErrorKind::ConnectionReset))
    );
}
