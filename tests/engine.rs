use gerevs::auth::{auth_status_reply, parse_user};
use gerevs::engine::{parse_greeting, reply, relay_outcome};
use gerevs::{
    simple_user_authenticator, Addr, AuthMethod, BindDenier, AssociateDenier, Command,
    ConnectDenier, Engine, GreetingStep, IoErrorKind, NoAuthAuthenticator, Parsed, Phase, Reply,
    SingleUserValidator, Socks5Error, SocksSocketAddr, User, UsernamePasswordAuthenticator,
};

fn user_pass() -> UsernamePasswordAuthenticator<SingleUserValidator> {
    UsernamePasswordAuthenticator::new(SingleUserValidator::new("admin".to_string(), "password".to_string()))
}

#[test]
fn no_auth_connect_ipv4() {
    let mut e = Engine::new();
    let step = e.receive_greeting(&NoAuthAuthenticator, &[5, 1, 0]);
    assert_eq!(
        step,
        GreetingStep::Reply { bytes: vec![5, 0], consumed: 3, method: AuthMethod::NoAuthRequired }
    );
    assert_eq!(e.phase(), Phase::Authenticating(AuthMethod::NoAuthRequired));
    e.authenticated(true);
    assert_eq!(e.phase(), Phase::Requesting);
    let req = match e.receive_request(&[5, 1, 0, 1, 0x7F, 0, 0, 1, 0, 0x50]) {
        Parsed::Done(req, 10) => req,
        other => panic!("unexpected {:?}", other),
    };
    assert_eq!(req.command, Command::Connect);
    let dst = SocksSocketAddr { port: 80, addr: Addr::Ipv4([127, 0, 0, 1]) };
    assert_eq!(req.destination, dst);
    assert_eq!(e.phase(), Phase::Dispatching(Command::Connect));
    let step = e.handler_result(&Ok(req.destination.clone()));
    assert_eq!(step.bytes, vec![5, 0, 0, 1, 0x7F, 0, 0, 1, 0, 0x50]);
    assert_eq!(step.outcome, Ok(()));
    assert_eq!(e.phase(), Phase::Relaying);
    assert_eq!(e.finished(relay_outcome(Ok(()))), Ok(()));
    assert_eq!(e.phase(), Phase::Closed);
}

#[test]
fn no_acceptable_methods() {
    let mut e = Engine::new();
    let step = e.receive_greeting(&NoAuthAuthenticator, &[5, 1, 2]);
    assert_eq!(
        step,
        GreetingStep::Reply {
            bytes: vec![5, 0xFF],
            consumed: 3,
            method: AuthMethod::NoAcceptableMethods
        }
    );
    assert_eq!(e.phase(), Phase::Closed);
}

#[test]
fn user_pass_accept() {
    let auth = user_pass();
    let mut e = Engine::new();
    let step = e.receive_greeting(&auth, &[5, 2, 0, 2]);
    assert_eq!(
        step,
        GreetingStep::Reply { bytes: vec![5, 2], consumed: 4, method: AuthMethod::UsernamePassword }
    );
    let mut msg = vec![1, 5];
    msg.extend_from_slice(b"admin");
    msg.push(8);
    msg.extend_from_slice(b"password");
    let user = match parse_user(&msg) {
        Parsed::Done(u, n) => {
            assert_eq!(n, msg.len());
            u
        }
        other => panic!("unexpected {:?}", other),
    };
    assert_eq!(user, User { username: "admin".to_string(), password: "password".to_string() });
    let verdict = auth.user_authenticator.validate_user(&user);
    assert!(verdict);
    assert_eq!(auth_status_reply(verdict), vec![1, 0]);
    e.authenticated(verdict);
    assert_eq!(e.phase(), Phase::Requesting);
}

#[test]
fn user_pass_reject() {
    let auth = user_pass();
    let mut e = Engine::new();
    e.receive_greeting(&auth, &[5, 2, 0, 2]);
    let mut msg = vec![1, 5];
    msg.extend_from_slice(b"admin");
    msg.push(5);
    msg.extend_from_slice(b"wrong");
    let user = match parse_user(&msg) {
        Parsed::Done(u, _) => u,
        other => panic!("unexpected {:?}", other),
    };
    let verdict = auth.user_authenticator.validate_user(&user);
    assert!(!verdict);
    assert_eq!(auth_status_reply(verdict), vec![1, 1]);
    e.authenticated(verdict);
    assert_eq!(e.phase(), Phase::Closed);
}

#[test]
fn connect_command_denied() {
    let mut e = Engine::new();
    e.receive_greeting(&NoAuthAuthenticator, &[5, 1, 0]);
    e.authenticated(true);
    let req = match e.receive_request(&[5, 2, 0, 1, 10, 0, 0, 1, 0x1F, 0x90]) {
        Parsed::Done(req, _) => req,
        other => panic!("unexpected {:?}", other),
    };
    assert_eq!(req.command, Command::Bind);
    let refused = BindDenier.bind(&req.destination).map(|_| SocksSocketAddr::zero());
    let step = e.handler_result(&refused);
    assert_eq!(step.bytes, vec![5, 7, 0, 1, 0, 0, 0, 0, 0, 0]);
    assert_eq!(step.outcome, Err(Reply::CommandNotSupported));
    assert_eq!(e.phase(), Phase::Closed);
}

#[test]
fn deniers_refuse() {
    let dst = SocksSocketAddr::zero();
    let denied = Err(Socks5Error::Socks5Error(Reply::CommandNotSupported));
    assert_eq!(ConnectDenier.establish_connection(&dst), denied);
    assert_eq!(BindDenier.bind(&dst), denied);
    assert_eq!(AssociateDenier.bind(), denied);
}

#[test]
fn bad_greetings_close_silently() {
    for g in [&[4u8, 1, 0][..], &[5, 0], &[0x04]] {
        let mut e = Engine::new();
        assert_eq!(e.receive_greeting(&NoAuthAuthenticator, g), GreetingStep::Close);
        assert_eq!(e.phase(), Phase::Closed);
    }
}

#[test]
fn partial_greeting_waits() {
    let mut e = Engine::new();
    assert_eq!(e.receive_greeting(&NoAuthAuthenticator, &[5, 2, 0]), GreetingStep::NeedMore);
    assert_eq!(e.phase(), Phase::Greeting);
    assert_eq!(e.receive_greeting(&NoAuthAuthenticator, &[]), GreetingStep::NeedMore);
}

#[test]
fn greeting_methods_decoded() {
    assert_eq!(
        parse_greeting(&[5, 3, 0, 0x42, 0x99, 7]),
        Parsed::Done(
            vec![AuthMethod::NoAuthRequired, AuthMethod::IanaAssigned(0x42), AuthMethod::PrivateMethods(0x99)],
            5
        )
    );
}

fn requesting() -> Engine {
    let mut e = Engine::new();
    e.receive_greeting(&NoAuthAuthenticator, &[5, 1, 0]);
    e.authenticated(true);
    e
}

#[test]
fn bad_requests_close_silently() {
    let bad: [&[u8]; 4] = [
        &[5, 1, 1, 1, 127, 0, 0, 1, 0, 80],
        &[5, 9, 0, 1, 127, 0, 0, 1, 0, 80],
        &[5, 1, 0, 2, 127, 0, 0, 1, 0, 80],
        &[4, 1, 0, 1, 127, 0, 0, 1, 0, 80],
    ];
    for b in bad {
        let mut e = requesting();
        assert_eq!(e.receive_request(b), Parsed::Invalid);
        assert_eq!(e.phase(), Phase::Closed);
    }
}

#[test]
fn partial_request_waits() {
    let mut e = requesting();
    assert_eq!(e.receive_request(&[5, 1, 0, 3, 4, b'a']), Parsed::Incomplete);
    assert_eq!(e.phase(), Phase::Requesting);
}

#[test]
fn bind_two_replies() {
    let mut e = requesting();
    match e.receive_request(&[5, 2, 0, 1, 0, 0, 0, 0, 0, 0]) {
        Parsed::Done(_, _) => {}
        other => panic!("unexpected {:?}", other),
    }
    let listener = SocksSocketAddr { port: 4000, addr: Addr::Ipv4([192, 168, 1, 1]) };
    let step = e.handler_result(&Ok(listener));
    assert_eq!(step.bytes, vec![5, 0, 0, 1, 192, 168, 1, 1, 0x0F, 0xA0]);
    assert_eq!(e.phase(), Phase::Accepting);
    let peer = SocksSocketAddr { port: 5000, addr: Addr::Ipv4([10, 1, 1, 1]) };
    let step = e.handler_result(&Ok(peer));
    assert_eq!(step.bytes, vec![5, 0, 0, 1, 10, 1, 1, 1, 0x13, 0x88]);
    assert_eq!(e.phase(), Phase::Relaying);
}

#[test]
fn io_failure_reply() {
    let mut e = requesting();
    e.receive_request(&[5, 1, 0, 1, 1, 2, 3, 4, 0, 80]);
    let step = e.handler_result(&Err(Socks5Error::IoError(IoErrorKind::ConnectionRefused)));
    assert_eq!(step.bytes, vec![5, 5, 0, 1, 0, 0, 0, 0, 0, 0]);
    assert_eq!(step.outcome, Err(Reply::ConnectionRefused));
}

#[test]
fn relay_outcomes() {
    assert_eq!(relay_outcome(Err(IoErrorKind::NotConnected)), Ok(()));
    assert_eq!(
        relay_outcome(Err(IoErrorKind::BrokenPipe)),
        Err(Socks5Error::IoError(IoErrorKind::BrokenPipe))
    );
}

#[test]
fn reply_frame_with_domain() {
    let a = SocksSocketAddr { port: 80, addr: Addr::Domain("ab".to_string()) };
    assert_eq!(reply(Reply::Success, &a), vec![5, 0, 0, 3, 2, b'a', b'b', 0, 80]);
}

#[test]
fn credentials_rejections() {
    assert_eq!(parse_user(&[2, 1, b'a', 1, b'b']), Parsed::Invalid);
    assert_eq!(parse_user(&[1, 0, 1, b'b']), Parsed::Invalid);
    assert_eq!(parse_user(&[1, 1, b'a', 0]), Parsed::Invalid);
    assert_eq!(parse_user(&[1, 1, 0xFF, 1, b'b']), Parsed::Invalid);
    assert_eq!(parse_user(&[1, 1, b'a', 1, 0x80]), Parsed::Invalid);
    assert_eq!(parse_user(&[1, 1, b'a', 2, b'b']), Parsed::Incomplete);
}

#[test]
fn simple_user_credentials() {
    let a = simple_user_authenticator();
    let ok = User { username: "itamar".to_string(), password: "schwartz".to_string() };
    let bad = User { username: "itamar".to_string(), password: "password".to_string() };
    assert!(a.user_authenticator.validate_user(&ok));
    assert!(!a.user_authenticator.validate_user(&bad));
}

#[test]
fn credentials_with_trailing_bytes() {
    let mut msg = vec![1, 5];
    msg.extend_from_slice("jürg".as_bytes());
    msg.push(2);
    msg.extend_from_slice(b"pw");
    msg.extend_from_slice(&[5, 1, 0]);
    assert_eq!(
        parse_user(&msg),
        Parsed::Done(User { username: "jürg".to_string(), password: "pw".to_string() }, 10)
    );
}
