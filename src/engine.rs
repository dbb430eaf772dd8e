//! The per-connection state machine: greeting, method selection,
//! sub-negotiation, request, and the replies of the command drivers. The
//! engine does no I/O; each step takes what was received or what a handler
//! returned, and hands back the bytes to write.
use vstd::prelude::*;
use crate::addr::{parse_addr_spec, zero_addr, SocksAddrView, SocksSocketAddr};
use crate::auth::Authenticator;
use crate::command::{command_of_byte, Command};
use crate::error::{reply_for_error, Socks5Error};
use crate::methods::{method_of_byte, AuthMethod};
use crate::reply::{IoErrorKind, Reply};
use crate::wire::{append_bytes, Parsed};
use crate::{RESERVED, VERSION};

verus! {

/// The greeting `VER | NMETHODS | METHODS` at the front of `b`.
pub open spec fn parse_greeting_spec(b: Seq<u8>) -> Parsed<Seq<AuthMethod>> {
    if b.len() < 1 {
        Parsed::Incomplete
    } else if b[0] != VERSION {
        Parsed::Invalid
    } else if b.len() < 2 {
        Parsed::Incomplete
    } else if b[1] == 0 {
        Parsed::Invalid
    } else if b.len() < 2 + b[1] {
        Parsed::Incomplete
    } else {
        Parsed::Done(
            b.subrange(2, 2 + b[1]).map_values(|x: u8| method_of_byte(x)),
            (2 + b[1]) as usize,
        )
    }
}

/// A request: the command and its destination.
#[derive(Debug, Clone, PartialEq, Eq)]
pub struct Request {
    pub command: Command,
    pub destination: SocksSocketAddr,
}

pub struct RequestView {
    pub command: Command,
    pub destination: SocksAddrView,
}

impl View for Request {
    type V = RequestView;

    open spec fn view(&self) -> RequestView {
        RequestView { command: self.command, destination: self.destination@ }
    }
}

/// The request `VER | CMD | RSV | ATYP | DST.ADDR | DST.PORT` at the front of `b`.
pub open spec fn parse_request_spec(b: Seq<u8>) -> Parsed<RequestView> {
    if b.len() < 1 {
        Parsed::Incomplete
    } else if b[0] != VERSION {
        Parsed::Invalid
    } else if b.len() < 2 {
        Parsed::Incomplete
    } else if command_of_byte(b[1]) is None {
        Parsed::Invalid
    } else if b.len() < 3 {
        Parsed::Incomplete
    } else if b[2] != RESERVED {
        Parsed::Invalid
    } else {
        match parse_addr_spec(b.subrange(3, b.len() as int)) {
            Parsed::Incomplete => Parsed::Incomplete,
            Parsed::Invalid => Parsed::Invalid,
            Parsed::Done(a, n) => Parsed::Done(
                RequestView { command: command_of_byte(b[1])->0, destination: a },
                (3 + n) as usize,
            ),
        }
    }
}

/// The reply frame `VER | REP | RSV | BND.ADDR | BND.PORT`.
pub open spec fn reply_frame(rep: Reply, bnd: SocksAddrView) -> Seq<u8> {
    seq![VERSION, rep.spec_to_u8(), RESERVED] + bnd.bytes()
}

/// The method that the engine goes on with: the authenticator's choice when
/// the client offered it, else `NoAcceptableMethods`.
pub open spec fn effective_method(selected: AuthMethod, offered: Seq<AuthMethod>) -> AuthMethod {
    if offered.contains(selected) && selected != AuthMethod::NoAcceptableMethods {
        selected
    } else {
        AuthMethod::NoAcceptableMethods
    }
}

/// Where a connection stands.
#[derive(Debug, Clone, Copy, PartialEq, Eq, Structural)]
pub enum Phase {
    /// Waiting for the client's greeting.
    Greeting,
    /// The method was sent; its sub-negotiation runs on the channel.
    Authenticating(AuthMethod),
    /// Waiting for the client's request.
    Requesting,
    /// The request was read; the command's handler is at work.
    Dispatching(Command),
    /// BIND: the first reply was sent; waiting for the peer to connect.
    Accepting,
    /// The success reply was sent; data flows between the two sides.
    Relaying,
    /// The connection is over.
    Closed,
}

/// What to do after the greeting was fed in.
#[derive(Debug, Clone, PartialEq, Eq)]
pub enum GreetingStep {
    /// The greeting is not whole yet: read more and feed it all in again.
    NeedMore,
    /// The greeting is broken: close without writing anything.
    Close,
    /// Write `bytes` (the method selection) and drop the first `consumed`
    /// bytes of the input; the engine's phase says whether to go on.
    Reply { bytes: Vec<u8>, consumed: usize, method: AuthMethod },
}

/// What to do after a handler of the command returned.
#[derive(Debug, PartialEq, Eq)]
pub struct HandlerStep {
    /// The reply frame to write and flush.
    pub bytes: Vec<u8>,
    /// `Ok` to go on; the reply that was sent when the command failed.
    pub outcome: Result<(), Reply>,
}

/// The protocol engine of one client connection.
pub struct Engine {
    phase: Phase,
}

impl View for Engine {
    type V = Phase;

    closed spec fn view(&self) -> Phase {
        self.phase
    }
}

impl Engine {
    /// A new connection, waiting for the greeting.
    pub fn new() -> (r: Engine)
        ensures
            r@ == Phase::Greeting,
    {
        Engine { phase: Phase::Greeting }
    }

    /// Where the connection stands.
    pub fn phase(&self) -> (r: Phase)
        ensures
            r == self@,
    {
        self.phase
    }

    /// Feeds the bytes received so far in the greeting phase. A complete
    /// greeting is answered with `VER | METHOD`, the method that `auth`
    /// chose when the client offered it, else `0xFF`; after `0xFF` the
    /// connection is closed.
    pub fn receive_greeting<A: Authenticator>(&mut self, auth: &A, buf: &[u8]) -> (r: GreetingStep)
        requires
            old(self)@ == Phase::Greeting,
        ensures
            match parse_greeting_spec(buf@) {
                Parsed::Incomplete => r is NeedMore && final(self)@ == Phase::Greeting,
                Parsed::Invalid => r is Close && final(self)@ == Phase::Closed,
                Parsed::Done(offered, n) => {
                    let m = effective_method(auth.spec_select(offered), offered);
                    &&& r matches GreetingStep::Reply { bytes, consumed, method } && bytes@ == seq![
                        VERSION,
                        m.spec_to_u8(),
                    ] && consumed == n && method == m
                    &&& final(self)@ == if m == AuthMethod::NoAcceptableMethods {
                        Phase::Closed
                    } else {
                        Phase::Authenticating(m)
                    }
                },
            },
            r matches GreetingStep::Reply { bytes, method, .. } ==> (method
                == AuthMethod::NoAcceptableMethods ==> bytes@ == seq![0x05u8, 0xFFu8]
                && final(self)@ == Phase::Closed),
    {
        match parse_greeting(buf) {
            Parsed::Incomplete => GreetingStep::NeedMore,
            Parsed::Invalid => {
                self.phase = Phase::Closed;
                GreetingStep::Close
            },
            Parsed::Done(offered, consumed) => {
                let selected = auth.select_method(offered.as_slice());
                let method = if selected != AuthMethod::NoAcceptableMethods
                    && crate::auth::offers(offered.as_slice(), selected) {
                    selected
                } else {
                    AuthMethod::NoAcceptableMethods
                };
                self.phase = if method == AuthMethod::NoAcceptableMethods {
                    Phase::Closed
                } else {
                    Phase::Authenticating(method)
                };
                let bytes = vec![VERSION, method.to_u8()];
                assert(bytes@ =~= seq![VERSION, method.spec_to_u8()]);
                GreetingStep::Reply { bytes, consumed, method }
            },
        }
    }

    /// Records the verdict of the sub-negotiation: with credentials the
    /// request comes next; without them the connection is closed with no
    /// further reply.
    pub fn authenticated(&mut self, accepted: bool)
        requires
            old(self)@ is Authenticating,
        ensures
            final(self)@ == if accepted {
                Phase::Requesting
            } else {
                Phase::Closed
            },
    {
        self.phase = if accepted {
            Phase::Requesting
        } else {
            Phase::Closed
        };
    }

    /// Feeds the bytes received so far in the request phase. A broken
    /// request closes the connection without a reply.
    pub fn receive_request(&mut self, buf: &[u8]) -> (r: Parsed<Request>)
        requires
            old(self)@ == Phase::Requesting,
        ensures
            r@ == parse_request_spec(buf@),
            match r {
                Parsed::Incomplete => final(self)@ == Phase::Requesting,
                Parsed::Invalid => final(self)@ == Phase::Closed,
                Parsed::Done(req, n) => final(self)@ == Phase::Dispatching(req.command)
                    && req.destination.well_formed() && n <= buf@.len(),
            },
    {
        let r = parse_request(buf);
        match &r {
            Parsed::Incomplete => {},
            Parsed::Invalid => {
                self.phase = Phase::Closed;
            },
            Parsed::Done(req, _) => {
                self.phase = Phase::Dispatching(req.command);
            },
        }
        r
    }

    /// Takes what a handler returned: the address to report (for CONNECT,
    /// the destination; for BIND, the listener's and then the peer's
    /// address; for UDP ASSOCIATE, the relay's address) or the error that
    /// stopped it. On success the reply is `Success` with that address; on
    /// failure it carries the error's reply and the zero address, and the
    /// connection is closed.
    pub fn handler_result(&mut self, result: &crate::error::Result<SocksSocketAddr>) -> (r: HandlerStep)
        requires
            old(self)@ is Dispatching || old(self)@ is Accepting,
            result matches Ok(a) ==> a.well_formed(),
        ensures
            match result {
                Ok(a) => {
                    &&& r.bytes@ == reply_frame(Reply::Success, a@)
                    &&& r.outcome is Ok
                    &&& final(self)@ == if old(self)@ == Phase::Dispatching(Command::Bind) {
                        Phase::Accepting
                    } else {
                        Phase::Relaying
                    }
                },
                Err(e) => {
                    &&& r.bytes@ == reply_frame(reply_for_error(*e), zero_addr())
                    &&& r.outcome == Err::<(), Reply>(reply_for_error(*e))
                    &&& final(self)@ == Phase::Closed
                },
            },
    {
        match result {
            Ok(a) => {
                self.phase = if self.phase == Phase::Dispatching(Command::Bind) {
                    Phase::Accepting
                } else {
                    Phase::Relaying
                };
                HandlerStep { bytes: reply(Reply::Success, a), outcome: Ok(()) }
            },
            Err(e) => {
                self.phase = Phase::Closed;
                let rep = e.to_reply();
                HandlerStep { bytes: reply(rep, &SocksSocketAddr::zero()), outcome: Err(rep) }
            },
        }
    }

    /// Records the end of the data phase, with what ended it.
    pub fn finished(&mut self, result: crate::error::Result<()>) -> (r: crate::error::Result<()>)
        requires
            old(self)@ == Phase::Relaying,
        ensures
            r == result,
            final(self)@ == Phase::Closed,
    {
        self.phase = Phase::Closed;
        result
    }
}

/// Decodes the greeting at the front of `buf`.
pub fn parse_greeting(buf: &[u8]) -> (r: Parsed<Vec<AuthMethod>>)
    ensures
        r@ == parse_greeting_spec(buf@),
{
    if buf.len() < 1 {
        return Parsed::Incomplete;
    }
    if buf[0] != VERSION {
        return Parsed::Invalid;
    }
    if buf.len() < 2 {
        return Parsed::Incomplete;
    }
    let n = buf[1] as usize;
    if n == 0 {
        return Parsed::Invalid;
    }
    if buf.len() < 2 + n {
        return Parsed::Incomplete;
    }
    let mut methods: Vec<AuthMethod> = Vec::with_capacity(n);
    let end = 2 + n;
    let mut i: usize = 2;
    while i < end
        invariant
            2 <= i <= end <= buf@.len(),
            methods@ =~= buf@.subrange(2, i as int).map_values(|x: u8| method_of_byte(x)),
        decreases end - i,
    {
        methods.push(AuthMethod::from_u8(buf[i]));
        i = i + 1;
    }
    Parsed::Done(methods, end)
}

/// Decodes the request at the front of `buf`.
pub fn parse_request(buf: &[u8]) -> (r: Parsed<Request>)
    ensures
        r@ == parse_request_spec(buf@),
        r matches Parsed::Done(req, n) ==> req.destination.well_formed() && n <= buf@.len(),
{
    if buf.len() < 1 {
        return Parsed::Incomplete;
    }
    if buf[0] != VERSION {
        return Parsed::Invalid;
    }
    if buf.len() < 2 {
        return Parsed::Incomplete;
    }
    let command = match Command::from_u8(buf[1]) {
        Some(c) => c,
        None => {
            return Parsed::Invalid;
        },
    };
    if buf.len() < 3 {
        return Parsed::Incomplete;
    }
    if buf[2] != RESERVED {
        return Parsed::Invalid;
    }
    let rest = crate::wire::copy_range(buf, 3, buf.len());
    match SocksSocketAddr::parse(rest.as_slice()) {
        Parsed::Incomplete => Parsed::Incomplete,
        Parsed::Invalid => Parsed::Invalid,
        Parsed::Done(destination, n) => Parsed::Done(Request { command, destination }, 3 + n),
    }
}

/// The reply frame for `rep` with the bound address `bnd`.
pub fn reply(rep: Reply, bnd: &SocksSocketAddr) -> (r: Vec<u8>)
    requires
        bnd.well_formed(),
    ensures
        r@ == reply_frame(rep, bnd@),
{
    let mut r = vec![VERSION, rep.to_u8(), RESERVED];
    let a = bnd.to_bytes();
    append_bytes(&mut r, a.as_slice());
    assert(r@ =~= reply_frame(rep, bnd@));
    r
}

/// How the data phase of CONNECT or BIND ended: the byte pump's result,
/// where `NotConnected` from the far side counts as a clean end.
pub fn relay_outcome(pumped: Result<(), IoErrorKind>) -> (r: crate::error::Result<()>)
    ensures
        r == match pumped {
            Ok(()) => Ok(()),
            Err(IoErrorKind::NotConnected) => Ok(()),
            Err(k) => Err(Socks5Error::IoError(k)),
        },
{
    match pumped {
        Ok(()) => Ok(()),
        Err(IoErrorKind::NotConnected) => Ok(()),
        Err(k) => Err(Socks5Error::IoError(k)),
    }
}

/// A greeting whose version is not 5, or that offers no methods, is
/// invalid: `Engine::receive_greeting` then closes without writing anything.
pub proof fn lemma_bad_greeting_rejected(b: Seq<u8>)
    requires
        (b.len() >= 1 && b[0] != VERSION) || (b.len() >= 2 && b[0] == VERSION && b[1] == 0),
    ensures
        parse_greeting_spec(b) is Invalid,
{
}

/// A request of version 5 whose command is not 1, 2 or 3, whose reserved
/// byte is not 0, or whose address type is not 1, 3 or 4, is invalid:
/// `Engine::receive_request` then closes without writing anything.
pub proof fn lemma_bad_request_rejected(b: Seq<u8>)
    requires
        b.len() >= 4,
        b[0] == VERSION,
        command_of_byte(b[1]) is None || b[2] != RESERVED || (b[3] != 1 && b[3] != 3 && b[3] != 4),
    ensures
        parse_request_spec(b) is Invalid,
{
    let rest = b.subrange(3, b.len() as int);
    assert(rest[0] == b[3]);
}

} // verus!
