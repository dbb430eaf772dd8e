//! Method selection and the username/password sub-negotiation (RFC 1929).
use vstd::prelude::*;
use vstd::string::StringExecFns;
use vstd::utf8::{decode_utf8, encode_utf8, encode_utf8_decode_utf8, encode_utf8_valid_utf8, valid_utf8};
use crate::methods::AuthMethod;
use crate::wire::{copy_range, string_from_utf8, Parsed};

verus! {

/// Version byte of the username/password sub-negotiation.
pub const USER_PASSWORD_VERSION: u8 = 0x01;

/// Status byte of an accepted username and password.
pub const AUTH_SUCCESS: u8 = 0x00;

/// Status byte of a rejected username and password.
pub const AUTH_FAILURE: u8 = 0x01;

/// Chooses the authentication method of a connection from those that the
/// client offers. The choice depends on the offer alone.
pub trait Authenticator {
    /// The method chosen for an offer.
    spec fn spec_select(&self, offered: Seq<AuthMethod>) -> AuthMethod;

    /// Chooses a method from `methods`; a method that is not offered counts
    /// as `NoAcceptableMethods`.
    fn select_method(&self, methods: &[AuthMethod]) -> (r: AuthMethod)
        ensures
            r == self.spec_select(methods@),
    ;
}

/// Whether `m` is among `methods`.
pub fn offers(methods: &[AuthMethod], m: AuthMethod) -> (r: bool)
    ensures
        r == methods@.contains(m),
{
    let mut i: usize = 0;
    while i < methods.len()
        invariant
            i <= methods@.len(),
            forall|j: int| 0 <= j < i ==> methods@[j] != m,
        decreases methods@.len() - i,
    {
        if methods[i] == m {
            assert(methods@[i as int] == m);
            return true;
        }
        i = i + 1;
    }
    false
}

/// The choice of an authenticator that accepts one method: that method if
/// it is offered, else `NoAcceptableMethods`.
pub open spec fn select_only(offered: Seq<AuthMethod>, m: AuthMethod) -> AuthMethod {
    if offered.contains(m) {
        m
    } else {
        AuthMethod::NoAcceptableMethods
    }
}

/// The authenticator that asks for no credentials: it selects
/// `NoAuthRequired` when the client offers it.
#[derive(Debug, Clone, Copy, PartialEq, Eq, Structural)]
pub struct NoAuthAuthenticator;

impl Authenticator for NoAuthAuthenticator {
    open spec fn spec_select(&self, offered: Seq<AuthMethod>) -> AuthMethod {
        select_only(offered, AuthMethod::NoAuthRequired)
    }

    fn select_method(&self, methods: &[AuthMethod]) -> (r: AuthMethod) {
        if offers(methods, AuthMethod::NoAuthRequired) {
            AuthMethod::NoAuthRequired
        } else {
            AuthMethod::NoAcceptableMethods
        }
    }
}

/// A username and a password, as the client sent them.
#[derive(Debug, Clone, PartialEq, Eq)]
pub struct User {
    pub username: String,
    pub password: String,
}

impl View for User {
    type V = (Seq<char>, Seq<char>);

    open spec fn view(&self) -> (Seq<char>, Seq<char>) {
        (self.username@, self.password@)
    }
}

/// The authenticator of RFC 1929: it selects `UsernamePassword` when the
/// client offers it, and leaves the verdict on the credentials to
/// `user_authenticator`.
pub struct UsernamePasswordAuthenticator<U> {
    pub user_authenticator: U,
}

impl<U> UsernamePasswordAuthenticator<U> {
    /// An authenticator that asks `user_authorizer` for each verdict.
    pub fn new(user_authorizer: U) -> (r: UsernamePasswordAuthenticator<U>)
        ensures
            r.user_authenticator == user_authorizer,
    {
        UsernamePasswordAuthenticator { user_authenticator: user_authorizer }
    }
}

impl<U> Authenticator for UsernamePasswordAuthenticator<U> {
    open spec fn spec_select(&self, offered: Seq<AuthMethod>) -> AuthMethod {
        select_only(offered, AuthMethod::UsernamePassword)
    }

    fn select_method(&self, methods: &[AuthMethod]) -> (r: AuthMethod) {
        if offers(methods, AuthMethod::UsernamePassword) {
            AuthMethod::UsernamePassword
        } else {
            AuthMethod::NoAcceptableMethods
        }
    }
}

/// The credentials message `UPV | ULEN | UNAME | PLEN | PASSWD` at the
/// front of `b`. A version other than 1, an empty field or a field that is
/// not UTF-8 makes it `Invalid`.
pub open spec fn parse_user_spec(b: Seq<u8>) -> Parsed<(Seq<char>, Seq<char>)> {
    if b.len() < 1 {
        Parsed::Incomplete
    } else if b[0] != USER_PASSWORD_VERSION {
        Parsed::Invalid
    } else if b.len() < 2 {
        Parsed::Incomplete
    } else if b[1] == 0 {
        Parsed::Invalid
    } else if b.len() < 2 + b[1] {
        Parsed::Incomplete
    } else if !valid_utf8(b.subrange(2, 2 + b[1])) {
        Parsed::Invalid
    } else if b.len() < 3 + b[1] {
        Parsed::Incomplete
    } else if b[2 + b[1]] == 0 {
        Parsed::Invalid
    } else if b.len() < 3 + b[1] + b[2 + b[1]] {
        Parsed::Incomplete
    } else if !valid_utf8(b.subrange(3 + b[1], 3 + b[1] + b[2 + b[1]])) {
        Parsed::Invalid
    } else {
        Parsed::Done(
            (
                decode_utf8(b.subrange(2, 2 + b[1])),
                decode_utf8(b.subrange(3 + b[1], 3 + b[1] + b[2 + b[1]])),
            ),
            (3 + b[1] + b[2 + b[1]]) as usize,
        )
    }
}

/// Decodes the client's credentials message at the front of `buf`.
pub fn parse_user(buf: &[u8]) -> (r: Parsed<User>)
    ensures
        r@ == parse_user_spec(buf@),
{
    if buf.len() < 1 {
        return Parsed::Incomplete;
    }
    if buf[0] != USER_PASSWORD_VERSION {
        return Parsed::Invalid;
    }
    if buf.len() < 2 {
        return Parsed::Incomplete;
    }
    let ulen = buf[1] as usize;
    if ulen == 0 {
        return Parsed::Invalid;
    }
    if buf.len() < 2 + ulen {
        return Parsed::Incomplete;
    }
    let username = match string_from_utf8(copy_range(buf, 2, 2 + ulen)) {
        Some(s) => s,
        None => {
            return Parsed::Invalid;
        },
    };
    if buf.len() < 3 + ulen {
        return Parsed::Incomplete;
    }
    let plen = buf[2 + ulen] as usize;
    if plen == 0 {
        return Parsed::Invalid;
    }
    if buf.len() < 3 + ulen + plen {
        return Parsed::Incomplete;
    }
    let password = match string_from_utf8(copy_range(buf, 3 + ulen, 3 + ulen + plen)) {
        Some(s) => s,
        None => {
            return Parsed::Invalid;
        },
    };
    Parsed::Done(User { username, password }, 3 + ulen + plen)
}

/// The server's answer to the credentials: `UPV | STATUS`, with status 0
/// when they were accepted and 1 when they were not.
pub fn auth_status_reply(accepted: bool) -> (r: Vec<u8>)
    ensures
        r@ == seq![USER_PASSWORD_VERSION, if accepted { AUTH_SUCCESS } else { AUTH_FAILURE }],
{
    let status = if accepted {
        AUTH_SUCCESS
    } else {
        AUTH_FAILURE
    };
    let r = vec![USER_PASSWORD_VERSION, status];
    assert(r@ =~= seq![USER_PASSWORD_VERSION, status]);
    r
}

/// A verdict on credentials that accepts exactly one username and password.
#[derive(Debug, Clone, PartialEq, Eq)]
pub struct SingleUserValidator {
    valid_username: String,
    valid_password: String,
}

impl SingleUserValidator {
    /// A validator for the given username and password.
    pub fn new(valid_username: String, valid_password: String) -> (r: SingleUserValidator)
        ensures
            r.username()@ == valid_username@,
            r.password()@ == valid_password@,
    {
        SingleUserValidator { valid_username, valid_password }
    }

    pub closed spec fn username(&self) -> String {
        self.valid_username
    }

    pub closed spec fn password(&self) -> String {
        self.valid_password
    }

    /// Whether `user` holds exactly the accepted username and password.
    pub fn validate_user(&self, user: &User) -> (r: bool)
        ensures
            r == (user.username@ == self.username()@ && user.password@ == self.password()@),
    {
        user.username == self.valid_username && user.password == self.valid_password
    }
}

/// A username/password authenticator that accepts the user `itamar` with
/// the password `schwartz` and nobody else.
pub fn simple_user_authenticator() -> (r: UsernamePasswordAuthenticator<SingleUserValidator>)
    ensures
        r.user_authenticator.username()@ == "itamar"@,
        r.user_authenticator.password()@ == "schwartz"@,
{
    UsernamePasswordAuthenticator::new(
        SingleUserValidator::new(String::from_str("itamar"), String::from_str("schwartz")),
    )
}

/// The credentials message is rejected when its version is not 1, when the
/// username or the password is empty, or when either is not UTF-8.
pub proof fn lemma_bad_credentials_rejected(b: Seq<u8>)
    ensures
        b.len() >= 1 && b[0] != USER_PASSWORD_VERSION ==> parse_user_spec(b) is Invalid,
        b.len() >= 2 && b[0] == USER_PASSWORD_VERSION && b[1] == 0 ==> parse_user_spec(b) is Invalid,
        b.len() >= 2 && b[0] == USER_PASSWORD_VERSION && b[1] > 0 && b.len() >= 2 + b[1]
            && !valid_utf8(b.subrange(2, 2 + b[1])) ==> parse_user_spec(b) is Invalid,
        b.len() >= 3 + b[1] && b[0] == USER_PASSWORD_VERSION && b[1] > 0 && valid_utf8(
            b.subrange(2, 2 + b[1]),
        ) && b[2 + b[1]] == 0 ==> parse_user_spec(b) is Invalid,
        b.len() >= 3 + b[1] + b[2 + b[1]] && b[0] == USER_PASSWORD_VERSION && b[1] > 0
            && b[2 + b[1]] > 0 && valid_utf8(b.subrange(2, 2 + b[1])) && !valid_utf8(
            b.subrange(3 + b[1], 3 + b[1] + b[2 + b[1]]),
        ) ==> parse_user_spec(b) is Invalid,
{
}

/// Whatever the verdict, the answer to well-formed credentials is one
/// two-byte frame: `01 00` when accepted, `01 01` when not.
pub proof fn lemma_status_reply_frames(accepted: bool)
    ensures
        seq![USER_PASSWORD_VERSION, if accepted { AUTH_SUCCESS } else { AUTH_FAILURE }] == if accepted {
            seq![0x01u8, 0x00u8]
        } else {
            seq![0x01u8, 0x01u8]
        },
{
}

/// The credentials message for a username and a password:
/// `UPV | ULEN | UNAME | PLEN | PASSWD`.
pub open spec fn credentials_bytes(username: Seq<char>, password: Seq<char>) -> Seq<u8> {
    seq![USER_PASSWORD_VERSION, encode_utf8(username).len() as u8] + encode_utf8(username) + seq![
        encode_utf8(password).len() as u8,
    ] + encode_utf8(password)
}

/// A credentials message built from a username and a password of 1 to 255
/// UTF-8 bytes each decodes, whatever follows it, to that username and
/// password, and takes `3 + ULEN + PLEN` bytes.
pub proof fn lemma_credentials_round_trip(username: Seq<char>, password: Seq<char>, rest: Seq<u8>)
    requires
        1 <= encode_utf8(username).len() <= 255,
        1 <= encode_utf8(password).len() <= 255,
    ensures
        parse_user_spec(credentials_bytes(username, password) + rest) == Parsed::Done(
            (username, password),
            (3 + encode_utf8(username).len() + encode_utf8(password).len()) as usize,
        ),
{
    let eu = encode_utf8(username);
    let ep = encode_utf8(password);
    let b = credentials_bytes(username, password) + rest;
    let u = eu.len() as int;
    let p = ep.len() as int;
    assert(b[1] == u as u8);
    assert(b.subrange(2, 2 + u) =~= eu);
    assert(b[2 + u] == p as u8);
    assert(b.subrange(3 + u, 3 + u + p) =~= ep);
    encode_utf8_valid_utf8(username);
    encode_utf8_valid_utf8(password);
    encode_utf8_decode_utf8(username);
    encode_utf8_decode_utf8(password);
}

} // verus!
