//! Request parsing and authentication: the path from untrusted raw bytes to
//! an authenticated [`Request`].
//!
//! A `Request` can only be built by the parsing-and-authentication path, so
//! holding one is itself evidence that the request carried a fresh nonce and
//! the correct secret for it.

use vstd::prelude::*;
use vstd::slice::slice_subrange;
use vstd::utf8::{decode_utf8, encode_utf8, valid_utf8};

use crate::encoding::{bytes_eq, constant_time_eq, find_from, first_at, parse_u128, u128_text};
use crate::http::{find_header, header_lookup, request_lines, split_header_lines};
use crate::key::{secret_wire_bytes, Key};
use crate::nonce::{now_millis, Nonce, NonceError};

verus! {

/// An HTTP method; only the two methods the protocol uses are known.
#[derive(Debug, Copy, Clone, PartialEq, Eq, Structural)]
pub enum Method {
    /// The GET HTTP method.
    Get,
    /// The POST HTTP method.
    Post,
}

impl Method {
    /// The method's name as it appears on the wire.
    pub fn as_str(&self) -> (r: &'static str)
        ensures
            self is Get ==> r@ == "GET"@,
            self is Post ==> r@ == "POST"@,
    {
        match self {
            Method::Get => "GET",
            Method::Post => "POST",
        }
    }
}

/// Which method a request-line token names, if any.
pub open spec fn method_of(tok: Seq<u8>) -> Option<Method> {
    if tok == encode_utf8("GET"@) {
        Some(Method::Get)
    } else if tok == encode_utf8("POST"@) {
        Some(Method::Post)
    } else {
        None
    }
}

/// Rejections of a raw request, each the reason the connection was refused.
#[derive(Debug, Copy, Clone, PartialEq, Eq, Structural)]
pub enum RequestError {
    /// The request line is missing, has no path, or names an unknown method.
    MalformedHttp,
    /// A required header's value cannot be read (the nonce is not a number).
    MalformedHeaders,
    /// The nonce header is missing.
    MissingNonce,
    /// The secret header is missing.
    MissingSecret,
    /// The request asked for an endpoint that is never served.
    IllegalEndpoint,
    /// The received secret does not match the one the key demands.
    InvalidKey,
    /// The nonce was rejected by the replay guard.
    NonceError(NonceError),
}

impl RequestError {
    /// The message that describes this rejection.
    pub open spec fn spec_message(&self) -> Seq<char> {
        match self {
            RequestError::MalformedHttp => "http is malformed"@,
            RequestError::MalformedHeaders => "a header is malformed"@,
            RequestError::MissingNonce => "nonce header not found"@,
            RequestError::MissingSecret => "secret header not found"@,
            RequestError::IllegalEndpoint => "tried to reach illegal endpoint /favicon.ico"@,
            RequestError::InvalidKey => "key is invalid"@,
            RequestError::NonceError(NonceError::FromPast) => "nonce is too old; are server and client clocks out of sync?"@,
            RequestError::NonceError(NonceError::FromFuture) => "nonce is from too far in the future; are server and client clocks out of sync?"@,
        }
    }

    /// A short description of the rejection, fit for an error response.
    pub fn message(&self) -> (r: &'static str)
        ensures
            r@ == self.spec_message(),
    {
        match self {
            RequestError::MalformedHttp => "http is malformed",
            RequestError::MalformedHeaders => "a header is malformed",
            RequestError::MissingNonce => "nonce header not found",
            RequestError::MissingSecret => "secret header not found",
            RequestError::IllegalEndpoint => "tried to reach illegal endpoint /favicon.ico",
            RequestError::InvalidKey => "key is invalid",
            RequestError::NonceError(e) => e.message(),
        }
    }
}

impl crate::logger::ErrorText for RequestError {
    fn error_text(&self) -> String {
        self.message().to_owned()
    }
}

impl core::convert::From<NonceError> for RequestError {
    /// Wraps a replay-guard rejection as a request rejection.
    fn from(value: NonceError) -> (r: Self) {
        RequestError::NonceError(value)
    }
}

impl vstd::std_specs::convert::FromSpecImpl<NonceError> for RequestError {
    open spec fn obeys_from_spec() -> bool {
        true
    }

    open spec fn from_spec(v: NonceError) -> Self {
        RequestError::NonceError(v)
    }
}

/// What the parsing phase extracts from a raw buffer, before any decision
/// that needs the key, the replay guard or the clock: the method, the path,
/// the received secret, and the nonce candidate — or the rejection.
///
/// The steps, in order: the first header-section line is the request line
/// and splits on spaces into a method token, a path token, and an ignored
/// rest; the method must be GET or POST; the path must be present; the path
/// `/favicon.ico` is refused before anything else is looked at, so browser
/// noise never burns a nonce; then the `Secret` and `Nonce` headers must be
/// present and the nonce must be an unsigned decimal number.
pub open spec fn spec_parse_phase(buf: Seq<u8>) -> Result<
    (Method, Seq<u8>, Seq<u8>, u128),
    RequestError,
> {
    let lines = request_lines(buf);
    if lines.len() == 0 {
        Err(RequestError::MalformedHttp)
    } else {
        let l0 = lines[0];
        let sp1 = first_at(l0, 32, 0);
        if method_of(l0.take(sp1)) is None {
            Err(RequestError::MalformedHttp)
        } else if sp1 >= l0.len() {
            Err(RequestError::MalformedHttp)
        } else {
            let rest = l0.skip(sp1 + 1);
            let path = rest.take(first_at(rest, 32, 0));
            if path == encode_utf8("/favicon.ico"@) {
                Err(RequestError::IllegalEndpoint)
            } else {
                let hs = lines.skip(1);
                if header_lookup(hs, encode_utf8("Secret"@)) is None {
                    Err(RequestError::MissingSecret)
                } else if header_lookup(hs, encode_utf8("Nonce"@)) is None {
                    Err(RequestError::MissingNonce)
                } else if u128_text(header_lookup(hs, encode_utf8("Nonce"@)).unwrap()) is None {
                    Err(RequestError::MalformedHeaders)
                } else {
                    Ok(
                        (
                            method_of(l0.take(sp1)).unwrap(),
                            path,
                            header_lookup(hs, encode_utf8("Secret"@)).unwrap(),
                            u128_text(header_lookup(hs, encode_utf8("Nonce"@)).unwrap()).unwrap(),
                        ),
                    )
                }
            }
        }
    }
}

/// What the authenticator decides once the parse phase has produced a nonce
/// candidate and a received secret: the candidate must be strictly newer
/// than the stored nonce, at most `leeway` ahead of the clock reading `now`,
/// and the secret must be exactly the one the key demands for the candidate.
pub open spec fn auth_decision(
    value: u128,
    leeway: u128,
    now: u128,
    candidate: u128,
    secret: Seq<u8>,
    key_bytes: Seq<u8>,
) -> Result<(), RequestError> {
    if candidate <= value {
        Err(RequestError::NonceError(NonceError::FromPast))
    } else if candidate > now + leeway {
        Err(RequestError::NonceError(NonceError::FromFuture))
    } else if secret != secret_wire_bytes(candidate as nat, key_bytes) {
        Err(RequestError::InvalidKey)
    } else {
        Ok(())
    }
}

/// The whole decision a server makes about a raw buffer at one moment: the
/// parse phase, then the authenticator. `Ok` carries the method, the path
/// bytes, and the nonce the guard advances to.
pub open spec fn spec_outcome(
    buf: Seq<u8>,
    key_bytes: Seq<u8>,
    value: u128,
    leeway: u128,
    now: u128,
) -> Result<(Method, Seq<u8>, u128), RequestError> {
    match spec_parse_phase(buf) {
        Err(e) => Err(e),
        Ok((m, p, s, n)) => match auth_decision(value, leeway, now, n, s, key_bytes) {
            Err(e) => Err(e),
            Ok(()) => Ok((m, p, n)),
        },
    }
}

/// How `String::from_utf8_lossy` reads bytes as text: a value of the bytes
/// alone, left abstract except that valid UTF-8 decodes exactly.
pub uninterp spec fn lossy_utf8(bytes: Seq<u8>) -> Seq<char>;

/// Relies on `String::from_utf8_lossy`: the decoding is a function of the
/// bytes alone, and bytes that are valid UTF-8 decode to exactly their
/// UTF-8 reading.
#[verifier::external_body]
fn decode_lossy(b: &[u8]) -> (r: String)
    ensures
        r@ == lossy_utf8(b@),
        valid_utf8(b@) ==> r@ == decode_utf8(b@),
{
    String::from_utf8_lossy(b).into_owned()
}

/// An authenticated HTTP request.
///
/// A value of this type can only be produced by [`Request::new`] (or its
/// deterministic core [`Request::new_at`]), so its existence proves the
/// request carried a fresh nonce and the matching secret.
#[derive(Debug, Clone, PartialEq, Eq)]
pub struct Request {
    /// The HTTP method of the request.
    pub method: Method,
    /// The path the request was made to, including the leading slash.
    pub path: String,
}

impl Request {
    /// Parses and authenticates a raw buffer against a given clock reading.
    ///
    /// This is the deterministic core of [`Request::new`]: the result and
    /// the guard's movement are exactly [`spec_outcome`]. The guard advances
    /// to the request's nonce precisely when the request is accepted.
    pub fn new_at(buf: &[u8], key: &Key, last_nonce: &mut Nonce, now: u128) -> (r: Result<
        Request,
        RequestError,
    >)
        ensures
            final(last_nonce).spec_leeway() == old(last_nonce).spec_leeway(),
            match spec_outcome(
                buf@,
                key.bytes(),
                old(last_nonce).spec_value(),
                old(last_nonce).spec_leeway(),
                now,
            ) {
                Ok((m, p, n)) => r matches Ok(req) && req.method == m && req.path@ == lossy_utf8(p)
                    && final(last_nonce).spec_value() == n,
                Err(e) => (r matches Err(g) && g == e) && *final(last_nonce) == *old(last_nonce),
            },
    {
        let lines = split_header_lines(buf);
        let ghost speclines = request_lines(buf@);
        if lines.len() == 0 {
            return Err(RequestError::MalformedHttp);
        }
        let l0 = &lines[0];
        proof {
            assert(l0@ == speclines[0]);
        }
        let sp1 = find_from(l0.as_slice(), 0, 32);
        proof {
            crate::encoding::lemma_first_at(l0@, 32, 0);
        }
        let mtok = slice_subrange(l0.as_slice(), 0, sp1);
        proof {
            assert(mtok@ =~= l0@.take(first_at(l0@, 32, 0)));
        }
        let method: Method;
        if bytes_eq(mtok, "GET".as_bytes()) {
            method = Method::Get;
        } else if bytes_eq(mtok, "POST".as_bytes()) {
            method = Method::Post;
        } else {
            assert(method_of(l0@.take(first_at(l0@, 32, 0))) is None);
            return Err(RequestError::MalformedHttp);
        }
        assert(method_of(l0@.take(first_at(l0@, 32, 0))) == Some(method));
        if sp1 == l0.len() {
            return Err(RequestError::MalformedHttp);
        }
        let rest = slice_subrange(l0.as_slice(), sp1 + 1, l0.len());
        proof {
            assert(rest@ =~= l0@.skip(first_at(l0@, 32, 0) + 1));
        }
        let sp2 = find_from(rest, 0, 32);
        proof {
            crate::encoding::lemma_first_at(rest@, 32, 0);
        }
        let path_b = slice_subrange(rest, 0, sp2);
        proof {
            assert(path_b@ =~= rest@.take(first_at(rest@, 32, 0)));
        }
        if bytes_eq(path_b, "/favicon.ico".as_bytes()) {
            return Err(RequestError::IllegalEndpoint);
        }
        let ghost hs = speclines.skip(1);
        let secret = match find_header(&lines, "Secret".as_bytes()) {
            None => {
                return Err(RequestError::MissingSecret);
            },
            Some(v) => v,
        };
        let ntext = match find_header(&lines, "Nonce".as_bytes()) {
            None => {
                return Err(RequestError::MissingNonce);
            },
            Some(v) => v,
        };
        let n = match parse_u128(ntext.as_slice()) {
            None => {
                return Err(RequestError::MalformedHeaders);
            },
            Some(n) => n,
        };
        assert(spec_parse_phase(buf@) == Ok::<_, RequestError>((method, path_b@, secret@, n)));
        let witness = match last_nonce.begin_update_at(n, now) {
            Err(e) => {
                return Err(RequestError::NonceError(e));
            },
            Ok(w) => w,
        };
        let expected = key.generate_secret(n);
        if !constant_time_eq(expected.as_str().as_bytes(), secret.as_slice()) {
            return Err(RequestError::InvalidKey);
        }
        witness.commit(last_nonce);
        let path = decode_lossy(path_b);
        Ok(Request { method, path })
    }

    /// Parses and authenticates a raw buffer against the wall clock.
    ///
    /// Everything up to the replay-guard decision is deterministic in the
    /// buffer, so it is stated exactly; the freshness cutoff depends on the
    /// clock reading, so a rejection for a nonce from the future is only
    /// located, not pinned to an exact input set. The guard never moves on a
    /// rejection, and advances to the request's nonce on acceptance.
    pub fn new(buf: &[u8], key: &Key, last_nonce: &mut Nonce) -> (r: Result<Request, RequestError>)
        ensures
            final(last_nonce).spec_leeway() == old(last_nonce).spec_leeway(),
            match spec_parse_phase(buf@) {
                Err(e) => (r matches Err(g) && g == e) && *final(last_nonce) == *old(last_nonce),
                Ok((m, p, s, n)) => {
                    &&& (n <= old(last_nonce).spec_value() <==> r == Err::<Request, RequestError>(
                        RequestError::NonceError(NonceError::FromPast),
                    ))
                    &&& (r == Err::<Request, RequestError>(
                        RequestError::NonceError(NonceError::FromFuture),
                    ) ==> n > old(last_nonce).spec_value())
                    &&& (r matches Ok(req) ==> s == secret_wire_bytes(n as nat, key.bytes())
                        && req.method == m && req.path@ == lossy_utf8(p)
                        && final(last_nonce).spec_value() == n)
                    &&& (s == secret_wire_bytes(n as nat, key.bytes())
                        && n > old(last_nonce).spec_value() ==> (r is Ok || r == Err::<
                        Request,
                        RequestError,
                    >(RequestError::NonceError(NonceError::FromFuture))))
                    &&& (s != secret_wire_bytes(n as nat, key.bytes())
                        && n > old(last_nonce).spec_value() ==> (r == Err::<Request, RequestError>(
                        RequestError::InvalidKey,
                    ) || r == Err::<Request, RequestError>(
                        RequestError::NonceError(NonceError::FromFuture),
                    )))
                    &&& (r is Err ==> *final(last_nonce) == *old(last_nonce))
                },
            },
    {
        let now = now_millis();
        Self::new_at(buf, key, last_nonce, now)
    }
}

} // verus!
