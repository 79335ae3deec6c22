//! The protocol's guarantees, stated and proved over the specification
//! functions that the executable functions are verified against.
//!
//! Each law speaks about [`auth_decision`] or [`spec_outcome`], which by
//! [`crate::request::Request::new_at`]'s contract are exactly what the
//! server computes; that contract also ties the replay guard's movement to
//! the outcome, so "the stored nonce does not advance" below means the
//! function's `ensures` keeps the guard unchanged on every rejection.

use vstd::prelude::*;
use vstd::utf8::encode_utf8;

use crate::encoding::first_at;
use crate::http::request_lines;
use crate::key::secret_wire_bytes;
use crate::nonce::NonceError;
use crate::request::{auth_decision, method_of, spec_outcome, spec_parse_phase, Method, RequestError};

verus! {

/// Nonces authenticate in increasing order, and never twice: with a correct
/// secret for each, a fresh nonce `n1` is accepted against a guard at `v`,
/// then a later nonce `n2` is accepted against the advanced guard, and
/// replaying `n1` afterwards is rejected as too old whatever the clock then
/// reads.
pub proof fn lemma_nonce_order_and_replay(
    v: u128,
    leeway: u128,
    n1: u128,
    n2: u128,
    now1: u128,
    now2: u128,
    now3: u128,
    k: Seq<u8>,
)
    requires
        v < n1 < n2,
        n1 <= now1 + leeway,
        n2 <= now2 + leeway,
    ensures
        auth_decision(v, leeway, now1, n1, secret_wire_bytes(n1 as nat, k), k) == Ok::<
            (),
            RequestError,
        >(()),
        auth_decision(n1, leeway, now2, n2, secret_wire_bytes(n2 as nat, k), k) == Ok::<
            (),
            RequestError,
        >(()),
        auth_decision(n2, leeway, now3, n1, secret_wire_bytes(n1 as nat, k), k) == Err::<
            (),
            RequestError,
        >(RequestError::NonceError(NonceError::FromPast)),
{
}

/// A secret is bound to its nonce: the correct secret for nonce `n`, sent
/// with a different nonce `m`, never authenticates — as long as the two
/// nonces' secrets differ, which fails only on a hash collision.
pub proof fn lemma_secret_bound_to_nonce(
    v: u128,
    leeway: u128,
    now: u128,
    n: u128,
    m: u128,
    k: Seq<u8>,
)
    requires
        m != n,
        secret_wire_bytes(m as nat, k) != secret_wire_bytes(n as nat, k),
    ensures
        auth_decision(v, leeway, now, m, secret_wire_bytes(n as nat, k), k) is Err,
{
}

/// A nonce more than `leeway` ahead of the clock is rejected as from the
/// future, whatever secret comes with it.
pub proof fn lemma_future_nonce_rejected(
    v: u128,
    leeway: u128,
    now: u128,
    n: u128,
    s: Seq<u8>,
    k: Seq<u8>,
)
    requires
        n > v,
        n > now + leeway,
    ensures
        auth_decision(v, leeway, now, n, s, k) == Err::<(), RequestError>(
            RequestError::NonceError(NonceError::FromFuture),
        ),
{
}

/// A wrong secret does not burn the nonce: a fresh nonce `n` with a wrong
/// secret is rejected for the key, and since every rejection leaves the
/// guard where it was, the same nonce with the correct secret still
/// authenticates afterwards.
pub proof fn lemma_wrong_secret_preserves_nonce(
    v: u128,
    leeway: u128,
    now1: u128,
    now2: u128,
    n: u128,
    s: Seq<u8>,
    k: Seq<u8>,
)
    requires
        v < n,
        n <= now1 + leeway,
        n <= now2 + leeway,
        s != secret_wire_bytes(n as nat, k),
    ensures
        auth_decision(v, leeway, now1, n, s, k) == Err::<(), RequestError>(
            RequestError::InvalidKey,
        ),
        auth_decision(v, leeway, now2, n, secret_wire_bytes(n as nat, k), k) == Ok::<
            (),
            RequestError,
        >(()),
{
}

/// The stored nonce only ever increases: whenever a request is accepted,
/// the nonce the guard advances to is strictly greater than the stored
/// value it was checked against — so the guard's value is monotone over any
/// run of requests.
pub proof fn lemma_guard_monotonic(buf: Seq<u8>, k: Seq<u8>, v: u128, leeway: u128, now: u128)
    ensures
        spec_outcome(buf, k, v, leeway, now) matches Ok((m, p, n)) ==> n > v,
{
}

/// A request for `/favicon.ico` is rejected before credentials are even
/// looked at: whatever the headers hold, whatever the guard and the clock
/// read, the outcome is the illegal-endpoint rejection — so the request
/// never reaches the dispatch handler and never burns a nonce.
pub proof fn lemma_favicon_never_dispatched(
    buf: Seq<u8>,
    k: Seq<u8>,
    v: u128,
    leeway: u128,
    now: u128,
)
    requires
        request_lines(buf).len() > 0,
        method_of(request_lines(buf)[0].take(first_at(request_lines(buf)[0], 32, 0))) is Some,
        first_at(request_lines(buf)[0], 32, 0) < request_lines(buf)[0].len(),
        ({
            let l0 = request_lines(buf)[0];
            let rest = l0.skip(first_at(l0, 32, 0) + 1);
            rest.take(first_at(rest, 32, 0)) == encode_utf8("/favicon.ico"@)
        }),
    ensures
        spec_parse_phase(buf) == Err::<(Method, Seq<u8>, Seq<u8>, u128), RequestError>(
            RequestError::IllegalEndpoint,
        ),
        spec_outcome(buf, k, v, leeway, now) == Err::<(Method, Seq<u8>, u128), RequestError>(
            RequestError::IllegalEndpoint,
        ),
{
}

} // verus!
