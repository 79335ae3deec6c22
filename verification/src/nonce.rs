//! The replay guard: a monotonically increasing nonce with a two-phase
//! validate-then-commit update.
//!
//! Nonces are timestamps in milliseconds since the Unix epoch. The guard
//! stores the last accepted nonce; a candidate must be strictly greater than
//! the stored value and at most `leeway` milliseconds ahead of the server
//! clock. Validation hands back a witness, and only committing the witness
//! advances the stored value, so a caller can run further checks (the secret
//! match) before burning the nonce.

use vstd::prelude::*;

verus! {

/// Relies on `std::time::SystemTime::now`: the wall clock, read as whole
/// milliseconds since the Unix epoch (zero if the clock reads earlier than
/// the epoch). Nothing is promised of the value.
#[verifier::external_body]
pub(crate) fn now_millis() -> u128 {
    std::time::SystemTime::now()
        .duration_since(std::time::UNIX_EPOCH)
        .map(|d| d.as_millis())
        .unwrap_or(0)
}

/// Rejections of a candidate nonce.
#[derive(Debug, Copy, Clone, PartialEq, Eq, Structural)]
pub enum NonceError {
    /// The candidate is not strictly greater than the last accepted nonce.
    FromPast,
    /// The candidate is more than `leeway` milliseconds ahead of the server
    /// clock.
    FromFuture,
}

impl NonceError {
    /// A short description of the rejection, fit for an error response.
    pub fn message(&self) -> (r: &'static str)
        ensures
            self is FromPast ==> r@ == "nonce is too old; are server and client clocks out of sync?"@,
            self is FromFuture ==> r@
                == "nonce is from too far in the future; are server and client clocks out of sync?"@,
    {
        match self {
            NonceError::FromPast => "nonce is too old; are server and client clocks out of sync?",
            NonceError::FromFuture => "nonce is from too far in the future; are server and client clocks out of sync?",
        }
    }
}

/// What the replay guard decides about a candidate nonce, given the stored
/// value, the leeway, and the clock reading at the moment of the check.
pub open spec fn nonce_decision(value: u128, leeway: u128, now: u128, candidate: u128) -> Result<
    (),
    NonceError,
> {
    if candidate <= value {
        Err(NonceError::FromPast)
    } else if candidate > now + leeway {
        Err(NonceError::FromFuture)
    } else {
        Ok(())
    }
}

/// The server's replay guard: the last accepted nonce and the allowed clock
/// skew into the future, both in milliseconds.
#[derive(Debug, Copy, Clone, PartialEq, Eq)]
pub struct Nonce {
    /// The last accepted nonce (a Unix timestamp in milliseconds).
    inner: u128,
    /// How far into the future a candidate nonce may lie, in milliseconds.
    leeway: u128,
}

impl Nonce {
    /// The stored last-accepted nonce.
    pub closed spec fn spec_value(&self) -> u128 {
        self.inner
    }

    /// The allowed clock skew into the future, in milliseconds.
    pub closed spec fn spec_leeway(&self) -> u128 {
        self.leeway
    }

    /// Reads the allowed clock skew into the future, in milliseconds.
    pub fn leeway(&self) -> (r: u128)
        ensures
            r == self.spec_leeway(),
    {
        self.leeway
    }

    /// Creates a new replay guard whose stored value is the current time, so
    /// nonces from before server start are never valid.
    pub fn new(leeway: u128) -> (r: Nonce)
        ensures
            r.spec_leeway() == leeway,
    {
        Nonce { inner: now_millis(), leeway }
    }

    /// Creates a replay guard with a chosen stored value.
    pub fn with_value(value: u128, leeway: u128) -> (r: Nonce)
        ensures
            r.spec_value() == value,
            r.spec_leeway() == leeway,
    {
        Nonce { inner: value, leeway }
    }

    /// Reads the stored last-accepted nonce.
    pub fn value(&self) -> (r: u128)
        ensures
            r == self.spec_value(),
    {
        self.inner
    }

    /// Validates a candidate nonce against a given clock reading.
    ///
    /// This is the deterministic core of [`Nonce::begin_update`]: the
    /// decision is exactly [`nonce_decision`]. The guard itself is not
    /// changed; a returned witness must be committed to advance it.
    pub fn begin_update_at(&mut self, new_nonce: u128, now: u128) -> (r: Result<
        NonceValidityWitness,
        NonceError,
    >)
        ensures
            *final(self) == *old(self),
            match nonce_decision(old(self).spec_value(), old(self).spec_leeway(), now, new_nonce) {
                Ok(()) => r matches Ok(w) && w.spec_candidate() == new_nonce,
                Err(e) => r matches Err(g) && g == e,
            },
    {
        if new_nonce <= self.inner {
            Err(NonceError::FromPast)
        } else if self.leeway > u128::MAX - now {
            // `now + leeway` exceeds every representable nonce, so no
            // candidate can be from too far in the future.
            Ok(NonceValidityWitness { candidate: new_nonce })
        } else if new_nonce > now + self.leeway {
            Err(NonceError::FromFuture)
        } else {
            Ok(NonceValidityWitness { candidate: new_nonce })
        }
    }

    /// Begins updating the nonce to a new one, checking it for validity
    /// against the wall clock.
    ///
    /// A valid nonce is strictly greater than the stored one and at most
    /// `leeway` milliseconds in the future. On success the returned witness
    /// can be committed to actually advance the guard; the separation lets
    /// the caller check the secret first, so an attacker cannot burn a valid
    /// nonce with a wrong secret.
    pub fn begin_update(&mut self, new_nonce: u128) -> (r: Result<NonceValidityWitness, NonceError>)
        ensures
            *final(self) == *old(self),
            new_nonce <= old(self).spec_value() <==> (r matches Err(e) && e
                == NonceError::FromPast),
            (r matches Err(e) && e == NonceError::FromFuture) ==> new_nonce > old(
                self,
            ).spec_value(),
            r matches Ok(w) ==> new_nonce > old(self).spec_value() && w.spec_candidate()
                == new_nonce,
    {
        let now = now_millis();
        self.begin_update_at(new_nonce, now)
    }
}

/// A witness that a candidate nonce was validated; committing it advances
/// the guard to the candidate.
///
/// Obtained from [`Nonce::begin_update`]; see there for why validation and
/// commitment are separate steps.
#[must_use]
#[derive(Debug)]
pub struct NonceValidityWitness {
    candidate: u128,
}

impl NonceValidityWitness {
    /// The candidate nonce this witness stands for.
    pub closed spec fn spec_candidate(&self) -> u128 {
        self.candidate
    }

    /// Finishes the update: advances the guard to the witnessed candidate.
    ///
    /// Requires that the candidate is still ahead of the stored value, which
    /// holds whenever the witness came from a validation of this guard and
    /// the guard has not moved past it since; this keeps the stored nonce
    /// strictly increasing.
    pub fn commit(self, nonce: &mut Nonce)
        requires
            old(nonce).spec_value() < self.spec_candidate(),
        ensures
            final(nonce).spec_value() == self.spec_candidate(),
            final(nonce).spec_leeway() == old(nonce).spec_leeway(),
    {
        nonce.inner = self.candidate;
    }
}

} // verus!
