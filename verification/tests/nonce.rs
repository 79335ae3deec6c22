//! Tests for the replay guard.

use std::time::{SystemTime, UNIX_EPOCH};

use server::{Nonce, NonceError};

fn now_ms() -> u128 {
    SystemTime::now()
        .duration_since(UNIX_EPOCH)
        .unwrap()
        .as_millis()
}

#[test]
fn test_nonce() {
    let now = now_ms();
    let mut nonce = Nonce::with_value(now, 2000);

    assert_eq!(nonce.begin_update(now - 1).unwrap_err(), NonceError::FromPast);
    assert_eq!(nonce.begin_update(now + 5000).unwrap_err(), NonceError::FromFuture);
    let witness = nonce.begin_update(now + 1).unwrap();
    witness.commit(&mut nonce);
    assert_eq!(nonce.value(), now + 1);
}

#[test]
fn nonce_equal_candidate_is_from_past() {
    let mut nonce = Nonce::with_value(5000, 2000);
    assert_eq!(nonce.begin_update_at(5000, 5000).unwrap_err(), NonceError::FromPast);
    assert_eq!(nonce.value(), 5000);
}

#[test]
fn nonce_future_rejected_deterministically() {
    let mut nonce = Nonce::with_value(5000, 2000);
    // 2001 ms ahead of the clock reading: one past the leeway.
    assert_eq!(nonce.begin_update_at(12001, 10000).unwrap_err(), NonceError::FromFuture);
    // Exactly at the leeway boundary: accepted.
    let witness = nonce.begin_update_at(12000, 10000).unwrap();
    witness.commit(&mut nonce);
    assert_eq!(nonce.value(), 12000);
}

#[test]
fn nonce_validation_without_commit_does_not_advance() {
    let mut nonce = Nonce::with_value(5000, 2000);
    let witness = nonce.begin_update_at(6000, 6000).unwrap();
    assert_eq!(nonce.value(), 5000);
    drop(witness);
    assert_eq!(nonce.value(), 5000);
}

#[test]
fn nonce_from_clock_rejects_zero() {
    let mut nonce = Nonce::new(2000);
    // The stored value starts at the current time, so a zero nonce is
    // always from the past.
    assert_eq!(nonce.begin_update(0).unwrap_err(), NonceError::FromPast);
    assert_eq!(nonce.leeway(), 2000);
}

#[test]
fn nonce_ordering_and_replay() {
    let mut nonce = Nonce::with_value(100, 2000);
    let w1 = nonce.begin_update_at(200, 300).unwrap();
    w1.commit(&mut nonce);
    let w2 = nonce.begin_update_at(250, 300).unwrap();
    w2.commit(&mut nonce);
    assert_eq!(nonce.value(), 250);
    // Replaying the first nonce fails however late the clock is.
    assert_eq!(nonce.begin_update_at(200, 999_999).unwrap_err(), NonceError::FromPast);
}

#[test]
fn nonce_error_messages() {
    assert_eq!(
        NonceError::FromPast.message(),
        "nonce is too old; are server and client clocks out of sync?"
    );
    assert_eq!(
        NonceError::FromFuture.message(),
        "nonce is from too far in the future; are server and client clocks out of sync?"
    );
}
