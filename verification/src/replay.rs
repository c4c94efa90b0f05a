//! Replay protection: the nonce must follow the account's nonce without a
//! gap, and the timestamp must be fresh.

use vstd::prelude::*;
use crate::error::ErrorCode;

verus! {

/// A request is fresh while its timestamp and the current time lie less than
/// this many seconds apart.
pub const FRESHNESS_WINDOW: i64 = 300;

/// Whether `submitted` is the nonce that follows `current`.
pub open spec fn nonce_follows(current: u64, submitted: u64) -> bool {
    submitted == current + 1
}

/// Whether `timestamp` lies within the freshness window around `now`.
pub open spec fn is_fresh(now: i64, timestamp: i64) -> bool {
    -FRESHNESS_WINDOW < now - timestamp < FRESHNESS_WINDOW
}

/// What the replay guard says of a nonce and a timestamp: the nonce is
/// judged first.
pub open spec fn replay_verdict(
    current_nonce: u64,
    submitted_nonce: u64,
    submitted_timestamp: i64,
    now: i64,
) -> Result<(), ErrorCode> {
    if !nonce_follows(current_nonce, submitted_nonce) {
        Err(ErrorCode::InvalidNonce)
    } else if !is_fresh(now, submitted_timestamp) {
        Err(ErrorCode::InvalidTimestamp)
    } else {
        Ok(())
    }
}

/// Judges a submitted nonce and timestamp against the account's nonce and
/// the current time. Nothing is changed.
pub fn check(current_nonce: u64, submitted_nonce: u64, submitted_timestamp: i64, now: i64) -> (r:
    Result<(), ErrorCode>)
    ensures
        r == replay_verdict(current_nonce, submitted_nonce, submitted_timestamp, now),
{
    if submitted_nonce == 0 || submitted_nonce - 1 != current_nonce {
        return Err(ErrorCode::InvalidNonce);
    }
    let apart: i128 = now as i128 - submitted_timestamp as i128;
    if apart <= -(FRESHNESS_WINDOW as i128) || apart >= FRESHNESS_WINDOW as i128 {
        return Err(ErrorCode::InvalidTimestamp);
    }
    Ok(())
}

} // verus!
