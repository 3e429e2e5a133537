//! Deadlines against the clock oracle.

use crate::error::AmmError;
use vstd::prelude::*;

verus! {

/// Whether the deadline has passed: a deadline of 0 never does, any other
/// does once the oracle's time is greater.
pub open spec fn expired(expiration: i64, now: i64) -> bool {
    expiration != 0 && now > expiration
}

/// The deadline check, on what the oracle gave: its time, or `None` where it
/// could not be read.
pub open spec fn expiration_check(expiration: i64, clock: Option<i64>) -> Result<(), AmmError> {
    match clock {
        None => Err(AmmError::ClockUnavailable),
        Some(now) => if expired(expiration, now) {
            Err(AmmError::Expired)
        } else {
            Ok(())
        },
    }
}

/// Checks the deadline of an instruction against the oracle's time.
pub fn check_expiration(expiration: i64, clock: Option<i64>) -> (r: Result<(), AmmError>)
    ensures
        r == expiration_check(expiration, clock),
{
    match clock {
        None => Err(AmmError::ClockUnavailable),
        Some(now) => {
            if expiration != 0 && now > expiration {
                Err(AmmError::Expired)
            } else {
                Ok(())
            }
        },
    }
}

/// A deadline of `T` is refused as expired exactly when it is not 0 and the
/// oracle's time is greater than `T`; a deadline of 0 is never refused.
pub proof fn lemma_expiration(expiration: i64, now: i64)
    ensures
        expiration != 0 && now > expiration ==> expiration_check(expiration, Some(now)) == Err::<
            (),
            AmmError,
        >(AmmError::Expired),
        expiration == 0 || now <= expiration ==> expiration_check(expiration, Some(now)) is Ok,
        expiration_check(0, Some(now)) is Ok,
{
}

} // verus!
