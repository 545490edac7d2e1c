//! The time-lock policy: when an exchange may execute.
//!
//! The window of a record is closed at both ends: an exchange is admitted
//! from the unlock time up to and including the timeout.

use vstd::prelude::*;
use crate::error::EscrowError;
use crate::state::{EscrowRecord, Timestamp};

verus! {

/// The time window in which an exchange may execute.
#[derive(Debug, Copy, Clone, PartialEq, Eq, Structural)]
pub struct TimeWindow {
    /// The earliest time at which an exchange may succeed.
    pub unlock_time: Timestamp,
    /// The latest time at which an exchange may succeed.
    pub timeout: Timestamp,
}

impl TimeWindow {
    /// A window is valid when its unlock time is before its timeout.
    pub open spec fn spec_is_valid(self) -> bool {
        self.unlock_time < self.timeout
    }

    /// What the policy says of an exchange at `now`: too early, too late, or
    /// admitted.
    pub open spec fn spec_check(self, now: Timestamp) -> Result<(), EscrowError> {
        if now < self.unlock_time {
            Err(EscrowError::InvalidUnlockTime)
        } else if now > self.timeout {
            Err(EscrowError::InvalidTimeOut)
        } else {
            Ok(())
        }
    }

    /// Whether the window is valid.
    pub fn is_valid(&self) -> (b: bool)
        ensures
            b == self.spec_is_valid(),
    {
        self.unlock_time < self.timeout
    }

    /// Applies the policy to an exchange at `now`.
    pub fn check(&self, now: Timestamp) -> (r: Result<(), EscrowError>)
        ensures
            r == self.spec_check(now),
    {
        if now < self.unlock_time {
            Err(EscrowError::InvalidUnlockTime)
        } else if now > self.timeout {
            Err(EscrowError::InvalidTimeOut)
        } else {
            Ok(())
        }
    }
}

impl EscrowRecord {
    /// The window of this record.
    pub open spec fn spec_window(self) -> TimeWindow {
        TimeWindow { unlock_time: self.unlock_time, timeout: self.timeout }
    }

    /// The window of this record.
    pub fn window(&self) -> (w: TimeWindow)
        ensures
            w == self.spec_window(),
    {
        TimeWindow { unlock_time: self.unlock_time, timeout: self.timeout }
    }
}

/// Applies the time-lock policy of `record` to an exchange at `now`.
pub fn check_time_lock(record: &EscrowRecord, now: Timestamp) -> (r: Result<(), EscrowError>)
    ensures
        r == record.spec_window().spec_check(now),
{
    record.window().check(now)
}

/// The policy, case by case: before the unlock time an exchange is refused
/// with `InvalidUnlockTime`, after the timeout with `InvalidTimeOut`, and in
/// between, both ends included, it is admitted.
pub proof fn lemma_time_lock_cases(window: TimeWindow, now: Timestamp)
    requires
        window.spec_is_valid(),
    ensures
        now < window.unlock_time ==> window.spec_check(now) == Err::<(), EscrowError>(
            EscrowError::InvalidUnlockTime,
        ),
        window.unlock_time <= now <= window.timeout ==> window.spec_check(now) == Ok::<
            (),
            EscrowError,
        >(()),
        now > window.timeout ==> window.spec_check(now) == Err::<(), EscrowError>(
            EscrowError::InvalidTimeOut,
        ),
{
}

/// Time only moves a window forward: once an exchange is admitted it stays
/// admitted until the timeout, and once the window has expired it stays
/// expired.
pub proof fn lemma_time_lock_monotonic(window: TimeWindow, earlier: Timestamp, later: Timestamp)
    requires
        earlier <= later,
    ensures
        window.spec_check(earlier) is Ok && later <= window.timeout ==> window.spec_check(later)
            is Ok,
        window.spec_check(earlier) == Err::<(), EscrowError>(EscrowError::InvalidTimeOut)
            ==> window.spec_check(later) == Err::<(), EscrowError>(EscrowError::InvalidTimeOut),
        window.spec_check(later) == Err::<(), EscrowError>(EscrowError::InvalidUnlockTime)
            ==> window.spec_check(earlier) == Err::<(), EscrowError>(
            EscrowError::InvalidUnlockTime,
        ),
{
}

} // verus!
