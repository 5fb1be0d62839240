//! The transport retry policy. A failed frame write is retried by
//! reopening the port after a fixed backoff, up to a fixed budget;
//! exhausting the budget is the one terminal condition in the system and
//! must be reported, never silently dropped.

use vstd::prelude::*;

verus! {

/// How many times a failed write may be retried by reopening the port.
pub const WRITE_RETRY_BUDGET: u32 = 3;

/// Fixed backoff before a reopen-and-retry, in milliseconds.
pub const WRITE_RETRY_BACKOFF_MS: u64 = 50;

/// Fixed delay between attempts to open the serial device at startup (the
/// device may be unplugged at boot, so opening retries indefinitely).
pub const OPEN_RETRY_DELAY_MS: u64 = 100;

/// What the I/O loop does after a failed write.
#[derive(Clone, Copy, PartialEq, Eq, Structural, Debug)]
pub enum RetryAction {
    /// Wait the backoff, reopen the port, and try the write again.
    Reopen,
    /// The budget is exhausted: raise the terminal error.
    GiveUp,
}

/// Decide the next step after a failed write, given how many failures
/// were already retried for this frame. Each of the first
/// [`WRITE_RETRY_BUDGET`] failures reopens the port and counts itself;
/// one more failure is terminal and counts nothing.
pub fn after_write_failure(tries: &mut u32) -> (action: RetryAction)
    ensures
        *old(tries) < WRITE_RETRY_BUDGET ==> action == RetryAction::Reopen && *final(tries)
            == *old(tries) + 1,
        *old(tries) >= WRITE_RETRY_BUDGET ==> action == RetryAction::GiveUp && *final(tries)
            == *old(tries),
{
    if *tries < WRITE_RETRY_BUDGET {
        *tries = *tries + 1;
        RetryAction::Reopen
    } else {
        RetryAction::GiveUp
    }
}

} // verus!
