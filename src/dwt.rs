//! Deadlines on the free-running 32-bit cycle counter.
use vstd::prelude::*;

verus! {

/// Counter value `cycles` after `now`, modulo 2^32.
pub open spec fn deadline_after(now: u32, cycles: u32) -> u32 {
    ((now as int + cycles as int) % 0x1_0000_0000) as u32
}

/// Whether `deadline` lies in the past as seen from `now`: the distance from
/// `now` to `deadline`, modulo 2^32, is at least 2^31.
pub open spec fn passed(deadline: u32, now: u32) -> bool {
    (deadline as int - now as int) % 0x1_0000_0000 >= 0x8000_0000
}

/// The counter value `cycles` after `now`.
pub fn deadline(now: u32, cycles: u32) -> (r: u32)
    ensures
        r == deadline_after(now, cycles),
{
    now.wrapping_add(cycles)
}

/// Whether the counter, now at `now`, has gone past `deadline`.
pub fn expired(deadline: u32, now: u32) -> (r: bool)
    ensures
        r == passed(deadline, now),
{
    deadline.wrapping_sub(now) >= 0x8000_0000
}

/// What a retry loop does after one attempt.
#[derive(Clone, Copy, Debug, PartialEq, Eq, Structural)]
pub enum Attempt {
    /// The attempt succeeded: stop with its result
    Succeeded,
    /// The attempt failed and the deadline has passed: stop with a timeout
    TimedOut,
    /// The attempt failed and there is time left: try again
    Retry,
}

/// The decision after one attempt of a retry loop with deadline `deadline`,
/// the counter now at `now`: success first, then the deadline.
pub fn after_attempt(succeeded: bool, deadline: u32, now: u32) -> (r: Attempt)
    ensures
        succeeded ==> r == Attempt::Succeeded,
        !succeeded && passed(deadline, now) ==> r == Attempt::TimedOut,
        !succeeded && !passed(deadline, now) ==> r == Attempt::Retry,
{
    if succeeded {
        Attempt::Succeeded
    } else if expired(deadline, now) {
        Attempt::TimedOut
    } else {
        Attempt::Retry
    }
}

} // verus!
