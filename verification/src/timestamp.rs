//! Points in time and their value in nanoseconds.

use vstd::prelude::*;

verus! {

/// Nanoseconds in one second.
pub const NANOSECONDS_IN_SECOND: i128 = 1_000_000_000;

/// A reading of a clock: whole seconds and nanoseconds.
///
/// By convention `0 <= nsec < 10^9`. Nothing here relies on it: a reading
/// with any `nsec` is accepted and folded into the total as it is.
#[derive(Clone, Copy, Debug, PartialEq, Eq, Structural)]
pub struct Timestamp {
    pub sec: i64,
    pub nsec: i64,
}

/// The instant `sec` seconds and `nsec` nanoseconds, in nanoseconds.
pub open spec fn spec_total_nsec(sec: int, nsec: int) -> int {
    sec * 1_000_000_000 + nsec
}

/// The instant `sec` seconds and `nsec` nanoseconds, in nanoseconds.
///
/// The sum is formed in 128 bits, so no pair of 64-bit fields overflows it.
pub fn total_nsec(sec: i64, nsec: i64) -> (total: i128)
    ensures
        total == spec_total_nsec(sec as int, nsec as int),
{
    sec as i128 * NANOSECONDS_IN_SECOND + nsec as i128
}

impl Timestamp {
    /// This reading in nanoseconds.
    pub open spec fn spec_total(self) -> int {
        spec_total_nsec(self.sec as int, self.nsec as int)
    }

    /// This reading in nanoseconds.
    pub fn total(&self) -> (total: i128)
        ensures
            total == self.spec_total(),
    {
        total_nsec(self.sec, self.nsec)
    }
}

/// Every total lies strictly within `-2^93 .. 2^93`, far inside 128 bits.
pub proof fn lemma_total_bounded(t: Timestamp)
    ensures
        -0x2000_0000_0000_0000_0000_0000 < t.spec_total() < 0x2000_0000_0000_0000_0000_0000,
{
}

} // verus!
