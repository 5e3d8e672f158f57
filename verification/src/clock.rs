//! Reading the realtime clock.

use vstd::prelude::*;
use nix::errno::Errno;
use nix::time::{clock_gettime, ClockId};
use crate::error::Error;
use crate::timestamp::Timestamp;

verus! {

/// The error code of a failed system call, as `nix` reports it. Nothing is
/// read from it here: it is only told apart from a success.
#[verifier::external_type_specification]
#[verifier::external_body]
pub struct ExErrno(Errno);

/// Calls `nix::time::clock_gettime` on `ClockId::CLOCK_REALTIME` and hands on
/// the seconds and nanoseconds of the `TimeSpec` it returns, or its `Errno`.
///
/// Nothing is claimed about the outcome: the reading is whatever the system
/// clock says at the moment of the call, and the call may fail.
#[verifier::external_body]
fn realtime_clock() -> (raw: Result<(i64, i64), Errno>) {
    match clock_gettime(ClockId::CLOCK_REALTIME) {
        Ok(time) => Ok((time.tv_sec(), time.tv_nsec())),
        Err(errno) => Err(errno),
    }
}

/// What a raw clock reading means to a caller: the timestamp that was read,
/// or `ClockUnavailable` when the system refused.
pub open spec fn spec_reading(raw: Result<(i64, i64), Errno>) -> Result<Timestamp, Error> {
    match raw {
        Ok((sec, nsec)) => Ok(Timestamp { sec, nsec }),
        Err(_) => Err(Error::ClockUnavailable),
    }
}

/// Turns the outcome of a clock system call into a timestamp or
/// `ClockUnavailable`.
pub fn reading(raw: Result<(i64, i64), Errno>) -> (r: Result<Timestamp, Error>)
    ensures
        r == spec_reading(raw),
{
    match raw {
        Ok((sec, nsec)) => Ok(Timestamp { sec, nsec }),
        Err(_) => Err(Error::ClockUnavailable),
    }
}

/// The current reading of the system's realtime clock.
///
/// Two calls may give any two readings. The one failure is
/// `ClockUnavailable`.
pub fn now() -> (r: Result<Timestamp, Error>)
    ensures
        r matches Err(e) ==> e == Error::ClockUnavailable,
{
    reading(realtime_clock())
}

} // verus!
