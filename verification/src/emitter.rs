//! The emitter: stamps each request with its own clock reading.

use vstd::prelude::*;
use crate::clock::now;
use crate::codec::{encode, spec_encode, PAYLOAD_SIZE};
use crate::error::Error;
use crate::timestamp::Timestamp;

verus! {

/// Reads the clock and builds the request to send for that reading.
///
/// The result is the sixteen bytes of some timestamp, the one that was read,
/// or `ClockUnavailable`.
pub fn request() -> (r: Result<Vec<u8>, Error>)
    ensures
        match r {
            Ok(bytes) => exists|t1: Timestamp| bytes@ == spec_encode(t1),
            Err(e) => e == Error::ClockUnavailable,
        },
        r matches Ok(bytes) ==> bytes@.len() == PAYLOAD_SIZE,
{
    match now() {
        Ok(t1) => Ok(encode(t1)),
        Err(e) => Err(e),
    }
}

} // verus!
