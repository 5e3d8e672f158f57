//! The reflector: answers every request with the request itself followed by
//! its own clock reading.

use vstd::prelude::*;
use vstd::slice::slice_to_vec;
use crate::clock::now;
use crate::codec::{encode, spec_encode, PAYLOAD_SIZE};
use crate::error::Error;
use crate::timestamp::Timestamp;

verus! {

/// The bytes of the answer to `request` when the reflector's clock reads
/// `tau2`: the request as it came, then `tau2` encoded.
pub open spec fn spec_reply(request: Seq<u8>, tau2: Timestamp) -> Seq<u8> {
    request + spec_encode(tau2)
}

/// The answer begins with the request, byte for byte, and is thirty-two
/// bytes long.
pub proof fn lemma_reply_echoes_request(request: Seq<u8>, tau2: Timestamp)
    requires
        request.len() == PAYLOAD_SIZE,
    ensures
        spec_reply(request, tau2).len() == 2 * PAYLOAD_SIZE,
        spec_reply(request, tau2).subrange(0, PAYLOAD_SIZE as int) == request,
        spec_reply(request, tau2).subrange(PAYLOAD_SIZE as int, 2 * PAYLOAD_SIZE) == spec_encode(
            tau2,
        ),
{
}

/// Builds the answer to `request` for the clock reading `tau2`.
///
/// A request of any length but sixteen bytes is refused with
/// `MalformedPacket`, and nothing else is. The request is copied into the
/// answer as it came, never decoded and encoded again.
pub fn reply(request: &[u8], tau2: Timestamp) -> (r: Result<Vec<u8>, Error>)
    ensures
        match r {
            Ok(bytes) => request@.len() == PAYLOAD_SIZE && bytes@ == spec_reply(request@, tau2),
            Err(e) => request@.len() != PAYLOAD_SIZE && e == (Error::MalformedPacket {
                expected: PAYLOAD_SIZE,
                actual: request@.len() as usize,
            }),
        },
        r matches Ok(bytes) ==> bytes@.len() == 2 * PAYLOAD_SIZE && bytes@.subrange(
            0,
            PAYLOAD_SIZE as int,
        ) == request@,
{
    let len: usize = request.len();
    if len != PAYLOAD_SIZE {
        return Err(Error::MalformedPacket { expected: PAYLOAD_SIZE, actual: len });
    }
    let mut bytes: Vec<u8> = slice_to_vec(request);
    let mut stamp: Vec<u8> = encode(tau2);
    bytes.append(&mut stamp);
    proof {
        lemma_reply_echoes_request(request@, tau2);
    }
    Ok(bytes)
}

/// Handles one datagram that arrived on the reflector's socket.
///
/// A datagram of any length but sixteen bytes gives `MalformedPacket` and
/// the clock is not read. Otherwise the clock is read: the result is the
/// answer for that reading, or `ClockUnavailable`.
pub fn reflect(datagram: &[u8]) -> (r: Result<Vec<u8>, Error>)
    ensures
        match r {
            Ok(bytes) => datagram@.len() == PAYLOAD_SIZE && exists|tau2: Timestamp|
                bytes@ == spec_reply(datagram@, tau2),
            Err(e) => if datagram@.len() == PAYLOAD_SIZE {
                e == Error::ClockUnavailable
            } else {
                e == (Error::MalformedPacket {
                    expected: PAYLOAD_SIZE,
                    actual: datagram@.len() as usize,
                })
            },
        },
        r matches Ok(bytes) ==> bytes@.len() == 2 * PAYLOAD_SIZE && bytes@.subrange(
            0,
            PAYLOAD_SIZE as int,
        ) == datagram@,
{
    let len: usize = datagram.len();
    if len != PAYLOAD_SIZE {
        return Err(Error::MalformedPacket { expected: PAYLOAD_SIZE, actual: len });
    }
    match now() {
        Ok(tau2) => reply(datagram, tau2),
        Err(e) => Err(e),
    }
}

} // verus!
