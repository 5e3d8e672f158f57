//! The estimator: from a reflected datagram and the time of its arrival to
//! the bounds and the midpoint estimate of the offset between the two clocks.

use vstd::prelude::*;
use crate::clock::now;
use crate::codec::{decode_at, lemma_decode_encode, spec_decode, spec_encode, PAYLOAD_SIZE};
use crate::error::Error;
use crate::reflector::spec_reply;
use crate::timestamp::Timestamp;

verus! {

/// Bytes in a reflected datagram: the request and the reflector's timestamp.
pub const REFLECTED_PAYLOAD_SIZE: usize = 32;

/// Half of `x`, rounded toward zero.
pub open spec fn half(x: int) -> int {
    if x >= 0 {
        x / 2
    } else {
        -((-x) / 2)
    }
}

/// The least offset the exchange allows, in nanoseconds: the reflector
/// stamped the request no earlier than it was sent.
pub open spec fn spec_offset_min(t1: Timestamp, tau2: Timestamp) -> int {
    t1.spec_total() - tau2.spec_total()
}

/// The greatest offset the exchange allows, in nanoseconds: the reflector
/// stamped the request no later than the reply arrived.
pub open spec fn spec_offset_max(tau2: Timestamp, t3: Timestamp) -> int {
    t3.spec_total() - tau2.spec_total()
}

/// The offset estimate, in nanoseconds: the middle of the round trip, rounded
/// toward zero, against the reflector's stamp.
pub open spec fn spec_offset(t1: Timestamp, tau2: Timestamp, t3: Timestamp) -> int {
    half(t1.spec_total() + t3.spec_total()) - tau2.spec_total()
}

/// One completed exchange and what follows from it.
///
/// `t1` is when the request left, `tau2` is the reflector's clock when it
/// answered, `t3` is when the answer arrived. The three offsets are in
/// nanoseconds, each the emitter's clock less the reflector's.
#[derive(Clone, Copy, Debug, PartialEq, Eq, Structural)]
pub struct OffsetSample {
    pub t1: Timestamp,
    pub tau2: Timestamp,
    pub t3: Timestamp,
    pub offset_min: i128,
    pub offset_max: i128,
    pub offset: i128,
}

impl OffsetSample {
    /// The three offsets are the ones that follow from the three timestamps.
    pub open spec fn wf(self) -> bool {
        &&& self.offset_min == spec_offset_min(self.t1, self.tau2)
        &&& self.offset_max == spec_offset_max(self.tau2, self.t3)
        &&& self.offset == spec_offset(self.t1, self.tau2, self.t3)
    }

    /// The sample of the exchange `t1`, `tau2`, `t3`.
    pub open spec fn spec_new(t1: Timestamp, tau2: Timestamp, t3: Timestamp) -> OffsetSample {
        OffsetSample {
            t1,
            tau2,
            t3,
            offset_min: spec_offset_min(t1, tau2) as i128,
            offset_max: spec_offset_max(tau2, t3) as i128,
            offset: spec_offset(t1, tau2, t3) as i128,
        }
    }

    /// The sample of the exchange `t1`, `tau2`, `t3`.
    pub fn new(t1: Timestamp, tau2: Timestamp, t3: Timestamp) -> (sample: OffsetSample)
        ensures
            sample == Self::spec_new(t1, tau2, t3),
            sample.wf(),
    {
        let sent: i128 = t1.total();
        let reflected: i128 = tau2.total();
        let received: i128 = t3.total();
        OffsetSample {
            t1,
            tau2,
            t3,
            offset_min: sent - reflected,
            offset_max: received - reflected,
            offset: (sent + received) / 2 - reflected,
        }
    }

    /// Whether the midpoint of the two bounds is a whole number of
    /// nanoseconds, or is rounded the same way as the middle of the round
    /// trip is.
    pub open spec fn midpoint_is_exact(self) -> bool {
        let round_trip = self.t1.spec_total() + self.t3.spec_total();
        let bounds = self.offset_min + self.offset_max;
        round_trip % 2 == 0 || (round_trip > 0 <==> bounds > 0)
    }
}

/// Every exchange has a sample, and its offsets fit in 128 bits unchanged.
pub proof fn lemma_sample_wf(t1: Timestamp, tau2: Timestamp, t3: Timestamp)
    ensures
        OffsetSample::spec_new(t1, tau2, t3).wf(),
{
}

/// When the request left no later than the reply arrived, the estimate lies
/// between the two bounds.
pub proof fn lemma_offset_within_bounds(sample: OffsetSample)
    requires
        sample.wf(),
        sample.t1.spec_total() <= sample.t3.spec_total(),
    ensures
        sample.offset_min <= sample.offset <= sample.offset_max,
{
}

/// The estimate is the midpoint of the two bounds, halved as the estimate
/// itself is, wherever that midpoint is exact.
pub proof fn lemma_offset_is_midpoint(sample: OffsetSample)
    requires
        sample.wf(),
        sample.midpoint_is_exact(),
    ensures
        sample.offset == half(sample.offset_min + sample.offset_max),
{
}

/// Twice the estimate is within one nanosecond of the sum of the two bounds,
/// and equal to it exactly when the round trip is an even number of
/// nanoseconds. The estimate is the halved sum only where
/// `midpoint_is_exact` holds.
pub proof fn lemma_offset_near_midpoint(sample: OffsetSample)
    requires
        sample.wf(),
    ensures
        -1 <= sample.offset_min + sample.offset_max - 2 * sample.offset <= 1,
        2 * sample.offset == sample.offset_min + sample.offset_max <==> (sample.t1.spec_total()
            + sample.t3.spec_total()) % 2 == 0,
        sample.offset == half(sample.offset_min + sample.offset_max)
            <==> sample.midpoint_is_exact(),
{
}

/// What a datagram that arrived at `t3` gives: the sample of its exchange,
/// or `MalformedPacket` when it is not thirty-two bytes long.
///
/// The first sixteen bytes are read as `t1`, the request as it was sent and
/// echoed, and the last sixteen as `tau2`.
pub open spec fn spec_estimate(reply: Seq<u8>, t3: Timestamp) -> Result<OffsetSample, Error> {
    if reply.len() == REFLECTED_PAYLOAD_SIZE {
        Ok(
            OffsetSample::spec_new(
                spec_decode(reply.subrange(0, 16)),
                spec_decode(reply.subrange(16, 32)),
                t3,
            ),
        )
    } else {
        Err(Error::MalformedPacket { expected: REFLECTED_PAYLOAD_SIZE, actual: reply.len() as usize })
    }
}

/// A request stamped `t1`, answered when the reflector's clock read `tau2`
/// and received back at `t3` gives the sample of these three readings: what
/// the estimator reads from the answer is what the two ends wrote.
pub proof fn lemma_exchange(t1: Timestamp, tau2: Timestamp, t3: Timestamp)
    ensures
        spec_estimate(spec_reply(spec_encode(t1), tau2), t3) == Ok::<OffsetSample, Error>(
            OffsetSample::spec_new(t1, tau2, t3),
        ),
{
    let answer = spec_reply(spec_encode(t1), tau2);
    lemma_decode_encode(t1);
    lemma_decode_encode(tau2);
    assert(answer.subrange(0, 16) =~= spec_encode(t1));
    assert(answer.subrange(16, 32) =~= spec_encode(tau2));
}

/// Computes the sample of the exchange that `reply` closes, given the time
/// `t3` at which it arrived.
///
/// A datagram of any length but thirty-two bytes is refused with
/// `MalformedPacket`, and nothing else is.
pub fn estimate(reply: &[u8], t3: Timestamp) -> (r: Result<OffsetSample, Error>)
    ensures
        r == spec_estimate(reply@, t3),
        r matches Ok(sample) ==> sample.wf() && sample.t3 == t3,
        r is Ok <==> reply@.len() == REFLECTED_PAYLOAD_SIZE,
{
    let len: usize = reply.len();
    if len != REFLECTED_PAYLOAD_SIZE {
        return Err(Error::MalformedPacket { expected: REFLECTED_PAYLOAD_SIZE, actual: len });
    }
    let t1 = decode_at(reply, 0);
    let tau2 = decode_at(reply, PAYLOAD_SIZE);
    Ok(OffsetSample::new(t1, tau2, t3))
}

/// Handles one datagram that arrived on the emitter's socket.
///
/// A datagram of any length but thirty-two bytes gives `MalformedPacket` and
/// the clock is not read. Otherwise the clock is read at once for the time of
/// arrival, `t3`: the result is the sample that `estimate` gives for that
/// reading, or `ClockUnavailable`.
pub fn receive(datagram: &[u8]) -> (r: Result<OffsetSample, Error>)
    ensures
        match r {
            Ok(sample) => r == spec_estimate(datagram@, sample.t3),
            Err(e) => if datagram@.len() == REFLECTED_PAYLOAD_SIZE {
                e == Error::ClockUnavailable
            } else {
                e == (Error::MalformedPacket {
                    expected: REFLECTED_PAYLOAD_SIZE,
                    actual: datagram@.len() as usize,
                })
            },
        },
        r matches Ok(sample) ==> sample.wf() && datagram@.len() == REFLECTED_PAYLOAD_SIZE,
{
    let len: usize = datagram.len();
    if len != REFLECTED_PAYLOAD_SIZE {
        return Err(Error::MalformedPacket { expected: REFLECTED_PAYLOAD_SIZE, actual: len });
    }
    match now() {
        Ok(t3) => estimate(datagram, t3),
        Err(e) => Err(e),
    }
}

} // verus!
