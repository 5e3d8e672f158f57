//! What can go wrong while handling one datagram.

use vstd::prelude::*;

verus! {

/// A failure of one step of a role.
#[derive(Clone, Copy, Debug, PartialEq, Eq, Structural)]
pub enum Error {
    /// The realtime clock could not be read.
    ClockUnavailable,
    /// A datagram arrived whose length is not the one its role expects.
    MalformedPacket { expected: usize, actual: usize },
    /// A buffer handed to the codec is too short to hold a timestamp.
    MalformedTimestamp,
}

impl Error {
    /// Whether the failure ends the loop it occurred in.
    ///
    /// A datagram of the wrong length is dropped and the loop goes on; every
    /// other failure is final.
    pub open spec fn spec_is_fatal(self) -> bool {
        !(self is MalformedPacket)
    }

    /// Whether the failure ends the loop it occurred in.
    #[verifier::when_used_as_spec(spec_is_fatal)]
    pub fn is_fatal(self) -> (fatal: bool)
        ensures
            fatal == self.spec_is_fatal(),
    {
        match self {
            Error::MalformedPacket { .. } => false,
            _ => true,
        }
    }
}

} // verus!
