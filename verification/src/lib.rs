//! Clock offset estimation between two hosts from a three-timestamp
//! datagram exchange.
//!
//! An emitter sends its realtime clock reading to a reflector, the reflector
//! echoes the reading back together with its own, and the estimator on the
//! emitting side derives bounds and a midpoint estimate for the offset between
//! the two clocks. This crate holds the wire format, the per-datagram decisions
//! of the three roles and the offset arithmetic. Sockets and timers belong to
//! the caller.

pub mod timestamp;
pub mod error;
pub mod codec;
pub mod clock;
pub mod estimator;
pub mod reflector;
pub mod emitter;
