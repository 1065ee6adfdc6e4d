//! Verified core of a Milight/LimitlessLED control interface.
//!
//! The library resolves symbolic lighting actions to the single-byte
//! opcodes of the bridge's radio protocol, frames each opcode as a
//! three-byte command packet, and schedules transmissions so that two
//! consecutive sends from one dispatcher are spaced by at least the
//! minimum interval the radio link tolerates. Datagram transport and
//! the wall clock live outside the library; callers hand in clock
//! readings and carry the packets to the network.

use vstd::prelude::*;

pub mod action;
pub mod dispatch;
pub mod opcode;

pub use action::Action;
pub use action::parse_action;
pub use dispatch::Connection;
pub use dispatch::GroupWhite;
pub use dispatch::MIN_INTERVAL_NS;
pub use dispatch::TransmitStep;
pub use opcode::MAX_GROUP;
pub use opcode::packet_for;
pub use opcode::resolve_opcode;

verus! {

/// Failure of the command-resolution core.
///
/// Transport failures are the caller's: the library never touches the
/// network, so the only error it can produce is a resolution gap.
#[derive(Clone, Copy, Debug, PartialEq, Eq, Structural)]
pub enum MciError {
    /// The requested (action, group) pair is not in the opcode table,
    /// or an action name is outside the action set.
    UnknownAction,
}

} // verus!
