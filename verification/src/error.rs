//! What can go wrong.

use vstd::prelude::*;

verus! {

/// The ways in which an operation on a handle can fail.
#[derive(Clone, Copy, Debug, PartialEq, Eq, Structural)]
pub enum AnybarError {
    /// The port given at construction is no UDP port.
    InvalidPort,
    /// The datagram could not be handed over for transmission.
    TransportError,
}

} // verus!
