//! What the operations of the client can fail with.

use vstd::prelude::*;

verus! {

/// Why a staging call or a commit was refused.
#[derive(Clone, Copy, Debug, PartialEq, Eq, Structural)]
pub enum CommitError {
    /// The session was torn down before the call.
    NotBound,
    /// The connection can no longer take outgoing messages.
    TransportClosed,
}

/// The compositor does not advertise the interface that was asked for, or
/// only in a lower version.
#[derive(Clone, Copy, Debug, PartialEq, Eq, Structural)]
pub struct ProtocolUnsupported;

/// The connection to the compositor cannot be read or written any more.
#[derive(Clone, Copy, Debug, PartialEq, Eq, Structural)]
pub struct TransportError;

} // verus!
