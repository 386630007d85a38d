//! The failures a bridge call can end in.

use vstd::prelude::*;

verus! {

/// Why a call into the bridge was refused.
///
/// A host that answers with a nonzero status is not an error of the bridge: that outcome is
/// the `false` a well-formed call returns.
#[derive(Clone, Copy, Debug, PartialEq, Eq, Structural)]
pub enum BridgeError {
    /// The process was not started with exactly one positional argument.
    InvalidArgumentCount,
    /// The message handed to the host call is not a binary buffer with a backing store.
    InvalidPayload,
    /// The engine refused a binding at its boundary.
    HostBoundary,
}

} // verus!
