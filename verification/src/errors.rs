//! Error kinds shared by every vault operation.

use vstd::prelude::*;

verus! {

/// Why an operation was refused.  Every check is a precondition evaluated
/// synchronously: a violation aborts the whole operation with no state
/// change.
#[derive(Clone, Copy, PartialEq, Eq, Structural, Debug)]
pub enum ErrorCode {
    /// The caller lacks the required role (owner or guardian).
    Unauthorized,
    /// Malformed vault parameters at creation.
    InvalidThreshold,
    /// The same identity voting twice in one recovery round.
    DuplicateApproval,
    /// An action that needs a pending recovery found none.
    NoActiveRecovery,
    /// A cross-chain payload addressed to a different vault, or one that
    /// does not decode to a recovery message at all.
    InvalidVault,
    /// A stale or mismatched fencing token.
    InvalidRecoveryId,
    /// A guardian stake below the configured minimum.
    InsufficientStake,
    /// A cross-chain message from an origin with no peer binding.
    UnauthorizedSource,
}

} // verus!
