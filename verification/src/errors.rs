//! The error taxonomy of the escrow manager. Every operation either fully
//! succeeds or fails with one of these and leaves all state unchanged.

use vstd::prelude::*;

verus! {

/// Why an escrow operation was refused.
#[derive(Clone, Copy, Debug, PartialEq, Eq, Structural)]
pub enum EscrowError {
    /// The caller's identity does not match the required party, or a
    /// required co-signature is missing.
    Authorization,
    /// The job id does not resolve to an existing job.
    NotFound,
    /// The job id already exists, or the requested custody account is
    /// already in use.
    Duplicate,
    /// A transfer would exceed the available balance of the paying account.
    InsufficientFunds,
    /// The operation was attempted on a job in a terminal state.
    InvalidState,
    /// Crediting the receiving account would exceed the largest
    /// representable balance.
    Overflow,
}

} // verus!
