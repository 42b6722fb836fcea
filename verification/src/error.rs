//! The error taxonomy of the escrow program.

use vstd::prelude::*;

verus! {

/// Every way an instruction can be rejected. All errors are fatal to the
/// instruction that raised them; nothing is retried.
#[derive(Clone, Copy, Debug, PartialEq, Eq, Structural)]
pub enum EscrowError {
    /// The instruction buffer is empty or shorter than its tag requires.
    TruncatedInstruction,
    /// The first byte of the instruction buffer is not a known tag.
    UnknownInstruction,
    /// A presented account address does not match its expected derivation.
    InvalidDerivedAddress,
    /// The asserted signer is not the stored escrow owner.
    UnauthorizedOwner,
    /// A funding amount of zero was supplied.
    InvalidAmount,
    /// A disbursement would exceed what was funded for the job.
    InsufficientJobBalance,
    /// An escrow account already exists at the derived address.
    EscrowAlreadyInitialized,
    /// The operation needs an initialized escrow account.
    EscrowNotInitialized,
    /// The operation needs an existing job account.
    JobNotFound,
    /// No bump byte yields a derived address for the given seeds.
    DerivationFailure,
    /// A cumulative counter cannot hold the funded amount.
    AmountOverflow,
}

} // verus!
