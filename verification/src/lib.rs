//! An escrow-and-job funding ledger.
//!
//! The library covers the instruction protocol and the account-derivation and
//! authorization state machine of the escrow program: the binary codec for the
//! four operations, the deterministic derivation of escrow and job account
//! addresses, and the invariant checks that guard every balance-changing
//! operation. The actual token transfer is an external collaborator: the state
//! machine only decides whether a transfer is permitted and describes it.

pub mod error;
pub mod ids;
pub mod instruction;
pub mod derivation;
pub mod state;
