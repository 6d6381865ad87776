//! The error taxonomy of the escrow program.
//!
//! Every failed invocation aborts as a whole and reports exactly one of these
//! kinds; no partial effect of a failed invocation is ever kept.

use vstd::prelude::*;

verus! {

/// One error kind per way an Open or Settle invocation can be refused.
#[derive(Clone, Copy, Debug, PartialEq, Eq, Structural)]
pub enum EscrowError {
    /// The instruction bytes are shorter than nine bytes or carry an
    /// unknown opcode.
    InvalidInstruction,
    /// The escrow record's storage is funded below the host's
    /// rent-exemption minimum.
    NotRentExempt,
    /// The holding account's actual balance differs from the amount the
    /// settling caller asserted.
    ExpectedAmountMismatch,
    /// Adding reclaimed rent to a balance would overflow, or a transfer
    /// would overflow the destination balance.
    Overflow,
    /// A principal that had to co-sign the invocation did not sign it.
    MissingSigner,
    /// An account that must live in the custody service's namespace is
    /// owned by some other program.
    IncorrectOwner,
    /// An account reference does not match the escrow record, or supplied
    /// account bytes do not decode.
    InvalidAccountData,
    /// Open was invoked on a record that already holds a live offer.
    AlreadyInitialized,
    /// Settle was invoked on a record slot that holds no offer.
    UninitializedAccount,
    /// No program-derived authority exists for this program identity.
    InvalidSeeds,
    /// A transfer asked for more than the source account holds.
    InsufficientFunds,
    /// A custody operation was authorized by something other than the
    /// account's current authority.
    AuthorityMismatch,
    /// A holding account was asked to close while still holding assets.
    NonZeroBalance,
}

} // verus!
