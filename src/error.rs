//! Failures of the presale operations.
use vstd::prelude::*;

verus! {

/// Every way an operation can fail. A failed operation changes no record.
#[derive(Clone, Copy, Debug, PartialEq, Eq, Structural)]
pub enum PresaleError {
    /// The caller is not the administrator.
    Unauthorized,
    /// A supplied account is not the one its derivation requires.
    AddressMismatch,
    /// A supplied account or stored bump seed disagrees with the derivation
    /// that authorises the operation.
    InvalidSeeds,
    /// No bump seed yields a program address for the seeds.
    DerivationFailed,
    /// The contributor did not sign.
    MissingSignature,
    /// A record account is not owned by the program.
    NotProgramOwned,
    /// The stable-token destination is not the fixed receiver.
    InvalidReceiver,
    /// The purchase window has closed.
    PresaleClosed,
    /// The stable amount is below the minimum purchase.
    BelowMinimum,
    /// The whole allocation is sold.
    SoldOut,
    /// The purchase exceeds what is left of the allocation.
    InsufficientAllocation,
    /// Claims are not open yet.
    UnlockNotStarted,
    /// The contributor has bought nothing.
    NothingPurchased,
    /// The vesting schedule is exhausted.
    ClaimComplete,
    /// No new period has elapsed since the last claim.
    ClaimPeriodZero,
    /// The claim would pay nothing.
    NothingClaimable,
    /// A withdrawal of zero.
    InvalidArgument,
    /// A stored record has the wrong length or breaks its invariant.
    InvalidRecord,
    /// A ledger counter would exceed the range of a 64-bit integer.
    Overflow,
    /// A compiled-in address is not a valid base58 address.
    InvalidConfiguration,
}

} // verus!
