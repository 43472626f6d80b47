//! The error taxonomy: every instruction rejects a bad request
//! synchronously, leaving all records unchanged.

use vstd::prelude::*;

verus! {

/// Why an instruction was rejected. Every precondition is checked before
/// any value movement or state mutation, so a returned error means the
/// instruction had no effect.
#[derive(Clone, Copy, Debug, PartialEq, Eq, Structural)]
pub enum TradeseeError {
    /// The caller, or an account handed in, does not match the role the
    /// instruction requires.
    InvalidAuthority,
    /// A deposit's amount differs from the contract's expected amount.
    AmountMismatch,
    /// The contract's funds were already released to the seller.
    AlreadyReleased,
    /// The contract's funds were already refunded to the buyer.
    AlreadyRefunded,
    /// A refund was requested before the contract's expiry time.
    NotExpired,
    /// Milestones remain open where completion was required.
    NotEnoughMilestones,
    /// A token account's asset type differs from the contract's accepted
    /// mint.
    WrongMint,
    /// Amount accounting would overflow a balance, or the paying account
    /// holds less than the transfer needs.
    Overflow,
    /// A trust score outside the closed range 0 to 1000.
    InvalidScore,
    /// A contract was proposed with a zero expected amount.
    InvalidAmount,
    /// A contract was proposed with zero milestones.
    InvalidMilestones,
    /// A contract was proposed with an expiry not strictly in the future.
    InvalidExpiry,
    /// A deposit arrived at or after the contract's expiry time.
    ContractExpired,
    /// Neither milestone completion nor an eligible auto-release expiry
    /// held when release was requested.
    ReleaseConditionsNotMet,
    /// A refund was requested on a contract configured to auto-release.
    AutoReleaseEnabled,
}

} // verus!
