//! The notifications an instruction emits on success, carrying the facts an
//! observer of the ledger needs to follow a trade.

use vstd::prelude::*;
use crate::state::{ContractKey, Pubkey};

verus! {

/// A contract was created: its derived key, the parties, and the terms.
#[derive(Clone, Copy, Debug, PartialEq, Eq)]
pub struct ContractInitialized {
    pub contract: ContractKey,
    pub initializer: Pubkey,
    pub seller: Pubkey,
    pub amount_expected: u64,
    pub expiry_ts: i64,
}

/// The buyer funded the vault with exactly the expected amount.
#[derive(Clone, Copy, Debug, PartialEq, Eq)]
pub struct PayinDeposited {
    pub contract: ContractKey,
    pub amount: u64,
    pub buyer: Pubkey,
}

/// The vault's balance was paid out to the seller.
#[derive(Clone, Copy, Debug, PartialEq, Eq)]
pub struct PayoutReleased {
    pub contract: ContractKey,
    pub amount: u64,
    pub seller: Pubkey,
}

/// The vault's balance was returned to the buyer.
#[derive(Clone, Copy, Debug, PartialEq, Eq)]
pub struct Refunded {
    pub contract: ContractKey,
    pub amount: u64,
    pub buyer: Pubkey,
}

/// A reputation score was recorded for a (rater, counterparty) pair.
#[derive(Clone, Copy, Debug, PartialEq, Eq)]
pub struct TrustScoreAnchored {
    pub authority: Pubkey,
    pub counterparty: Pubkey,
    pub score: u16,
}

/// An oracle attestation was recorded for a contract.
#[derive(Clone, Copy, Debug, PartialEq, Eq)]
pub struct OracleUpdated {
    pub contract: ContractKey,
    pub shipment_verified: bool,
    pub updated_by: Pubkey,
}

} // verus!
