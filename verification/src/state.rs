//! The persisted records: contracts, token accounts, trust scores and
//! oracle flags, with the invariants that every transition must keep.

use vstd::prelude::*;

verus! {

/// A 32-byte identity on the ledger: a party, a mint, or the derived
/// address of a record.
#[derive(Clone, Copy, Debug, PartialEq, Eq)]
pub struct Pubkey {
    pub bytes: [u8; 32],
}

/// The seed material from which a contract's address is derived: the
/// address is a pure function of the initializer and the 32-byte
/// contract id, so at most one live contract exists per pair.
#[derive(Clone, Copy, Debug, PartialEq, Eq)]
pub struct ContractKey {
    pub initializer: Pubkey,
    pub contract_id: [u8; 32],
}

/// A custodial balance of one fungible asset. The escrow vault is such an
/// account whose authority is the vault's own derived address, never a
/// human key.
#[derive(Clone, Copy, Debug, PartialEq, Eq)]
pub struct TokenAccount {
    pub owner: Pubkey,
    pub mint: Pubkey,
    pub amount: u64,
}

/// The authoritative state of one escrow trade: created once, mutated in
/// place, never deleted.
#[derive(Clone, Copy, Debug, PartialEq, Eq)]
pub struct Contract {
    pub initializer: Pubkey,
    pub seller: Pubkey,
    pub usdc_mint: Pubkey,
    pub escrow_vault: Pubkey,
    pub contract_id: [u8; 32],
    pub amount_expected: u64,
    pub milestones_total: u8,
    pub milestones_completed: u8,
    pub auto_release_on_expiry: bool,
    pub expiry_ts: i64,
    pub doc_hash: [u8; 32],
    pub released: bool,
    pub refunded: bool,
    pub created_at: i64,
    pub updated_at: i64,
}

/// A reputation score in 0..=1000 recorded by one party about another,
/// independent of any contract. Latest write wins.
#[derive(Clone, Copy, Debug, PartialEq, Eq)]
pub struct TrustScore {
    pub authority: Pubkey,
    pub counterparty: Pubkey,
    pub score: u16,
    pub updated_at: i64,
}

/// An advisory attestation about a contract's fulfilment, recorded but
/// never consulted by the release path.
#[derive(Clone, Copy, Debug, PartialEq, Eq)]
pub struct OracleFlag {
    pub shipment_verified: bool,
    pub updated_by: Pubkey,
    pub updated_at: i64,
}

/// The invariant every contract satisfies after every transition: positive
/// terms, milestone progress within bounds, terminal flags mutually
/// exclusive, and a touch time no earlier than creation.
pub open spec fn contract_wf(c: Contract) -> bool {
    &&& c.amount_expected > 0
    &&& c.milestones_total > 0
    &&& c.milestones_completed <= c.milestones_total
    &&& !(c.released && c.refunded)
    &&& c.updated_at >= c.created_at
}

/// The seed material of a contract's derived address.
pub open spec fn contract_key(c: Contract) -> ContractKey {
    ContractKey { initializer: c.initializer, contract_id: c.contract_id }
}

/// Equality of two 32-byte values, byte for byte.
pub fn bytes32_eq(a: &[u8; 32], b: &[u8; 32]) -> (r: bool)
    ensures
        r <==> *a == *b,
{
    let mut i: usize = 0;
    while i < 32
        invariant
            0 <= i <= 32,
            forall|j: int| 0 <= j < i ==> a@[j] == b@[j],
        decreases 32 - i,
    {
        if a[i] != b[i] {
            proof {
                assert(a@[i as int] != b@[i as int]);
            }
            return false;
        }
        i = i + 1;
    }
    proof {
        assert(*a =~= *b);
    }
    true
}

/// Equality of two ledger identities.
pub fn pubkey_eq(a: &Pubkey, b: &Pubkey) -> (r: bool)
    ensures
        r <==> *a == *b,
{
    bytes32_eq(&a.bytes, &b.bytes)
}

/// Equality of two contract keys: same initializer and same contract id.
pub fn contract_key_eq(a: &ContractKey, b: &ContractKey) -> (r: bool)
    ensures
        r <==> *a == *b,
{
    pubkey_eq(&a.initializer, &b.initializer) && bytes32_eq(&a.contract_id, &b.contract_id)
}

} // verus!
