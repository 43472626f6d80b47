//! The keyed record space for contracts: every contract lives at an
//! address derived purely from its initializer and contract id, so
//! creation is exactly-once per key and needs no central registry.

use vstd::prelude::*;
use crate::errors::TradeseeError;
use crate::events::ContractInitialized;
use crate::state::{
    contract_key, contract_key_eq, contract_wf, Contract, ContractKey, Pubkey, TokenAccount,
};

verus! {

/// A contract together with its derived key and its vault: the vault is
/// created empty beside the contract, its authority the vault's own
/// derived address, never a human key.
#[derive(Clone, Copy, Debug, PartialEq, Eq)]
pub struct ContractEntry {
    pub key: ContractKey,
    pub contract: Contract,
    pub vault: TokenAccount,
}

/// The accounts a creation touches: the buyer's authenticated identity,
/// the asset type the contract accepts, and the derived address the new
/// vault will live at.
#[derive(Clone, Copy, Debug, PartialEq, Eq)]
pub struct InitializeContract {
    pub initializer: Pubkey,
    pub usdc_mint: Pubkey,
    pub escrow_vault: Pubkey,
}

/// Why a creation was rejected: either the derived address is already in
/// use, or a term of the proposed contract is invalid.
#[derive(Clone, Copy, Debug, PartialEq, Eq)]
pub enum InitError {
    /// A contract already exists for this (initializer, contract id) pair:
    /// creation never silently overwrites.
    AddressInUse,
    /// A term of the proposed contract was rejected.
    Rejected(TradeseeError),
}

/// Whether the proposed terms are valid: a positive amount, at least one
/// milestone, and an expiry strictly in the future.
pub open spec fn init_terms_ok(
    amount_expected: u64,
    milestones_total: u8,
    expiry_ts: i64,
    now: i64,
) -> bool {
    amount_expected > 0 && milestones_total > 0 && expiry_ts > now
}

/// The error invalid terms report: the first failing check, in the order
/// the checks are made.
pub open spec fn init_terms_err(
    amount_expected: u64,
    milestones_total: u8,
    expiry_ts: i64,
    now: i64,
) -> TradeseeError {
    if amount_expected == 0 {
        TradeseeError::InvalidAmount
    } else if milestones_total == 0 {
        TradeseeError::InvalidMilestones
    } else {
        TradeseeError::InvalidExpiry
    }
}

/// The freshly created contract: terms as proposed, no milestone yet
/// complete, both terminal flags false, both timestamps the creation time.
pub open spec fn init_contract_record(
    accounts: InitializeContract,
    contract_id: [u8; 32],
    seller: Pubkey,
    amount_expected: u64,
    milestones_total: u8,
    expiry_ts: i64,
    auto_release_on_expiry: bool,
    doc_hash: [u8; 32],
    now: i64,
) -> Contract {
    Contract {
        initializer: accounts.initializer,
        seller,
        usdc_mint: accounts.usdc_mint,
        escrow_vault: accounts.escrow_vault,
        contract_id,
        amount_expected,
        milestones_total,
        milestones_completed: 0,
        auto_release_on_expiry,
        expiry_ts,
        doc_hash,
        released: false,
        refunded: false,
        created_at: now,
        updated_at: now,
    }
}

/// The ledger's contract records, one entry per derived address.
pub struct Ledger {
    pub contracts: Vec<ContractEntry>,
}

impl Ledger {
    /// The ledger's invariant: derived addresses are unique, every stored
    /// contract satisfies the contract invariant, and each entry's key is
    /// the one derived from its contract's own fields.
    pub open spec fn wf(self) -> bool {
        &&& forall|i: int, j: int|
            0 <= i < j < self.contracts@.len() ==> self.contracts@[i].key != self.contracts@[j].key
        &&& forall|i: int|
            0 <= i < self.contracts@.len() ==> contract_wf(#[trigger] self.contracts@[i].contract)
        &&& forall|i: int|
            0 <= i < self.contracts@.len() ==> #[trigger] self.contracts@[i].key == contract_key(
                self.contracts@[i].contract,
            )
    }

    /// Whether a contract already lives at the address derived from `k`.
    pub open spec fn key_used(self, k: ContractKey) -> bool {
        exists|i: int| 0 <= i < self.contracts@.len() && #[trigger] self.contracts@[i].key == k
    }

    /// An empty ledger.
    pub fn new() -> (r: Ledger)
        ensures
            r.wf(),
            r.contracts@.len() == 0,
    {
        Ledger { contracts: Vec::new() }
    }

    /// The index of the entry at the address derived from `k`, if one
    /// exists.
    fn find(&self, k: &ContractKey) -> (r: Option<usize>)
        ensures
            match r {
                Some(i) => 0 <= i < self.contracts@.len() && self.contracts@[i as int].key == *k,
                None => !self.key_used(*k),
            },
    {
        let n = self.contracts.len();
        let mut i: usize = 0;
        while i < n
            invariant
                n == self.contracts@.len(),
                0 <= i <= n,
                forall|j: int| 0 <= j < i ==> self.contracts@[j].key != *k,
            decreases n - i,
        {
            if contract_key_eq(&self.contracts[i].key, k) {
                return Some(i);
            }
            i = i + 1;
        }
        None
    }

    /// The contract at the address derived from `k`, if one exists.
    pub fn lookup_contract(&self, k: &ContractKey) -> (r: Option<&Contract>)
        ensures
            r is Some <==> self.key_used(*k),
            match r {
                Some(c) => exists|i: int|
                    0 <= i < self.contracts@.len() && #[trigger] self.contracts@[i].key == *k
                        && self.contracts@[i].contract == *c,
                None => true,
            },
    {
        match self.find(k) {
            Some(i) => Some(&self.contracts[i].contract),
            None => None,
        }
    }

    /// The vault beside the contract at the address derived from `k`, if
    /// one exists.
    pub fn lookup_vault(&self, k: &ContractKey) -> (r: Option<&TokenAccount>)
        ensures
            r is Some <==> self.key_used(*k),
            match r {
                Some(v) => exists|i: int|
                    0 <= i < self.contracts@.len() && #[trigger] self.contracts@[i].key == *k
                        && self.contracts@[i].vault == *v,
                None => true,
            },
    {
        match self.find(k) {
            Some(i) => Some(&self.contracts[i].vault),
            None => None,
        }
    }

    /// How many contracts the ledger holds.
    pub fn contract_count(&self) -> (r: usize)
        ensures
            r == self.contracts@.len(),
    {
        self.contracts.len()
    }
}

/// Create a new escrow contract and its empty vault.
///
/// Succeeds exactly when no contract lives at the derived address yet, the
/// amount is positive, at least one milestone is configured, and the
/// expiry lies strictly in the future. On success the new entry is
/// appended: the contract with the proposed terms, no milestone complete,
/// both terminal flags false, both timestamps `now`; the vault empty, of
/// the accepted mint, its authority its own derived address. On failure
/// the ledger is unchanged — an address collision never overwrites.
pub fn initialize_contract(
    ledger: &mut Ledger,
    accounts: &InitializeContract,
    contract_id: [u8; 32],
    seller: Pubkey,
    amount_expected: u64,
    milestones_total: u8,
    expiry_ts: i64,
    auto_release_on_expiry: bool,
    doc_hash: [u8; 32],
    now: i64,
) -> (r: Result<ContractInitialized, InitError>)
    requires
        old(ledger).wf(),
    ensures
        final(ledger).wf(),
        r is Ok <==> (!old(ledger).key_used(
            ContractKey { initializer: accounts.initializer, contract_id },
        ) && init_terms_ok(amount_expected, milestones_total, expiry_ts, now)),
        r is Ok ==> {
            let key = ContractKey { initializer: accounts.initializer, contract_id };
            let c = init_contract_record(
                *accounts,
                contract_id,
                seller,
                amount_expected,
                milestones_total,
                expiry_ts,
                auto_release_on_expiry,
                doc_hash,
                now,
            );
            &&& final(ledger).contracts@ == old(ledger).contracts@.push(
                ContractEntry {
                    key,
                    contract: c,
                    vault: TokenAccount {
                        owner: accounts.escrow_vault,
                        mint: accounts.usdc_mint,
                        amount: 0,
                    },
                },
            )
            &&& final(ledger).key_used(key)
            &&& contract_wf(c)
            &&& !c.released && !c.refunded
            &&& r == Ok::<_, InitError>(ContractInitialized {
                contract: key,
                initializer: accounts.initializer,
                seller,
                amount_expected,
                expiry_ts,
            })
        },
        r is Err ==> *final(ledger) == *old(ledger) && r == Err::<ContractInitialized, _>(
            if old(ledger).key_used(ContractKey { initializer: accounts.initializer, contract_id }) {
                InitError::AddressInUse
            } else {
                InitError::Rejected(
                    init_terms_err(amount_expected, milestones_total, expiry_ts, now),
                )
            },
        ),
{
    let key = ContractKey { initializer: accounts.initializer, contract_id };
    if ledger.find(&key).is_some() {
        return Err(InitError::AddressInUse);
    }
    if amount_expected == 0 {
        return Err(InitError::Rejected(TradeseeError::InvalidAmount));
    }
    if milestones_total == 0 {
        return Err(InitError::Rejected(TradeseeError::InvalidMilestones));
    }
    if expiry_ts <= now {
        return Err(InitError::Rejected(TradeseeError::InvalidExpiry));
    }
    let contract = Contract {
        initializer: accounts.initializer,
        seller,
        usdc_mint: accounts.usdc_mint,
        escrow_vault: accounts.escrow_vault,
        contract_id,
        amount_expected,
        milestones_total,
        milestones_completed: 0,
        auto_release_on_expiry,
        expiry_ts,
        doc_hash,
        released: false,
        refunded: false,
        created_at: now,
        updated_at: now,
    };
    let vault = TokenAccount { owner: accounts.escrow_vault, mint: accounts.usdc_mint, amount: 0 };
    let entry = ContractEntry { key, contract, vault };
    ledger.contracts.push(entry);
    proof {
        let n = old(ledger).contracts@.len() as int;
        assert(ledger.contracts@[n].key == key);
    }
    let event = ContractInitialized {
        contract: ContractKey { initializer: accounts.initializer, contract_id },
        initializer: accounts.initializer,
        seller,
        amount_expected,
        expiry_ts,
    };
    Ok(event)
}

} // verus!
