//! The ledger instructions that move a trade through its lifecycle:
//! deposit, release, refund, and the trust-score and oracle side channels.
//!
//! Each handler takes the records the host ledger hands in, the caller's
//! authenticated identity where a role is required, and the current ledger
//! time. Every precondition is checked before any mutation: on an error the
//! records are returned byte for byte unchanged, and the contract states
//! exactly which error comes on which inputs.

use vstd::prelude::*;
use crate::errors::TradeseeError;
use crate::events::{OracleUpdated, PayinDeposited, PayoutReleased, Refunded, TrustScoreAnchored};
use crate::state::{
    contract_key, pubkey_eq, Contract, ContractKey, OracleFlag, Pubkey, TokenAccount, TrustScore,
};

verus! {

/// The accounts a deposit touches: the contract, the buyer's funding
/// account, and the contract's vault together with the address it was
/// handed in under.
#[derive(Clone, Copy, Debug, PartialEq, Eq)]
pub struct DepositPayin {
    pub contract: Contract,
    pub buyer: Pubkey,
    pub buyer_token_account: TokenAccount,
    pub escrow_vault: TokenAccount,
    pub escrow_vault_addr: Pubkey,
}

/// The accounts a release touches: the contract, the seller's payout
/// destination, and the vault with its address.
#[derive(Clone, Copy, Debug, PartialEq, Eq)]
pub struct ReleasePayout {
    pub contract: Contract,
    pub seller_token_account: TokenAccount,
    pub escrow_vault: TokenAccount,
    pub escrow_vault_addr: Pubkey,
}

/// The accounts a refund touches: the contract, the buyer's return
/// destination, and the vault with its address.
#[derive(Clone, Copy, Debug, PartialEq, Eq)]
pub struct Refund {
    pub contract: Contract,
    pub buyer_token_account: TokenAccount,
    pub escrow_vault: TokenAccount,
    pub escrow_vault_addr: Pubkey,
}

/// The record a trust-score anchoring touches, with the rater's identity.
#[derive(Clone, Copy, Debug, PartialEq, Eq)]
pub struct AnchorTrustScore {
    pub trust_score: TrustScore,
    pub authority: Pubkey,
}

/// The records an oracle update touches, with the attesting identity.
#[derive(Clone, Copy, Debug, PartialEq, Eq)]
pub struct SetOracleResult {
    pub contract: Contract,
    pub oracle_flag: OracleFlag,
    pub oracle_authority: Pubkey,
}

/// Whether a balance movement of `amount` from `from` to `to` is feasible:
/// the source covers it and the destination has headroom.
pub open spec fn transfer_feasible(from: TokenAccount, to: TokenAccount, amount: u64) -> bool {
    from.amount >= amount && to.amount + amount <= u64::MAX
}

/// The value-transfer service on the modelled balances: moves `amount`
/// from one account to the other, all or nothing.
pub fn transfer(from: &mut TokenAccount, to: &mut TokenAccount, amount: u64) -> (r: Result<
    (),
    TradeseeError,
>)
    ensures
        r is Ok <==> transfer_feasible(*old(from), *old(to), amount),
        r is Ok ==> *final(from) == (TokenAccount {
            amount: (old(from).amount - amount) as u64,
            ..*old(from)
        }) && *final(to) == (TokenAccount {
            amount: (old(to).amount + amount) as u64,
            ..*old(to)
        }),
        r is Err ==> *final(from) == *old(from) && *final(to) == *old(to) && r == Err::<
            (),
            TradeseeError,
        >(TradeseeError::Overflow),
{
    if from.amount < amount {
        return Err(TradeseeError::Overflow);
    }
    if amount > u64::MAX - to.amount {
        return Err(TradeseeError::Overflow);
    }
    from.amount = from.amount - amount;
    to.amount = to.amount + amount;
    Ok(())
}

/// The role and account checks a deposit must pass: the caller is the
/// recorded buyer, the funding account is the buyer's and of the accepted
/// mint, and the vault is the contract's recorded vault.
pub open spec fn deposit_auth_ok(a: DepositPayin) -> bool {
    &&& a.contract.initializer == a.buyer
    &&& a.buyer_token_account.owner == a.buyer
    &&& a.buyer_token_account.mint == a.contract.usdc_mint
    &&& a.escrow_vault_addr == a.contract.escrow_vault
}

/// The lifecycle checks a deposit must pass: the contract is non-terminal,
/// the amount matches exactly, and the deadline has not passed.
pub open spec fn deposit_state_ok(c: Contract, amount: u64, now: i64) -> bool {
    &&& !c.released
    &&& !c.refunded
    &&& amount == c.amount_expected
    &&& now < c.expiry_ts
}

/// All conditions under which a deposit succeeds.
pub open spec fn deposit_ok(a: DepositPayin, amount: u64, now: i64) -> bool {
    &&& deposit_auth_ok(a)
    &&& deposit_state_ok(a.contract, amount, now)
    &&& transfer_feasible(a.buyer_token_account, a.escrow_vault, amount)
}

/// The error a failing deposit reports: the first check that fails, in the
/// order the checks are made.
pub open spec fn deposit_err(a: DepositPayin, amount: u64, now: i64) -> TradeseeError {
    if a.contract.initializer != a.buyer {
        TradeseeError::InvalidAuthority
    } else if a.buyer_token_account.owner != a.buyer {
        TradeseeError::InvalidAuthority
    } else if a.buyer_token_account.mint != a.contract.usdc_mint {
        TradeseeError::WrongMint
    } else if a.escrow_vault_addr != a.contract.escrow_vault {
        TradeseeError::InvalidAuthority
    } else if a.contract.released {
        TradeseeError::AlreadyReleased
    } else if a.contract.refunded {
        TradeseeError::AlreadyRefunded
    } else if amount != a.contract.amount_expected {
        TradeseeError::AmountMismatch
    } else if now >= a.contract.expiry_ts {
        TradeseeError::ContractExpired
    } else {
        TradeseeError::Overflow
    }
}

/// The accounts after a successful deposit: the amount moves from the
/// buyer's account into the vault, the contract's touch time becomes `now`,
/// and nothing else changes.
pub open spec fn deposit_step(a: DepositPayin, amount: u64, now: i64) -> DepositPayin {
    DepositPayin {
        contract: Contract { updated_at: now, ..a.contract },
        buyer_token_account: TokenAccount {
            amount: (a.buyer_token_account.amount - amount) as u64,
            ..a.buyer_token_account
        },
        escrow_vault: TokenAccount {
            amount: (a.escrow_vault.amount + amount) as u64,
            ..a.escrow_vault
        },
        ..a
    }
}

/// Deposit the expected amount into the escrow vault.
///
/// Succeeds exactly when the caller is the recorded buyer, the funding
/// account is the buyer's and of the accepted mint, the vault is the
/// contract's, the contract is non-terminal, the amount equals the
/// expected amount, the deadline has not passed, and the balance movement
/// is feasible. On failure every account is unchanged and the error names
/// the first failing check.
pub fn deposit_payin(a: &mut DepositPayin, amount: u64, now: i64) -> (r: Result<
    PayinDeposited,
    TradeseeError,
>)
    ensures
        r is Ok <==> deposit_ok(*old(a), amount, now),
        r is Ok ==> *final(a) == deposit_step(*old(a), amount, now) && r == Ok::<
            _,
            TradeseeError,
        >(PayinDeposited {
            contract: contract_key(old(a).contract),
            amount,
            buyer: old(a).buyer,
        }),
        r is Err ==> *final(a) == *old(a) && r == Err::<PayinDeposited, _>(
            deposit_err(*old(a), amount, now),
        ),
{
    if !pubkey_eq(&a.contract.initializer, &a.buyer) {
        return Err(TradeseeError::InvalidAuthority);
    }
    if !pubkey_eq(&a.buyer_token_account.owner, &a.buyer) {
        return Err(TradeseeError::InvalidAuthority);
    }
    if !pubkey_eq(&a.buyer_token_account.mint, &a.contract.usdc_mint) {
        return Err(TradeseeError::WrongMint);
    }
    if !pubkey_eq(&a.escrow_vault_addr, &a.contract.escrow_vault) {
        return Err(TradeseeError::InvalidAuthority);
    }
    if a.contract.released {
        return Err(TradeseeError::AlreadyReleased);
    }
    if a.contract.refunded {
        return Err(TradeseeError::AlreadyRefunded);
    }
    if amount != a.contract.amount_expected {
        return Err(TradeseeError::AmountMismatch);
    }
    if now >= a.contract.expiry_ts {
        return Err(TradeseeError::ContractExpired);
    }
    transfer(&mut a.buyer_token_account, &mut a.escrow_vault, amount)?;
    a.contract.updated_at = now;
    let event = PayinDeposited {
        contract: ContractKey {
            initializer: a.contract.initializer,
            contract_id: a.contract.contract_id,
        },
        amount,
        buyer: a.buyer,
    };
    Ok(event)
}

/// Whether the contract's release condition holds at `now`: all milestones
/// complete, or auto-release enabled and the deadline reached.
pub open spec fn release_ready(c: Contract, now: i64) -> bool {
    c.milestones_completed == c.milestones_total || (c.auto_release_on_expiry && now
        >= c.expiry_ts)
}

/// All conditions under which a release succeeds.
pub open spec fn release_ok(a: ReleasePayout, now: i64) -> bool {
    &&& a.escrow_vault_addr == a.contract.escrow_vault
    &&& !a.contract.released
    &&& !a.contract.refunded
    &&& release_ready(a.contract, now)
    &&& transfer_feasible(a.escrow_vault, a.seller_token_account, a.contract.amount_expected)
}

/// The error a failing release reports.
pub open spec fn release_err(a: ReleasePayout, now: i64) -> TradeseeError {
    if a.escrow_vault_addr != a.contract.escrow_vault {
        TradeseeError::InvalidAuthority
    } else if a.contract.released {
        TradeseeError::AlreadyReleased
    } else if a.contract.refunded {
        TradeseeError::AlreadyRefunded
    } else if !release_ready(a.contract, now) {
        TradeseeError::ReleaseConditionsNotMet
    } else {
        TradeseeError::Overflow
    }
}

/// The accounts after a successful release: the full expected amount moves
/// from the vault to the seller's destination, `released` flips to true,
/// and the touch time becomes `now`.
pub open spec fn release_step(a: ReleasePayout, now: i64) -> ReleasePayout {
    ReleasePayout {
        contract: Contract { released: true, updated_at: now, ..a.contract },
        escrow_vault: TokenAccount {
            amount: (a.escrow_vault.amount - a.contract.amount_expected) as u64,
            ..a.escrow_vault
        },
        seller_token_account: TokenAccount {
            amount: (a.seller_token_account.amount + a.contract.amount_expected) as u64,
            ..a.seller_token_account
        },
        ..a
    }
}

/// Release the vault's funds to the seller.
///
/// Succeeds exactly when the vault is the contract's, the contract is
/// non-terminal, and either every milestone is complete or auto-release is
/// enabled and the deadline reached; the vault must cover the expected
/// amount and the destination have headroom. Any caller may invoke it: the
/// state alone gates it. On failure every account is unchanged.
pub fn release_payout(a: &mut ReleasePayout, now: i64) -> (r: Result<
    PayoutReleased,
    TradeseeError,
>)
    ensures
        r is Ok <==> release_ok(*old(a), now),
        r is Ok ==> *final(a) == release_step(*old(a), now) && r == Ok::<_, TradeseeError>(
            PayoutReleased {
                contract: contract_key(old(a).contract),
                amount: old(a).contract.amount_expected,
                seller: old(a).contract.seller,
            },
        ),
        r is Err ==> *final(a) == *old(a) && r == Err::<PayoutReleased, _>(
            release_err(*old(a), now),
        ),
{
    if !pubkey_eq(&a.escrow_vault_addr, &a.contract.escrow_vault) {
        return Err(TradeseeError::InvalidAuthority);
    }
    if a.contract.released {
        return Err(TradeseeError::AlreadyReleased);
    }
    if a.contract.refunded {
        return Err(TradeseeError::AlreadyRefunded);
    }
    let can_release = a.contract.milestones_completed == a.contract.milestones_total || (
    a.contract.auto_release_on_expiry && now >= a.contract.expiry_ts);
    if !can_release {
        return Err(TradeseeError::ReleaseConditionsNotMet);
    }
    transfer(&mut a.escrow_vault, &mut a.seller_token_account, a.contract.amount_expected)?;
    a.contract.released = true;
    a.contract.updated_at = now;
    let event = PayoutReleased {
        contract: ContractKey {
            initializer: a.contract.initializer,
            contract_id: a.contract.contract_id,
        },
        amount: a.contract.amount_expected,
        seller: a.contract.seller,
    };
    Ok(event)
}

/// All conditions under which a refund succeeds: the refund path exists
/// only for contracts configured to not auto-release.
pub open spec fn refund_ok(a: Refund, now: i64) -> bool {
    &&& a.escrow_vault_addr == a.contract.escrow_vault
    &&& !a.contract.released
    &&& !a.contract.refunded
    &&& now >= a.contract.expiry_ts
    &&& !a.contract.auto_release_on_expiry
    &&& transfer_feasible(a.escrow_vault, a.buyer_token_account, a.contract.amount_expected)
}

/// The error a failing refund reports.
pub open spec fn refund_err(a: Refund, now: i64) -> TradeseeError {
    if a.escrow_vault_addr != a.contract.escrow_vault {
        TradeseeError::InvalidAuthority
    } else if a.contract.released {
        TradeseeError::AlreadyReleased
    } else if a.contract.refunded {
        TradeseeError::AlreadyRefunded
    } else if now < a.contract.expiry_ts {
        TradeseeError::NotExpired
    } else if a.contract.auto_release_on_expiry {
        TradeseeError::AutoReleaseEnabled
    } else {
        TradeseeError::Overflow
    }
}

/// The accounts after a successful refund: the full expected amount moves
/// from the vault back to the buyer's destination, `refunded` flips to
/// true, and the touch time becomes `now`.
pub open spec fn refund_step(a: Refund, now: i64) -> Refund {
    Refund {
        contract: Contract { refunded: true, updated_at: now, ..a.contract },
        escrow_vault: TokenAccount {
            amount: (a.escrow_vault.amount - a.contract.amount_expected) as u64,
            ..a.escrow_vault
        },
        buyer_token_account: TokenAccount {
            amount: (a.buyer_token_account.amount + a.contract.amount_expected) as u64,
            ..a.buyer_token_account
        },
        ..a
    }
}

/// Return the vault's funds to the buyer after an expiry without
/// auto-release.
///
/// Succeeds exactly when the vault is the contract's, the contract is
/// non-terminal, the deadline has been reached, and auto-release is off;
/// the vault must cover the expected amount and the destination have
/// headroom. Any caller may invoke it: the state alone gates it. On
/// failure every account is unchanged.
pub fn refund(a: &mut Refund, now: i64) -> (r: Result<Refunded, TradeseeError>)
    ensures
        r is Ok <==> refund_ok(*old(a), now),
        r is Ok ==> *final(a) == refund_step(*old(a), now) && r == Ok::<_, TradeseeError>(
            Refunded {
                contract: contract_key(old(a).contract),
                amount: old(a).contract.amount_expected,
                buyer: old(a).contract.initializer,
            },
        ),
        r is Err ==> *final(a) == *old(a) && r == Err::<Refunded, _>(refund_err(*old(a), now)),
{
    if !pubkey_eq(&a.escrow_vault_addr, &a.contract.escrow_vault) {
        return Err(TradeseeError::InvalidAuthority);
    }
    if a.contract.released {
        return Err(TradeseeError::AlreadyReleased);
    }
    if a.contract.refunded {
        return Err(TradeseeError::AlreadyRefunded);
    }
    if now < a.contract.expiry_ts {
        return Err(TradeseeError::NotExpired);
    }
    if a.contract.auto_release_on_expiry {
        return Err(TradeseeError::AutoReleaseEnabled);
    }
    transfer(&mut a.escrow_vault, &mut a.buyer_token_account, a.contract.amount_expected)?;
    a.contract.refunded = true;
    a.contract.updated_at = now;
    let event = Refunded {
        contract: ContractKey {
            initializer: a.contract.initializer,
            contract_id: a.contract.contract_id,
        },
        amount: a.contract.amount_expected,
        buyer: a.contract.initializer,
    };
    Ok(event)
}

/// Record externally verified milestone progress on a contract.
///
/// Milestone completion is tracked by the surrounding system, not decided
/// here: this records the count, and rejects one that exceeds the
/// configured total. The release condition reads the recorded count.
pub fn set_milestones_completed(c: &mut Contract, completed: u8) -> (r: Result<(), TradeseeError>)
    ensures
        r is Ok <==> completed <= old(c).milestones_total,
        r is Ok ==> *final(c) == (Contract { milestones_completed: completed, ..*old(c) }),
        r is Err ==> *final(c) == *old(c) && r == Err::<(), _>(TradeseeError::InvalidMilestones),
{
    if completed > c.milestones_total {
        return Err(TradeseeError::InvalidMilestones);
    }
    c.milestones_completed = completed;
    Ok(())
}

/// The trust record after an anchoring at `now`: it depends on the rater,
/// the counterparty, the score and the time alone, never on what was
/// recorded before — latest write wins.
pub open spec fn anchored_record(
    authority: Pubkey,
    counterparty: Pubkey,
    score: u16,
    now: i64,
) -> TrustScore {
    TrustScore { authority, counterparty, score, updated_at: now }
}

/// Record a reputation score for a counterparty.
///
/// Succeeds exactly when the score lies in the closed range 0 to 1000; the
/// stored record is then a pure function of the rater, the counterparty,
/// the score and the time, overwriting any prior value. On failure the
/// record is unchanged.
pub fn anchor_trust_score(
    a: &mut AnchorTrustScore,
    counterparty: Pubkey,
    score: u16,
    now: i64,
) -> (r: Result<TrustScoreAnchored, TradeseeError>)
    ensures
        r is Ok <==> score <= 1000,
        r is Ok ==> final(a).trust_score == anchored_record(
            old(a).authority,
            counterparty,
            score,
            now,
        ) && final(a).authority == old(a).authority && r == Ok::<_, TradeseeError>(
            TrustScoreAnchored { authority: old(a).authority, counterparty, score },
        ),
        r is Err ==> *final(a) == *old(a) && r == Err::<TrustScoreAnchored, _>(
            TradeseeError::InvalidScore,
        ),
{
    if score > 1000 {
        return Err(TradeseeError::InvalidScore);
    }
    a.trust_score = TrustScore {
        authority: a.authority,
        counterparty,
        score,
        updated_at: now,
    };
    let event = TrustScoreAnchored { authority: a.authority, counterparty, score };
    Ok(event)
}

/// Record an oracle attestation for a contract.
///
/// Always succeeds: any caller able to sign may attest, and the flag is
/// advisory — the release path never consults it. The stored record is a
/// pure function of the attestation, the caller and the time, overwriting
/// any prior value; the contract itself is untouched.
pub fn set_oracle_result(a: &mut SetOracleResult, shipment_verified: bool, now: i64) -> (r: Result<
    OracleUpdated,
    TradeseeError,
>)
    ensures
        r is Ok,
        final(a).oracle_flag == (OracleFlag {
            shipment_verified,
            updated_by: old(a).oracle_authority,
            updated_at: now,
        }),
        final(a).contract == old(a).contract,
        final(a).oracle_authority == old(a).oracle_authority,
        r == Ok::<_, TradeseeError>(OracleUpdated {
            contract: contract_key(old(a).contract),
            shipment_verified,
            updated_by: old(a).oracle_authority,
        }),
{
    a.oracle_flag = OracleFlag {
        shipment_verified,
        updated_by: a.oracle_authority,
        updated_at: now,
    };
    let event = OracleUpdated {
        contract: ContractKey {
            initializer: a.contract.initializer,
            contract_id: a.contract.contract_id,
        },
        shipment_verified,
        updated_by: a.oracle_authority,
    };
    Ok(event)
}

} // verus!
