use tradesee_escrow::errors::TradeseeError;
use tradesee_escrow::instructions::{
    anchor_trust_score, deposit_payin, refund, release_payout, set_milestones_completed,
    set_oracle_result, AnchorTrustScore, DepositPayin, Refund, ReleasePayout, SetOracleResult,
};
use tradesee_escrow::ledger::{initialize_contract, InitError, InitializeContract, Ledger};
use tradesee_escrow::state::{Contract, ContractKey, OracleFlag, Pubkey, TokenAccount, TrustScore};

fn id(b: u8) -> Pubkey {
    Pubkey { bytes: [b; 32] }
}

fn sample_contract(auto_release: bool) -> Contract {
    Contract {
        initializer: id(1),
        seller: id(2),
        usdc_mint: id(3),
        escrow_vault: id(4),
        contract_id: [9u8; 32],
        amount_expected: 1000,
        milestones_total: 2,
        milestones_completed: 0,
        auto_release_on_expiry: auto_release,
        expiry_ts: 5000,
        doc_hash: [7u8; 32],
        released: false,
        refunded: false,
        created_at: 100,
        updated_at: 100,
    }
}

fn deposit_accounts(contract: Contract) -> DepositPayin {
    DepositPayin {
        contract,
        buyer: id(1),
        buyer_token_account: TokenAccount { owner: id(1), mint: id(3), amount: 5000 },
        escrow_vault: TokenAccount { owner: id(4), mint: id(3), amount: 0 },
        escrow_vault_addr: id(4),
    }
}

fn release_accounts(contract: Contract, vault_amount: u64) -> ReleasePayout {
    ReleasePayout {
        contract,
        seller_token_account: TokenAccount { owner: id(2), mint: id(3), amount: 0 },
        escrow_vault: TokenAccount { owner: id(4), mint: id(3), amount: vault_amount },
        escrow_vault_addr: id(4),
    }
}

fn refund_accounts(contract: Contract, vault_amount: u64) -> Refund {
    Refund {
        contract,
        buyer_token_account: TokenAccount { owner: id(1), mint: id(3), amount: 0 },
        escrow_vault: TokenAccount { owner: id(4), mint: id(3), amount: vault_amount },
        escrow_vault_addr: id(4),
    }
}

fn init_args() -> InitializeContract {
    InitializeContract { initializer: id(1), usdc_mint: id(3), escrow_vault: id(4) }
}

#[test]
fn initialize_creates_contract_with_invariants() {
    let mut ledger = Ledger::new();
    let r = initialize_contract(
        &mut ledger,
        &init_args(),
        [9u8; 32],
        id(2),
        1000,
        2,
        5000,
        false,
        [7u8; 32],
        100,
    );
    let event = r.expect("valid terms must be accepted");
    assert_eq!(event.initializer, id(1));
    assert_eq!(event.seller, id(2));
    assert_eq!(event.amount_expected, 1000);
    assert_eq!(event.expiry_ts, 5000);
    assert_eq!(ledger.contract_count(), 1);

    let key = ContractKey { initializer: id(1), contract_id: [9u8; 32] };
    let c = *ledger.lookup_contract(&key).expect("created contract must be found");
    assert_eq!(c, sample_contract(false));
    assert!(!c.released && !c.refunded);
    assert_eq!(c.milestones_completed, 0);
    assert!(c.amount_expected > 0);
    assert!(c.milestones_total > 0);
    assert!(c.milestones_completed <= c.milestones_total);
    assert_eq!(c.created_at, 100);
    assert_eq!(c.updated_at, 100);

    let vault = *ledger.lookup_vault(&key).expect("vault must be created beside the contract");
    assert_eq!(vault, TokenAccount { owner: id(4), mint: id(3), amount: 0 });
}

#[test]
fn initialize_rejects_zero_amount() {
    let mut ledger = Ledger::new();
    let r = initialize_contract(
        &mut ledger,
        &init_args(),
        [9u8; 32],
        id(2),
        0,
        2,
        5000,
        false,
        [7u8; 32],
        100,
    );
    assert_eq!(r, Err(InitError::Rejected(TradeseeError::InvalidAmount)));
    assert_eq!(ledger.contract_count(), 0);
}

#[test]
fn initialize_rejects_zero_milestones() {
    let mut ledger = Ledger::new();
    let r = initialize_contract(
        &mut ledger,
        &init_args(),
        [9u8; 32],
        id(2),
        1000,
        0,
        5000,
        false,
        [7u8; 32],
        100,
    );
    assert_eq!(r, Err(InitError::Rejected(TradeseeError::InvalidMilestones)));
    assert_eq!(ledger.contract_count(), 0);
}

#[test]
fn initialize_rejects_expiry_not_in_future() {
    let mut ledger = Ledger::new();
    let r = initialize_contract(
        &mut ledger,
        &init_args(),
        [9u8; 32],
        id(2),
        1000,
        2,
        100,
        false,
        [7u8; 32],
        100,
    );
    assert_eq!(r, Err(InitError::Rejected(TradeseeError::InvalidExpiry)));
    assert_eq!(ledger.contract_count(), 0);
}

#[test]
fn reinitialize_same_key_fails_and_overwrites_nothing() {
    let mut ledger = Ledger::new();
    initialize_contract(
        &mut ledger,
        &init_args(),
        [9u8; 32],
        id(2),
        1000,
        2,
        5000,
        false,
        [7u8; 32],
        100,
    )
    .expect("first creation must succeed");

    // Same (initializer, contract_id) pair, different terms: rejected.
    let r = initialize_contract(
        &mut ledger,
        &init_args(),
        [9u8; 32],
        id(5),
        2222,
        1,
        9000,
        true,
        [8u8; 32],
        200,
    );
    assert_eq!(r, Err(InitError::AddressInUse));
    assert_eq!(ledger.contract_count(), 1);
    let key = ContractKey { initializer: id(1), contract_id: [9u8; 32] };
    let kept = *ledger.lookup_contract(&key).expect("first contract must remain");
    assert_eq!(kept, sample_contract(false));

    // A different contract id derives a different address and is accepted.
    let r2 = initialize_contract(
        &mut ledger,
        &init_args(),
        [10u8; 32],
        id(2),
        1000,
        2,
        5000,
        false,
        [7u8; 32],
        100,
    );
    assert!(r2.is_ok());
    assert_eq!(ledger.contract_count(), 2);
}

#[test]
fn deposit_moves_exact_amount_into_vault() {
    let mut a = deposit_accounts(sample_contract(false));
    let event = deposit_payin(&mut a, 1000, 200).expect("exact deposit must succeed");
    assert_eq!(a.escrow_vault.amount, 1000);
    assert_eq!(a.buyer_token_account.amount, 4000);
    assert_eq!(a.contract.updated_at, 200);
    assert!(!a.contract.released && !a.contract.refunded);
    assert_eq!(event.amount, 1000);
    assert_eq!(event.buyer, id(1));
    assert_eq!(
        event.contract,
        ContractKey { initializer: id(1), contract_id: [9u8; 32] }
    );
}

#[test]
fn deposit_rejects_caller_who_is_not_buyer() {
    let mut a = deposit_accounts(sample_contract(false));
    a.buyer = id(6);
    a.buyer_token_account.owner = id(6);
    let before = a;
    assert_eq!(deposit_payin(&mut a, 1000, 200), Err(TradeseeError::InvalidAuthority));
    assert_eq!(a, before);
}

#[test]
fn deposit_rejects_foreign_funding_account() {
    let mut a = deposit_accounts(sample_contract(false));
    a.buyer_token_account.owner = id(6);
    let before = a;
    assert_eq!(deposit_payin(&mut a, 1000, 200), Err(TradeseeError::InvalidAuthority));
    assert_eq!(a, before);
}

#[test]
fn deposit_rejects_wrong_mint() {
    let mut a = deposit_accounts(sample_contract(false));
    a.buyer_token_account.mint = id(8);
    let before = a;
    assert_eq!(deposit_payin(&mut a, 1000, 200), Err(TradeseeError::WrongMint));
    assert_eq!(a, before);
}

#[test]
fn deposit_rejects_wrong_vault() {
    let mut a = deposit_accounts(sample_contract(false));
    a.escrow_vault_addr = id(8);
    let before = a;
    assert_eq!(deposit_payin(&mut a, 1000, 200), Err(TradeseeError::InvalidAuthority));
    assert_eq!(a, before);
}

#[test]
fn deposit_rejects_amount_mismatch() {
    let mut a = deposit_accounts(sample_contract(false));
    let before = a;
    assert_eq!(deposit_payin(&mut a, 999, 200), Err(TradeseeError::AmountMismatch));
    assert_eq!(a, before);
    assert_eq!(deposit_payin(&mut a, 1001, 200), Err(TradeseeError::AmountMismatch));
    assert_eq!(a, before);
}

#[test]
fn deposit_rejects_at_and_after_expiry() {
    let mut a = deposit_accounts(sample_contract(false));
    let before = a;
    assert_eq!(deposit_payin(&mut a, 1000, 5000), Err(TradeseeError::ContractExpired));
    assert_eq!(a, before);
    assert_eq!(deposit_payin(&mut a, 1000, 6000), Err(TradeseeError::ContractExpired));
    assert_eq!(a, before);
}

#[test]
fn deposit_rejects_terminal_contract() {
    let mut released = sample_contract(false);
    released.released = true;
    let mut a = deposit_accounts(released);
    let before = a;
    assert_eq!(deposit_payin(&mut a, 1000, 200), Err(TradeseeError::AlreadyReleased));
    assert_eq!(a, before);

    let mut refunded = sample_contract(false);
    refunded.refunded = true;
    let mut b = deposit_accounts(refunded);
    let before_b = b;
    assert_eq!(deposit_payin(&mut b, 1000, 200), Err(TradeseeError::AlreadyRefunded));
    assert_eq!(b, before_b);
}

#[test]
fn deposit_rejects_insufficient_buyer_funds() {
    let mut a = deposit_accounts(sample_contract(false));
    a.buyer_token_account.amount = 999;
    let before = a;
    assert_eq!(deposit_payin(&mut a, 1000, 200), Err(TradeseeError::Overflow));
    assert_eq!(a, before);
}

#[test]
fn release_requires_all_milestones() {
    let mut c = sample_contract(false);
    set_milestones_completed(&mut c, 1).expect("within the total");
    let mut a = release_accounts(c, 1000);
    let before = a;
    assert_eq!(release_payout(&mut a, 300), Err(TradeseeError::ReleaseConditionsNotMet));
    assert_eq!(a, before);

    set_milestones_completed(&mut a.contract, 2).expect("within the total");
    let event = release_payout(&mut a, 400).expect("all milestones complete");
    assert!(a.contract.released);
    assert_eq!(a.escrow_vault.amount, 0);
    assert_eq!(a.seller_token_account.amount, 1000);
    assert_eq!(a.contract.updated_at, 400);
    assert_eq!(event.amount, 1000);
    assert_eq!(event.seller, id(2));
}

#[test]
fn release_via_auto_release_after_expiry() {
    let mut a = release_accounts(sample_contract(true), 1000);
    // Before the deadline the milestone condition still gates it.
    assert_eq!(release_payout(&mut a, 4999), Err(TradeseeError::ReleaseConditionsNotMet));
    // At the deadline auto-release makes expiry sufficient.
    let event = release_payout(&mut a, 5000).expect("auto-release at expiry");
    assert!(a.contract.released);
    assert_eq!(a.seller_token_account.amount, 1000);
    assert_eq!(event.amount, 1000);
}

#[test]
fn second_release_always_fails() {
    let mut c = sample_contract(false);
    set_milestones_completed(&mut c, 2).expect("within the total");
    let mut a = release_accounts(c, 1000);
    release_payout(&mut a, 300).expect("first release succeeds");

    let mut again = release_accounts(a.contract, a.escrow_vault.amount);
    let before = again;
    assert_eq!(release_payout(&mut again, 301), Err(TradeseeError::AlreadyReleased));
    assert_eq!(again, before);
}

#[test]
fn release_rejects_wrong_vault() {
    let mut c = sample_contract(false);
    set_milestones_completed(&mut c, 2).expect("within the total");
    let mut a = release_accounts(c, 1000);
    a.escrow_vault_addr = id(8);
    let before = a;
    assert_eq!(release_payout(&mut a, 300), Err(TradeseeError::InvalidAuthority));
    assert_eq!(a, before);
}

#[test]
fn release_rejects_unfunded_vault() {
    let mut c = sample_contract(false);
    set_milestones_completed(&mut c, 2).expect("within the total");
    let mut a = release_accounts(c, 0);
    let before = a;
    assert_eq!(release_payout(&mut a, 300), Err(TradeseeError::Overflow));
    assert_eq!(a, before);
}

#[test]
fn refund_rejects_wrong_vault() {
    let mut a = refund_accounts(sample_contract(false), 1000);
    a.escrow_vault_addr = id(8);
    let before = a;
    assert_eq!(refund(&mut a, 6000), Err(TradeseeError::InvalidAuthority));
    assert_eq!(a, before);
}

#[test]
fn refund_after_expiry_without_auto_release() {
    let mut a = refund_accounts(sample_contract(false), 1000);
    let event = refund(&mut a, 5000).expect("expired without auto-release");
    assert!(a.contract.refunded);
    assert!(!a.contract.released);
    assert_eq!(a.escrow_vault.amount, 0);
    assert_eq!(a.buyer_token_account.amount, 1000);
    assert_eq!(event.amount, 1000);
    assert_eq!(event.buyer, id(1));
}

#[test]
fn refund_rejects_before_expiry() {
    let mut a = refund_accounts(sample_contract(false), 1000);
    let before = a;
    assert_eq!(refund(&mut a, 4999), Err(TradeseeError::NotExpired));
    assert_eq!(a, before);
}

#[test]
fn refund_rejects_auto_release_contract() {
    let mut a = refund_accounts(sample_contract(true), 1000);
    let before = a;
    assert_eq!(refund(&mut a, 6000), Err(TradeseeError::AutoReleaseEnabled));
    assert_eq!(a, before);
}

#[test]
fn released_and_refunded_exclude_each_other() {
    // Release first: a refund against the released contract is rejected.
    let mut c = sample_contract(false);
    set_milestones_completed(&mut c, 2).expect("within the total");
    let mut rel = release_accounts(c, 1000);
    release_payout(&mut rel, 300).expect("release succeeds");
    let mut ref_after = refund_accounts(rel.contract, 0);
    assert_eq!(refund(&mut ref_after, 6000), Err(TradeseeError::AlreadyReleased));
    assert!(rel.contract.released && !rel.contract.refunded);

    // Refund first: a release against the refunded contract is rejected.
    let mut rf = refund_accounts(sample_contract(false), 1000);
    refund(&mut rf, 5000).expect("refund succeeds");
    let mut rel_after = release_accounts(rf.contract, 0);
    set_milestones_completed(&mut rel_after.contract, 2).expect("within the total");
    assert_eq!(release_payout(&mut rel_after, 6000), Err(TradeseeError::AlreadyRefunded));
    assert!(rf.contract.refunded && !rf.contract.released);
}

#[test]
fn milestones_setter_rejects_beyond_total() {
    let mut c = sample_contract(false);
    assert_eq!(set_milestones_completed(&mut c, 3), Err(TradeseeError::InvalidMilestones));
    assert_eq!(c, sample_contract(false));
    set_milestones_completed(&mut c, 2).expect("within the total");
    assert_eq!(c.milestones_completed, 2);
}

#[test]
fn trust_score_accepts_full_range_rejects_above() {
    let mut a = AnchorTrustScore {
        trust_score: TrustScore { authority: id(0), counterparty: id(0), score: 0, updated_at: 0 },
        authority: id(1),
    };
    let ev = anchor_trust_score(&mut a, id(2), 0, 100).expect("zero is in range");
    assert_eq!(ev.score, 0);
    anchor_trust_score(&mut a, id(2), 1000, 110).expect("the upper bound is in range");
    assert_eq!(a.trust_score.score, 1000);
    let before = a;
    assert_eq!(anchor_trust_score(&mut a, id(2), 1001, 120), Err(TradeseeError::InvalidScore));
    assert_eq!(a, before);
}

#[test]
fn trust_score_anchoring_overwrites_idempotently() {
    let mut a = AnchorTrustScore {
        trust_score: TrustScore { authority: id(0), counterparty: id(0), score: 0, updated_at: 0 },
        authority: id(1),
    };
    anchor_trust_score(&mut a, id(2), 700, 100).expect("in range");
    let first = a.trust_score;
    anchor_trust_score(&mut a, id(2), 700, 250).expect("in range");
    let second = a.trust_score;
    // Same value anchored twice: the same stored state except updated_at.
    assert_eq!(TrustScore { updated_at: 0, ..first }, TrustScore { updated_at: 0, ..second });
    assert_eq!(first.updated_at, 100);
    assert_eq!(second.updated_at, 250);
}

#[test]
fn oracle_result_recorded_and_overwritten() {
    let mut a = SetOracleResult {
        contract: sample_contract(false),
        oracle_flag: OracleFlag { shipment_verified: false, updated_by: id(0), updated_at: 0 },
        oracle_authority: id(5),
    };
    let ev = set_oracle_result(&mut a, true, 100).expect("recording never fails");
    assert!(a.oracle_flag.shipment_verified);
    assert_eq!(a.oracle_flag.updated_by, id(5));
    assert_eq!(a.oracle_flag.updated_at, 100);
    assert_eq!(a.contract, sample_contract(false));
    assert!(ev.shipment_verified);

    set_oracle_result(&mut a, false, 200).expect("recording never fails");
    assert!(!a.oracle_flag.shipment_verified);
    assert_eq!(a.oracle_flag.updated_at, 200);
}

#[test]
fn scenario_milestone_release() {
    // Create with one milestone and no auto-release; deposit; a premature
    // release fails; after the milestone is recorded, release pays the
    // seller and the contract is terminal.
    let mut ledger = Ledger::new();
    initialize_contract(
        &mut ledger,
        &init_args(),
        [9u8; 32],
        id(2),
        1000,
        1,
        3600,
        false,
        [7u8; 32],
        0,
    )
    .expect("valid terms");
    let key = ContractKey { initializer: id(1), contract_id: [9u8; 32] };
    let contract = *ledger.lookup_contract(&key).expect("created");
    let vault = *ledger.lookup_vault(&key).expect("created");

    let mut dep = DepositPayin {
        contract,
        buyer: id(1),
        buyer_token_account: TokenAccount { owner: id(1), mint: id(3), amount: 1000 },
        escrow_vault: vault,
        escrow_vault_addr: id(4),
    };
    deposit_payin(&mut dep, 1000, 10).expect("exact amount before expiry");
    assert_eq!(dep.escrow_vault.amount, 1000);

    let mut rel = ReleasePayout {
        contract: dep.contract,
        seller_token_account: TokenAccount { owner: id(2), mint: id(3), amount: 0 },
        escrow_vault: dep.escrow_vault,
        escrow_vault_addr: id(4),
    };
    assert_eq!(release_payout(&mut rel, 20), Err(TradeseeError::ReleaseConditionsNotMet));

    set_milestones_completed(&mut rel.contract, 1).expect("the one milestone");
    release_payout(&mut rel, 30).expect("milestones complete");
    assert!(rel.contract.released);
    assert_eq!(rel.escrow_vault.amount, 0);
    assert_eq!(rel.seller_token_account.amount, 1000);
}

#[test]
fn scenario_auto_release_blocks_refund() {
    // Create with auto-release and a near expiry; deposit; past expiry a
    // refund is rejected, and release succeeds through the expiry route.
    let mut ledger = Ledger::new();
    initialize_contract(
        &mut ledger,
        &init_args(),
        [9u8; 32],
        id(2),
        1000,
        2,
        1,
        true,
        [7u8; 32],
        0,
    )
    .expect("valid terms");
    let key = ContractKey { initializer: id(1), contract_id: [9u8; 32] };
    let contract = *ledger.lookup_contract(&key).expect("created");
    let vault = *ledger.lookup_vault(&key).expect("created");

    let mut dep = DepositPayin {
        contract,
        buyer: id(1),
        buyer_token_account: TokenAccount { owner: id(1), mint: id(3), amount: 1000 },
        escrow_vault: vault,
        escrow_vault_addr: id(4),
    };
    deposit_payin(&mut dep, 1000, 0).expect("before expiry");

    let mut rf = Refund {
        contract: dep.contract,
        buyer_token_account: TokenAccount { owner: id(1), mint: id(3), amount: 0 },
        escrow_vault: dep.escrow_vault,
        escrow_vault_addr: id(4),
    };
    assert_eq!(refund(&mut rf, 2), Err(TradeseeError::AutoReleaseEnabled));

    let mut rel = ReleasePayout {
        contract: rf.contract,
        seller_token_account: TokenAccount { owner: id(2), mint: id(3), amount: 0 },
        escrow_vault: rf.escrow_vault,
        escrow_vault_addr: id(4),
    };
    release_payout(&mut rel, 2).expect("auto-release past expiry");
    assert!(rel.contract.released && !rel.contract.refunded);
    assert_eq!(rel.seller_token_account.amount, 1000);
}

#[test]
fn scenario_expiry_without_auto_release_refunds_buyer() {
    // Create without auto-release and a near expiry; deposit; past expiry
    // with milestones never completed a release fails and a refund returns
    // the funds to the buyer.
    let mut ledger = Ledger::new();
    initialize_contract(
        &mut ledger,
        &init_args(),
        [9u8; 32],
        id(2),
        1000,
        2,
        1,
        false,
        [7u8; 32],
        0,
    )
    .expect("valid terms");
    let key = ContractKey { initializer: id(1), contract_id: [9u8; 32] };
    let contract = *ledger.lookup_contract(&key).expect("created");
    let vault = *ledger.lookup_vault(&key).expect("created");

    let mut dep = DepositPayin {
        contract,
        buyer: id(1),
        buyer_token_account: TokenAccount { owner: id(1), mint: id(3), amount: 1500 },
        escrow_vault: vault,
        escrow_vault_addr: id(4),
    };
    deposit_payin(&mut dep, 1000, 0).expect("before expiry");
    assert_eq!(dep.buyer_token_account.amount, 500);

    let mut rel = ReleasePayout {
        contract: dep.contract,
        seller_token_account: TokenAccount { owner: id(2), mint: id(3), amount: 0 },
        escrow_vault: dep.escrow_vault,
        escrow_vault_addr: id(4),
    };
    assert_eq!(release_payout(&mut rel, 2), Err(TradeseeError::ReleaseConditionsNotMet));

    let mut rf = Refund {
        contract: rel.contract,
        buyer_token_account: dep.buyer_token_account,
        escrow_vault: rel.escrow_vault,
        escrow_vault_addr: id(4),
    };
    refund(&mut rf, 2).expect("expired without auto-release");
    assert!(rf.contract.refunded && !rf.contract.released);
    assert_eq!(rf.escrow_vault.amount, 0);
    assert_eq!(rf.buyer_token_account.amount, 1500);
}
