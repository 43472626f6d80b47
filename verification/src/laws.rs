//! The laws of the contract lifecycle, proved over the same spec
//! transitions the instruction handlers promise in their contracts.
//!
//! A contract changes only through the actions below: a deposit, a
//! release, a refund, or an externally recorded milestone count. Each
//! handler's `ensures` pins its successful result to the matching
//! `action_step`, so what these lemmas prove of every action holds of
//! every state a contract can reach from creation.

use vstd::prelude::*;
use crate::errors::TradeseeError;
use crate::instructions::{
    anchored_record, deposit_ok, deposit_state_ok, deposit_step, refund_ok, refund_step,
    release_err, release_ok, release_ready, release_step, DepositPayin, Refund, ReleasePayout,
};
use crate::state::{contract_wf, Contract, Pubkey, TrustScore};

verus! {

/// One action of the instruction set on a contract record, with the
/// ledger time at which it runs where the action reads the clock.
pub enum ContractAction {
    Deposit { amount: u64, now: i64 },
    Release { now: i64 },
    Refund { now: i64 },
    SetMilestones { completed: u8 },
}

/// The conditions under which an action is accepted, as far as they read
/// the contract record itself.
pub open spec fn action_allowed(c: Contract, a: ContractAction) -> bool {
    match a {
        ContractAction::Deposit { amount, now } => deposit_state_ok(c, amount, now),
        ContractAction::Release { now } => !c.released && !c.refunded && release_ready(c, now),
        ContractAction::Refund { now } => !c.released && !c.refunded && now >= c.expiry_ts
            && !c.auto_release_on_expiry,
        ContractAction::SetMilestones { completed } => completed <= c.milestones_total,
    }
}

/// What an accepted action does to the contract record.
pub open spec fn action_step(c: Contract, a: ContractAction) -> Contract {
    match a {
        ContractAction::Deposit { amount, now } => Contract { updated_at: now, ..c },
        ContractAction::Release { now } => Contract { released: true, updated_at: now, ..c },
        ContractAction::Refund { now } => Contract { refunded: true, updated_at: now, ..c },
        ContractAction::SetMilestones { completed } => Contract {
            milestones_completed: completed,
            ..c
        },
    }
}

/// The host ledger's clock never precedes a record it touches: an action
/// that reads the clock sees a time no earlier than the contract's
/// creation.
pub open spec fn clock_consistent(c: Contract, a: ContractAction) -> bool {
    match a {
        ContractAction::Deposit { amount, now } => now >= c.created_at,
        ContractAction::Release { now } => now >= c.created_at,
        ContractAction::Refund { now } => now >= c.created_at,
        ContractAction::SetMilestones { completed } => true,
    }
}

/// Every accepted action preserves the contract invariant: positive terms,
/// bounded milestone progress, and — in particular — `released` and
/// `refunded` never both true. Together with creation establishing the
/// invariant, every reachable state satisfies it.
pub proof fn lemma_action_preserves_wf(c: Contract, a: ContractAction)
    requires
        contract_wf(c),
        action_allowed(c, a),
        clock_consistent(c, a),
    ensures
        contract_wf(action_step(c, a)),
{
}

/// Terminal flags are permanent: no action, accepted or not, ever clears
/// `released` or `refunded`. Once a contract is terminal it stays so for
/// its lifetime.
pub proof fn lemma_terminal_flags_permanent(c: Contract, a: ContractAction)
    ensures
        c.released ==> action_step(c, a).released,
        c.refunded ==> action_step(c, a).refunded,
{
}

/// A terminal contract accepts no further value movement: once released
/// or refunded, deposit, release and refund are all rejected.
pub proof fn lemma_terminal_blocks_value_movement(c: Contract, a: ContractAction)
    requires
        c.released || c.refunded,
        !(a is SetMilestones),
    ensures
        !action_allowed(c, a),
{
}

/// A contract configured to auto-release on expiry can never reach the
/// refunded state: no accepted action turns `refunded` on while the flag
/// holds, and no action changes the flag.
pub proof fn lemma_auto_release_never_refunded(c: Contract, a: ContractAction)
    requires
        c.auto_release_on_expiry,
        !c.refunded,
        action_allowed(c, a),
    ensures
        !action_step(c, a).refunded,
        action_step(c, a).auto_release_on_expiry,
{
}

/// A successful release is exactly-once: against the contract a release
/// leaves behind, a second release — whatever accounts are handed in with
/// it, as long as the vault matches — is rejected as already released.
pub proof fn lemma_release_once(a: ReleasePayout, now1: i64, b: ReleasePayout, now2: i64)
    requires
        release_ok(a, now1),
        b.contract == release_step(a, now1).contract,
        b.escrow_vault_addr == b.contract.escrow_vault,
    ensures
        !release_ok(b, now2),
        release_err(b, now2) == TradeseeError::AlreadyReleased,
{
}

/// A successful deposit changes only the two balances it moves between
/// and the contract's touch time: the terms, parties and terminal flags
/// are untouched.
pub proof fn lemma_deposit_changes_only_balances(a: DepositPayin, amount: u64, now: i64)
    requires
        deposit_ok(a, amount, now),
    ensures
        deposit_step(a, amount, now).contract == (Contract { updated_at: now, ..a.contract }),
        deposit_step(a, amount, now).contract == action_step(
            a.contract,
            ContractAction::Deposit { amount, now },
        ),
        action_allowed(a.contract, ContractAction::Deposit { amount, now }),
        deposit_step(a, amount, now).buyer_token_account.amount + amount
            == a.buyer_token_account.amount,
        deposit_step(a, amount, now).escrow_vault.amount == a.escrow_vault.amount + amount,
{
}

/// The contract a successful release or refund leaves behind is the
/// matching action's step: the handlers' transitions are the action
/// machine's.
pub proof fn lemma_value_movement_matches_actions(
    a: ReleasePayout,
    b: Refund,
    now: i64,
)
    ensures
        release_ok(a, now) ==> release_step(a, now).contract == action_step(
            a.contract,
            ContractAction::Release { now },
        ) && action_allowed(a.contract, ContractAction::Release { now }),
        refund_ok(b, now) ==> refund_step(b, now).contract == action_step(
            b.contract,
            ContractAction::Refund { now },
        ) && action_allowed(b.contract, ContractAction::Refund { now }),
{
}

/// The contract a sequence of actions leaves behind, each applied in turn.
pub open spec fn run_actions(c: Contract, acts: Seq<ContractAction>) -> Contract
    decreases acts.len(),
{
    if acts.len() == 0 {
        c
    } else {
        run_actions(action_step(c, acts[0]), acts.subrange(1, acts.len() as int))
    }
}

/// Whether a sequence of actions is admissible from `c`: each action in
/// turn is accepted by the state before it and reads a consistent clock.
pub open spec fn trace_admissible(c: Contract, acts: Seq<ContractAction>) -> bool
    decreases acts.len(),
{
    acts.len() == 0 || (action_allowed(c, acts[0]) && clock_consistent(c, acts[0])
        && trace_admissible(action_step(c, acts[0]), acts.subrange(1, acts.len() as int)))
}

/// Every state reachable by admissible actions satisfies the contract
/// invariant: in particular, `released` and `refunded` are never both true
/// in any reachable state.
pub proof fn lemma_reachable_states_wf(c: Contract, acts: Seq<ContractAction>)
    requires
        contract_wf(c),
        trace_admissible(c, acts),
    ensures
        contract_wf(run_actions(c, acts)),
    decreases acts.len(),
{
    if acts.len() > 0 {
        lemma_action_preserves_wf(c, acts[0]);
        lemma_reachable_states_wf(action_step(c, acts[0]), acts.subrange(1, acts.len() as int));
    }
}

/// Once a terminal flag is set it holds for the rest of the contract's
/// lifetime, whatever actions follow.
pub proof fn lemma_terminal_flags_forever(c: Contract, acts: Seq<ContractAction>)
    ensures
        c.released ==> run_actions(c, acts).released,
        c.refunded ==> run_actions(c, acts).refunded,
    decreases acts.len(),
{
    if acts.len() > 0 {
        lemma_terminal_flags_forever(action_step(c, acts[0]), acts.subrange(1, acts.len() as int));
    }
}

/// A contract configured to auto-release on expiry never reaches the
/// refunded state by any admissible sequence of actions: after expiry its
/// funds can only leave through release.
pub proof fn lemma_auto_release_never_refunded_forever(c: Contract, acts: Seq<ContractAction>)
    requires
        c.auto_release_on_expiry,
        !c.refunded,
        trace_admissible(c, acts),
    ensures
        !run_actions(c, acts).refunded,
        run_actions(c, acts).auto_release_on_expiry,
    decreases acts.len(),
{
    if acts.len() > 0 {
        lemma_auto_release_never_refunded(c, acts[0]);
        lemma_auto_release_never_refunded_forever(
            action_step(c, acts[0]),
            acts.subrange(1, acts.len() as int),
        );
    }
}

/// Anchoring a trust score overwrites: the stored record depends on the
/// rater, the counterparty, the score and the time alone, so anchoring
/// the same value twice yields the same stored state except its touch
/// time.
pub proof fn lemma_anchor_latest_wins(
    authority: Pubkey,
    counterparty: Pubkey,
    score: u16,
    now1: i64,
    now2: i64,
)
    ensures
        anchored_record(authority, counterparty, score, now2) == (TrustScore {
            updated_at: now2,
            ..anchored_record(authority, counterparty, score, now1)
        }),
{
}

} // verus!
