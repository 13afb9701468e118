//! What holds of the ledger and the registry whatever is asked of them.
//!
//! Each law is stated over the mathematical values of the ledger and the
//! registry and over the functions that say what each operation makes of
//! them, and is proved from those.

use vstd::prelude::*;
use crate::identity::Identity;
use crate::errors::LedgerError;
use crate::rules::{CommitmentRules, SECONDS_PER_DAY};
use crate::commitment::{Commitment, CommitmentStatus};
use crate::allocation::{Allocation, lemma_recorded_sum_push};
use crate::percent::loss_percent_of;
use crate::transfer::{TransferOutcome, or_failed};
use crate::registry_state::RegistryState;
use crate::token::OwnershipToken;
use crate::ledger_state::{LedgerState, closed_token};

verus! {

/// A commitment that has just been made can be looked up under the id that
/// making it returned; it is active, worth its principal, and expires
/// `duration_days` days after it was made. The ledger stays valid.
pub proof fn law_created_commitment(
    ledger: LedgerState,
    registry: RegistryState,
    owner: Identity,
    amount: i128,
    asset: Identity,
    rules: CommitmentRules,
    now: u64,
)
    requires
        ledger.valid(),
        ledger.commitments.len() < u64::MAX,
        ledger.create_refusal(registry, amount, rules, now) is None,
    ensures
        ({
            let made = ledger.created_commitment(registry, owner, amount, asset, rules, now);
            let after = ledger.after_create(made);
            &&& after.valid()
            &&& after.has_commitment(made.commitment_id)
            &&& after.commitment(made.commitment_id) == made
            &&& made.commitment_id == ledger.commitments.len() + 1
            &&& made.status == CommitmentStatus::Active
            &&& made.current_value == amount
            &&& made.created_at == now
            &&& made.expires_at == now + rules.duration_days * SECONDS_PER_DAY
            &&& made.expires_at > made.created_at
        }),
{
}

/// The loss lies in the same direction as the value: a lower value never has
/// a lower loss.
pub proof fn law_loss_grows_as_value_falls(amount: int, value: int, lower: int)
    requires
        lower <= value,
    ensures
        loss_percent_of(amount, lower) >= loss_percent_of(amount, value),
{
    if amount > 0 {
        vstd::arithmetic::div_mod::lemma_div_is_ordered(
            (amount - value) * 100,
            (amount - lower) * 100,
            amount,
        );
    }
}

/// At the loss boundary: an active commitment that has not expired and whose
/// loss is exactly the maximal loss is not in violation. With one unit of
/// value less it is, provided that this unit takes the loss to another
/// percent.
pub proof fn law_loss_boundary(at_limit: Commitment, below: Commitment, now: u64)
    requires
        at_limit.status == CommitmentStatus::Active,
        now < at_limit.expires_at,
        at_limit.exact_loss_percent() == at_limit.rules.max_loss_percent,
        below == (Commitment { current_value: (at_limit.current_value - 1) as i128, ..at_limit }),
        at_limit.current_value > i128::MIN,
        below.exact_loss_percent() != at_limit.exact_loss_percent(),
    ensures
        !at_limit.violated_at(now),
        below.violated_at(now),
{
    law_loss_grows_as_value_falls(
        at_limit.amount as int,
        at_limit.current_value as int,
        below.current_value as int,
    );
}

/// At the duration boundary: at the expiry time the duration is violated; one
/// second earlier it is not.
pub proof fn law_duration_boundary(commitment: Commitment)
    ensures
        commitment.expired_at(commitment.expires_at),
        commitment.expires_at > 0 ==> !commitment.expired_at((commitment.expires_at - 1) as u64),
        commitment.status == CommitmentStatus::Active ==> commitment.violated_at(
            commitment.expires_at,
        ),
{
}

/// A commitment without principal has no loss and never violates its maximal
/// loss, whatever it is worth.
pub proof fn law_no_principal_no_loss(commitment: Commitment)
    requires
        commitment.amount <= 0,
    ensures
        commitment.exact_loss_percent() == 0,
        !commitment.loss_exceeded(),
{
}

/// A commitment that has left the active state is never in violation.
pub proof fn law_resolved_commitment_reports_no_violation(commitment: Commitment, now: u64)
    requires
        commitment.status != CommitmentStatus::Active,
    ensures
        !commitment.violated_at(now),
        !commitment.details_at(now).has_violation,
{
}

/// One request to place value with a target or to take it back, with the
/// outcome of its transfer.
pub enum AllocationCall {
    Allocate {
        caller: Identity,
        commitment_id: u64,
        target: Identity,
        amount: i128,
        now: u64,
        transfer: TransferOutcome,
    },
    Deallocate {
        caller: Identity,
        commitment_id: u64,
        target: Identity,
        amount: i128,
        now: u64,
        transfer: TransferOutcome,
    },
}

/// The ledger after one request: changed as the request says where it is
/// granted, unchanged where it is refused.
pub open spec fn after_call(ledger: LedgerState, call: AllocationCall) -> LedgerState {
    match call {
        AllocationCall::Allocate { caller, commitment_id, target, amount, now, transfer } => {
            if or_failed(ledger.allocation_refusal(caller, commitment_id, amount), transfer)
                is None {
                ledger.after_allocate(commitment_id, target, amount, now)
            } else {
                ledger
            }
        },
        AllocationCall::Deallocate { caller, commitment_id, target, amount, now, transfer } => {
            if or_failed(ledger.deallocation_refusal(caller, commitment_id, amount), transfer)
                is None {
                ledger.after_deallocate(commitment_id, target, amount, now)
            } else {
                ledger
            }
        },
    }
}

/// The ledger after a sequence of requests, made one after the other.
pub open spec fn after_calls(ledger: LedgerState, calls: Seq<AllocationCall>) -> LedgerState
    decreases calls.len(),
{
    if calls.len() == 0 {
        ledger
    } else {
        after_call(after_calls(ledger, calls.drop_last()), calls.last())
    }
}

/// One request to place or take back value keeps the ledger valid and leaves
/// the commitments as they are.
pub proof fn law_allocation_call_keeps_valid(ledger: LedgerState, call: AllocationCall)
    requires
        ledger.valid(),
    ensures
        after_call(ledger, call).valid(),
        after_call(ledger, call).commitments == ledger.commitments,
{
    let after = after_call(ledger, call);
    match call {
        AllocationCall::Allocate { caller, commitment_id, target, amount, now, transfer } => {
            if or_failed(ledger.allocation_refusal(caller, commitment_id, amount), transfer)
                is None {
                let at = commitment_id - 1;
                let record = Allocation { commitment_id, target_pool: target, amount, timestamp: now };
                assert(ledger.trackings[at].fits((at + 1) as u64, ledger.commitments[at].amount));
                lemma_recorded_sum_push(ledger.trackings[at].allocations, record);
                assert forall|i: int| 0 <= i < after.trackings.len() implies (
                #[trigger] after.trackings[i]).fits((i + 1) as u64, after.commitments[i].amount) by {
                    if i != at {
                        assert(after.trackings[i] == ledger.trackings[i]);
                    }
                }
            }
        },
        AllocationCall::Deallocate { caller, commitment_id, target, amount, now, transfer } => {
            if or_failed(ledger.deallocation_refusal(caller, commitment_id, amount), transfer)
                is None {
                let at = commitment_id - 1;
                assert(ledger.trackings[at].fits((at + 1) as u64, ledger.commitments[at].amount));
                assert forall|i: int| 0 <= i < after.trackings.len() implies (
                #[trigger] after.trackings[i]).fits((i + 1) as u64, after.commitments[i].amount) by {
                    if i != at {
                        assert(after.trackings[i] == ledger.trackings[i]);
                    }
                }
            }
        },
    }
}

/// Whatever sequence of requests to place value and to take it back is made,
/// granted or refused, what a commitment has allocated is never negative and
/// never more than its principal.
pub proof fn law_allocated_within_principal(
    ledger: LedgerState,
    calls: Seq<AllocationCall>,
    commitment_id: u64,
)
    requires
        ledger.valid(),
        ledger.has_commitment(commitment_id),
    ensures
        after_calls(ledger, calls).valid(),
        after_calls(ledger, calls).commitments == ledger.commitments,
        0 <= after_calls(ledger, calls).tracking(commitment_id).total_allocated
            <= ledger.commitment(commitment_id).amount,
    decreases calls.len(),
{
    if calls.len() > 0 {
        law_allocated_within_principal(ledger, calls.drop_last(), commitment_id);
        law_allocation_call_keeps_valid(after_calls(ledger, calls.drop_last()), calls.last());
    }
    let after = after_calls(ledger, calls);
    assert(after.trackings[commitment_id - 1].fits(
        ((commitment_id - 1) + 1) as u64,
        after.commitments[commitment_id - 1].amount,
    ));
}

/// A request to place value by a caller who is not an authorized allocator is
/// refused as unauthorized, whatever else holds of it.
pub proof fn law_unauthorized_allocation_is_refused(
    ledger: LedgerState,
    caller: Identity,
    commitment_id: u64,
    amount: i128,
    transfer: TransferOutcome,
)
    requires
        !ledger.allocators.contains(caller),
    ensures
        or_failed(ledger.allocation_refusal(caller, commitment_id, amount), transfer) == Some(
            LedgerError::Unauthorized,
        ),
        or_failed(ledger.deallocation_refusal(caller, commitment_id, amount), transfer) == Some(
            LedgerError::Unauthorized,
        ),
{
}

/// Settlement fires once: after a commitment has been settled, every further
/// request to settle it is refused as already settled, whatever the time, the
/// registry and the outcome of the transfer.
pub proof fn law_settlement_fires_once(
    ledger: LedgerState,
    registry: RegistryState,
    commitment_id: u64,
    now: u64,
    later_registry: RegistryState,
    later: u64,
    later_transfer: TransferOutcome,
)
    requires
        ledger.valid(),
        ledger.settlement_refusal(registry, commitment_id, now) is None,
    ensures
        ledger.after_settle(commitment_id, now).valid(),
        or_failed(
            ledger.after_settle(commitment_id, now).settlement_refusal(
                later_registry,
                commitment_id,
                later,
            ),
            later_transfer,
        ) == Some(LedgerError::AlreadySettled),
{
}

/// A settled commitment stays settled: whatever its state otherwise, a request
/// to settle it is refused as already settled, and so is a request of its
/// owner to leave it early.
pub proof fn law_settled_is_final(
    ledger: LedgerState,
    registry: RegistryState,
    commitment_id: u64,
    now: u64,
)
    requires
        ledger.has_commitment(commitment_id),
        ledger.commitment(commitment_id).status == CommitmentStatus::Settled,
    ensures
        ledger.settlement_refusal(registry, commitment_id, now) == Some(
            LedgerError::AlreadySettled,
        ),
        ledger.exit_refusal(registry, commitment_id, ledger.commitment(commitment_id).owner)
            == Some(LedgerError::AlreadySettled),
{
}

/// A token is deactivated once: after a ledger has closed a token, the token
/// is inactive, every further deactivation is refused, and closing it again
/// changes nothing and announces nothing.
pub proof fn law_token_closes_once(
    registry: RegistryState,
    token_id: u32,
    now: u64,
    caller: Identity,
    later: u64,
)
    requires
        registry.valid(),
        registry.has_token(token_id),
    ensures
        ({
            let closed = closed_token(registry, token_id, now);
            &&& closed.valid()
            &&& closed.has_token(token_id)
            &&& !closed.token(token_id).active
            &&& closed.settle_refusal(token_id, later) == Some(LedgerError::AlreadySettled)
            &&& closed.mark_settled_refusal(caller, token_id) is Some
            &&& closed_token(closed, token_id, later) == closed
        }),
{
}

/// The token follows the commitment: once a commitment has been settled, its
/// token is inactive and every transfer of it is refused.
pub proof fn law_settlement_closes_token(
    ledger: LedgerState,
    registry: RegistryState,
    commitment_id: u64,
    now: u64,
    transfer: TransferOutcome,
    caller: Identity,
)
    requires
        registry.valid(),
        or_failed(ledger.settlement_refusal(registry, commitment_id, now), transfer) is None,
    ensures
        ({
            let token_id = ledger.commitment(commitment_id).nft_token_id;
            let closed = closed_token(registry, token_id, now);
            &&& closed.has_token(token_id)
            &&& !closed.token(token_id).active
            &&& closed.transfer_refusal(caller, token_id) is Some
        }),
{
}

/// The token follows the commitment: once the owner has left a commitment
/// early, its token is inactive and every transfer of it is refused.
pub proof fn law_early_exit_closes_token(
    ledger: LedgerState,
    registry: RegistryState,
    commitment_id: u64,
    owner: Identity,
    now: u64,
    transfer: TransferOutcome,
    caller: Identity,
)
    requires
        registry.valid(),
        or_failed(ledger.exit_refusal(registry, commitment_id, owner), transfer) is None,
    ensures
        ({
            let token_id = ledger.commitment(commitment_id).nft_token_id;
            let closed = closed_token(registry, token_id, now);
            &&& closed.has_token(token_id)
            &&& !closed.token(token_id).active
            &&& closed.transfer_refusal(caller, token_id) is Some
        }),
{
}

/// An inactive token stays inactive: no operation of the registry grants a
/// transfer of it or activates it again.
pub proof fn law_inactive_token_is_final(
    registry: RegistryState,
    token_id: u32,
    caller: Identity,
    now: u64,
)
    requires
        registry.has_token(token_id),
        !registry.token(token_id).active,
    ensures
        registry.transfer_refusal(caller, token_id) is Some,
        registry.settle_refusal(token_id, now) == Some(LedgerError::AlreadySettled),
        registry.mark_settled_refusal(caller, token_id) is Some,
{
}

/// The states that a commitment reaches from the active state are final: no
/// granted operation of the ledger, on this commitment or on another, changes
/// the status of a commitment that is no longer active.
pub proof fn law_final_status_is_kept(
    ledger: LedgerState,
    registry: RegistryState,
    commitment_id: u64,
    other_id: u64,
    caller: Identity,
    target: Identity,
    amount: i128,
    now: u64,
)
    requires
        ledger.valid(),
        ledger.has_commitment(commitment_id),
        ledger.commitment(commitment_id).status != CommitmentStatus::Active,
    ensures
        ledger.update_refusal(caller, other_id) is None ==> ledger.after_update(
            other_id,
            amount,
        ).commitment(commitment_id).status == ledger.commitment(commitment_id).status,
        ledger.allocation_refusal(caller, other_id, amount) is None ==> ledger.after_allocate(
            other_id,
            target,
            amount,
            now,
        ).commitment(commitment_id) == ledger.commitment(commitment_id),
        ledger.deallocation_refusal(caller, other_id, amount) is None ==> ledger.after_deallocate(
            other_id,
            target,
            amount,
            now,
        ).commitment(commitment_id) == ledger.commitment(commitment_id),
        ledger.settlement_refusal(registry, other_id, now) is None ==> ledger.after_settle(
            other_id,
            now,
        ).commitment(commitment_id) == ledger.commitment(commitment_id),
        ledger.exit_refusal(registry, other_id, caller) is None ==> ledger.after_exit(
            other_id,
            now,
        ).commitment(commitment_id) == ledger.commitment(commitment_id),
{
}

/// Making a commitment mints exactly one token, and the two are bound to each
/// other: the commitment names the token, and the token names the commitment
/// and carries its owner and its terms.
pub proof fn law_created_commitment_has_its_token(
    ledger: LedgerState,
    registry: RegistryState,
    owner: Identity,
    amount: i128,
    asset: Identity,
    rules: CommitmentRules,
    now: u64,
)
    requires
        registry.valid(),
        registry.tokens.len() < u32::MAX,
        ledger.commitments.len() < u64::MAX,
        ledger.create_refusal(registry, amount, rules, now) is None,
    ensures
        ({
            let made = ledger.created_commitment(registry, owner, amount, asset, rules, now);
            let token = registry.minted_token(
                owner,
                made.commitment_id,
                rules.duration_days,
                rules.max_loss_percent,
                rules.commitment_type.tag_of(),
                amount,
                asset,
                now,
            );
            let after = registry.after_mint(token);
            &&& registry.mint_refusal(
                ledger.custodian,
                rules.duration_days,
                rules.max_loss_percent,
                rules.commitment_type.tag_of(),
                amount,
                now,
            ) is None
            &&& after.valid()
            &&& after.tokens.len() == registry.tokens.len() + 1
            &&& after.has_token(made.nft_token_id)
            &&& after.token(made.nft_token_id) == token
            &&& token.token_id == made.nft_token_id
            &&& token.active
            &&& token.owner == made.owner
            &&& token.metadata.commitment_id == made.commitment_id
            &&& token.metadata.duration_days == made.rules.duration_days
            &&& token.metadata.max_loss_percent == made.rules.max_loss_percent
            &&& token.metadata.commitment_type == made.rules.commitment_type
            &&& token.metadata.initial_amount == made.amount
            &&& token.metadata.asset_address == made.asset_address
            &&& token.metadata.created_at == made.created_at
            &&& token.metadata.expires_at == made.expires_at
        }),
{
    rules.commitment_type.lemma_tag_names_type();
}

/// The terms of a commitment never change: whatever granted operation the
/// ledger carries out, on this commitment or on another, the commitment keeps
/// its id, owner, token, rules, principal, asset and times. Only its value and
/// its status move.
pub proof fn law_commitment_terms_are_kept(
    ledger: LedgerState,
    registry: RegistryState,
    commitment_id: u64,
    other_id: u64,
    caller: Identity,
    target: Identity,
    amount: i128,
    now: u64,
)
    requires
        ledger.valid(),
        ledger.has_commitment(commitment_id),
    ensures
        ledger.update_refusal(caller, other_id) is None ==> same_terms(
            ledger.after_update(other_id, amount).commitment(commitment_id),
            ledger.commitment(commitment_id),
        ),
        ledger.allocation_refusal(caller, other_id, amount) is None ==> ledger.after_allocate(
            other_id,
            target,
            amount,
            now,
        ).commitment(commitment_id) == ledger.commitment(commitment_id),
        ledger.deallocation_refusal(caller, other_id, amount) is None ==> ledger.after_deallocate(
            other_id,
            target,
            amount,
            now,
        ).commitment(commitment_id) == ledger.commitment(commitment_id),
        ledger.settlement_refusal(registry, other_id, now) is None ==> same_terms(
            ledger.after_settle(other_id, now).commitment(commitment_id),
            ledger.commitment(commitment_id),
        ),
        ledger.exit_refusal(registry, other_id, caller) is None ==> same_terms(
            ledger.after_exit(other_id, now).commitment(commitment_id),
            ledger.commitment(commitment_id),
        ),
{
}

/// Two records of a commitment that differ at most in value and status.
pub open spec fn same_terms(a: Commitment, b: Commitment) -> bool {
    a == (Commitment { current_value: a.current_value, status: a.status, ..b })
}

/// What a token stands for never changes, and an inactive token stays
/// inactive: whatever granted operation the registry carries out, on this
/// token or on another, the token keeps its id and its terms, and if it was
/// inactive before, it is inactive after.
pub proof fn law_token_terms_are_kept(
    registry: RegistryState,
    token_id: u32,
    other_id: u32,
    caller: Identity,
    to: Identity,
    minted: OwnershipToken,
    now: u64,
)
    requires
        registry.valid(),
        registry.has_token(token_id),
        minted.token_id == registry.tokens.len() + 1,
    ensures
        kept(registry.after_mint(minted).token(token_id), registry.token(token_id)),
        registry.after_mint(minted).token(token_id).owner == registry.token(token_id).owner,
        registry.transfer_refusal(caller, other_id) is None ==> kept(
            registry.after_transfer(to, other_id, now).token(token_id),
            registry.token(token_id),
        ),
        registry.settle_refusal(other_id, now) is None ==> kept(
            registry.after_deactivation(other_id, now).token(token_id),
            registry.token(token_id),
        ),
        registry.mark_settled_refusal(caller, other_id) is None ==> kept(
            registry.after_deactivation(other_id, now).token(token_id),
            registry.token(token_id),
        ),
{
}

/// The token `after` is the token `before` some operations later: the same id
/// and terms, and not active again once it was inactive.
pub open spec fn kept(after: OwnershipToken, before: OwnershipToken) -> bool {
    &&& after.token_id == before.token_id
    &&& after.metadata == before.metadata
    &&& !before.active ==> !after.active
}

/// The ledger and the registry are in step: the token of every commitment is
/// known to the registry and names that commitment, and once a commitment has
/// left the active state, its token is inactive.
pub open spec fn in_step(ledger: LedgerState, registry: RegistryState) -> bool {
    forall|i: int|
        0 <= i < ledger.commitments.len() ==> {
            let commitment = #[trigger] ledger.commitments[i];
            &&& registry.has_token(commitment.nft_token_id)
            &&& registry.token(commitment.nft_token_id).metadata.commitment_id
                == commitment.commitment_id
            &&& commitment.status != CommitmentStatus::Active ==> !registry.token(
                commitment.nft_token_id,
            ).active
        }
}

/// A ledger without commitments is in step with every registry.
pub proof fn law_in_step_at_start(custodian: Identity, registry: RegistryState)
    ensures
        in_step(LedgerState::empty(custodian), registry),
{
}

/// Making a commitment keeps the ledger and the registry in step.
pub proof fn law_create_keeps_in_step(
    ledger: LedgerState,
    registry: RegistryState,
    owner: Identity,
    amount: i128,
    asset: Identity,
    rules: CommitmentRules,
    now: u64,
)
    requires
        ledger.valid(),
        registry.valid(),
        in_step(ledger, registry),
        ledger.commitments.len() < u64::MAX,
        registry.tokens.len() < u32::MAX,
        ledger.create_refusal(registry, amount, rules, now) is None,
    ensures
        in_step(
            ledger.after_create(
                ledger.created_commitment(registry, owner, amount, asset, rules, now),
            ),
            registry.after_mint(
                registry.minted_token(
                    owner,
                    (ledger.commitments.len() + 1) as u64,
                    rules.duration_days,
                    rules.max_loss_percent,
                    rules.commitment_type.tag_of(),
                    amount,
                    asset,
                    now,
                ),
            ),
        ),
{
}

/// Settling a commitment and leaving one early keep the ledger and the
/// registry in step, and so does every granted operation that touches the
/// ledger alone.
pub proof fn law_ledger_keeps_in_step(
    ledger: LedgerState,
    registry: RegistryState,
    commitment_id: u64,
    caller: Identity,
    target: Identity,
    amount: i128,
    now: u64,
)
    requires
        ledger.valid(),
        registry.valid(),
        in_step(ledger, registry),
    ensures
        ledger.settlement_refusal(registry, commitment_id, now) is None ==> in_step(
            ledger.after_settle(commitment_id, now),
            closed_token(registry, ledger.commitment(commitment_id).nft_token_id, now),
        ),
        ledger.exit_refusal(registry, commitment_id, caller) is None ==> in_step(
            ledger.after_exit(commitment_id, now),
            closed_token(registry, ledger.commitment(commitment_id).nft_token_id, now),
        ),
        ledger.update_refusal(caller, commitment_id) is None ==> in_step(
            ledger.after_update(commitment_id, amount),
            registry,
        ),
        ledger.allocation_refusal(caller, commitment_id, amount) is None ==> in_step(
            ledger.after_allocate(commitment_id, target, amount, now),
            registry,
        ),
        ledger.deallocation_refusal(caller, commitment_id, amount) is None ==> in_step(
            ledger.after_deallocate(commitment_id, target, amount, now),
            registry,
        ),
{
}

/// Every granted operation of the registry keeps the ledger and the registry
/// in step: minting, transfer, and the deactivation of a token by settlement
/// or on behalf of a ledger.
pub proof fn law_registry_keeps_in_step(
    ledger: LedgerState,
    registry: RegistryState,
    token_id: u32,
    caller: Identity,
    to: Identity,
    minted: OwnershipToken,
    now: u64,
)
    requires
        registry.valid(),
        in_step(ledger, registry),
        minted.token_id == registry.tokens.len() + 1,
    ensures
        in_step(ledger, registry.after_mint(minted)),
        registry.transfer_refusal(caller, token_id) is None ==> in_step(
            ledger,
            registry.after_transfer(to, token_id, now),
        ),
        registry.settle_refusal(token_id, now) is None ==> in_step(
            ledger,
            registry.after_deactivation(token_id, now),
        ),
        registry.mark_settled_refusal(caller, token_id) is None ==> in_step(
            ledger,
            registry.after_deactivation(token_id, now),
        ),
{
}

} // verus!
