//! The commitment ledger as a mathematical value, and what each operation
//! makes of it.
//!
//! For every operation of the ledger there is a function that says why a
//! request is refused, if it is, and one that gives the ledger after a request
//! that was granted.

use vstd::prelude::*;
use crate::identity::Identity;
use crate::errors::LedgerError;
use crate::rules::{CommitmentRules, expiry_of};
use crate::commitment::{Commitment, CommitmentStatus};
use crate::allocation::{Allocation, TrackingState};
use crate::percent::exit_payout_of;
use crate::transfer::TransferOrder;
use crate::registry_state::RegistryState;
use crate::ledger::LedgerEvent;

verus! {

/// The ledger as a mathematical value.
#[verifier::ext_equal]
pub struct LedgerState {
    /// The identity under which the ledger holds assets and speaks to the
    /// token registry.
    pub custodian: Identity,
    /// The administrator, once set.
    pub admin: Option<Identity>,
    /// The token registry that the ledger was set up with.
    pub token_registry: Option<Identity>,
    /// Who may place value with targets and report values.
    pub allocators: Set<Identity>,
    /// Every commitment ever made, in the order of making.
    pub commitments: Seq<Commitment>,
    /// The allocations of each commitment, in the same order.
    pub trackings: Seq<TrackingState>,
    /// The announcements not yet handed out.
    pub events: Seq<LedgerEvent>,
}

impl LedgerState {
    /// The ledger of `custodian` before anything happened.
    pub open spec fn empty(custodian: Identity) -> LedgerState {
        LedgerState {
            custodian,
            admin: None,
            token_registry: None,
            allocators: Set::empty(),
            commitments: Seq::empty(),
            trackings: Seq::empty(),
            events: Seq::empty(),
        }
    }

    /// Commitment ids are 1, 2, 3, ... in the order of making, each commitment
    /// expires after it was made, and each has a tracking that fits it: what
    /// is allocated is never negative and never more than the principal.
    pub open spec fn valid(self) -> bool {
        &&& self.commitments.len() <= u64::MAX
        &&& self.commitments.len() == self.trackings.len()
        &&& forall|i: int|
            0 <= i < self.commitments.len() ==> {
                &&& (#[trigger] self.commitments[i]).commitment_id == i + 1
                &&& self.commitments[i].sound()
            }
        &&& forall|i: int|
            0 <= i < self.trackings.len() ==> (#[trigger] self.trackings[i]).fits(
                (i + 1) as u64,
                self.commitments[i].amount,
            )
    }

    /// A commitment with this id has been made.
    pub open spec fn has_commitment(self, commitment_id: u64) -> bool {
        1 <= commitment_id <= self.commitments.len()
    }

    /// The commitment with this id.
    pub open spec fn commitment(self, commitment_id: u64) -> Commitment
        recommends
            self.has_commitment(commitment_id),
    {
        self.commitments[commitment_id - 1]
    }

    /// The allocations of the commitment with this id; those of an unknown
    /// commitment are empty.
    pub open spec fn tracking(self, commitment_id: u64) -> TrackingState {
        if self.has_commitment(commitment_id) {
            self.trackings[commitment_id - 1]
        } else {
            TrackingState::empty()
        }
    }

    /// What the commitment still has available to place: its principal less
    /// what is placed already.
    pub open spec fn available(self, commitment_id: u64) -> int {
        self.commitment(commitment_id).amount - self.tracking(commitment_id).total_allocated
    }

    /// This ledger with `commitment` in the place of the commitment with its
    /// id.
    pub open spec fn with_commitment(self, commitment: Commitment) -> LedgerState {
        LedgerState {
            commitments: self.commitments.update(commitment.commitment_id - 1, commitment),
            ..self
        }
    }

    /// This ledger with `tracking` for the commitment with the given id.
    pub open spec fn with_tracking(self, commitment_id: u64, tracking: TrackingState) -> LedgerState {
        LedgerState { trackings: self.trackings.update(commitment_id - 1, tracking), ..self }
    }

    /// This ledger with one more announcement.
    pub open spec fn announcing(self, event: LedgerEvent) -> LedgerState {
        LedgerState { events: self.events.push(event), ..self }
    }

    /// Why setting up the ledger is refused, if it is.
    pub open spec fn initialize_refusal(self) -> Option<LedgerError> {
        if self.admin is Some {
            Some(LedgerError::AlreadyInitialized)
        } else {
            None
        }
    }

    /// Why a change of the allocators by `caller` is refused, if it is.
    pub open spec fn admin_refusal(self, caller: Identity) -> Option<LedgerError> {
        if self.admin != Some(caller) {
            Some(LedgerError::Unauthorized)
        } else {
            None
        }
    }

    /// Why making a commitment is refused, if it is.
    pub open spec fn create_refusal(
        self,
        registry: RegistryState,
        amount: i128,
        rules: CommitmentRules,
        now: u64,
    ) -> Option<LedgerError> {
        if amount <= 0 {
            Some(LedgerError::InvalidAmount)
        } else if !rules.acceptable() || expiry_of(now, rules.duration_days) > u64::MAX {
            Some(LedgerError::InvalidRules)
        } else if !registry.may_mint(self.custodian) {
            Some(LedgerError::Unauthorized)
        } else {
            None
        }
    }

    /// The commitment that a successful making adds, linked to the token that
    /// `registry` mints next.
    pub open spec fn created_commitment(
        self,
        registry: RegistryState,
        owner: Identity,
        amount: i128,
        asset: Identity,
        rules: CommitmentRules,
        now: u64,
    ) -> Commitment {
        Commitment {
            commitment_id: (self.commitments.len() + 1) as u64,
            owner,
            nft_token_id: (registry.tokens.len() + 1) as u32,
            rules,
            amount,
            asset_address: asset,
            created_at: now,
            expires_at: expiry_of(now, rules.duration_days) as u64,
            current_value: amount,
            status: CommitmentStatus::Active,
        }
    }

    /// This ledger after `commitment` has been made.
    pub open spec fn after_create(self, commitment: Commitment) -> LedgerState {
        LedgerState {
            commitments: self.commitments.push(commitment),
            trackings: self.trackings.push(TrackingState::empty()),
            events: self.events.push(
                LedgerEvent::Created {
                    commitment_id: commitment.commitment_id,
                    owner: commitment.owner,
                    amount: commitment.amount,
                    token_id: commitment.nft_token_id,
                    timestamp: commitment.created_at,
                },
            ),
            ..self
        }
    }

    /// Why a report of a new value is refused, if it is.
    pub open spec fn update_refusal(self, caller: Identity, commitment_id: u64) -> Option<
        LedgerError,
    > {
        if !self.allocators.contains(caller) {
            Some(LedgerError::Unauthorized)
        } else if !self.has_commitment(commitment_id) {
            Some(LedgerError::NotFound)
        } else {
            None
        }
    }

    /// This ledger after the commitment has been reported to be worth
    /// `new_value`. The status stays as it is.
    pub open spec fn after_update(self, commitment_id: u64, new_value: i128) -> LedgerState {
        self.with_commitment(
            Commitment { current_value: new_value, ..self.commitment(commitment_id) },
        )
    }

    /// Why placing `amount` with a target is refused before any transfer, if
    /// it is.
    pub open spec fn allocation_refusal(
        self,
        caller: Identity,
        commitment_id: u64,
        amount: i128,
    ) -> Option<LedgerError> {
        if !self.allocators.contains(caller) {
            Some(LedgerError::Unauthorized)
        } else if !self.has_commitment(commitment_id) || self.commitment(commitment_id).status
            != CommitmentStatus::Active {
            Some(LedgerError::InactiveCommitment)
        } else if amount <= 0 {
            Some(LedgerError::InvalidAmount)
        } else if amount > self.available(commitment_id) {
            Some(LedgerError::InsufficientBalance)
        } else {
            None
        }
    }

    /// The transfer that places `amount` with `target`: out of the custody of
    /// the ledger.
    pub open spec fn allocation_transfer(
        self,
        commitment_id: u64,
        target: Identity,
        amount: i128,
    ) -> TransferOrder {
        TransferOrder {
            asset: self.commitment(commitment_id).asset_address,
            from: self.custodian,
            to: target,
            amount,
        }
    }

    /// This ledger after `amount` has been placed with `target`: one more
    /// record, and the total up by `amount`.
    pub open spec fn after_allocate(
        self,
        commitment_id: u64,
        target: Identity,
        amount: i128,
        now: u64,
    ) -> LedgerState {
        self.with_tracking(
            commitment_id,
            self.tracking(commitment_id).after_allocation(
                Allocation { commitment_id, target_pool: target, amount, timestamp: now },
            ),
        ).announcing(
            LedgerEvent::Allocated { commitment_id, target_pool: target, amount, timestamp: now },
        )
    }

    /// Why taking `amount` back from a target is refused before any transfer,
    /// if it is.
    pub open spec fn deallocation_refusal(
        self,
        caller: Identity,
        commitment_id: u64,
        amount: i128,
    ) -> Option<LedgerError> {
        if !self.allocators.contains(caller) {
            Some(LedgerError::Unauthorized)
        } else if !self.has_commitment(commitment_id) {
            Some(LedgerError::InactiveCommitment)
        } else if amount <= 0 {
            Some(LedgerError::InvalidAmount)
        } else {
            None
        }
    }

    /// The transfer that takes `amount` back from `target`: into the custody
    /// of the ledger.
    pub open spec fn deallocation_transfer(
        self,
        commitment_id: u64,
        target: Identity,
        amount: i128,
    ) -> TransferOrder {
        TransferOrder {
            asset: self.commitment(commitment_id).asset_address,
            from: target,
            to: self.custodian,
            amount,
        }
    }

    /// This ledger after `amount` has come back from `target`: the total down
    /// by `amount`, but not below zero.
    pub open spec fn after_deallocate(
        self,
        commitment_id: u64,
        target: Identity,
        amount: i128,
        now: u64,
    ) -> LedgerState {
        self.with_tracking(
            commitment_id,
            self.tracking(commitment_id).after_deallocation(amount),
        ).announcing(
            LedgerEvent::Deallocated { commitment_id, target_pool: target, amount, timestamp: now },
        )
    }

    /// Why this ledger cannot close the token `token_id` of `registry`, if it
    /// cannot: the token is unknown, or it is active and the ledger may not
    /// deactivate it. A token that is inactive already needs no closing.
    pub open spec fn token_refusal(self, registry: RegistryState, token_id: u32) -> Option<
        LedgerError,
    > {
        if !registry.has_token(token_id) {
            Some(LedgerError::NotFound)
        } else if registry.token(token_id).active && !registry.may_mint(self.custodian) {
            Some(LedgerError::Unauthorized)
        } else {
            None
        }
    }

    /// Why settling a commitment is refused before any transfer, if it is.
    pub open spec fn settlement_refusal(
        self,
        registry: RegistryState,
        commitment_id: u64,
        now: u64,
    ) -> Option<LedgerError> {
        let commitment = self.commitment(commitment_id);
        if !self.has_commitment(commitment_id) {
            Some(LedgerError::NotFound)
        } else if commitment.status != CommitmentStatus::Active {
            Some(commitment.status.refusal())
        } else if now < commitment.expires_at {
            Some(LedgerError::NotYetExpired)
        } else if commitment.current_value <= 0 {
            Some(LedgerError::InvalidAmount)
        } else {
            self.token_refusal(registry, commitment.nft_token_id)
        }
    }

    /// The transfer that settles a commitment: its current value, out of the
    /// custody of the ledger, to its owner.
    pub open spec fn settlement_transfer(self, commitment_id: u64) -> TransferOrder {
        let commitment = self.commitment(commitment_id);
        TransferOrder {
            asset: commitment.asset_address,
            from: self.custodian,
            to: commitment.owner,
            amount: commitment.current_value,
        }
    }

    /// This ledger after the commitment has been settled.
    pub open spec fn after_settle(self, commitment_id: u64, now: u64) -> LedgerState {
        let commitment = self.commitment(commitment_id);
        self.with_commitment(
            Commitment { status: CommitmentStatus::Settled, ..commitment },
        ).announcing(
            LedgerEvent::Settled {
                commitment_id,
                owner: commitment.owner,
                amount: commitment.current_value,
                timestamp: now,
            },
        )
    }

    /// What an early exit of the commitment pays out.
    pub open spec fn exit_payout(self, commitment_id: u64) -> int {
        let commitment = self.commitment(commitment_id);
        exit_payout_of(
            commitment.current_value as int,
            commitment.rules.early_exit_penalty as int,
        )
    }

    /// Why an early exit is refused before any transfer, if it is.
    pub open spec fn exit_refusal(
        self,
        registry: RegistryState,
        commitment_id: u64,
        caller: Identity,
    ) -> Option<LedgerError> {
        let commitment = self.commitment(commitment_id);
        if !self.has_commitment(commitment_id) {
            Some(LedgerError::NotFound)
        } else if commitment.owner != caller {
            Some(LedgerError::Unauthorized)
        } else if commitment.status != CommitmentStatus::Active {
            Some(commitment.status.refusal())
        } else if self.exit_payout(commitment_id) <= 0 || self.exit_payout(commitment_id)
            > i128::MAX {
            Some(LedgerError::InvalidAmount)
        } else {
            self.token_refusal(registry, commitment.nft_token_id)
        }
    }

    /// The transfer of an early exit: the current value less the penalty, out
    /// of the custody of the ledger, to the owner.
    pub open spec fn exit_transfer(self, commitment_id: u64) -> TransferOrder {
        let commitment = self.commitment(commitment_id);
        TransferOrder {
            asset: commitment.asset_address,
            from: self.custodian,
            to: commitment.owner,
            amount: self.exit_payout(commitment_id) as i128,
        }
    }

    /// This ledger after the owner has left the commitment early.
    pub open spec fn after_exit(self, commitment_id: u64, now: u64) -> LedgerState {
        let commitment = self.commitment(commitment_id);
        self.with_commitment(
            Commitment { status: CommitmentStatus::EarlyExit, ..commitment },
        ).announcing(
            LedgerEvent::EarlyExit {
                commitment_id,
                owner: commitment.owner,
                amount: self.exit_payout(commitment_id) as i128,
                timestamp: now,
            },
        )
    }
}

/// `registry` after a ledger has closed the token `token_id` at `now`: the
/// token is deactivated if it was active; else nothing changes.
pub open spec fn closed_token(registry: RegistryState, token_id: u32, now: u64) -> RegistryState {
    if registry.token(token_id).active {
        registry.after_deactivation(token_id, now)
    } else {
        registry
    }
}

} // verus!
