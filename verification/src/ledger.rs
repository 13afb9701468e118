//! The commitment ledger: the life of each commitment and the account of what
//! it has placed with yield targets.

use vstd::prelude::*;
use crate::identity::Identity;
use crate::errors::{LedgerError, outcome};
use crate::roster::Roster;
use crate::rules::{CommitmentRules, expiry};
use crate::commitment::{Commitment, CommitmentStatus, ViolationDetails};
use crate::allocation::{Allocation, AllocationTracking, TrackingState, lemma_recorded_sum_push};
use crate::percent::exit_payout;
use crate::transfer::{TransferOrder, TransferOutcome, or_failed};
use crate::token::TokenRegistry;
use crate::ledger_state::{LedgerState, closed_token};

verus! {

/// What the ledger announces.
#[derive(Clone, Copy, Debug, PartialEq, Eq, Structural)]
pub enum LedgerEvent {
    Created { commitment_id: u64, owner: Identity, amount: i128, token_id: u32, timestamp: u64 },
    Allocated { commitment_id: u64, target_pool: Identity, amount: i128, timestamp: u64 },
    Deallocated { commitment_id: u64, target_pool: Identity, amount: i128, timestamp: u64 },
    Settled { commitment_id: u64, owner: Identity, amount: i128, timestamp: u64 },
    EarlyExit { commitment_id: u64, owner: Identity, amount: i128, timestamp: u64 },
}

/// The allocations held in `trackings` as mathematical values.
pub open spec fn tracking_states(trackings: Seq<AllocationTracking>) -> Seq<TrackingState> {
    Seq::new(trackings.len(), |i: int| trackings[i]@)
}

/// The commitment ledger.
pub struct CommitmentLedger {
    custodian: Identity,
    admin: Option<Identity>,
    token_registry: Option<Identity>,
    allocators: Roster,
    commitments: Vec<Commitment>,
    trackings: Vec<AllocationTracking>,
    events: Vec<LedgerEvent>,
}

impl View for CommitmentLedger {
    type V = LedgerState;

    closed spec fn view(&self) -> LedgerState {
        LedgerState {
            custodian: self.custodian,
            admin: self.admin,
            token_registry: self.token_registry,
            allocators: self.allocators@,
            commitments: self.commitments@,
            trackings: tracking_states(self.trackings@),
            events: self.events@,
        }
    }
}

impl CommitmentLedger {
    /// The ledger holds what a ledger can hold.
    pub open spec fn well_formed(&self) -> bool {
        self@.valid()
    }

    /// A ledger that acts under the identity `custodian`, without
    /// administrator, allocators or commitments.
    pub fn new(custodian: Identity) -> (ledger: CommitmentLedger)
        ensures
            ledger.well_formed(),
            ledger@ == LedgerState::empty(custodian),
    {
        let ledger = CommitmentLedger {
            custodian,
            admin: None,
            token_registry: None,
            allocators: Roster::new(),
            commitments: Vec::new(),
            trackings: Vec::new(),
            events: Vec::new(),
        };
        assert(ledger@ =~= LedgerState::empty(custodian));
        ledger
    }

    /// The identity under which the ledger acts.
    pub fn custodian(&self) -> (custodian: Identity)
        ensures
            custodian == self@.custodian,
    {
        self.custodian
    }

    /// The administrator, once set.
    pub fn admin(&self) -> (admin: Option<Identity>)
        ensures
            admin == self@.admin,
    {
        self.admin
    }

    /// The token registry that the ledger was set up with.
    pub fn token_registry(&self) -> (registry: Option<Identity>)
        ensures
            registry == self@.token_registry,
    {
        self.token_registry
    }

    /// The number of commitments made so far.
    pub fn commitment_count(&self) -> (count: u64)
        ensures
            count == self@.commitments.len(),
    {
        self.commitments.len() as u64
    }

    /// The announcements not yet handed out, oldest first.
    pub fn events(&self) -> (list: &Vec<LedgerEvent>)
        ensures
            list@ == self@.events,
    {
        &self.events
    }

    /// Hands out the announcements and forgets them.
    pub fn take_events(&mut self) -> (list: Vec<LedgerEvent>)
        ensures
            list@ == old(self)@.events,
            final(self)@ == (LedgerState { events: Seq::empty(), ..old(self)@ }),
    {
        let mut list: Vec<LedgerEvent> = Vec::new();
        std::mem::swap(&mut list, &mut self.events);
        assert(self@ =~= (LedgerState { events: Seq::empty(), ..old(self)@ }));
        list
    }

    /// Sets the administrator and the token registry. This succeeds once.
    pub fn initialize(&mut self, admin: Identity, token_registry: Identity) -> (res: Result<
        (),
        LedgerError,
    >)
        ensures
            res == outcome(old(self)@.initialize_refusal(), ()),
            res is Ok ==> final(self)@ == (LedgerState {
                admin: Some(admin),
                token_registry: Some(token_registry),
                ..old(self)@
            }),
            res is Err ==> final(self)@ == old(self)@,
    {
        if self.admin.is_some() {
            return Err(LedgerError::AlreadyInitialized);
        }
        self.admin = Some(admin);
        self.token_registry = Some(token_registry);
        assert(self@ =~= (LedgerState {
            admin: Some(admin),
            token_registry: Some(token_registry),
            ..old(self)@
        }));
        Ok(())
    }

    /// Whether `who` is the administrator.
    pub fn is_admin(&self, who: &Identity) -> (yes: bool)
        ensures
            yes == (self@.admin == Some(*who)),
    {
        match self.admin {
            Some(admin) => admin == *who,
            None => false,
        }
    }

    /// Lets `allocator` place value and report values. Only the administrator
    /// may do this.
    pub fn add_authorized_allocator(&mut self, caller: Identity, allocator: Identity) -> (res:
        Result<(), LedgerError>)
        ensures
            res == outcome(old(self)@.admin_refusal(caller), ()),
            res is Ok ==> final(self)@ == (LedgerState {
                allocators: old(self)@.allocators.insert(allocator),
                ..old(self)@
            }),
            res is Err ==> final(self)@ == old(self)@,
    {
        if !self.is_admin(&caller) {
            return Err(LedgerError::Unauthorized);
        }
        self.allocators.insert(allocator);
        assert(self@ =~= (LedgerState {
            allocators: old(self)@.allocators.insert(allocator),
            ..old(self)@
        }));
        Ok(())
    }

    /// Ends the authorization of `allocator`. Only the administrator may do
    /// this.
    pub fn remove_authorized_allocator(&mut self, caller: Identity, allocator: Identity) -> (res:
        Result<(), LedgerError>)
        ensures
            res == outcome(old(self)@.admin_refusal(caller), ()),
            res is Ok ==> final(self)@ == (LedgerState {
                allocators: old(self)@.allocators.remove(allocator),
                ..old(self)@
            }),
            res is Err ==> final(self)@ == old(self)@,
    {
        if !self.is_admin(&caller) {
            return Err(LedgerError::Unauthorized);
        }
        self.allocators.remove(allocator);
        assert(self@ =~= (LedgerState {
            allocators: old(self)@.allocators.remove(allocator),
            ..old(self)@
        }));
        Ok(())
    }

    /// Whether `who` is an authorized allocator.
    pub fn is_authorized_allocator(&self, who: &Identity) -> (yes: bool)
        ensures
            yes == self@.allocators.contains(*who),
    {
        self.allocators.contains(who)
    }

    /// Makes a commitment of `amount` of `asset` for `owner` under `rules`,
    /// has `tokens` mint the ownership token for it, and returns the id of the
    /// commitment, the number of commitments made so far.
    ///
    /// The amount must be positive and the rules acceptable, and the ledger
    /// must be allowed to mint.
    pub fn create_commitment(
        &mut self,
        tokens: &mut TokenRegistry,
        owner: Identity,
        amount: i128,
        asset: Identity,
        rules: CommitmentRules,
        now: u64,
    ) -> (res: Result<u64, LedgerError>)
        requires
            old(self).well_formed(),
            old(tokens).well_formed(),
            old(self)@.commitments.len() < u64::MAX,
            old(tokens)@.tokens.len() < u32::MAX,
        ensures
            final(self).well_formed(),
            final(tokens).well_formed(),
            res == outcome(
                old(self)@.create_refusal(old(tokens)@, amount, rules, now),
                (old(self)@.commitments.len() + 1) as u64,
            ),
            res is Ok ==> final(self)@ == old(self)@.after_create(
                old(self)@.created_commitment(old(tokens)@, owner, amount, asset, rules, now),
            ),
            res is Ok ==> final(tokens)@ == old(tokens)@.after_mint(
                old(tokens)@.minted_token(
                    owner,
                    (old(self)@.commitments.len() + 1) as u64,
                    rules.duration_days,
                    rules.max_loss_percent,
                    rules.commitment_type.tag_of(),
                    amount,
                    asset,
                    now,
                ),
            ),
            res is Err ==> final(self)@ == old(self)@ && final(tokens)@ == old(tokens)@,
    {
        if amount <= 0 {
            return Err(LedgerError::InvalidAmount);
        }
        if !rules.is_acceptable() {
            return Err(LedgerError::InvalidRules);
        }
        let expires_at: u64 = match expiry(now, rules.duration_days) {
            Some(t) => t,
            None => {
                return Err(LedgerError::InvalidRules);
            },
        };
        let commitment_id: u64 = self.commitments.len() as u64 + 1;
        proof {
            rules.commitment_type.lemma_tag_names_type();
        }
        let token_id: u32 = match tokens.mint(
            self.custodian,
            owner,
            commitment_id,
            rules.duration_days,
            rules.max_loss_percent,
            rules.commitment_type.tag(),
            amount,
            asset,
            now,
        ) {
            Ok(token_id) => token_id,
            Err(e) => {
                return Err(e);
            },
        };
        let commitment = Commitment {
            commitment_id,
            owner,
            nft_token_id: token_id,
            rules,
            amount,
            asset_address: asset,
            created_at: now,
            expires_at,
            current_value: amount,
            status: CommitmentStatus::Active,
        };
        self.commitments.push(commitment);
        self.trackings.push(AllocationTracking::new());
        self.events.push(
            LedgerEvent::Created { commitment_id, owner, amount, token_id, timestamp: now },
        );
        assert(self@ =~= old(self)@.after_create(commitment));
        Ok(commitment_id)
    }

    /// Where the commitment with the given id is held, if there is one.
    fn locate(&self, commitment_id: u64) -> (place: Option<usize>)
        ensures
            place is Some <==> self@.has_commitment(commitment_id),
            place matches Some(at) ==> at == commitment_id - 1,
    {
        if commitment_id == 0 || commitment_id > self.commitments.len() as u64 {
            None
        } else {
            Some((commitment_id - 1) as usize)
        }
    }

    /// The commitment with the given id.
    pub fn get_commitment(&self, commitment_id: u64) -> (res: Result<Commitment, LedgerError>)
        ensures
            res == (if self@.has_commitment(commitment_id) {
                Ok(self@.commitment(commitment_id))
            } else {
                Err(LedgerError::NotFound)
            }),
    {
        match self.locate(commitment_id) {
            Some(at) => Ok(self.commitments[at]),
            None => Err(LedgerError::NotFound),
        }
    }

    /// Records what a commitment is worth now. Only an authorized allocator
    /// may report a value. The status of the commitment stays as it is: a
    /// violation shows when it is asked for.
    pub fn update_value(&mut self, caller: Identity, commitment_id: u64, new_value: i128) -> (res:
        Result<(), LedgerError>)
        requires
            old(self).well_formed(),
        ensures
            final(self).well_formed(),
            res == outcome(old(self)@.update_refusal(caller, commitment_id), ()),
            res is Ok ==> final(self)@ == old(self)@.after_update(commitment_id, new_value),
            res is Err ==> final(self)@ == old(self)@,
    {
        if !self.allocators.contains(&caller) {
            return Err(LedgerError::Unauthorized);
        }
        let at: usize = match self.locate(commitment_id) {
            Some(at) => at,
            None => {
                return Err(LedgerError::NotFound);
            },
        };
        let commitment = self.commitments[at];
        self.commitments.set(at, Commitment { current_value: new_value, ..commitment });
        assert(self@ =~= old(self)@.after_update(commitment_id, new_value));
        Ok(())
    }

    /// Whether the commitment is in violation of its rules at `now`. Nothing
    /// changes.
    pub fn check_violations(&self, commitment_id: u64, now: u64) -> (res: Result<bool, LedgerError>)
        ensures
            res == (if self@.has_commitment(commitment_id) {
                Ok(self@.commitment(commitment_id).violated_at(now))
            } else {
                Err(LedgerError::NotFound)
            }),
    {
        match self.get_commitment(commitment_id) {
            Ok(commitment) => Ok(commitment.check_violations(now)),
            Err(e) => Err(e),
        }
    }

    /// What the rules of the commitment say at `now`. Nothing changes.
    pub fn get_violation_details(&self, commitment_id: u64, now: u64) -> (res: Result<
        ViolationDetails,
        LedgerError,
    >)
        ensures
            res == (if self@.has_commitment(commitment_id) {
                Ok(self@.commitment(commitment_id).details_at(now))
            } else {
                Err(LedgerError::NotFound)
            }),
    {
        match self.get_commitment(commitment_id) {
            Ok(commitment) => Ok(commitment.get_violation_details(now)),
            Err(e) => Err(e),
        }
    }

    /// Checks a request to place `amount` and finds where the commitment is
    /// held.
    fn allocation_place(&self, caller: Identity, commitment_id: u64, amount: i128) -> (res: Result<
        usize,
        LedgerError,
    >)
        requires
            self.well_formed(),
        ensures
            res matches Ok(at) ==> at == commitment_id - 1 && self@.allocation_refusal(
                caller,
                commitment_id,
                amount,
            ) is None,
            res matches Err(e) ==> self@.allocation_refusal(caller, commitment_id, amount) == Some(
                e,
            ),
    {
        if !self.allocators.contains(&caller) {
            return Err(LedgerError::Unauthorized);
        }
        let at: usize = match self.locate(commitment_id) {
            Some(at) => at,
            None => {
                return Err(LedgerError::InactiveCommitment);
            },
        };
        let commitment = self.commitments[at];
        if !commitment.is_active() {
            return Err(LedgerError::InactiveCommitment);
        }
        if amount <= 0 {
            return Err(LedgerError::InvalidAmount);
        }
        assert(self@.trackings[at as int] == self.trackings@[at as int]@);
        assert(self@.trackings[at as int].fits((at + 1) as u64, self@.commitments[at as int].amount));
        if amount > commitment.amount - self.trackings[at].total_allocated {
            return Err(LedgerError::InsufficientBalance);
        }
        Ok(at)
    }

    /// Checks a request to place `amount` of a commitment with `target` and
    /// says which transfer it needs. Nothing changes.
    pub fn allocation_order(
        &self,
        caller: Identity,
        commitment_id: u64,
        target: Identity,
        amount: i128,
    ) -> (res: Result<TransferOrder, LedgerError>)
        requires
            self.well_formed(),
        ensures
            res == outcome(
                self@.allocation_refusal(caller, commitment_id, amount),
                self@.allocation_transfer(commitment_id, target, amount),
            ),
    {
        match self.allocation_place(caller, commitment_id, amount) {
            Ok(at) => Ok(
                TransferOrder {
                    asset: self.commitments[at].asset_address,
                    from: self.custodian,
                    to: target,
                    amount,
                },
            ),
            Err(e) => Err(e),
        }
    }

    /// Places `amount` of a commitment with `target`, given how the transfer
    /// that `allocation_order` asked for has ended.
    ///
    /// The caller must be an authorized allocator, the commitment active, the
    /// amount positive and no more than what the commitment has available, and
    /// the transfer completed. Then the placement is recorded with the time
    /// `now` and the total goes up by `amount`.
    pub fn allocate(
        &mut self,
        caller: Identity,
        commitment_id: u64,
        target: Identity,
        amount: i128,
        now: u64,
        transfer: TransferOutcome,
    ) -> (res: Result<(), LedgerError>)
        requires
            old(self).well_formed(),
        ensures
            final(self).well_formed(),
            res == outcome(
                or_failed(old(self)@.allocation_refusal(caller, commitment_id, amount), transfer),
                (),
            ),
            res is Ok ==> final(self)@ == old(self)@.after_allocate(
                commitment_id,
                target,
                amount,
                now,
            ),
            res is Err ==> final(self)@ == old(self)@,
    {
        let at: usize = match self.allocation_place(caller, commitment_id, amount) {
            Ok(at) => at,
            Err(e) => {
                return Err(e);
            },
        };
        if !transfer.is_completed() {
            return Err(LedgerError::TransferFailed);
        }
        let record = Allocation { commitment_id, target_pool: target, amount, timestamp: now };
        let ghost before = self.trackings@[at as int]@;
        assert(self@.trackings[at as int] == before);
        assert(before.fits(commitment_id, self@.commitments[at as int].amount));
        proof {
            lemma_recorded_sum_push(before.allocations, record);
        }
        let tracking = &mut self.trackings[at];
        tracking.total_allocated = tracking.total_allocated + amount;
        tracking.allocations.push(record);
        self.events.push(
            LedgerEvent::Allocated { commitment_id, target_pool: target, amount, timestamp: now },
        );
        assert(self@ =~= old(self)@.after_allocate(commitment_id, target, amount, now));
        Ok(())
    }

    /// Checks a request to take `amount` back and finds where the commitment
    /// is held.
    fn deallocation_place(&self, caller: Identity, commitment_id: u64, amount: i128) -> (res:
        Result<usize, LedgerError>)
        ensures
            res matches Ok(at) ==> at == commitment_id - 1 && self@.deallocation_refusal(
                caller,
                commitment_id,
                amount,
            ) is None,
            res matches Err(e) ==> self@.deallocation_refusal(caller, commitment_id, amount)
                == Some(e),
    {
        if !self.allocators.contains(&caller) {
            return Err(LedgerError::Unauthorized);
        }
        let at: usize = match self.locate(commitment_id) {
            Some(at) => at,
            None => {
                return Err(LedgerError::InactiveCommitment);
            },
        };
        if amount <= 0 {
            return Err(LedgerError::InvalidAmount);
        }
        Ok(at)
    }

    /// Checks a request to take `amount` back from `target` and says which
    /// transfer it needs. Nothing changes.
    pub fn deallocation_order(
        &self,
        caller: Identity,
        commitment_id: u64,
        target: Identity,
        amount: i128,
    ) -> (res: Result<TransferOrder, LedgerError>)
        ensures
            res == outcome(
                self@.deallocation_refusal(caller, commitment_id, amount),
                self@.deallocation_transfer(commitment_id, target, amount),
            ),
    {
        match self.deallocation_place(caller, commitment_id, amount) {
            Ok(at) => Ok(
                TransferOrder {
                    asset: self.commitments[at].asset_address,
                    from: target,
                    to: self.custodian,
                    amount,
                },
            ),
            Err(e) => Err(e),
        }
    }

    /// Takes `amount` of a commitment back from `target`, given how the
    /// transfer that `deallocation_order` asked for has ended.
    ///
    /// The caller must be an authorized allocator, the commitment known, the
    /// amount positive, and the transfer completed. Then the total goes down
    /// by `amount`, but not below zero. No record is added.
    pub fn deallocate(
        &mut self,
        caller: Identity,
        commitment_id: u64,
        target: Identity,
        amount: i128,
        now: u64,
        transfer: TransferOutcome,
    ) -> (res: Result<(), LedgerError>)
        requires
            old(self).well_formed(),
        ensures
            final(self).well_formed(),
            res == outcome(
                or_failed(old(self)@.deallocation_refusal(caller, commitment_id, amount), transfer),
                (),
            ),
            res is Ok ==> final(self)@ == old(self)@.after_deallocate(
                commitment_id,
                target,
                amount,
                now,
            ),
            res is Err ==> final(self)@ == old(self)@,
    {
        let at: usize = match self.deallocation_place(caller, commitment_id, amount) {
            Ok(at) => at,
            Err(e) => {
                return Err(e);
            },
        };
        if !transfer.is_completed() {
            return Err(LedgerError::TransferFailed);
        }
        let ghost before = self.trackings@[at as int]@;
        assert(self@.trackings[at as int] == before);
        assert(before.fits(commitment_id, self@.commitments[at as int].amount));
        let tracking = &mut self.trackings[at];
        tracking.total_allocated = if tracking.total_allocated < amount {
            0
        } else {
            tracking.total_allocated - amount
        };
        self.events.push(
            LedgerEvent::Deallocated { commitment_id, target_pool: target, amount, timestamp: now },
        );
        assert(self@ =~= old(self)@.after_deallocate(commitment_id, target, amount, now));
        Ok(())
    }

    /// The allocations of a commitment: the total placed now and every
    /// placement made. A commitment that is unknown or has placed nothing has
    /// a total of zero and no records.
    pub fn get_allocation_tracking(&self, commitment_id: u64) -> (tracking: AllocationTracking)
        requires
            self.well_formed(),
        ensures
            tracking@ == self@.tracking(commitment_id),
    {
        match self.locate(commitment_id) {
            Some(at) => {
                assert(self@.trackings[at as int] == self.trackings@[at as int]@);
                self.trackings[at].duplicate()
            },
            None => AllocationTracking::new(),
        }
    }

    /// Checks that this ledger can close the token `token_id` of `tokens`.
    fn token_check(&self, tokens: &TokenRegistry, token_id: u32) -> (res: Result<(), LedgerError>)
        ensures
            res == outcome(self@.token_refusal(tokens@, token_id), ()),
    {
        match tokens.is_active(token_id) {
            Err(e) => Err(e),
            Ok(active) => if active && !tokens.may_mint(&self.custodian) {
                Err(LedgerError::Unauthorized)
            } else {
                Ok(())
            },
        }
    }

    /// Closes the token `token_id` of `tokens`, which `token_check` has
    /// accepted: deactivates it if it is active.
    fn close_token(&self, tokens: &mut TokenRegistry, token_id: u32, now: u64)
        requires
            old(tokens).well_formed(),
            self@.token_refusal(old(tokens)@, token_id) is None,
        ensures
            final(tokens).well_formed(),
            final(tokens)@ == closed_token(old(tokens)@, token_id, now),
    {
        let active = match tokens.is_active(token_id) {
            Ok(active) => active,
            Err(_) => false,
        };
        if active {
            let _ = tokens.mark_settled(self.custodian, token_id, now);
        }
    }

    /// Checks a request to settle and finds where the commitment is held.
    fn settlement_place(&self, tokens: &TokenRegistry, commitment_id: u64, now: u64) -> (res:
        Result<usize, LedgerError>)
        ensures
            res matches Ok(at) ==> at == commitment_id - 1 && self@.settlement_refusal(
                tokens@,
                commitment_id,
                now,
            ) is None,
            res matches Err(e) ==> self@.settlement_refusal(tokens@, commitment_id, now) == Some(e),
    {
        let at: usize = match self.locate(commitment_id) {
            Some(at) => at,
            None => {
                return Err(LedgerError::NotFound);
            },
        };
        let commitment = self.commitments[at];
        if !commitment.is_active() {
            return Err(commitment.status.refuse());
        }
        if now < commitment.expires_at {
            return Err(LedgerError::NotYetExpired);
        }
        if commitment.current_value <= 0 {
            return Err(LedgerError::InvalidAmount);
        }
        match self.token_check(tokens, commitment.nft_token_id) {
            Ok(()) => Ok(at),
            Err(e) => Err(e),
        }
    }

    /// Checks a request to settle a commitment and says which transfer it
    /// needs. Nothing changes.
    pub fn settlement_order(&self, tokens: &TokenRegistry, commitment_id: u64, now: u64) -> (res:
        Result<TransferOrder, LedgerError>)
        ensures
            res == outcome(
                self@.settlement_refusal(tokens@, commitment_id, now),
                self@.settlement_transfer(commitment_id),
            ),
    {
        match self.settlement_place(tokens, commitment_id, now) {
            Ok(at) => {
                let commitment = self.commitments[at];
                Ok(
                    TransferOrder {
                        asset: commitment.asset_address,
                        from: self.custodian,
                        to: commitment.owner,
                        amount: commitment.current_value,
                    },
                )
            },
            Err(e) => Err(e),
        }
    }

    /// Settles a commitment, given how the transfer that `settlement_order`
    /// asked for has ended.
    ///
    /// The commitment must be active and expired, its current value positive,
    /// its token known to `tokens` and open to this ledger, and the transfer
    /// completed. Then the token is closed and the commitment is settled, for
    /// good.
    pub fn settle(
        &mut self,
        tokens: &mut TokenRegistry,
        commitment_id: u64,
        now: u64,
        transfer: TransferOutcome,
    ) -> (res: Result<(), LedgerError>)
        requires
            old(self).well_formed(),
            old(tokens).well_formed(),
        ensures
            final(self).well_formed(),
            final(tokens).well_formed(),
            res == outcome(
                or_failed(old(self)@.settlement_refusal(old(tokens)@, commitment_id, now), transfer),
                (),
            ),
            res is Ok ==> final(self)@ == old(self)@.after_settle(commitment_id, now),
            res is Ok ==> final(tokens)@ == closed_token(
                old(tokens)@,
                old(self)@.commitment(commitment_id).nft_token_id,
                now,
            ),
            res is Err ==> final(self)@ == old(self)@ && final(tokens)@ == old(tokens)@,
    {
        let at: usize = match self.settlement_place(tokens, commitment_id, now) {
            Ok(at) => at,
            Err(e) => {
                return Err(e);
            },
        };
        if !transfer.is_completed() {
            return Err(LedgerError::TransferFailed);
        }
        let commitment = self.commitments[at];
        self.close_token(tokens, commitment.nft_token_id, now);
        self.commitments.set(at, Commitment { status: CommitmentStatus::Settled, ..commitment });
        self.events.push(
            LedgerEvent::Settled {
                commitment_id,
                owner: commitment.owner,
                amount: commitment.current_value,
                timestamp: now,
            },
        );
        assert(self@ =~= old(self)@.after_settle(commitment_id, now));
        Ok(())
    }

    /// Checks a request to leave early and finds where the commitment is held
    /// and what it pays out.
    fn exit_place(&self, tokens: &TokenRegistry, commitment_id: u64, caller: Identity) -> (res:
        Result<(usize, i128), LedgerError>)
        ensures
            res matches Ok(found) ==> found.0 == commitment_id - 1 && found.1 == self@.exit_payout(
                commitment_id,
            ) && self@.exit_refusal(tokens@, commitment_id, caller) is None,
            res matches Err(e) ==> self@.exit_refusal(tokens@, commitment_id, caller) == Some(e),
    {
        let at: usize = match self.locate(commitment_id) {
            Some(at) => at,
            None => {
                return Err(LedgerError::NotFound);
            },
        };
        let commitment = self.commitments[at];
        if commitment.owner != caller {
            return Err(LedgerError::Unauthorized);
        }
        if !commitment.is_active() {
            return Err(commitment.status.refuse());
        }
        let payout: i128 = match exit_payout(
            commitment.current_value,
            commitment.rules.early_exit_penalty,
        ) {
            Some(payout) => payout,
            None => {
                return Err(LedgerError::InvalidAmount);
            },
        };
        if payout <= 0 {
            return Err(LedgerError::InvalidAmount);
        }
        match self.token_check(tokens, commitment.nft_token_id) {
            Ok(()) => Ok((at, payout)),
            Err(e) => Err(e),
        }
    }

    /// Checks a request of `caller` to leave a commitment early and says which
    /// transfer it needs. Nothing changes.
    pub fn early_exit_order(&self, tokens: &TokenRegistry, commitment_id: u64, caller: Identity) -> (res:
        Result<TransferOrder, LedgerError>)
        ensures
            res == outcome(
                self@.exit_refusal(tokens@, commitment_id, caller),
                self@.exit_transfer(commitment_id),
            ),
    {
        match self.exit_place(tokens, commitment_id, caller) {
            Ok((at, payout)) => {
                let commitment = self.commitments[at];
                Ok(
                    TransferOrder {
                        asset: commitment.asset_address,
                        from: self.custodian,
                        to: commitment.owner,
                        amount: payout,
                    },
                )
            },
            Err(e) => Err(e),
        }
    }

    /// Lets the owner leave a commitment before it expires, given how the
    /// transfer that `early_exit_order` asked for has ended.
    ///
    /// The caller must be the owner, the commitment active, the payout (the
    /// current value less the penalty) positive, the token known to `tokens`
    /// and open to this ledger, and the transfer completed. Then the token is
    /// closed and the commitment is left, for good.
    pub fn early_exit(
        &mut self,
        tokens: &mut TokenRegistry,
        commitment_id: u64,
        caller: Identity,
        now: u64,
        transfer: TransferOutcome,
    ) -> (res: Result<(), LedgerError>)
        requires
            old(self).well_formed(),
            old(tokens).well_formed(),
        ensures
            final(self).well_formed(),
            final(tokens).well_formed(),
            res == outcome(
                or_failed(old(self)@.exit_refusal(old(tokens)@, commitment_id, caller), transfer),
                (),
            ),
            res is Ok ==> final(self)@ == old(self)@.after_exit(commitment_id, now),
            res is Ok ==> final(tokens)@ == closed_token(
                old(tokens)@,
                old(self)@.commitment(commitment_id).nft_token_id,
                now,
            ),
            res is Err ==> final(self)@ == old(self)@ && final(tokens)@ == old(tokens)@,
    {
        let (at, payout) = match self.exit_place(tokens, commitment_id, caller) {
            Ok(found) => found,
            Err(e) => {
                return Err(e);
            },
        };
        if !transfer.is_completed() {
            return Err(LedgerError::TransferFailed);
        }
        let commitment = self.commitments[at];
        self.close_token(tokens, commitment.nft_token_id, now);
        self.commitments.set(at, Commitment { status: CommitmentStatus::EarlyExit, ..commitment });
        self.events.push(
            LedgerEvent::EarlyExit {
                commitment_id,
                owner: commitment.owner,
                amount: payout,
                timestamp: now,
            },
        );
        assert(self@ =~= old(self)@.after_exit(commitment_id, now));
        Ok(())
    }

    /// Rebuilds a ledger from its parts, as they were stored. The parts are
    /// taken only if there is one tracking for each commitment, the commitment
    /// ids are 1, 2, 3, ... in this order, each commitment expires after it
    /// was made, and each tracking fits its commitment.
    pub fn restore(
        custodian: Identity,
        admin: Option<Identity>,
        token_registry: Option<Identity>,
        allocators: Vec<Identity>,
        commitments: Vec<Commitment>,
        trackings: Vec<AllocationTracking>,
    ) -> (restored: Option<CommitmentLedger>)
        ensures
            restored is Some <==> (LedgerState {
                custodian,
                admin,
                token_registry,
                allocators: allocators@.to_set(),
                commitments: commitments@,
                trackings: tracking_states(trackings@),
                events: Seq::empty(),
            }).valid(),
            restored matches Some(ledger) ==> ledger.well_formed() && ledger@ == (LedgerState {
                custodian,
                admin,
                token_registry,
                allocators: allocators@.to_set(),
                commitments: commitments@,
                trackings: tracking_states(trackings@),
                events: Seq::empty(),
            }),
    {
        let ghost state = LedgerState {
            custodian,
            admin,
            token_registry,
            allocators: allocators@.to_set(),
            commitments: commitments@,
            trackings: tracking_states(trackings@),
            events: Seq::empty(),
        };
        if commitments.len() != trackings.len() {
            return None;
        }
        let mut i: usize = 0;
        while i < commitments.len()
            invariant
                i <= commitments.len(),
                commitments.len() == trackings.len(),
                state.commitments == commitments@,
                state.trackings == tracking_states(trackings@),
                forall|j: int|
                    0 <= j < i ==> {
                        &&& (#[trigger] state.commitments[j]).commitment_id == j + 1
                        &&& state.commitments[j].sound()
                    },
                forall|j: int|
                    0 <= j < i ==> (#[trigger] state.trackings[j]).fits(
                        (j + 1) as u64,
                        state.commitments[j].amount,
                    ),
            decreases commitments.len() - i,
        {
            let commitment_id: u64 = i as u64 + 1;
            assert(state.trackings[i as int] == trackings@[i as int]@);
            if commitments[i].commitment_id != commitment_id || !commitments[i].is_sound()
                || !trackings[i].is_fit(commitment_id, commitments[i].amount) {
                assert(!state.valid());
                return None;
            }
            i += 1;
        }
        let ledger = CommitmentLedger {
            custodian,
            admin,
            token_registry,
            allocators: Roster::from_members(allocators),
            commitments,
            trackings,
            events: Vec::new(),
        };
        assert(ledger@ =~= state);
        Some(ledger)
    }

    /// The authorized allocators, each once.
    pub fn allocators(&self) -> (list: Vec<Identity>)
        ensures
            list@.to_set() == self@.allocators,
            list@.no_duplicates(),
    {
        self.allocators.members()
    }

    /// Every commitment, in the order of making.
    pub fn commitments(&self) -> (list: &Vec<Commitment>)
        ensures
            list@ == self@.commitments,
    {
        &self.commitments
    }

    /// The allocations of each commitment, in the order of making.
    pub fn trackings(&self) -> (list: &Vec<AllocationTracking>)
        ensures
            tracking_states(list@) == self@.trackings,
    {
        &self.trackings
    }
}

} // verus!
