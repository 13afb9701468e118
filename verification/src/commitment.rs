//! The commitment record and the evaluation of its rules.

use vstd::prelude::*;
use crate::identity::Identity;
use crate::errors::LedgerError;
use crate::rules::CommitmentRules;
use crate::percent::{loss_percent, loss_percent_of, saturate, lemma_saturate_keeps_order};

verus! {

/// Where a commitment stands in its life. A commitment starts active; the
/// other three states are final.
#[derive(Clone, Copy, Debug, PartialEq, Eq, Structural)]
pub enum CommitmentStatus {
    Active,
    Settled,
    Violated,
    EarlyExit,
}

impl CommitmentStatus {
    /// The error that an operation on a commitment in this state reports when
    /// it asks for an active one: a settled commitment is already settled, any
    /// other is inactive.
    pub open spec fn refusal(self) -> LedgerError {
        if self == CommitmentStatus::Settled {
            LedgerError::AlreadySettled
        } else {
            LedgerError::InactiveCommitment
        }
    }

    /// The error for an operation that asks for an active commitment and finds
    /// this state instead.
    pub fn refuse(&self) -> (error: LedgerError)
        ensures
            error == self.refusal(),
    {
        match self {
            CommitmentStatus::Settled => LedgerError::AlreadySettled,
            _ => LedgerError::InactiveCommitment,
        }
    }
}

/// A locked value position under a declared risk and duration policy.
#[derive(Clone, Copy, Debug, PartialEq, Eq, Structural)]
pub struct Commitment {
    pub commitment_id: u64,
    pub owner: Identity,
    /// The ownership token minted for this commitment.
    pub nft_token_id: u32,
    pub rules: CommitmentRules,
    /// The principal.
    pub amount: i128,
    pub asset_address: Identity,
    pub created_at: u64,
    pub expires_at: u64,
    /// What the position is worth now, as last reported.
    pub current_value: i128,
    pub status: CommitmentStatus,
}

/// What the rules of a commitment say at one moment.
#[derive(Clone, Copy, Debug, PartialEq, Eq, Structural)]
pub struct ViolationDetails {
    /// The commitment is active and one of its rules is violated.
    pub has_violation: bool,
    /// The loss is above the maximal loss.
    pub loss_violated: bool,
    /// The expiry time has been reached.
    pub duration_violated: bool,
    /// The loss in percent of the principal, held to the range of `i128`.
    pub loss_percent: i128,
    /// The seconds left until expiry; zero from expiry on.
    pub time_remaining: u64,
}

impl Commitment {
    /// The commitment expires after it was made.
    pub open spec fn sound(&self) -> bool {
        self.created_at < self.expires_at
    }

    /// Whether the commitment expires after it was made.
    pub fn is_sound(&self) -> (ok: bool)
        ensures
            ok == self.sound(),
    {
        self.created_at < self.expires_at
    }

    /// The loss in percent of the principal, rounded down; zero where the
    /// principal is not positive.
    pub open spec fn exact_loss_percent(&self) -> int {
        loss_percent_of(self.amount as int, self.current_value as int)
    }

    /// The loss is strictly above the maximal loss of the rules.
    pub open spec fn loss_exceeded(&self) -> bool {
        self.exact_loss_percent() > self.rules.max_loss_percent
    }

    /// The expiry time has been reached at `now`.
    pub open spec fn expired_at(&self, now: u64) -> bool {
        now >= self.expires_at
    }

    /// The seconds from `now` to expiry; zero from expiry on.
    pub open spec fn remaining_at(&self, now: u64) -> int {
        if now < self.expires_at {
            self.expires_at - now
        } else {
            0
        }
    }

    /// The commitment is active and has lost too much or has expired. A
    /// commitment that has left the active state is never in violation.
    pub open spec fn violated_at(&self, now: u64) -> bool {
        self.status == CommitmentStatus::Active && (self.loss_exceeded() || self.expired_at(now))
    }

    /// The full account of the rules at `now`.
    pub open spec fn details_at(&self, now: u64) -> ViolationDetails {
        ViolationDetails {
            has_violation: self.violated_at(now),
            loss_violated: self.loss_exceeded(),
            duration_violated: self.expired_at(now),
            loss_percent: saturate(self.exact_loss_percent()),
            time_remaining: self.remaining_at(now) as u64,
        }
    }

    /// Whether the commitment is active.
    pub fn is_active(&self) -> (active: bool)
        ensures
            active == (self.status == CommitmentStatus::Active),
    {
        self.status == CommitmentStatus::Active
    }

    /// The loss in percent of the principal, held to the range of `i128`.
    pub fn loss_percent(&self) -> (percent: i128)
        ensures
            percent == saturate(self.exact_loss_percent()),
    {
        loss_percent(self.amount, self.current_value)
    }

    /// Whether the loss is strictly above the maximal loss.
    pub fn loss_violated(&self) -> (violated: bool)
        ensures
            violated == self.loss_exceeded(),
    {
        let limit: i128 = self.rules.max_loss_percent as i128;
        proof {
            lemma_saturate_keeps_order(self.exact_loss_percent(), limit as int);
        }
        loss_percent(self.amount, self.current_value) > limit
    }

    /// Whether the expiry time has been reached at `now`.
    pub fn duration_violated(&self, now: u64) -> (violated: bool)
        ensures
            violated == self.expired_at(now),
    {
        now >= self.expires_at
    }

    /// The seconds from `now` to expiry; zero from expiry on.
    pub fn time_remaining(&self, now: u64) -> (seconds: u64)
        ensures
            seconds == self.remaining_at(now),
    {
        if now < self.expires_at {
            self.expires_at - now
        } else {
            0
        }
    }

    /// Whether the commitment is in violation at `now`.
    pub fn check_violations(&self, now: u64) -> (violated: bool)
        ensures
            violated == self.violated_at(now),
    {
        self.is_active() && (self.loss_violated() || self.duration_violated(now))
    }

    /// The full account of the rules at `now`.
    pub fn get_violation_details(&self, now: u64) -> (details: ViolationDetails)
        ensures
            details == self.details_at(now),
    {
        let loss_violated = self.loss_violated();
        let duration_violated = self.duration_violated(now);
        ViolationDetails {
            has_violation: self.is_active() && (loss_violated || duration_violated),
            loss_violated,
            duration_violated,
            loss_percent: self.loss_percent(),
            time_remaining: self.time_remaining(now),
        }
    }
}

} // verus!
