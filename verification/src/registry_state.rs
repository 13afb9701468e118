//! The token registry as a mathematical value, and what each operation makes
//! of it.
//!
//! For every operation of the registry there is a function that says why a
//! request is refused, if it is, and one that gives the registry after a
//! request that was granted.

use vstd::prelude::*;
use crate::identity::Identity;
use crate::errors::LedgerError;
use crate::rules::{CommitmentType, MAX_LOSS_LIMIT, expiry_of};
use crate::token::{OwnershipToken, TokenEvent, TokenMetadata};

verus! {

/// The registry as a mathematical value.
#[verifier::ext_equal]
pub struct RegistryState {
    /// The administrator, once set.
    pub admin: Option<Identity>,
    /// Who may mint and deactivate tokens besides the administrator.
    pub minters: Set<Identity>,
    /// Every token ever minted, in the order of minting.
    pub tokens: Seq<OwnershipToken>,
    /// The announcements not yet handed out.
    pub events: Seq<TokenEvent>,
}

impl RegistryState {
    /// The registry before anything happened.
    pub open spec fn empty() -> RegistryState {
        RegistryState {
            admin: None,
            minters: Set::empty(),
            tokens: Seq::empty(),
            events: Seq::empty(),
        }
    }

    /// Token ids are 1, 2, 3, ... in the order of minting, and fit in a `u32`.
    pub open spec fn valid(self) -> bool {
        &&& self.tokens.len() <= u32::MAX
        &&& forall|i: int| 0 <= i < self.tokens.len() ==> (#[trigger] self.tokens[i]).token_id == i + 1
    }

    /// A token with this id has been minted.
    pub open spec fn has_token(self, token_id: u32) -> bool {
        1 <= token_id <= self.tokens.len()
    }

    /// The token with this id.
    pub open spec fn token(self, token_id: u32) -> OwnershipToken
        recommends
            self.has_token(token_id),
    {
        self.tokens[token_id - 1]
    }

    /// `who` is the administrator or an authorized minter.
    pub open spec fn may_mint(self, who: Identity) -> bool {
        self.admin == Some(who) || self.minters.contains(who)
    }

    /// This registry with `token` in the place of the token with its id.
    pub open spec fn with_token(self, token: OwnershipToken) -> RegistryState {
        RegistryState { tokens: self.tokens.update(token.token_id - 1, token), ..self }
    }

    /// This registry with one more announcement.
    pub open spec fn announcing(self, event: TokenEvent) -> RegistryState {
        RegistryState { events: self.events.push(event), ..self }
    }

    /// Why setting the administrator is refused, if it is.
    pub open spec fn initialize_refusal(self) -> Option<LedgerError> {
        if self.admin is Some {
            Some(LedgerError::AlreadyInitialized)
        } else {
            None
        }
    }

    /// Why a change of the minters by `caller` is refused, if it is.
    pub open spec fn admin_refusal(self, caller: Identity) -> Option<LedgerError> {
        if self.admin != Some(caller) {
            Some(LedgerError::Unauthorized)
        } else {
            None
        }
    }

    /// Why minting is refused, if it is.
    pub open spec fn mint_refusal(
        self,
        caller: Identity,
        duration_days: u32,
        max_loss_percent: u32,
        commitment_type: Seq<char>,
        amount: i128,
        now: u64,
    ) -> Option<LedgerError> {
        if !self.may_mint(caller) {
            Some(LedgerError::Unauthorized)
        } else if duration_days == 0 || expiry_of(now, duration_days) > u64::MAX {
            Some(LedgerError::InvalidDuration)
        } else if max_loss_percent > MAX_LOSS_LIMIT {
            Some(LedgerError::InvalidMaxLoss)
        } else if CommitmentType::from_tag(commitment_type) is None {
            Some(LedgerError::InvalidCommitmentType)
        } else if amount <= 0 {
            Some(LedgerError::InvalidAmount)
        } else {
            None
        }
    }

    /// The token that a successful minting adds.
    pub open spec fn minted_token(
        self,
        owner: Identity,
        commitment_id: u64,
        duration_days: u32,
        max_loss_percent: u32,
        commitment_type: Seq<char>,
        amount: i128,
        asset: Identity,
        now: u64,
    ) -> OwnershipToken {
        OwnershipToken {
            token_id: (self.tokens.len() + 1) as u32,
            owner,
            metadata: TokenMetadata {
                commitment_id,
                duration_days,
                max_loss_percent,
                commitment_type: CommitmentType::from_tag(commitment_type).unwrap(),
                initial_amount: amount,
                asset_address: asset,
                created_at: now,
                expires_at: expiry_of(now, duration_days) as u64,
            },
            active: true,
        }
    }

    /// This registry after `token` has been minted.
    pub open spec fn after_mint(self, token: OwnershipToken) -> RegistryState {
        RegistryState {
            tokens: self.tokens.push(token),
            events: self.events.push(
                TokenEvent::Minted {
                    token_id: token.token_id,
                    owner: token.owner,
                    commitment_id: token.metadata.commitment_id,
                    timestamp: token.metadata.created_at,
                },
            ),
            ..self
        }
    }

    /// Why a transfer is refused, if it is.
    pub open spec fn transfer_refusal(self, caller: Identity, token_id: u32) -> Option<LedgerError> {
        if !self.has_token(token_id) {
            Some(LedgerError::NotFound)
        } else if self.token(token_id).owner != caller {
            Some(LedgerError::Unauthorized)
        } else if !self.token(token_id).active {
            Some(LedgerError::InactiveToken)
        } else {
            None
        }
    }

    /// This registry after the token has passed to `to`.
    pub open spec fn after_transfer(self, to: Identity, token_id: u32, now: u64) -> RegistryState {
        let token = self.token(token_id);
        self.with_token(OwnershipToken { owner: to, ..token }).announcing(
            TokenEvent::Transferred { token_id, from: token.owner, to, timestamp: now },
        )
    }

    /// Why settling a token is refused, if it is.
    pub open spec fn settle_refusal(self, token_id: u32, now: u64) -> Option<LedgerError> {
        if !self.has_token(token_id) {
            Some(LedgerError::NotFound)
        } else if !self.token(token_id).active {
            Some(LedgerError::AlreadySettled)
        } else if now < self.token(token_id).metadata.expires_at {
            Some(LedgerError::NotYetExpired)
        } else {
            None
        }
    }

    /// Why the deactivation of a token on behalf of its ledger is refused, if
    /// it is.
    pub open spec fn mark_settled_refusal(self, caller: Identity, token_id: u32) -> Option<
        LedgerError,
    > {
        if !self.may_mint(caller) {
            Some(LedgerError::Unauthorized)
        } else if !self.has_token(token_id) {
            Some(LedgerError::NotFound)
        } else if !self.token(token_id).active {
            Some(LedgerError::AlreadySettled)
        } else {
            None
        }
    }

    /// This registry after the token has been deactivated.
    pub open spec fn after_deactivation(self, token_id: u32, now: u64) -> RegistryState {
        let token = self.token(token_id);
        self.with_token(OwnershipToken { active: false, ..token }).announcing(
            TokenEvent::Settled { token_id, timestamp: now },
        )
    }
}

} // verus!
