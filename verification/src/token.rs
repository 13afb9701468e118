//! The ownership token registry.
//!
//! One token stands for the beneficial ownership of one commitment. It holds a
//! copy of the commitment's terms, the current owner, and whether the position
//! is still open. The registry alone writes the owner and the active flag.

use vstd::prelude::*;
use crate::identity::Identity;
use crate::errors::{LedgerError, outcome};
use crate::roster::Roster;
use crate::rules::{CommitmentType, MAX_LOSS_LIMIT, expiry};
use crate::registry_state::RegistryState;

verus! {

/// The terms of the commitment that a token stands for, as they were when the
/// token was minted.
#[derive(Clone, Copy, Debug, PartialEq, Eq, Structural)]
pub struct TokenMetadata {
    pub commitment_id: u64,
    pub duration_days: u32,
    pub max_loss_percent: u32,
    pub commitment_type: CommitmentType,
    pub initial_amount: i128,
    pub asset_address: Identity,
    pub created_at: u64,
    pub expires_at: u64,
}

/// A transferable record of who owns a commitment.
#[derive(Clone, Copy, Debug, PartialEq, Eq, Structural)]
pub struct OwnershipToken {
    pub token_id: u32,
    pub owner: Identity,
    pub metadata: TokenMetadata,
    /// True from minting until the position is settled or exited.
    pub active: bool,
}

/// What the registry announces.
#[derive(Clone, Copy, Debug, PartialEq, Eq, Structural)]
pub enum TokenEvent {
    Minted { token_id: u32, owner: Identity, commitment_id: u64, timestamp: u64 },
    Transferred { token_id: u32, from: Identity, to: Identity, timestamp: u64 },
    Settled { token_id: u32, timestamp: u64 },
}

/// The registry of ownership tokens.
pub struct TokenRegistry {
    admin: Option<Identity>,
    minters: Roster,
    tokens: Vec<OwnershipToken>,
    events: Vec<TokenEvent>,
}

impl View for TokenRegistry {
    type V = RegistryState;

    closed spec fn view(&self) -> RegistryState {
        RegistryState {
            admin: self.admin,
            minters: self.minters@,
            tokens: self.tokens@,
            events: self.events@,
        }
    }
}

/// Whether the ids of `tokens` are 1, 2, 3, ... and fit in a `u32`.
fn ids_in_sequence(tokens: &Vec<OwnershipToken>) -> (ok: bool)
    ensures
        ok == (tokens@.len() <= u32::MAX && forall|i: int|
            0 <= i < tokens@.len() ==> (#[trigger] tokens@[i]).token_id == i + 1),
{
    if tokens.len() > u32::MAX as usize {
        return false;
    }
    let mut i: usize = 0;
    while i < tokens.len()
        invariant
            i <= tokens.len(),
            tokens.len() <= u32::MAX,
            forall|j: int| 0 <= j < i ==> (#[trigger] tokens@[j]).token_id == j + 1,
        decreases tokens.len() - i,
    {
        if tokens[i].token_id as usize != i + 1 {
            return false;
        }
        i += 1;
    }
    true
}

impl TokenRegistry {
    /// The registry holds what a registry can hold.
    pub open spec fn well_formed(&self) -> bool {
        self@.valid()
    }

    /// A registry without administrator, minters or tokens.
    pub fn new() -> (registry: TokenRegistry)
        ensures
            registry.well_formed(),
            registry@ == RegistryState::empty(),
    {
        let registry = TokenRegistry {
            admin: None,
            minters: Roster::new(),
            tokens: Vec::new(),
            events: Vec::new(),
        };
        assert(registry@ =~= RegistryState::empty());
        registry
    }

    /// Rebuilds a registry from its parts, as they were stored. The parts are
    /// taken only if the token ids are 1, 2, 3, ... in this order.
    pub fn restore(
        admin: Option<Identity>,
        minters: Vec<Identity>,
        tokens: Vec<OwnershipToken>,
    ) -> (restored: Option<TokenRegistry>)
        ensures
            restored is Some <==> (RegistryState {
                admin,
                minters: minters@.to_set(),
                tokens: tokens@,
                events: Seq::empty(),
            }).valid(),
            restored matches Some(registry) ==> registry.well_formed() && registry@ == (
            RegistryState {
                admin,
                minters: minters@.to_set(),
                tokens: tokens@,
                events: Seq::empty(),
            }),
    {
        if !ids_in_sequence(&tokens) {
            return None;
        }
        let registry = TokenRegistry {
            admin,
            minters: Roster::from_members(minters),
            tokens,
            events: Vec::new(),
        };
        assert(registry@ =~= (RegistryState {
            admin,
            minters: minters@.to_set(),
            tokens: tokens@,
            events: Seq::empty(),
        }));
        Some(registry)
    }

    /// The administrator, once set.
    pub fn admin(&self) -> (admin: Option<Identity>)
        ensures
            admin == self@.admin,
    {
        self.admin
    }

    /// The authorized minters, each once.
    pub fn minters(&self) -> (list: Vec<Identity>)
        ensures
            list@.to_set() == self@.minters,
            list@.no_duplicates(),
    {
        self.minters.members()
    }

    /// Every token, in the order of minting.
    pub fn tokens(&self) -> (list: &Vec<OwnershipToken>)
        ensures
            list@ == self@.tokens,
    {
        &self.tokens
    }

    /// The announcements not yet handed out, oldest first.
    pub fn events(&self) -> (list: &Vec<TokenEvent>)
        ensures
            list@ == self@.events,
    {
        &self.events
    }

    /// Hands out the announcements and forgets them.
    pub fn take_events(&mut self) -> (list: Vec<TokenEvent>)
        ensures
            list@ == old(self)@.events,
            final(self)@ == (RegistryState { events: Seq::empty(), ..old(self)@ }),
    {
        let mut list: Vec<TokenEvent> = Vec::new();
        std::mem::swap(&mut list, &mut self.events);
        assert(self@ =~= (RegistryState { events: Seq::empty(), ..old(self)@ }));
        list
    }

    /// Sets the administrator. This succeeds once.
    pub fn initialize(&mut self, admin: Identity) -> (res: Result<(), LedgerError>)
        ensures
            res == outcome(old(self)@.initialize_refusal(), ()),
            res is Ok ==> final(self)@ == (RegistryState { admin: Some(admin), ..old(self)@ }),
            res is Err ==> final(self)@ == old(self)@,
    {
        if self.admin.is_some() {
            return Err(LedgerError::AlreadyInitialized);
        }
        self.admin = Some(admin);
        assert(self@ =~= (RegistryState { admin: Some(admin), ..old(self)@ }));
        Ok(())
    }

    /// Whether `who` is the administrator.
    pub fn is_admin(&self, who: &Identity) -> (yes: bool)
        ensures
            yes == (self@.admin == Some(*who)),
    {
        match self.admin {
            Some(admin) => admin == *who,
            None => false,
        }
    }

    /// Whether `who` is an authorized minter.
    pub fn is_authorized_minter(&self, who: &Identity) -> (yes: bool)
        ensures
            yes == self@.minters.contains(*who),
    {
        self.minters.contains(who)
    }

    /// Whether `who` may mint and deactivate tokens.
    pub fn may_mint(&self, who: &Identity) -> (yes: bool)
        ensures
            yes == self@.may_mint(*who),
    {
        self.is_admin(who) || self.minters.contains(who)
    }

    /// Lets `minter` mint. Only the administrator may do this.
    pub fn add_authorized_minter(&mut self, caller: Identity, minter: Identity) -> (res: Result<
        (),
        LedgerError,
    >)
        ensures
            res == outcome(old(self)@.admin_refusal(caller), ()),
            res is Ok ==> final(self)@ == (RegistryState {
                minters: old(self)@.minters.insert(minter),
                ..old(self)@
            }),
            res is Err ==> final(self)@ == old(self)@,
    {
        if !self.is_admin(&caller) {
            return Err(LedgerError::Unauthorized);
        }
        self.minters.insert(minter);
        assert(self@ =~= (RegistryState {
            minters: old(self)@.minters.insert(minter),
            ..old(self)@
        }));
        Ok(())
    }

    /// Stops `minter` from minting. Only the administrator may do this.
    pub fn remove_authorized_minter(&mut self, caller: Identity, minter: Identity) -> (res: Result<
        (),
        LedgerError,
    >)
        ensures
            res == outcome(old(self)@.admin_refusal(caller), ()),
            res is Ok ==> final(self)@ == (RegistryState {
                minters: old(self)@.minters.remove(minter),
                ..old(self)@
            }),
            res is Err ==> final(self)@ == old(self)@,
    {
        if !self.is_admin(&caller) {
            return Err(LedgerError::Unauthorized);
        }
        self.minters.remove(minter);
        assert(self@ =~= (RegistryState {
            minters: old(self)@.minters.remove(minter),
            ..old(self)@
        }));
        Ok(())
    }

    /// Mints the token for a commitment and returns its id, the number of
    /// tokens minted so far. The caller must be the administrator or an
    /// authorized minter, and the terms must be acceptable.
    pub fn mint(
        &mut self,
        caller: Identity,
        owner: Identity,
        commitment_id: u64,
        duration_days: u32,
        max_loss_percent: u32,
        commitment_type: &str,
        amount: i128,
        asset: Identity,
        now: u64,
    ) -> (res: Result<u32, LedgerError>)
        requires
            old(self).well_formed(),
            old(self)@.tokens.len() < u32::MAX,
        ensures
            final(self).well_formed(),
            res == outcome(
                old(self)@.mint_refusal(
                    caller,
                    duration_days,
                    max_loss_percent,
                    commitment_type@,
                    amount,
                    now,
                ),
                (old(self)@.tokens.len() + 1) as u32,
            ),
            res is Ok ==> final(self)@ == old(self)@.after_mint(
                old(self)@.minted_token(
                    owner,
                    commitment_id,
                    duration_days,
                    max_loss_percent,
                    commitment_type@,
                    amount,
                    asset,
                    now,
                ),
            ),
            res is Err ==> final(self)@ == old(self)@,
    {
        if !self.may_mint(&caller) {
            return Err(LedgerError::Unauthorized);
        }
        if duration_days == 0 {
            return Err(LedgerError::InvalidDuration);
        }
        let expires_at: u64 = match expiry(now, duration_days) {
            Some(t) => t,
            None => {
                return Err(LedgerError::InvalidDuration);
            },
        };
        if max_loss_percent > MAX_LOSS_LIMIT {
            return Err(LedgerError::InvalidMaxLoss);
        }
        let kind = match CommitmentType::parse(commitment_type) {
            Some(kind) => kind,
            None => {
                return Err(LedgerError::InvalidCommitmentType);
            },
        };
        if amount <= 0 {
            return Err(LedgerError::InvalidAmount);
        }
        let token_id: u32 = (self.tokens.len() + 1) as u32;
        let token = OwnershipToken {
            token_id,
            owner,
            metadata: TokenMetadata {
                commitment_id,
                duration_days,
                max_loss_percent,
                commitment_type: kind,
                initial_amount: amount,
                asset_address: asset,
                created_at: now,
                expires_at,
            },
            active: true,
        };
        self.tokens.push(token);
        self.events.push(
            TokenEvent::Minted { token_id, owner, commitment_id, timestamp: now },
        );
        assert(self@ =~= old(self)@.after_mint(token));
        Ok(token_id)
    }

    /// Passes a token from its owner to `to`. Only the owner may do this, and
    /// only while the token is active.
    pub fn transfer(&mut self, caller: Identity, to: Identity, token_id: u32, now: u64) -> (res:
        Result<(), LedgerError>)
        requires
            old(self).well_formed(),
        ensures
            final(self).well_formed(),
            res == outcome(old(self)@.transfer_refusal(caller, token_id), ()),
            res is Ok ==> final(self)@ == old(self)@.after_transfer(to, token_id, now),
            res is Err ==> final(self)@ == old(self)@,
    {
        if token_id == 0 || token_id as usize > self.tokens.len() {
            return Err(LedgerError::NotFound);
        }
        let at: usize = (token_id - 1) as usize;
        let token = self.tokens[at];
        if token.owner != caller {
            return Err(LedgerError::Unauthorized);
        }
        if !token.active {
            return Err(LedgerError::InactiveToken);
        }
        self.tokens.set(at, OwnershipToken { owner: to, ..token });
        self.events.push(
            TokenEvent::Transferred { token_id, from: token.owner, to, timestamp: now },
        );
        assert(self@ =~= old(self)@.after_transfer(to, token_id, now));
        Ok(())
    }

    /// Deactivates a token whose commitment has expired. Anyone may do this,
    /// once.
    pub fn settle(&mut self, token_id: u32, now: u64) -> (res: Result<(), LedgerError>)
        requires
            old(self).well_formed(),
        ensures
            final(self).well_formed(),
            res == outcome(old(self)@.settle_refusal(token_id, now), ()),
            res is Ok ==> final(self)@ == old(self)@.after_deactivation(token_id, now),
            res is Err ==> final(self)@ == old(self)@,
    {
        if token_id == 0 || token_id as usize > self.tokens.len() {
            return Err(LedgerError::NotFound);
        }
        let at: usize = (token_id - 1) as usize;
        let token = self.tokens[at];
        if !token.active {
            return Err(LedgerError::AlreadySettled);
        }
        if now < token.metadata.expires_at {
            return Err(LedgerError::NotYetExpired);
        }
        self.tokens.set(at, OwnershipToken { active: false, ..token });
        self.events.push(TokenEvent::Settled { token_id, timestamp: now });
        assert(self@ =~= old(self)@.after_deactivation(token_id, now));
        Ok(())
    }

    /// Deactivates a token on behalf of the ledger that settles or exits its
    /// commitment, whatever the time. The caller must be the administrator or
    /// an authorized minter.
    pub fn mark_settled(&mut self, caller: Identity, token_id: u32, now: u64) -> (res: Result<
        (),
        LedgerError,
    >)
        requires
            old(self).well_formed(),
        ensures
            final(self).well_formed(),
            res == outcome(old(self)@.mark_settled_refusal(caller, token_id), ()),
            res is Ok ==> final(self)@ == old(self)@.after_deactivation(token_id, now),
            res is Err ==> final(self)@ == old(self)@,
    {
        if !self.may_mint(&caller) {
            return Err(LedgerError::Unauthorized);
        }
        if token_id == 0 || token_id as usize > self.tokens.len() {
            return Err(LedgerError::NotFound);
        }
        let at: usize = (token_id - 1) as usize;
        let token = self.tokens[at];
        if !token.active {
            return Err(LedgerError::AlreadySettled);
        }
        self.tokens.set(at, OwnershipToken { active: false, ..token });
        self.events.push(TokenEvent::Settled { token_id, timestamp: now });
        assert(self@ =~= old(self)@.after_deactivation(token_id, now));
        Ok(())
    }

    /// The token with the given id.
    pub fn get_token(&self, token_id: u32) -> (res: Result<OwnershipToken, LedgerError>)
        ensures
            res == (if self@.has_token(token_id) {
                Ok(self@.token(token_id))
            } else {
                Err(LedgerError::NotFound)
            }),
    {
        if token_id == 0 || token_id as usize > self.tokens.len() {
            return Err(LedgerError::NotFound);
        }
        Ok(self.tokens[(token_id - 1) as usize])
    }

    /// The owner of a token.
    pub fn owner_of(&self, token_id: u32) -> (res: Result<Identity, LedgerError>)
        ensures
            res == (if self@.has_token(token_id) {
                Ok(self@.token(token_id).owner)
            } else {
                Err(LedgerError::NotFound)
            }),
    {
        match self.get_token(token_id) {
            Ok(token) => Ok(token.owner),
            Err(e) => Err(e),
        }
    }

    /// The terms that a token carries.
    pub fn get_metadata(&self, token_id: u32) -> (res: Result<TokenMetadata, LedgerError>)
        ensures
            res == (if self@.has_token(token_id) {
                Ok(self@.token(token_id).metadata)
            } else {
                Err(LedgerError::NotFound)
            }),
    {
        match self.get_token(token_id) {
            Ok(token) => Ok(token.metadata),
            Err(e) => Err(e),
        }
    }

    /// Whether a token is active.
    pub fn is_active(&self, token_id: u32) -> (res: Result<bool, LedgerError>)
        ensures
            res == (if self@.has_token(token_id) {
                Ok(self@.token(token_id).active)
            } else {
                Err(LedgerError::NotFound)
            }),
    {
        match self.get_token(token_id) {
            Ok(token) => Ok(token.active),
            Err(e) => Err(e),
        }
    }

    /// The number of tokens minted so far.
    pub fn total_supply(&self) -> (supply: u32)
        requires
            self.well_formed(),
        ensures
            supply == self@.tokens.len(),
    {
        self.tokens.len() as u32
    }
}

} // verus!
