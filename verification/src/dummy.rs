//! Stand-ins for the collaborators of the ledger.
//!
//! They hold no state and refuse nothing, for use where only the ledger is of
//! interest.

use vstd::prelude::*;
use crate::identity::Identity;
use crate::transfer::TransferOutcome;

verus! {

/// An asset whose every transfer goes through.
pub struct DummyTokenContract;

impl DummyTokenContract {
    /// Reports the transfer of `amount` from `from` to `to` as completed.
    pub fn transfer(from: Identity, to: Identity, amount: i128) -> (done: TransferOutcome)
        ensures
            done == TransferOutcome::Completed,
    {
        TransferOutcome::Completed
    }
}

/// A token registry that keeps no tokens.
pub struct DummyNFTContract;

impl DummyNFTContract {
    /// Answers every request to mint with the token id 1.
    pub fn mint(owner: Identity, commitment_id: u64) -> (token_id: u32)
        ensures
            token_id == 1,
    {
        1
    }

    /// Accepts the notice that the token `token_id` is settled, and keeps
    /// nothing of it.
    pub fn mark_settled(token_id: u32) {
    }
}

} // verus!
