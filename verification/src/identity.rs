//! Identities of the parties that act on commitments and tokens.

use vstd::prelude::*;

verus! {

/// What an identity stands for.
#[derive(Clone, Copy, Debug, PartialEq, Eq, Structural)]
pub enum IdentityKind {
    /// A key holder.
    Account,
    /// A deployed contract, such as an asset, a yield target or a ledger.
    Contract,
}

/// A party: the kind of the party and its 256-bit key, held as two halves.
///
/// Two identities are the same party exactly when all three fields agree.
#[derive(Clone, Copy, Debug, PartialEq, Eq, Structural)]
pub struct Identity {
    pub kind: IdentityKind,
    pub hi: u128,
    pub lo: u128,
}

impl Identity {
    /// The account with the given key halves.
    pub fn account(hi: u128, lo: u128) -> (id: Identity)
        ensures
            id == (Identity { kind: IdentityKind::Account, hi, lo }),
    {
        Identity { kind: IdentityKind::Account, hi, lo }
    }

    /// The contract with the given key halves.
    pub fn contract(hi: u128, lo: u128) -> (id: Identity)
        ensures
            id == (Identity { kind: IdentityKind::Contract, hi, lo }),
    {
        Identity { kind: IdentityKind::Contract, hi, lo }
    }

    /// Whether `self` and `other` are the same party.
    pub fn same(&self, other: &Identity) -> (r: bool)
        ensures
            r == (*self == *other),
    {
        *self == *other
    }
}

} // verus!
