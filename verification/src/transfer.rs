//! The asset transfers that the ledger asks for.
//!
//! The ledger moves no assets itself. Each operation that needs a transfer
//! comes in two steps: one that checks the request and says which transfer it
//! needs, and one that takes the outcome of that transfer and, where it went
//! through, changes the ledger.

use vstd::prelude::*;
use crate::identity::Identity;
use crate::errors::LedgerError;

verus! {

/// A transfer of `amount` of `asset` from `from` to `to`. It goes through in
/// full or not at all.
#[derive(Clone, Copy, Debug, PartialEq, Eq, Structural)]
pub struct TransferOrder {
    pub asset: Identity,
    pub from: Identity,
    pub to: Identity,
    pub amount: i128,
}

/// How a transfer ended.
#[derive(Clone, Copy, Debug, PartialEq, Eq, Structural)]
pub enum TransferOutcome {
    Completed,
    Failed,
}

impl TransferOutcome {
    /// Whether the transfer went through.
    pub fn is_completed(&self) -> (yes: bool)
        ensures
            yes == (*self == TransferOutcome::Completed),
    {
        match self {
            TransferOutcome::Completed => true,
            TransferOutcome::Failed => false,
        }
    }
}

/// The refusal of an operation whose transfer ended in `transfer`: the refusal
/// found before the transfer, if any, else the failure of the transfer, if it
/// failed.
pub open spec fn or_failed(refusal: Option<LedgerError>, transfer: TransferOutcome) -> Option<
    LedgerError,
> {
    match refusal {
        Some(e) => Some(e),
        None => if transfer == TransferOutcome::Failed {
            Some(LedgerError::TransferFailed)
        } else {
            None
        },
    }
}

} // verus!
