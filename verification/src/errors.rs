//! The conditions under which an operation is refused.

use vstd::prelude::*;

verus! {

/// Why an operation was refused. A refused operation changes nothing.
#[derive(Clone, Copy, Debug, PartialEq, Eq, Structural)]
pub enum LedgerError {
    /// The caller lacks the role or the ownership that the operation asks for.
    Unauthorized,
    /// No commitment or token has the given id.
    NotFound,
    /// The commitment is unknown or has left the active status.
    InactiveCommitment,
    /// The token has been deactivated.
    InactiveToken,
    /// The commitment or token has already been settled.
    AlreadySettled,
    /// The expiry time has not been reached.
    NotYetExpired,
    /// The amount exceeds what the commitment has available.
    InsufficientBalance,
    /// The amount is not positive.
    InvalidAmount,
    /// The rules of a commitment are not acceptable.
    InvalidRules,
    /// The duration of a token is zero or runs past the end of time.
    InvalidDuration,
    /// The maximal loss of a token is above one hundred percent.
    InvalidMaxLoss,
    /// The commitment type of a token is not one of the known tags.
    InvalidCommitmentType,
    /// The administrator has already been set.
    AlreadyInitialized,
    /// The asset transfer did not go through.
    TransferFailed,
}

impl LedgerError {
    /// The name of the condition and, after a colon, what it means.
    pub open spec fn message_of(self) -> Seq<char> {
        match self {
            LedgerError::Unauthorized => "Unauthorized: caller lacks the required role or ownership"@,
            LedgerError::NotFound => "NotFound: no commitment or token has this id"@,
            LedgerError::InactiveCommitment => "InactiveCommitment: commitment is not active or does not exist"@,
            LedgerError::InactiveToken => "InactiveToken: token is not active"@,
            LedgerError::AlreadySettled => "AlreadySettled: commitment or token is already settled"@,
            LedgerError::NotYetExpired => "NotYetExpired: commitment has not expired"@,
            LedgerError::InsufficientBalance => "InsufficientBalance: commitment does not have enough balance"@,
            LedgerError::InvalidAmount => "InvalidAmount: amount must be greater than zero"@,
            LedgerError::InvalidRules => "InvalidRules: duration or maximal loss is out of range"@,
            LedgerError::InvalidDuration => "InvalidDuration: duration must be greater than zero"@,
            LedgerError::InvalidMaxLoss => "InvalidMaxLoss: maximal loss must be at most 100 percent"@,
            LedgerError::InvalidCommitmentType => "InvalidCommitmentType: type must be safe, balanced or aggressive"@,
            LedgerError::AlreadyInitialized => "AlreadyInitialized: contract is already initialized"@,
            LedgerError::TransferFailed => "TransferFailed: asset transfer failed"@,
        }
    }

    /// The name of the condition and, after a colon, what it means.
    pub fn message(&self) -> (text: &'static str)
        ensures
            text@ == self.message_of(),
    {
        match self {
            LedgerError::Unauthorized => "Unauthorized: caller lacks the required role or ownership",
            LedgerError::NotFound => "NotFound: no commitment or token has this id",
            LedgerError::InactiveCommitment => "InactiveCommitment: commitment is not active or does not exist",
            LedgerError::InactiveToken => "InactiveToken: token is not active",
            LedgerError::AlreadySettled => "AlreadySettled: commitment or token is already settled",
            LedgerError::NotYetExpired => "NotYetExpired: commitment has not expired",
            LedgerError::InsufficientBalance => "InsufficientBalance: commitment does not have enough balance",
            LedgerError::InvalidAmount => "InvalidAmount: amount must be greater than zero",
            LedgerError::InvalidRules => "InvalidRules: duration or maximal loss is out of range",
            LedgerError::InvalidDuration => "InvalidDuration: duration must be greater than zero",
            LedgerError::InvalidMaxLoss => "InvalidMaxLoss: maximal loss must be at most 100 percent",
            LedgerError::InvalidCommitmentType => "InvalidCommitmentType: type must be safe, balanced or aggressive",
            LedgerError::AlreadyInitialized => "AlreadyInitialized: contract is already initialized",
            LedgerError::TransferFailed => "TransferFailed: asset transfer failed",
        }
    }
}

/// `Err(e)` where an operation is refused with `e`, else `Ok(value)`.
pub open spec fn outcome<T>(refusal: Option<LedgerError>, value: T) -> Result<T, LedgerError> {
    match refusal {
        Some(e) => Err(e),
        None => Ok(value),
    }
}

} // verus!
