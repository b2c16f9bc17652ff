//! The ways an operation on the vault is refused.
use vstd::prelude::*;

verus! {

/// A precondition of the vault's protocol that an operation did not meet.
#[derive(Clone, Copy, Debug, PartialEq, Eq, Structural)]
pub enum ScreamError {
    InvalidTriggerProof,
    PanicAlreadyTriggered,
    PanicNotTriggered,
    TimeLockActive,
    RecoveryNotInitiated,
    RecoveryAlreadyInitiated,
    InsufficientApprovals,
    InvalidContact,
    AlreadyApproved,
    TooManyContacts,
    InvalidThreshold,
    InsufficientFundsForDecoy,
    ContactAccountMismatch,
}

impl ScreamError {
    /// The message that goes with the error.
    pub fn message(&self) -> (r: &'static str) {
        match self {
            ScreamError::InvalidTriggerProof => "Invalid trigger proof: hash does not match stored trigger hash",
            ScreamError::PanicAlreadyTriggered => "Panic has already been triggered for this config",
            ScreamError::PanicNotTriggered => "Panic has not been triggered yet",
            ScreamError::TimeLockActive => "Time-lock has not expired yet",
            ScreamError::RecoveryNotInitiated => "Recovery has not been initiated",
            ScreamError::RecoveryAlreadyInitiated => "Recovery has already been initiated",
            ScreamError::InsufficientApprovals => "Insufficient approvals for recovery",
            ScreamError::InvalidContact => "Contact is not in the emergency contacts list",
            ScreamError::AlreadyApproved => "Contact has already approved recovery",
            ScreamError::TooManyContacts => "Too many contacts (max 5)",
            ScreamError::InvalidThreshold => "Recovery threshold must be <= number of contacts",
            ScreamError::InsufficientFundsForDecoy => "Insufficient funds for decoy transfer",
            ScreamError::ContactAccountMismatch => "Number of remaining accounts does not match number of contacts",
        }
    }
}

/// Why an operation failed: a rule of the vault, or a limit of the ledger
/// that carries it out.
#[derive(Clone, Copy, Debug, PartialEq, Eq, Structural)]
pub enum ProgramError {
    /// A rule of the vault's protocol.
    Scream(ScreamError),
    /// A transfer asked for more than its source holds.
    InsufficientLamports,
    /// A supplied alert record slot is not the address derived for its contact.
    InvalidAlertAddress,
    /// No bump seed gives an alert record address for some contact.
    NoViableAddress,
    /// A balance, timestamp or counter would leave its integer range.
    ArithmeticOverflow,
}

} // verus!
