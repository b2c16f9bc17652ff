//! An emergency contact approving the owner's recovery.
use vstd::prelude::*;
use crate::crypto::Address;
use crate::errors::{ProgramError, ScreamError};
use crate::events::RecoveryApproved;
use crate::state::{AlertAccount, PanicConfig, Vault};

verus! {

/// The records that an approval reads and writes: the approving contact's
/// alert record and the owner's config and vault.
#[derive(Clone, Debug)]
pub struct ApproveRecovery {
    /// The approving contact.
    pub contact: Address,
    /// The owner whose vault the approval concerns.
    pub owner: Address,
    pub panic_config: PanicConfig,
    pub vault: Vault,
    pub alert_account: AlertAccount,
}

/// Why an approval fails, in the order checked, if it does.
pub open spec fn approve_error(c: ApproveRecovery) -> Option<ProgramError> {
    if !c.panic_config.is_triggered {
        Some(ProgramError::Scream(ScreamError::PanicNotTriggered))
    } else if !c.vault.recovery_initiated {
        Some(ProgramError::Scream(ScreamError::RecoveryNotInitiated))
    } else if !c.panic_config.has_contact(c.contact) {
        Some(ProgramError::Scream(ScreamError::InvalidContact))
    } else if c.alert_account.has_approved {
        Some(ProgramError::Scream(ScreamError::AlreadyApproved))
    } else if c.vault.approvals == u8::MAX {
        Some(ProgramError::ArithmeticOverflow)
    } else {
        None
    }
}

/// The outcome of an approval: the error and no change, or the contact's
/// approval recorded and the count raised by one.
pub open spec fn approve_outcome(
    old: ApproveRecovery,
    new: ApproveRecovery,
    r: Result<RecoveryApproved, ProgramError>,
) -> bool {
    match approve_error(old) {
        Some(e) => r == Err::<RecoveryApproved, ProgramError>(e) && new == old,
        None => {
            &&& new == (ApproveRecovery {
                vault: Vault { approvals: (old.vault.approvals + 1) as u8, ..old.vault },
                alert_account: AlertAccount { has_approved: true, ..old.alert_account },
                ..old
            })
            &&& r == Ok::<RecoveryApproved, ProgramError>(
                RecoveryApproved {
                    owner: old.owner,
                    contact: old.contact,
                    approvals_so_far: new.vault.approvals,
                    threshold: old.panic_config.recovery_threshold,
                },
            )
        },
    }
}

/// Records the contact's approval of the open recovery.
pub fn handler(ctx: &mut ApproveRecovery) -> (r: Result<RecoveryApproved, ProgramError>)
    ensures
        approve_outcome(*old(ctx), *final(ctx), r),
{
    if !ctx.panic_config.is_triggered {
        return Err(ProgramError::Scream(ScreamError::PanicNotTriggered));
    }
    if !ctx.vault.recovery_initiated {
        return Err(ProgramError::Scream(ScreamError::RecoveryNotInitiated));
    }
    if !ctx.panic_config.is_contact(&ctx.contact) {
        return Err(ProgramError::Scream(ScreamError::InvalidContact));
    }
    if ctx.alert_account.has_approved {
        return Err(ProgramError::Scream(ScreamError::AlreadyApproved));
    }
    if ctx.vault.approvals == u8::MAX {
        return Err(ProgramError::ArithmeticOverflow);
    }
    ctx.alert_account.has_approved = true;
    ctx.vault.approvals = ctx.vault.approvals + 1;
    Ok(
        RecoveryApproved {
            owner: ctx.owner,
            contact: ctx.contact,
            approvals_so_far: ctx.vault.approvals,
            threshold: ctx.panic_config.recovery_threshold,
        },
    )
}

} // verus!
