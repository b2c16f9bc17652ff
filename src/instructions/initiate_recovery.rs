//! The owner opening a recovery once the time-lock has expired.
use vstd::prelude::*;
use crate::crypto::Address;
use crate::errors::{ProgramError, ScreamError};
use crate::events::RecoveryInitiated;
use crate::state::{PanicConfig, Vault};

verus! {

/// The records that opening a recovery reads and writes.
#[derive(Clone, Debug)]
pub struct InitiateRecovery {
    pub owner: Address,
    pub panic_config: PanicConfig,
    pub vault: Vault,
    pub vault_lamports: u64,
}

/// Why opening a recovery at `now` fails, in the order checked, if it does.
pub open spec fn initiate_error(c: InitiateRecovery, now: i64) -> Option<ProgramError> {
    if !c.panic_config.is_triggered {
        Some(ProgramError::Scream(ScreamError::PanicNotTriggered))
    } else if c.vault.recovery_initiated {
        Some(ProgramError::Scream(ScreamError::RecoveryAlreadyInitiated))
    } else if now < c.vault.locked_until {
        Some(ProgramError::Scream(ScreamError::TimeLockActive))
    } else {
        None
    }
}

/// The outcome of opening a recovery: the error and no change, or the
/// recovery marked open with its approvals counted afresh from zero.
pub open spec fn initiate_outcome(
    old: InitiateRecovery,
    new: InitiateRecovery,
    now: i64,
    r: Result<RecoveryInitiated, ProgramError>,
) -> bool {
    match initiate_error(old, now) {
        Some(e) => r == Err::<RecoveryInitiated, ProgramError>(e) && new == old,
        None => {
            &&& new == (InitiateRecovery {
                vault: Vault { recovery_initiated: true, approvals: 0, ..old.vault },
                ..old
            })
            &&& r == Ok::<RecoveryInitiated, ProgramError>(
                RecoveryInitiated { owner: old.owner, vault_balance: old.vault_lamports },
            )
        },
    }
}

/// Opens the recovery of a triggered vault whose time-lock has expired at `now`.
pub fn handler(ctx: &mut InitiateRecovery, now: i64) -> (r: Result<RecoveryInitiated, ProgramError>)
    ensures
        initiate_outcome(*old(ctx), *final(ctx), now, r),
{
    if !ctx.panic_config.is_triggered {
        return Err(ProgramError::Scream(ScreamError::PanicNotTriggered));
    }
    if ctx.vault.recovery_initiated {
        return Err(ProgramError::Scream(ScreamError::RecoveryAlreadyInitiated));
    }
    if now < ctx.vault.locked_until {
        return Err(ProgramError::Scream(ScreamError::TimeLockActive));
    }
    ctx.vault.recovery_initiated = true;
    ctx.vault.approvals = 0;
    Ok(RecoveryInitiated { owner: ctx.owner, vault_balance: ctx.vault_lamports })
}

} // verus!
