//! The owner recovering the vault's funds after the time-lock and the quorum.
use vstd::prelude::*;
use crate::crypto::Address;
use crate::errors::{ProgramError, ScreamError};
use crate::events::FundsRecovered;
use crate::state::{PanicConfig, Vault};

verus! {

/// The records and balances that a claim reads and writes.
#[derive(Clone, Debug)]
pub struct ClaimFromVault {
    pub owner: Address,
    /// The owner's liquid balance.
    pub owner_lamports: u64,
    pub panic_config: PanicConfig,
    pub vault: Vault,
    pub vault_lamports: u64,
    /// The protected minimum below which the vault's balance is not paid out.
    pub vault_minimum_balance: u64,
}

/// What a claim pays: the vault's balance above its protected minimum.
pub open spec fn claimable_amount(vault_lamports: u64, minimum: u64) -> int {
    if vault_lamports > minimum {
        vault_lamports - minimum
    } else {
        0
    }
}

/// Why a claim at `now` fails, in the order checked, if it does.
pub open spec fn claim_error(c: ClaimFromVault, now: i64) -> Option<ProgramError> {
    if !c.panic_config.is_triggered {
        Some(ProgramError::Scream(ScreamError::PanicNotTriggered))
    } else if !c.vault.recovery_initiated {
        Some(ProgramError::Scream(ScreamError::RecoveryNotInitiated))
    } else if c.vault.approvals < c.panic_config.recovery_threshold {
        Some(ProgramError::Scream(ScreamError::InsufficientApprovals))
    } else if now < c.vault.locked_until {
        Some(ProgramError::Scream(ScreamError::TimeLockActive))
    } else if c.owner_lamports + claimable_amount(c.vault_lamports, c.vault_minimum_balance)
        > u64::MAX {
        Some(ProgramError::ArithmeticOverflow)
    } else {
        None
    }
}

/// The outcome of a claim: the error and no change, or the vault's balance
/// above its protected minimum paid to the owner.
pub open spec fn claim_outcome(
    old: ClaimFromVault,
    new: ClaimFromVault,
    now: i64,
    r: Result<FundsRecovered, ProgramError>,
) -> bool {
    let amount = claimable_amount(old.vault_lamports, old.vault_minimum_balance);
    match claim_error(old, now) {
        Some(e) => r == Err::<FundsRecovered, ProgramError>(e) && new == old,
        None => {
            &&& new == (ClaimFromVault {
                owner_lamports: (old.owner_lamports + amount) as u64,
                vault_lamports: (old.vault_lamports - amount) as u64,
                ..old
            })
            &&& r == Ok::<FundsRecovered, ProgramError>(
                FundsRecovered { owner: old.owner, amount: amount as u64 },
            )
        },
    }
}

/// Pays the vault's balance above its protected minimum to the owner, once the
/// recovery is open, approved by the quorum, and the time-lock has expired.
pub fn handler(ctx: &mut ClaimFromVault, now: i64) -> (r: Result<FundsRecovered, ProgramError>)
    ensures
        claim_outcome(*old(ctx), *final(ctx), now, r),
{
    if !ctx.panic_config.is_triggered {
        return Err(ProgramError::Scream(ScreamError::PanicNotTriggered));
    }
    if !ctx.vault.recovery_initiated {
        return Err(ProgramError::Scream(ScreamError::RecoveryNotInitiated));
    }
    if ctx.vault.approvals < ctx.panic_config.recovery_threshold {
        return Err(ProgramError::Scream(ScreamError::InsufficientApprovals));
    }
    if now < ctx.vault.locked_until {
        return Err(ProgramError::Scream(ScreamError::TimeLockActive));
    }
    let claimable: u64 = if ctx.vault_lamports > ctx.vault_minimum_balance {
        ctx.vault_lamports - ctx.vault_minimum_balance
    } else {
        0
    };
    let owner_balance = match ctx.owner_lamports.checked_add(claimable) {
        Some(v) => v,
        None => return Err(ProgramError::ArithmeticOverflow),
    };
    ctx.vault_lamports = ctx.vault_lamports - claimable;
    ctx.owner_lamports = owner_balance;
    Ok(FundsRecovered { owner: ctx.owner, amount: claimable })
}

} // verus!
