//! Topping up the vault, at any time.
use vstd::prelude::*;
use crate::crypto::Address;
use crate::errors::ProgramError;
use crate::events::Deposited;
use crate::state::{PanicConfig, Vault};

verus! {

/// The balances that a deposit moves between.
#[derive(Clone, Debug)]
pub struct Deposit {
    pub owner: Address,
    /// The owner's liquid balance.
    pub owner_lamports: u64,
    pub panic_config: PanicConfig,
    pub vault: Vault,
    pub vault_lamports: u64,
}

/// Why a deposit of `amount` fails, if it does.
pub open spec fn deposit_error(c: Deposit, amount: u64) -> Option<ProgramError> {
    if amount > c.owner_lamports {
        Some(ProgramError::InsufficientLamports)
    } else if c.vault_lamports + amount > u64::MAX {
        Some(ProgramError::ArithmeticOverflow)
    } else {
        None
    }
}

/// The outcome of a deposit: the error and no change, or `amount` moved from
/// the owner to the vault and the vault's new balance reported.
pub open spec fn deposit_outcome(
    old: Deposit,
    new: Deposit,
    amount: u64,
    r: Result<Deposited, ProgramError>,
) -> bool {
    match deposit_error(old, amount) {
        Some(e) => r == Err::<Deposited, ProgramError>(e) && new == old,
        None => {
            &&& new == (Deposit {
                owner_lamports: (old.owner_lamports - amount) as u64,
                vault_lamports: (old.vault_lamports + amount) as u64,
                ..old
            })
            &&& r == Ok::<Deposited, ProgramError>(
                Deposited { owner: old.owner, amount, vault_balance: new.vault_lamports },
            )
        },
    }
}

/// Moves `amount` from the owner's liquid balance into the vault.
pub fn handler(ctx: &mut Deposit, amount: u64) -> (r: Result<Deposited, ProgramError>)
    ensures
        deposit_outcome(*old(ctx), *final(ctx), amount, r),
{
    if amount > ctx.owner_lamports {
        return Err(ProgramError::InsufficientLamports);
    }
    let vault_balance = match ctx.vault_lamports.checked_add(amount) {
        Some(v) => v,
        None => return Err(ProgramError::ArithmeticOverflow),
    };
    ctx.owner_lamports = ctx.owner_lamports - amount;
    ctx.vault_lamports = vault_balance;
    Ok(Deposited { owner: ctx.owner, amount, vault_balance })
}

} // verus!
