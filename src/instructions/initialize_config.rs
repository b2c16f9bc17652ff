//! Registering an owner's policy and opening their vault.
use vstd::prelude::*;
use crate::crypto::Address;
use crate::errors::{ProgramError, ScreamError};
use crate::events::ConfigInitialized;
use crate::state::{PanicConfig, Vault};
use crate::state::panic_config::MAX_CONTACTS;

verus! {

/// The records that a configuration writes: the owner's fresh config and vault.
#[derive(Clone, Debug)]
pub struct InitializeConfig {
    pub owner: Address,
    pub panic_config: PanicConfig,
    pub vault: Vault,
    pub panic_config_bump: u8,
    pub vault_bump: u8,
}

/// Why a configuration with these contacts and threshold is refused, if it is.
pub open spec fn configure_error(contacts: Seq<Address>, recovery_threshold: u8) -> Option<
    ProgramError,
> {
    if contacts.len() > MAX_CONTACTS {
        Some(ProgramError::Scream(ScreamError::TooManyContacts))
    } else if recovery_threshold as int > contacts.len() {
        Some(ProgramError::Scream(ScreamError::InvalidThreshold))
    } else {
        None
    }
}

/// The outcome of a configuration: the error and no change where
/// `configure_error` names one; otherwise an untriggered config holding the
/// policy, an empty recovery state in the vault, and the event.
pub open spec fn configure_outcome(
    old: InitializeConfig,
    new: InitializeConfig,
    trigger_hash: [u8; 32],
    contacts: Seq<Address>,
    recovery_threshold: u8,
    time_lock_duration: i64,
    decoy_lamports: u64,
    r: Result<ConfigInitialized, ProgramError>,
) -> bool {
    match configure_error(contacts, recovery_threshold) {
        Some(e) => r == Err::<ConfigInitialized, ProgramError>(e) && new == old,
        None => {
            &&& new.owner == old.owner
            &&& new.panic_config_bump == old.panic_config_bump
            &&& new.vault_bump == old.vault_bump
            &&& new.panic_config.owner == old.owner
            &&& new.panic_config.trigger_hash == trigger_hash
            &&& new.panic_config.contacts@ == contacts
            &&& new.panic_config.recovery_threshold == recovery_threshold
            &&& new.panic_config.time_lock_duration == time_lock_duration
            &&& new.panic_config.decoy_lamports == decoy_lamports
            &&& !new.panic_config.is_triggered
            &&& new.panic_config.bump == old.panic_config_bump
            &&& new.panic_config.wf()
            &&& new.vault == (Vault {
                owner: old.owner,
                locked_until: 0,
                recovery_initiated: false,
                approvals: 0,
                bump: old.vault_bump,
            })
            &&& r == Ok::<ConfigInitialized, ProgramError>(
                ConfigInitialized {
                    owner: old.owner,
                    contacts_count: contacts.len() as u8,
                    time_lock_duration,
                    decoy_lamports,
                },
            )
        },
    }
}

/// Registers the owner's trigger hash, contacts, threshold, time-lock and
/// decoy, and opens the vault with no lock and no recovery.
pub fn handler(
    ctx: &mut InitializeConfig,
    trigger_hash: [u8; 32],
    contacts: Vec<Address>,
    recovery_threshold: u8,
    time_lock_duration: i64,
    decoy_lamports: u64,
) -> (r: Result<ConfigInitialized, ProgramError>)
    ensures
        configure_outcome(
            *old(ctx),
            *final(ctx),
            trigger_hash,
            contacts@,
            recovery_threshold,
            time_lock_duration,
            decoy_lamports,
            r,
        ),
{
    if contacts.len() > MAX_CONTACTS {
        return Err(ProgramError::Scream(ScreamError::TooManyContacts));
    }
    if recovery_threshold as usize > contacts.len() {
        return Err(ProgramError::Scream(ScreamError::InvalidThreshold));
    }
    let contacts_count = contacts.len() as u8;
    ctx.panic_config = PanicConfig {
        owner: ctx.owner,
        trigger_hash,
        contacts,
        recovery_threshold,
        time_lock_duration,
        decoy_lamports,
        is_triggered: false,
        bump: ctx.panic_config_bump,
    };
    ctx.vault = Vault {
        owner: ctx.owner,
        locked_until: 0,
        recovery_initiated: false,
        approvals: 0,
        bump: ctx.vault_bump,
    };
    Ok(
        ConfigInitialized {
            owner: ctx.owner,
            contacts_count,
            time_lock_duration,
            decoy_lamports,
        },
    )
}

} // verus!
