//! A duress vault: an owner registers the hash of a secret trigger and a set
//! of emergency contacts. Presenting the trigger sweeps the owner's funds into
//! a time-locked vault, pays a decoy to the coercer and flags it, and alerts
//! the contacts; the funds leave the vault only after the time-lock and a
//! quorum of contact approvals.
//!
//! Each operation takes the records and balances it touches, checks its
//! preconditions, and either applies all of its changes or none of them.
use vstd::prelude::*;

pub mod crypto;
pub mod errors;
pub mod events;
pub mod state;
pub mod instructions;
pub mod laws;

use crate::crypto::{Address, sha256_of};
use crate::errors::ProgramError;
use crate::events::{
    ConfigInitialized, Deposited, FundsRecovered, PanicTriggered, RecoveryApproved,
    RecoveryInitiated,
};
use crate::instructions::{
    ApproveRecovery, ClaimFromVault, Deposit, InitializeConfig, InitiateRecovery, TriggerPanic,
};
use crate::instructions::initialize_config::configure_outcome;
use crate::instructions::deposit::deposit_outcome;
use crate::instructions::trigger_panic::{alert_slots_of, trigger_outcome};
use crate::instructions::initiate_recovery::initiate_outcome;
use crate::instructions::approve_recovery::approve_outcome;
use crate::instructions::claim_from_vault::claim_outcome;

verus! {

/// Configures the owner's duress policy and opens their vault.
pub fn initialize_config(
    ctx: &mut InitializeConfig,
    trigger_hash: [u8; 32],
    contacts: Vec<Address>,
    recovery_threshold: u8,
    time_lock_duration: i64,
    decoy_lamports: u64,
) -> (r: Result<ConfigInitialized, ProgramError>)
    ensures
        configure_outcome(
            *old(ctx),
            *final(ctx),
            trigger_hash,
            contacts@,
            recovery_threshold,
            time_lock_duration,
            decoy_lamports,
            r,
        ),
{
    crate::instructions::initialize_config::handler(
        ctx,
        trigger_hash,
        contacts,
        recovery_threshold,
        time_lock_duration,
        decoy_lamports,
    )
}

/// Moves `amount` from the owner into the vault.
pub fn deposit(ctx: &mut Deposit, amount: u64) -> (r: Result<Deposited, ProgramError>)
    ensures
        deposit_outcome(*old(ctx), *final(ctx), amount, r),
{
    crate::instructions::deposit::handler(ctx, amount)
}

/// Fires the duress trigger with `trigger_proof` at time `now`.
pub fn trigger_panic(ctx: &mut TriggerPanic, trigger_proof: Vec<u8>, now: i64) -> (r: Result<
    PanicTriggered,
    ProgramError,
>)
    requires
        old(ctx).panic_config.wf(),
    ensures
        trigger_outcome(
            *old(ctx),
            *final(ctx),
            sha256_of(trigger_proof@),
            alert_slots_of(old(ctx).owner, old(ctx).panic_config.contacts@, old(ctx).program_id),
            now,
            r,
        ),
{
    crate::instructions::trigger_panic::handler(ctx, trigger_proof, now)
}

/// Opens the recovery of a triggered vault at time `now`.
pub fn initiate_recovery(ctx: &mut InitiateRecovery, now: i64) -> (r: Result<
    RecoveryInitiated,
    ProgramError,
>)
    ensures
        initiate_outcome(*old(ctx), *final(ctx), now, r),
{
    crate::instructions::initiate_recovery::handler(ctx, now)
}

/// Records a contact's approval of the open recovery.
pub fn approve_recovery(ctx: &mut ApproveRecovery) -> (r: Result<RecoveryApproved, ProgramError>)
    ensures
        approve_outcome(*old(ctx), *final(ctx), r),
{
    crate::instructions::approve_recovery::handler(ctx)
}

/// Pays the vault out to its owner at time `now`.
pub fn claim_from_vault(ctx: &mut ClaimFromVault, now: i64) -> (r: Result<
    FundsRecovered,
    ProgramError,
>)
    ensures
        claim_outcome(*old(ctx), *final(ctx), now, r),
{
    crate::instructions::claim_from_vault::handler(ctx, now)
}

} // verus!
