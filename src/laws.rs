//! Properties of the vault's protocol that relate its operations, proved from
//! their contracts.
use vstd::prelude::*;
use crate::crypto::Address;
use crate::errors::{ProgramError, ScreamError};
use crate::events::{
    ConfigInitialized, FundsRecovered, PanicTriggered, RecoveryApproved, RecoveryInitiated,
};
use crate::instructions::{
    ApproveRecovery, ClaimFromVault, InitializeConfig, InitiateRecovery, TriggerPanic,
};
use crate::instructions::initialize_config::configure_outcome;
use crate::instructions::trigger_panic::{trigger_error, trigger_outcome};
use crate::instructions::initiate_recovery::initiate_outcome;
use crate::instructions::approve_recovery::approve_outcome;
use crate::instructions::claim_from_vault::{claim_outcome, claimable_amount};
use crate::state::panic_config::MAX_CONTACTS;

verus! {

/// A configuration with more than five contacts, or with a threshold above
/// the number of contacts, is refused and changes nothing.
pub proof fn configure_rejects_invalid_policy(
    old: InitializeConfig,
    new: InitializeConfig,
    trigger_hash: [u8; 32],
    contacts: Seq<Address>,
    recovery_threshold: u8,
    time_lock_duration: i64,
    decoy_lamports: u64,
    r: Result<ConfigInitialized, ProgramError>,
)
    requires
        configure_outcome(
            old,
            new,
            trigger_hash,
            contacts,
            recovery_threshold,
            time_lock_duration,
            decoy_lamports,
            r,
        ),
        contacts.len() > MAX_CONTACTS || recovery_threshold as int > contacts.len(),
    ensures
        r is Err,
        new == old,
{
}

/// Once a trigger has succeeded, every later trigger on that config fails and
/// changes nothing, whatever its proof; with the registered proof it fails
/// with `PanicAlreadyTriggered`.
pub proof fn trigger_fires_once(
    c0: TriggerPanic,
    c1: TriggerPanic,
    h1: Seq<u8>,
    s1: Seq<Option<(Seq<u8>, u8)>>,
    t1: i64,
    r1: Result<PanicTriggered, ProgramError>,
    c: TriggerPanic,
    c2: TriggerPanic,
    h2: Seq<u8>,
    s2: Seq<Option<(Seq<u8>, u8)>>,
    t2: i64,
    r2: Result<PanicTriggered, ProgramError>,
)
    requires
        trigger_outcome(c0, c1, h1, s1, t1, r1),
        r1 is Ok,
        c.panic_config == c1.panic_config,
        trigger_outcome(c, c2, h2, s2, t2, r2),
    ensures
        c1.panic_config.is_triggered,
        r2 is Err,
        c2 == c,
        h2 == c.panic_config.trigger_hash@ ==> r2 == Err::<PanicTriggered, ProgramError>(
            ProgramError::Scream(ScreamError::PanicAlreadyTriggered),
        ),
{
}

/// A trigger succeeds exactly when the proof's digest is the registered hash
/// and the trigger's other conditions hold.
pub proof fn trigger_succeeds_iff_hash_matches(
    c: TriggerPanic,
    c2: TriggerPanic,
    proof_hash: Seq<u8>,
    slots: Seq<Option<(Seq<u8>, u8)>>,
    now: i64,
    r: Result<PanicTriggered, ProgramError>,
)
    requires
        trigger_outcome(c, c2, proof_hash, slots, now, r),
    ensures
        r is Ok <==> (proof_hash == c.panic_config.trigger_hash@ && trigger_error(
            c,
            c.panic_config.trigger_hash@,
            slots,
            now,
        ) is None),
        trigger_error(c, c.panic_config.trigger_hash@, slots, now) is None ==> (r is Ok
            <==> proof_hash == c.panic_config.trigger_hash@),
{
}

/// A successful trigger at `now` sets the lock to expire at exactly
/// `now + time_lock_duration`.
pub proof fn trigger_sets_lock_expiry(
    c: TriggerPanic,
    c2: TriggerPanic,
    proof_hash: Seq<u8>,
    slots: Seq<Option<(Seq<u8>, u8)>>,
    now: i64,
    r: Result<PanicTriggered, ProgramError>,
)
    requires
        trigger_outcome(c, c2, proof_hash, slots, now, r),
        r is Ok,
    ensures
        c2.vault.locked_until == now + c.panic_config.time_lock_duration,
        c2.panic_config.is_triggered,
        c2.vault.recovery_initiated == c.vault.recovery_initiated,
{
}

/// On a triggered vault with no recovery open, opening one fails with
/// `TimeLockActive` exactly when the time is before the lock's expiry, and
/// succeeds from the expiry on.
pub proof fn initiate_waits_for_lock(
    c: InitiateRecovery,
    c2: InitiateRecovery,
    now: i64,
    r: Result<RecoveryInitiated, ProgramError>,
)
    requires
        initiate_outcome(c, c2, now, r),
        c.panic_config.is_triggered,
        !c.vault.recovery_initiated,
    ensures
        now < c.vault.locked_until <==> r == Err::<RecoveryInitiated, ProgramError>(
            ProgramError::Scream(ScreamError::TimeLockActive),
        ),
        now >= c.vault.locked_until ==> r is Ok,
{
}

/// On a triggered vault with an open, approved recovery, a claim fails with
/// `TimeLockActive` exactly when the time is before the lock's expiry; from
/// the expiry on it succeeds wherever paying out fits the owner's balance.
pub proof fn claim_waits_for_lock(
    c: ClaimFromVault,
    c2: ClaimFromVault,
    now: i64,
    r: Result<FundsRecovered, ProgramError>,
)
    requires
        claim_outcome(c, c2, now, r),
        c.panic_config.is_triggered,
        c.vault.recovery_initiated,
        c.vault.approvals >= c.panic_config.recovery_threshold,
    ensures
        now < c.vault.locked_until <==> r == Err::<FundsRecovered, ProgramError>(
            ProgramError::Scream(ScreamError::TimeLockActive),
        ),
        now >= c.vault.locked_until && c.owner_lamports + claimable_amount(
            c.vault_lamports,
            c.vault_minimum_balance,
        ) <= u64::MAX ==> r is Ok,
{
}

/// An approval raises the count by exactly one and records the contact's
/// approval; a later approval by the same contact fails with
/// `AlreadyApproved` and changes nothing.
pub proof fn approve_counts_each_contact_once(
    c0: ApproveRecovery,
    c1: ApproveRecovery,
    r1: Result<RecoveryApproved, ProgramError>,
    c: ApproveRecovery,
    c2: ApproveRecovery,
    r2: Result<RecoveryApproved, ProgramError>,
)
    requires
        approve_outcome(c0, c1, r1),
        r1 is Ok,
        c.contact == c1.contact,
        c.panic_config == c1.panic_config,
        c.alert_account == c1.alert_account,
        c.vault.recovery_initiated,
        approve_outcome(c, c2, r2),
    ensures
        c1.vault.approvals == c0.vault.approvals + 1,
        c1.alert_account.has_approved,
        r2 == Err::<RecoveryApproved, ProgramError>(
            ProgramError::Scream(ScreamError::AlreadyApproved),
        ),
        c2 == c,
{
}

/// On a triggered vault, where paying out fits the owner's balance, a claim
/// succeeds exactly when the recovery is open, the approvals reach the
/// threshold and the lock has expired; where just one of these fails, the
/// claim fails with that condition's own error.
pub proof fn claim_conditions(
    c: ClaimFromVault,
    c2: ClaimFromVault,
    now: i64,
    r: Result<FundsRecovered, ProgramError>,
)
    requires
        claim_outcome(c, c2, now, r),
        c.panic_config.is_triggered,
        c.owner_lamports + claimable_amount(c.vault_lamports, c.vault_minimum_balance)
            <= u64::MAX,
    ensures
        r is Ok <==> (c.vault.recovery_initiated && c.vault.approvals
            >= c.panic_config.recovery_threshold && now >= c.vault.locked_until),
        !c.vault.recovery_initiated && c.vault.approvals >= c.panic_config.recovery_threshold
            && now >= c.vault.locked_until ==> r == Err::<FundsRecovered, ProgramError>(
            ProgramError::Scream(ScreamError::RecoveryNotInitiated),
        ),
        c.vault.recovery_initiated && c.vault.approvals < c.panic_config.recovery_threshold
            && now >= c.vault.locked_until ==> r == Err::<FundsRecovered, ProgramError>(
            ProgramError::Scream(ScreamError::InsufficientApprovals),
        ),
        c.vault.recovery_initiated && c.vault.approvals >= c.panic_config.recovery_threshold
            && now < c.vault.locked_until ==> r == Err::<FundsRecovered, ProgramError>(
            ProgramError::Scream(ScreamError::TimeLockActive),
        ),
{
}

} // verus!
