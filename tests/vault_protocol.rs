use anchor_lang::prelude::Pubkey;
use scream::crypto::Address;
use scream::errors::{ProgramError, ScreamError};
use scream::instructions::{
    ApproveRecovery, ClaimFromVault, Deposit, InitializeConfig, InitiateRecovery, TriggerPanic,
};
use scream::instructions::trigger_panic::OWNER_RESERVE;
use scream::state::{AlertAccount, AttackerFlag, CompromisedFlag, PanicConfig, Vault};
use scream::{
    approve_recovery, claim_from_vault, deposit, initialize_config, initiate_recovery,
    trigger_panic,
};

const OWNER: Address = [7u8; 32];
const ATTACKER: Address = [9u8; 32];
const A: Address = [1u8; 32];
const B: Address = [2u8; 32];
const C: Address = [3u8; 32];
const D: Address = [4u8; 32];
const PROGRAM: Address = [42u8; 32];
const VAULT_MINIMUM: u64 = 1_000_000;
const T0: i64 = 1_700_000_000;

fn digest(proof: &[u8]) -> [u8; 32] {
    solana_sha256_hasher::hash(proof).to_bytes()
}

fn alert_address(owner: &Address, contact: &Address) -> Address {
    let program = Pubkey::new_from_array(PROGRAM);
    let (a, _) = Pubkey::find_program_address(&[b"alert", &owner[..], &contact[..]], &program);
    a.to_bytes()
}

fn empty_config() -> PanicConfig {
    PanicConfig {
        owner: [0u8; 32],
        trigger_hash: [0u8; 32],
        contacts: Vec::new(),
        recovery_threshold: 0,
        time_lock_duration: 0,
        decoy_lamports: 0,
        is_triggered: false,
        bump: 0,
    }
}

fn empty_vault() -> Vault {
    Vault { owner: [0u8; 32], locked_until: 0, recovery_initiated: false, approvals: 0, bump: 0 }
}

/// The owner's records and balances as a ledger would hold them.
struct World {
    owner_lamports: u64,
    vault_lamports: u64,
    attacker_lamports: u64,
    config: PanicConfig,
    vault: Vault,
    alerts: Vec<AlertAccount>,
}

fn configured(contacts: Vec<Address>, threshold: u8, lock: i64, decoy: u64) -> World {
    let mut ctx = InitializeConfig {
        owner: OWNER,
        panic_config: empty_config(),
        vault: empty_vault(),
        panic_config_bump: 254,
        vault_bump: 253,
    };
    let r = initialize_config(&mut ctx, digest(b"1234"), contacts, threshold, lock, decoy);
    assert!(r.is_ok());
    World {
        owner_lamports: 50_000_000,
        vault_lamports: VAULT_MINIMUM,
        attacker_lamports: 0,
        config: ctx.panic_config,
        vault: ctx.vault,
        alerts: Vec::new(),
    }
}

fn do_deposit(w: &mut World, amount: u64) -> Result<(), ProgramError> {
    let mut ctx = Deposit {
        owner: OWNER,
        owner_lamports: w.owner_lamports,
        panic_config: w.config.clone(),
        vault: w.vault,
        vault_lamports: w.vault_lamports,
    };
    let ev = deposit(&mut ctx, amount)?;
    assert_eq!(ev.vault_balance, ctx.vault_lamports);
    w.owner_lamports = ctx.owner_lamports;
    w.vault_lamports = ctx.vault_lamports;
    Ok(())
}

fn trigger_ctx(w: &World, remaining: Vec<Address>) -> TriggerPanic {
    TriggerPanic {
        owner: OWNER,
        owner_lamports: w.owner_lamports,
        panic_config: w.config.clone(),
        vault: w.vault,
        vault_lamports: w.vault_lamports,
        vault_minimum_balance: VAULT_MINIMUM,
        compromised_flag: CompromisedFlag { owner: [0u8; 32], flagged_at: 0, bump: 0 },
        compromised_flag_bump: 250,
        attacker: ATTACKER,
        attacker_lamports: w.attacker_lamports,
        attacker_flag: AttackerFlag {
            attacker: [0u8; 32],
            reported_by: [0u8; 32],
            flagged_at: 0,
            bump: 0,
        },
        attacker_flag_bump: 249,
        program_id: PROGRAM,
        remaining_accounts: remaining,
        alert_accounts: Vec::new(),
    }
}

fn good_slots(w: &World) -> Vec<Address> {
    w.config.contacts.iter().map(|c| alert_address(&OWNER, c)).collect()
}

fn do_trigger(w: &mut World, proof: &[u8], now: i64) -> Result<TriggerPanic, ProgramError> {
    let mut ctx = trigger_ctx(w, good_slots(w));
    trigger_panic(&mut ctx, proof.to_vec(), now)?;
    w.owner_lamports = ctx.owner_lamports;
    w.vault_lamports = ctx.vault_lamports;
    w.attacker_lamports = ctx.attacker_lamports;
    w.config = ctx.panic_config.clone();
    w.vault = ctx.vault;
    w.alerts = ctx.alert_accounts.clone();
    Ok(ctx)
}

fn do_initiate(w: &mut World, now: i64) -> Result<(), ProgramError> {
    let mut ctx = InitiateRecovery {
        owner: OWNER,
        panic_config: w.config.clone(),
        vault: w.vault,
        vault_lamports: w.vault_lamports,
    };
    initiate_recovery(&mut ctx, now)?;
    w.vault = ctx.vault;
    Ok(())
}

fn do_approve(w: &mut World, contact: Address) -> Result<u8, ProgramError> {
    let idx = w.alerts.iter().position(|a| a.contact == contact);
    let alert = match idx {
        Some(i) => w.alerts[i],
        None => AlertAccount {
            owner: OWNER,
            contact,
            alerted_at: 0,
            has_approved: false,
            bump: 0,
        },
    };
    let mut ctx = ApproveRecovery {
        contact,
        owner: OWNER,
        panic_config: w.config.clone(),
        vault: w.vault,
        alert_account: alert,
    };
    let ev = approve_recovery(&mut ctx)?;
    w.vault = ctx.vault;
    if let Some(i) = idx {
        w.alerts[i] = ctx.alert_account;
    }
    Ok(ev.approvals_so_far)
}

fn do_claim(w: &mut World, now: i64) -> Result<u64, ProgramError> {
    let mut ctx = ClaimFromVault {
        owner: OWNER,
        owner_lamports: w.owner_lamports,
        panic_config: w.config.clone(),
        vault: w.vault,
        vault_lamports: w.vault_lamports,
        vault_minimum_balance: VAULT_MINIMUM,
    };
    let ev = claim_from_vault(&mut ctx, now)?;
    w.owner_lamports = ctx.owner_lamports;
    w.vault_lamports = ctx.vault_lamports;
    Ok(ev.amount)
}

fn scream(e: ScreamError) -> ProgramError {
    ProgramError::Scream(e)
}

#[test]
fn end_to_end_recovery() {
    let mut w = configured(vec![A, B, C], 2, 3600, 100);
    do_deposit(&mut w, 1000).unwrap();
    assert_eq!(w.vault_lamports, VAULT_MINIMUM + 1000);
    assert_eq!(w.owner_lamports, 50_000_000 - 1000);
    let ctx = do_trigger(&mut w, b"1234", T0).unwrap();
    let swept = 50_000_000 - 1000 - OWNER_RESERVE;
    assert_eq!(w.owner_lamports, OWNER_RESERVE);
    assert_eq!(w.attacker_lamports, 100);
    assert_eq!(w.vault_lamports, VAULT_MINIMUM + 1000 + swept - 100);
    assert_eq!(w.vault.locked_until, T0 + 3600);
    assert!(w.config.is_triggered);
    assert_eq!(w.alerts.len(), 3);
    for (alert, contact) in w.alerts.iter().zip([A, B, C].iter()) {
        assert_eq!(alert.contact, *contact);
        assert_eq!(alert.owner, OWNER);
        assert_eq!(alert.alerted_at, T0);
        assert!(!alert.has_approved);
    }
    assert_eq!(ctx.compromised_flag.owner, OWNER);
    assert_eq!(ctx.compromised_flag.flagged_at, T0);
    assert_eq!(ctx.attacker_flag.attacker, ATTACKER);
    assert_eq!(ctx.attacker_flag.reported_by, OWNER);
    assert_eq!(
        do_initiate(&mut w, T0 + 3599),
        Err(scream(ScreamError::TimeLockActive))
    );
    do_initiate(&mut w, T0 + 3600).unwrap();
    assert_eq!(do_approve(&mut w, A), Ok(1));
    assert_eq!(do_approve(&mut w, B), Ok(2));
    let before = w.vault_lamports;
    let paid = do_claim(&mut w, T0 + 3600).unwrap();
    assert_eq!(paid, before - VAULT_MINIMUM);
    assert_eq!(w.vault_lamports, VAULT_MINIMUM);
    assert_eq!(w.owner_lamports, OWNER_RESERVE + paid);
}

#[test]
fn end_to_end_claim_refused() {
    let mut w = configured(vec![A, B, C], 2, 3600, 100);
    do_deposit(&mut w, 1000).unwrap();
    do_trigger(&mut w, b"1234", T0).unwrap();
    do_initiate(&mut w, T0 + 4000).unwrap();
    do_approve(&mut w, A).unwrap();
    assert_eq!(do_claim(&mut w, T0 + 5000), Err(scream(ScreamError::InsufficientApprovals)));
    // Full approvals, but a claim that comes before the lock's expiry.
    let mut early = configured(vec![A, B, C], 2, 3600, 100);
    do_trigger(&mut early, b"1234", T0).unwrap();
    early.vault.recovery_initiated = true;
    early.vault.approvals = 3;
    assert_eq!(do_claim(&mut early, T0 + 3599), Err(scream(ScreamError::TimeLockActive)));
    assert!(do_claim(&mut early, T0 + 3600).is_ok());
}

#[test]
fn configure_refuses_too_many_contacts() {
    let mut ctx = InitializeConfig {
        owner: OWNER,
        panic_config: empty_config(),
        vault: empty_vault(),
        panic_config_bump: 1,
        vault_bump: 2,
    };
    let six = vec![A, B, C, D, [5u8; 32], [6u8; 32]];
    let r = initialize_config(&mut ctx, [0u8; 32], six, 1, 10, 10);
    assert_eq!(r.unwrap_err(), scream(ScreamError::TooManyContacts));
    assert!(ctx.panic_config.contacts.is_empty());
    let r = initialize_config(&mut ctx, [0u8; 32], vec![A, B, C], 4, 10, 10);
    assert_eq!(r.unwrap_err(), scream(ScreamError::InvalidThreshold));
    assert_eq!(ctx.panic_config.owner, [0u8; 32]);
}

#[test]
fn configure_accepts_limits() {
    let mut ctx = InitializeConfig {
        owner: OWNER,
        panic_config: empty_config(),
        vault: empty_vault(),
        panic_config_bump: 11,
        vault_bump: 12,
    };
    let five = vec![A, B, C, D, [5u8; 32]];
    let ev = initialize_config(&mut ctx, [8u8; 32], five, 5, -3, 77).unwrap();
    assert_eq!(ev.contacts_count, 5);
    assert_eq!(ev.time_lock_duration, -3);
    assert_eq!(ev.decoy_lamports, 77);
    assert_eq!(ev.owner, OWNER);
    assert_eq!(ctx.panic_config.owner, OWNER);
    assert_eq!(ctx.panic_config.trigger_hash, [8u8; 32]);
    assert_eq!(ctx.panic_config.recovery_threshold, 5);
    assert_eq!(ctx.panic_config.bump, 11);
    assert!(!ctx.panic_config.is_triggered);
    assert_eq!(ctx.vault.owner, OWNER);
    assert_eq!(ctx.vault.locked_until, 0);
    assert_eq!(ctx.vault.approvals, 0);
    assert_eq!(ctx.vault.bump, 12);
    let mut empty = InitializeConfig {
        owner: OWNER,
        panic_config: empty_config(),
        vault: empty_vault(),
        panic_config_bump: 1,
        vault_bump: 2,
    };
    assert!(initialize_config(&mut empty, [0u8; 32], Vec::new(), 0, 0, 0).is_ok());
}

#[test]
fn deposit_moves_funds_or_fails() {
    let mut w = configured(vec![A], 1, 10, 10);
    assert_eq!(do_deposit(&mut w, 50_000_001), Err(ProgramError::InsufficientLamports));
    assert_eq!(w.owner_lamports, 50_000_000);
    do_deposit(&mut w, 0).unwrap();
    assert_eq!(w.vault_lamports, VAULT_MINIMUM);
    do_deposit(&mut w, 50_000_000).unwrap();
    assert_eq!(w.owner_lamports, 0);
    assert_eq!(w.vault_lamports, VAULT_MINIMUM + 50_000_000);
    let mut full = configured(vec![A], 1, 10, 10);
    full.vault_lamports = u64::MAX;
    assert_eq!(do_deposit(&mut full, 1), Err(ProgramError::ArithmeticOverflow));
}

#[test]
fn trigger_needs_the_registered_proof() {
    let mut w = configured(vec![A, B], 1, 60, 100);
    assert_eq!(do_trigger(&mut w, b"1235", T0).err(), Some(scream(ScreamError::InvalidTriggerProof)));
    // The stored digest itself is not a valid proof.
    let stored = w.config.trigger_hash;
    assert_eq!(do_trigger(&mut w, &stored, T0).err(), Some(scream(ScreamError::InvalidTriggerProof)));
    // One flipped bit of the proof.
    let mut flipped = b"1234".to_vec();
    flipped[0] ^= 1;
    assert_eq!(do_trigger(&mut w, &flipped, T0).err(), Some(scream(ScreamError::InvalidTriggerProof)));
    assert!(!w.config.is_triggered);
    assert!(do_trigger(&mut w, b"1234", T0).is_ok());
}

#[test]
fn trigger_fires_only_once() {
    let mut w = configured(vec![A, B], 1, 60, 100);
    do_trigger(&mut w, b"1234", T0).unwrap();
    let balance = w.vault_lamports;
    assert_eq!(
        do_trigger(&mut w, b"1234", T0 + 1).err(),
        Some(scream(ScreamError::PanicAlreadyTriggered))
    );
    assert_eq!(w.vault_lamports, balance);
    assert_eq!(w.vault.locked_until, T0 + 60);
    // The proof is checked first, so a wrong one is reported as such.
    assert_eq!(
        do_trigger(&mut w, b"0000", T0 + 1).err(),
        Some(scream(ScreamError::InvalidTriggerProof))
    );
}

#[test]
fn trigger_checks_alert_slots() {
    let w = configured(vec![A, B, C], 2, 60, 100);
    let mut ctx = trigger_ctx(&w, vec![alert_address(&OWNER, &A)]);
    assert_eq!(
        trigger_panic(&mut ctx, b"1234".to_vec(), T0).err(),
        Some(scream(ScreamError::ContactAccountMismatch))
    );
    // The contacts' own addresses are not their alert record addresses.
    let mut ctx = trigger_ctx(&w, vec![A, B, C]);
    assert_eq!(
        trigger_panic(&mut ctx, b"1234".to_vec(), T0).err(),
        Some(ProgramError::InvalidAlertAddress)
    );
    assert!(!ctx.panic_config.is_triggered);
    assert_eq!(ctx.owner_lamports, w.owner_lamports);
    assert!(ctx.alert_accounts.is_empty());
    // The last slot swapped with another contact's.
    let mut slots = good_slots(&w);
    slots[2] = slots[1];
    let mut ctx = trigger_ctx(&w, slots);
    assert_eq!(
        trigger_panic(&mut ctx, b"1234".to_vec(), T0).err(),
        Some(ProgramError::InvalidAlertAddress)
    );
}

#[test]
fn trigger_alert_bumps_match_derivation() {
    let mut w = configured(vec![A, B, C], 2, 60, 100);
    do_trigger(&mut w, b"1234", T0).unwrap();
    let program = Pubkey::new_from_array(PROGRAM);
    for alert in w.alerts.iter() {
        let (_, bump) =
            Pubkey::find_program_address(&[b"alert", &OWNER[..], &alert.contact[..]], &program);
        assert_eq!(alert.bump, bump);
    }
    let slots = scream::instructions::trigger_panic::derive_alert_slots(
        &OWNER,
        &vec![A, D],
        &PROGRAM,
    );
    assert_eq!(slots.len(), 2);
    assert_eq!(slots[0].unwrap().0, alert_address(&OWNER, &A));
    assert_eq!(slots[1].unwrap().0, alert_address(&OWNER, &D));
    assert_ne!(slots[0].unwrap().0, slots[1].unwrap().0);
}

#[test]
fn trigger_decoy_is_capped_by_vault() {
    // The owner holds less than the reserve, so nothing is swept, and the
    // vault holds 40 above its minimum.
    let mut w = configured(vec![A], 1, 60, 1_000);
    w.owner_lamports = OWNER_RESERVE;
    w.vault_lamports = VAULT_MINIMUM + 40;
    let ctx = do_trigger(&mut w, b"1234", T0).unwrap();
    assert_eq!(w.attacker_lamports, 40);
    assert_eq!(w.vault_lamports, VAULT_MINIMUM);
    assert_eq!(w.owner_lamports, OWNER_RESERVE);
    assert_eq!(ctx.vault_lamports, VAULT_MINIMUM);
}

#[test]
fn trigger_without_decoy_funds_fails() {
    let mut w = configured(vec![A], 1, 60, 1_000);
    w.owner_lamports = 5;
    assert_eq!(
        do_trigger(&mut w, b"1234", T0).err(),
        Some(scream(ScreamError::InsufficientFundsForDecoy))
    );
    let mut zero = configured(vec![A], 1, 60, 0);
    assert_eq!(
        do_trigger(&mut zero, b"1234", T0).err(),
        Some(scream(ScreamError::InsufficientFundsForDecoy))
    );
}

#[test]
fn trigger_lock_overflow_fails() {
    let mut w = configured(vec![A], 1, i64::MAX, 100);
    assert_eq!(do_trigger(&mut w, b"1234", T0).err(), Some(ProgramError::ArithmeticOverflow));
    assert!(!w.config.is_triggered);
}

#[test]
fn trigger_with_no_contacts() {
    let mut w = configured(Vec::new(), 0, 0, 100);
    let ctx = do_trigger(&mut w, b"1234", T0).unwrap();
    assert!(ctx.alert_accounts.is_empty());
    assert_eq!(w.vault.locked_until, T0);
    do_initiate(&mut w, T0).unwrap();
    assert!(do_claim(&mut w, T0).is_ok());
}

#[test]
fn initiate_recovery_rules() {
    let mut w = configured(vec![A, B], 1, 100, 100);
    assert_eq!(do_initiate(&mut w, T0), Err(scream(ScreamError::PanicNotTriggered)));
    do_trigger(&mut w, b"1234", T0).unwrap();
    assert_eq!(do_initiate(&mut w, T0 + 99), Err(scream(ScreamError::TimeLockActive)));
    w.vault.approvals = 2;
    do_initiate(&mut w, T0 + 100).unwrap();
    assert!(w.vault.recovery_initiated);
    assert_eq!(w.vault.approvals, 0);
    assert_eq!(
        do_initiate(&mut w, T0 + 200),
        Err(scream(ScreamError::RecoveryAlreadyInitiated))
    );
}

#[test]
fn approve_recovery_rules() {
    let mut w = configured(vec![A, B, C], 2, 100, 100);
    assert_eq!(do_approve(&mut w, A), Err(scream(ScreamError::PanicNotTriggered)));
    do_trigger(&mut w, b"1234", T0).unwrap();
    assert_eq!(do_approve(&mut w, A), Err(scream(ScreamError::RecoveryNotInitiated)));
    do_initiate(&mut w, T0 + 100).unwrap();
    assert_eq!(do_approve(&mut w, D), Err(scream(ScreamError::InvalidContact)));
    assert_eq!(do_approve(&mut w, A), Ok(1));
    assert_eq!(do_approve(&mut w, A), Err(scream(ScreamError::AlreadyApproved)));
    assert_eq!(w.vault.approvals, 1);
    assert_eq!(do_approve(&mut w, C), Ok(2));
    assert_eq!(do_approve(&mut w, B), Ok(3));
    assert!(w.alerts.iter().all(|a| a.has_approved));
}

#[test]
fn approve_counter_overflow_fails() {
    let mut w = configured(vec![A], 1, 0, 100);
    do_trigger(&mut w, b"1234", T0).unwrap();
    do_initiate(&mut w, T0).unwrap();
    w.vault.approvals = u8::MAX;
    assert_eq!(do_approve(&mut w, A), Err(ProgramError::ArithmeticOverflow));
}

#[test]
fn claim_rules() {
    let mut w = configured(vec![A, B], 2, 100, 100);
    assert_eq!(do_claim(&mut w, T0), Err(scream(ScreamError::PanicNotTriggered)));
    do_trigger(&mut w, b"1234", T0).unwrap();
    assert_eq!(do_claim(&mut w, T0 + 100), Err(scream(ScreamError::RecoveryNotInitiated)));
    do_initiate(&mut w, T0 + 100).unwrap();
    do_approve(&mut w, A).unwrap();
    assert_eq!(do_claim(&mut w, T0 + 100), Err(scream(ScreamError::InsufficientApprovals)));
    do_approve(&mut w, B).unwrap();
    let first = do_claim(&mut w, T0 + 100).unwrap();
    assert!(first > 0);
    // Nothing is left above the minimum: a second claim pays zero.
    assert_eq!(do_claim(&mut w, T0 + 101), Ok(0));
    assert_eq!(w.vault_lamports, VAULT_MINIMUM);
}

#[test]
fn claim_overflow_fails() {
    let mut w = configured(vec![A], 1, 0, 100);
    do_trigger(&mut w, b"1234", T0).unwrap();
    do_initiate(&mut w, T0).unwrap();
    do_approve(&mut w, A).unwrap();
    w.owner_lamports = u64::MAX;
    assert_eq!(do_claim(&mut w, T0), Err(ProgramError::ArithmeticOverflow));
}

#[test]
fn contacts_and_bytes() {
    let w = configured(vec![A, B], 1, 0, 100);
    assert!(w.config.is_contact(&B));
    assert!(!w.config.is_contact(&D));
    assert!(scream::crypto::same_bytes(&A, &A));
    assert!(!scream::crypto::same_bytes(&A, &B));
    let mut near = A;
    near[31] = 0;
    assert!(!scream::crypto::same_bytes(&A, &near));
}

#[test]
fn error_messages() {
    assert_eq!(ScreamError::TooManyContacts.message(), "Too many contacts (max 5)");
    assert_eq!(
        ScreamError::AlreadyApproved.message(),
        "Contact has already approved recovery"
    );
}

#[test]
fn claim_without_open_recovery_fails_alone() {
    let mut w = configured(vec![A, B], 2, 100, 100);
    do_trigger(&mut w, b"1234", T0).unwrap();
    w.vault.approvals = 2;
    assert_eq!(do_claim(&mut w, T0 + 100), Err(scream(ScreamError::RecoveryNotInitiated)));
    w.vault.recovery_initiated = true;
    assert!(do_claim(&mut w, T0 + 100).is_ok());
}
