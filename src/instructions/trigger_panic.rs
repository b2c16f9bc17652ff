//! The trigger: the one-way transition that locks the owner's funds away.
use vstd::prelude::*;
use crate::crypto::{
    Address, program_address_of, same_bytes, sha256, sha256_of, try_find_program_address,
};
use crate::errors::{ProgramError, ScreamError};
use crate::events::PanicTriggered;
use crate::state::{AlertAccount, AttackerFlag, CompromisedFlag, PanicConfig, Vault};
use crate::state::alert_account::ALERT_SEED_PREFIX;

verus! {

/// What the owner keeps of their liquid balance when the trigger sweeps it,
/// so that they can still pay for transactions.
pub const OWNER_RESERVE: u64 = 10_000_000;

/// The records and balances that a trigger reads and writes.
#[derive(Clone, Debug)]
pub struct TriggerPanic {
    pub owner: Address,
    /// The owner's liquid balance.
    pub owner_lamports: u64,
    pub panic_config: PanicConfig,
    pub vault: Vault,
    pub vault_lamports: u64,
    /// The protected minimum below which the vault's balance is not paid out.
    pub vault_minimum_balance: u64,
    /// The owner's compromised flag, written by the trigger.
    pub compromised_flag: CompromisedFlag,
    pub compromised_flag_bump: u8,
    /// The coercer's address, which receives the decoy.
    pub attacker: Address,
    pub attacker_lamports: u64,
    /// The attacker's flag, written by the trigger.
    pub attacker_flag: AttackerFlag,
    pub attacker_flag_bump: u8,
    /// The program that owns the records, under which their addresses are derived.
    pub program_id: Address,
    /// The alert record slots supplied by the caller, one per contact, in order.
    pub remaining_accounts: Vec<Address>,
    /// The alert records, written by the trigger, one per contact, in order.
    pub alert_accounts: Vec<AlertAccount>,
}

/// A derived address and bump seed, as plain values.
pub open spec fn slot_view(s: Option<(Address, u8)>) -> Option<(Seq<u8>, u8)> {
    match s {
        Some((a, b)) => Some((a@, b)),
        None => None,
    }
}

/// The seeds of the alert record of `contact` for `owner`.
pub open spec fn alert_seeds(owner: Seq<u8>, contact: Seq<u8>) -> Seq<Seq<u8>> {
    seq![ALERT_SEED_PREFIX@, owner, contact]
}

/// The address and bump seed of each contact's alert record, in order.
pub open spec fn alert_slots_of(owner: Address, contacts: Seq<Address>, program_id: Address) -> Seq<
    Option<(Seq<u8>, u8)>,
> {
    contacts.map_values(
        |c: Address| program_address_of(alert_seeds(owner@, c@), program_id@),
    )
}

/// What the trigger moves from the owner's liquid balance into the vault.
pub open spec fn swept_amount(owner_lamports: u64) -> int {
    if owner_lamports > OWNER_RESERVE {
        owner_lamports - OWNER_RESERVE
    } else {
        0
    }
}

/// The decoy: the configured amount, or what the vault holds above its
/// protected minimum where that is less.
pub open spec fn decoy_amount(decoy: u64, vault_balance: int, minimum: u64) -> int {
    let available = if vault_balance > minimum {
        vault_balance - minimum
    } else {
        0
    };
    if decoy < available {
        decoy as int
    } else {
        available
    }
}

/// Whether `x` fits in an `i64`.
pub open spec fn fits_i64(x: int) -> bool {
    i64::MIN <= x <= i64::MAX
}

/// Why a trigger at `now` with a proof whose digest is `proof_hash` fails, in
/// the order the conditions are checked; `None` where it succeeds.
pub open spec fn trigger_error(
    c: TriggerPanic,
    proof_hash: Seq<u8>,
    slots: Seq<Option<(Seq<u8>, u8)>>,
    now: i64,
) -> Option<ProgramError> {
    let n = c.panic_config.contacts@.len();
    let vault_balance = c.vault_lamports + swept_amount(c.owner_lamports);
    let decoy = decoy_amount(c.panic_config.decoy_lamports, vault_balance, c.vault_minimum_balance);
    if proof_hash != c.panic_config.trigger_hash@ {
        Some(ProgramError::Scream(ScreamError::InvalidTriggerProof))
    } else if c.panic_config.is_triggered {
        Some(ProgramError::Scream(ScreamError::PanicAlreadyTriggered))
    } else if c.remaining_accounts@.len() != n {
        Some(ProgramError::Scream(ScreamError::ContactAccountMismatch))
    } else if vault_balance > u64::MAX {
        Some(ProgramError::ArithmeticOverflow)
    } else if !fits_i64(now + c.panic_config.time_lock_duration) {
        Some(ProgramError::ArithmeticOverflow)
    } else if decoy <= 0 {
        Some(ProgramError::Scream(ScreamError::InsufficientFundsForDecoy))
    } else if c.attacker_lamports + decoy > u64::MAX {
        Some(ProgramError::ArithmeticOverflow)
    } else if exists|i: int| 0 <= i < n && slots[i] is None {
        Some(ProgramError::NoViableAddress)
    } else if exists|i: int|
        0 <= i < n && slots[i]->Some_0.0 != c.remaining_accounts@[i]@ {
        Some(ProgramError::InvalidAlertAddress)
    } else {
        None
    }
}

/// The records after a successful trigger: the sweep, the decoy, the
/// time-lock, the two flags, one fresh alert per contact, and the config
/// marked triggered; nothing else changes.
pub open spec fn triggered_state(
    old: TriggerPanic,
    new: TriggerPanic,
    slots: Seq<Option<(Seq<u8>, u8)>>,
    now: i64,
) -> bool {
    let contacts = old.panic_config.contacts@;
    let swept = swept_amount(old.owner_lamports);
    let decoy = decoy_amount(
        old.panic_config.decoy_lamports,
        old.vault_lamports + swept,
        old.vault_minimum_balance,
    );
    &&& new == (TriggerPanic {
        owner_lamports: (old.owner_lamports - swept) as u64,
        panic_config: PanicConfig { is_triggered: true, ..old.panic_config },
        vault: Vault {
            locked_until: (now + old.panic_config.time_lock_duration) as i64,
            ..old.vault
        },
        vault_lamports: (old.vault_lamports + swept - decoy) as u64,
        compromised_flag: CompromisedFlag {
            owner: old.owner,
            flagged_at: now,
            bump: old.compromised_flag_bump,
        },
        attacker_lamports: (old.attacker_lamports + decoy) as u64,
        attacker_flag: AttackerFlag {
            attacker: old.attacker,
            reported_by: old.owner,
            flagged_at: now,
            bump: old.attacker_flag_bump,
        },
        alert_accounts: new.alert_accounts,
        ..old
    })
    &&& new.alert_accounts@.len() == contacts.len()
    &&& forall|i: int|
        0 <= i < contacts.len() ==> new.alert_accounts@[i] == (AlertAccount {
            owner: old.owner,
            contact: contacts[i],
            alerted_at: now,
            has_approved: false,
            bump: slots[i]->Some_0.1,
        })
}

/// The outcome of a trigger: the error and no change where `trigger_error`
/// names one; otherwise the triggered records and the event that reports them.
pub open spec fn trigger_outcome(
    old: TriggerPanic,
    new: TriggerPanic,
    proof_hash: Seq<u8>,
    slots: Seq<Option<(Seq<u8>, u8)>>,
    now: i64,
    r: Result<PanicTriggered, ProgramError>,
) -> bool {
    match trigger_error(old, proof_hash, slots, now) {
        Some(e) => r == Err::<PanicTriggered, ProgramError>(e) && new == old,
        None => {
            &&& triggered_state(old, new, slots, now)
            &&& r == Ok::<PanicTriggered, ProgramError>(
                PanicTriggered {
                    owner: old.owner,
                    attacker: old.attacker,
                    vault_balance: new.vault_lamports,
                    decoy_sent: (new.attacker_lamports - old.attacker_lamports) as u64,
                    locked_until: new.vault.locked_until,
                    contacts_alerted: old.panic_config.contacts@.len() as u8,
                },
            )
        },
    }
}

/// The seeds of the alert record of `contact` for `owner`.
fn alert_seed_vec(owner: &Address, contact: &Address) -> (r: Vec<Vec<u8>>)
    ensures
        r.deep_view() == alert_seeds(owner@, contact@),
{
    let prefix = vstd::slice::slice_to_vec(ALERT_SEED_PREFIX.as_slice());
    let o = vstd::slice::slice_to_vec(owner.as_slice());
    let c = vstd::slice::slice_to_vec(contact.as_slice());
    let r = vec![prefix, o, c];
    assert(r.deep_view() =~= alert_seeds(owner@, contact@)) by {
        assert(r@[0].deep_view() =~= r@[0]@);
        assert(r@[1].deep_view() =~= r@[1]@);
        assert(r@[2].deep_view() =~= r@[2]@);
    }
    r
}

/// Derives the address and bump seed of each contact's alert record, in order.
pub fn derive_alert_slots(owner: &Address, contacts: &Vec<Address>, program_id: &Address) -> (r: Vec<
    Option<(Address, u8)>,
>)
    ensures
        r@.map_values(|s: Option<(Address, u8)>| slot_view(s)) == alert_slots_of(
            *owner,
            contacts@,
            *program_id,
        ),
{
    let mut r: Vec<Option<(Address, u8)>> = Vec::new();
    let mut i: usize = 0;
    while i < contacts.len()
        invariant
            i <= contacts@.len(),
            r@.len() == i,
            forall|j: int|
                0 <= j < i ==> slot_view(#[trigger] r@[j]) == program_address_of(
                    alert_seeds(owner@, contacts@[j]@),
                    program_id@,
                ),
        decreases contacts@.len() - i,
    {
        let seeds = alert_seed_vec(owner, &contacts[i]);
        let slot = try_find_program_address(&seeds, program_id);
        r.push(slot);
        i = i + 1;
    }
    assert(r@.map_values(|s: Option<(Address, u8)>| slot_view(s)) =~= alert_slots_of(
        *owner,
        contacts@,
        *program_id,
    ));
    r
}

/// Applies a trigger whose proof has the digest `proof_hash`, with the derived
/// alert record slots `alert_slots` (one per contact, in order), at time `now`.
/// Either every record and balance moves as `triggered_state` says, or none does.
#[verifier::loop_isolation(false)]
pub fn apply_trigger(
    ctx: &mut TriggerPanic,
    proof_hash: [u8; 32],
    alert_slots: &Vec<Option<(Address, u8)>>,
    now: i64,
) -> (r: Result<PanicTriggered, ProgramError>)
    requires
        old(ctx).panic_config.wf(),
        alert_slots@.len() == old(ctx).panic_config.contacts@.len(),
    ensures
        trigger_outcome(
            *old(ctx),
            *final(ctx),
            proof_hash@,
            alert_slots@.map_values(|s: Option<(Address, u8)>| slot_view(s)),
            now,
            r,
        ),
{
    let ghost slots = alert_slots@.map_values(|s: Option<(Address, u8)>| slot_view(s));
    let n = ctx.panic_config.contacts.len();
    if !same_bytes(&proof_hash, &ctx.panic_config.trigger_hash) {
        return Err(ProgramError::Scream(ScreamError::InvalidTriggerProof));
    }
    if ctx.panic_config.is_triggered {
        return Err(ProgramError::Scream(ScreamError::PanicAlreadyTriggered));
    }
    if ctx.remaining_accounts.len() != n {
        return Err(ProgramError::Scream(ScreamError::ContactAccountMismatch));
    }
    let swept: u64 = if ctx.owner_lamports > OWNER_RESERVE {
        ctx.owner_lamports - OWNER_RESERVE
    } else {
        0
    };
    let vault_balance = match ctx.vault_lamports.checked_add(swept) {
        Some(v) => v,
        None => return Err(ProgramError::ArithmeticOverflow),
    };
    let locked_until = match now.checked_add(ctx.panic_config.time_lock_duration) {
        Some(t) => t,
        None => return Err(ProgramError::ArithmeticOverflow),
    };
    let available: u64 = if vault_balance > ctx.vault_minimum_balance {
        vault_balance - ctx.vault_minimum_balance
    } else {
        0
    };
    let decoy: u64 = if ctx.panic_config.decoy_lamports < available {
        ctx.panic_config.decoy_lamports
    } else {
        available
    };
    if decoy == 0 {
        return Err(ProgramError::Scream(ScreamError::InsufficientFundsForDecoy));
    }
    let attacker_balance = match ctx.attacker_lamports.checked_add(decoy) {
        Some(v) => v,
        None => return Err(ProgramError::ArithmeticOverflow),
    };
    let mut i: usize = 0;
    while i < n
        invariant
            n == ctx.panic_config.contacts@.len(),
            alert_slots@.len() == n,
            i <= n,
            forall|j: int| 0 <= j < i ==> slots[j] is Some,
            slots == alert_slots@.map_values(|s: Option<(Address, u8)>| slot_view(s)),
        decreases n - i,
    {
        if alert_slots[i].is_none() {
            assert(slots[i as int] is None);
            return Err(ProgramError::NoViableAddress);
        }
        i = i + 1;
    }
    let mut i: usize = 0;
    while i < n
        invariant
            n == ctx.panic_config.contacts@.len(),
            n == ctx.remaining_accounts@.len(),
            alert_slots@.len() == n,
            i <= n,
            forall|j: int| 0 <= j < n ==> slots[j] is Some,
            forall|j: int| 0 <= j < i ==> slots[j]->Some_0.0 == ctx.remaining_accounts@[j]@,
            slots == alert_slots@.map_values(|s: Option<(Address, u8)>| slot_view(s)),
        decreases n - i,
    {
        match &alert_slots[i] {
            Some((a, _)) => {
                if !same_bytes(a, &ctx.remaining_accounts[i]) {
                    assert(slots[i as int]->Some_0.0 != ctx.remaining_accounts@[i as int]@);
                    assert(!exists|j: int| 0 <= j < n && slots[j] is None);
                    return Err(ProgramError::InvalidAlertAddress);
                }
            },
            None => {},
        }
        i = i + 1;
    }
    let mut alerts: Vec<AlertAccount> = Vec::new();
    let mut i: usize = 0;
    while i < n
        invariant
            n == ctx.panic_config.contacts@.len(),
            alert_slots@.len() == n,
            i <= n,
            alerts@.len() == i,
            forall|j: int| 0 <= j < n ==> slots[j] is Some,
            slots == alert_slots@.map_values(|s: Option<(Address, u8)>| slot_view(s)),
            forall|j: int|
                0 <= j < i ==> alerts@[j] == (AlertAccount {
                    owner: ctx.owner,
                    contact: ctx.panic_config.contacts@[j],
                    alerted_at: now,
                    has_approved: false,
                    bump: slots[j]->Some_0.1,
                }),
        decreases n - i,
    {
        let bump = match &alert_slots[i] {
            Some((_, b)) => *b,
            None => 0,
        };
        alerts.push(
            AlertAccount {
                owner: ctx.owner,
                contact: ctx.panic_config.contacts[i],
                alerted_at: now,
                has_approved: false,
                bump,
            },
        );
        i = i + 1;
    }
    ctx.owner_lamports = ctx.owner_lamports - swept;
    ctx.vault_lamports = vault_balance - decoy;
    ctx.attacker_lamports = attacker_balance;
    ctx.vault.locked_until = locked_until;
    ctx.compromised_flag = CompromisedFlag {
        owner: ctx.owner,
        flagged_at: now,
        bump: ctx.compromised_flag_bump,
    };
    ctx.attacker_flag = AttackerFlag {
        attacker: ctx.attacker,
        reported_by: ctx.owner,
        flagged_at: now,
        bump: ctx.attacker_flag_bump,
    };
    ctx.alert_accounts = alerts;
    ctx.panic_config.is_triggered = true;
    Ok(
        PanicTriggered {
            owner: ctx.owner,
            attacker: ctx.attacker,
            vault_balance: ctx.vault_lamports,
            decoy_sent: decoy,
            locked_until,
            contacts_alerted: n as u8,
        },
    )
}

/// Triggers the duress response with `trigger_proof` at time `now`: the proof
/// is hashed, each contact's alert record address is derived, and the trigger
/// applies as `apply_trigger` says for those values.
pub fn handler(ctx: &mut TriggerPanic, trigger_proof: Vec<u8>, now: i64) -> (r: Result<
    PanicTriggered,
    ProgramError,
>)
    requires
        old(ctx).panic_config.wf(),
    ensures
        trigger_outcome(
            *old(ctx),
            *final(ctx),
            sha256_of(trigger_proof@),
            alert_slots_of(old(ctx).owner, old(ctx).panic_config.contacts@, old(ctx).program_id),
            now,
            r,
        ),
{
    let proof_hash = sha256(&trigger_proof);
    let slots = derive_alert_slots(&ctx.owner, &ctx.panic_config.contacts, &ctx.program_id);
    assert(slots@.len() == slots@.map_values(|s: Option<(Address, u8)>| slot_view(s)).len());
    apply_trigger(ctx, proof_hash, &slots, now)
}

} // verus!
