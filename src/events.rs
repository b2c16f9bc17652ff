//! What each successful operation reports.
use vstd::prelude::*;
use crate::crypto::Address;

verus! {

/// Reported by a successful configuration.
#[derive(Clone, Copy, Debug)]
pub struct ConfigInitialized {
    pub owner: Address,
    pub contacts_count: u8,
    pub time_lock_duration: i64,
    pub decoy_lamports: u64,
}

/// Reported by a successful deposit, with the vault's new balance.
#[derive(Clone, Copy, Debug)]
pub struct Deposited {
    pub owner: Address,
    pub amount: u64,
    pub vault_balance: u64,
}

/// Reported by a successful trigger.
#[derive(Clone, Copy, Debug)]
pub struct PanicTriggered {
    pub owner: Address,
    pub attacker: Address,
    pub vault_balance: u64,
    pub decoy_sent: u64,
    pub locked_until: i64,
    pub contacts_alerted: u8,
}

/// Reported when the owner opens a recovery.
#[derive(Clone, Copy, Debug)]
pub struct RecoveryInitiated {
    pub owner: Address,
    pub vault_balance: u64,
}

/// Reported on each contact's approval, with the running count.
#[derive(Clone, Copy, Debug)]
pub struct RecoveryApproved {
    pub owner: Address,
    pub contact: Address,
    pub approvals_so_far: u8,
    pub threshold: u8,
}

/// Reported when the vault pays out to its owner.
#[derive(Clone, Copy, Debug)]
pub struct FundsRecovered {
    pub owner: Address,
    pub amount: u64,
}

} // verus!
