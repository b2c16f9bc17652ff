use vstd::prelude::*;
use crate::crypto::Address;

verus! {

/// The owner's vault: its balance lives with the ledger, the recovery state here.
#[derive(Clone, Copy, Debug)]
pub struct Vault {
    pub owner: Address,
    /// When the funds can be recovered; 0 before the trigger.
    pub locked_until: i64,
    /// Whether the owner has opened a recovery.
    pub recovery_initiated: bool,
    /// Approvals received in the current recovery.
    pub approvals: u8,
    /// Bump seed of the record's address.
    pub bump: u8,
}

} // verus!
