use vstd::prelude::*;
use crate::crypto::Address;

verus! {

/// The most emergency contacts an owner may register.
pub const MAX_CONTACTS: usize = 5;

/// The owner's policy: trigger hash, contacts, quorum, time-lock and decoy.
#[derive(Clone, Debug)]
pub struct PanicConfig {
    pub owner: Address,
    /// SHA-256 of the duress trigger (a PIN or passphrase).
    pub trigger_hash: [u8; 32],
    /// Emergency contacts who can approve recovery.
    pub contacts: Vec<Address>,
    /// Approvals needed to recover the funds.
    pub recovery_threshold: u8,
    /// Time-lock duration in seconds.
    pub time_lock_duration: i64,
    /// Decoy amount sent to the attacker.
    pub decoy_lamports: u64,
    /// Whether the trigger has fired; it never returns to false.
    pub is_triggered: bool,
    /// Bump seed of the record's address.
    pub bump: u8,
}

impl PanicConfig {
    /// The policy's limits: at most five contacts, and a threshold that they
    /// can reach.
    pub open spec fn wf(&self) -> bool {
        &&& self.contacts@.len() <= MAX_CONTACTS
        &&& self.recovery_threshold as int <= self.contacts@.len()
    }

    /// Whether `who` is one of the contacts.
    pub open spec fn has_contact(&self, who: Address) -> bool {
        exists|i: int| 0 <= i < self.contacts@.len() && self.contacts@[i]@ == who@
    }

    /// Whether `who` is one of the contacts.
    pub fn is_contact(&self, who: &Address) -> (r: bool)
        ensures
            r == self.has_contact(*who),
    {
        let mut i: usize = 0;
        while i < self.contacts.len()
            invariant
                i <= self.contacts@.len(),
                forall|j: int| 0 <= j < i ==> self.contacts@[j]@ != who@,
            decreases self.contacts@.len() - i,
        {
            if crate::crypto::same_bytes(&self.contacts[i], who) {
                return true;
            }
            i = i + 1;
        }
        false
    }
}

} // verus!
