use vstd::prelude::*;
use crate::crypto::Address;

verus! {

/// The alert that one emergency contact receives at trigger time, and that
/// contact's approval of the recovery.
#[derive(Clone, Copy, Debug)]
pub struct AlertAccount {
    pub owner: Address,
    pub contact: Address,
    /// When the alert was created.
    pub alerted_at: i64,
    /// Whether this contact has approved the recovery.
    pub has_approved: bool,
    /// Bump seed of the record's address.
    pub bump: u8,
}

/// The seed prefix of an alert record's address.
pub const ALERT_SEED_PREFIX: [u8; 5] = [97, 108, 101, 114, 116];

} // verus!
