use vstd::prelude::*;
use crate::crypto::Address;

verus! {

/// Evidence, written once at trigger time, that an address coerced an owner.
#[derive(Clone, Copy, Debug)]
pub struct AttackerFlag {
    pub attacker: Address,
    /// The owner who reported the attacker.
    pub reported_by: Address,
    /// When the attacker was flagged.
    pub flagged_at: i64,
    /// Bump seed of the record's address.
    pub bump: u8,
}

} // verus!
