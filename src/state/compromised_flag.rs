use vstd::prelude::*;
use crate::crypto::Address;

verus! {

/// Evidence, written once at trigger time, that an owner was coerced.
#[derive(Clone, Copy, Debug)]
pub struct CompromisedFlag {
    pub owner: Address,
    /// When the owner was flagged.
    pub flagged_at: i64,
    /// Bump seed of the record's address.
    pub bump: u8,
}

} // verus!
