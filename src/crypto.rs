//! The two cryptographic primitives that the vault relies on: SHA-256 of the
//! trigger proof, and the derivation of program addresses for alert records.
use vstd::prelude::*;

verus! {

/// A 32-byte ledger identity (an account address or a program id).
pub type Address = [u8; 32];

/// The SHA-256 digest of a byte string.
pub uninterp spec fn sha256_of(data: Seq<u8>) -> Seq<u8>;

/// The program address derived from `seeds` under `program_id`, with its bump
/// seed, or `None` where no bump seed gives an address off the curve.
pub uninterp spec fn program_address_of(seeds: Seq<Seq<u8>>, program_id: Seq<u8>) -> Option<
    (Seq<u8>, u8),
>;

/// Relies on solana_sha256_hasher::hash: the SHA-256 digest of `data`, which
/// depends on the bytes alone.
#[verifier::external_body]
pub(crate) fn sha256(data: &Vec<u8>) -> (r: [u8; 32])
    ensures
        r@ == sha256_of(data@),
{
    solana_sha256_hasher::hash(data.as_slice()).to_bytes()
}

/// Relies on anchor_lang's Pubkey::try_find_program_address: the first bump
/// seed, counting down from 255, whose address is off the curve, and that
/// address; `None` where there is none. It depends on its arguments alone.
#[verifier::external_body]
pub(crate) fn try_find_program_address(seeds: &Vec<Vec<u8>>, program_id: &[u8; 32]) -> (r: Option<
    ([u8; 32], u8),
>)
    ensures
        match r {
            Some((a, b)) => program_address_of(seeds.deep_view(), program_id@) == Some((a@, b)),
            None => program_address_of(seeds.deep_view(), program_id@) is None,
        },
{
    let slices: Vec<&[u8]> = seeds.iter().map(|s| s.as_slice()).collect();
    let program = anchor_lang::prelude::Pubkey::new_from_array(*program_id);
    anchor_lang::prelude::Pubkey::try_find_program_address(&slices, &program).map(
        |(a, b)| (a.to_bytes(), b),
    )
}

/// Whether two 32-byte values (addresses or digests) are equal.
pub fn same_bytes(a: &[u8; 32], b: &[u8; 32]) -> (r: bool)
    ensures
        r == (a@ == b@),
{
    let mut i: usize = 0;
    while i < 32
        invariant
            i <= 32,
            a@.len() == 32,
            b@.len() == 32,
            forall|j: int| 0 <= j < i ==> a@[j] == b@[j],
        decreases 32 - i,
    {
        if a[i] != b[i] {
            return false;
        }
        i = i + 1;
    }
    assert(a@ =~= b@);
    true
}

} // verus!
