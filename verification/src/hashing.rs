//! Keccak-256 as the ledger computes it.

use vstd::prelude::*;

verus! {

/// The Keccak-256 digest of a byte string.
pub uninterp spec fn keccak256(data: Seq<u8>) -> Seq<u8>;

/// Calls `solana_program::keccak::hashv` on the single slice `data`. The
/// digest is trusted to be a function of the bytes alone; nothing else is
/// claimed of it.
#[verifier::external_body]
pub(crate) fn keccak(data: &[u8]) -> (digest: [u8; 32])
    ensures
        digest@ == keccak256(data@),
{
    solana_program::keccak::hashv(&[data]).to_bytes()
}

/// The Keccak-256 digest of `data`.
pub fn digest(data: &[u8]) -> (out: [u8; 32])
    ensures
        out@ == keccak256(data@),
{
    keccak(data)
}

} // verus!
