//! The one-way function that locks a swap.

use vstd::prelude::*;

verus! {

/// The SHA-256 digest of a byte string.
pub uninterp spec fn sha256(data: Seq<u8>) -> Seq<u8>;

/// `anchor_lang::solana_program::hash::hash` followed by `Hash::to_bytes`.
///
/// Trusted: the 32 bytes that come back are the SHA-256 digest of `data`,
/// the same for the same input on every call.
#[verifier::external_body]
pub(crate) fn hash(data: &[u8; 32]) -> (digest: [u8; 32])
    ensures
        digest@ == sha256(data@),
{
    anchor_lang::solana_program::hash::hash(data).to_bytes()
}

} // verus!
