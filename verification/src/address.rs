//! Where a swap lives: an address derived from what identifies the swap.

use vstd::bytes::{spec_u64_to_le_bytes, u64_to_le_bytes};
use vstd::prelude::*;

use crate::pubkey::Pubkey;

verus! {

/// The program-derived address for `seeds` under the program `program_id`,
/// with the bump seed that yields it, if there is one.
pub uninterp spec fn program_address(seeds: Seq<Seq<u8>>, program_id: Seq<u8>) -> Option<
    (Seq<u8>, u8),
>;

/// `Pubkey::try_find_program_address` of `anchor_lang::prelude`, on five seeds.
///
/// Trusted: the outcome is determined by the seeds, in their order, and the
/// program's address. Nothing is claimed about which inputs have an address.
#[verifier::external_body]
fn try_find_program_address(
    s0: &[u8],
    s1: &[u8],
    s2: &[u8],
    s3: &[u8],
    s4: &[u8],
    program_id: &Pubkey,
) -> (found: Option<(Pubkey, u8)>)
    ensures
        match found {
            Some((key, bump)) => program_address(seq![s0@, s1@, s2@, s3@, s4@], program_id@)
                == Some((key@, bump)),
            None => program_address(seq![s0@, s1@, s2@, s3@, s4@], program_id@) is None,
        },
{
    let id = anchor_lang::prelude::Pubkey::new_from_array(program_id.bytes);
    match anchor_lang::prelude::Pubkey::try_find_program_address(&[s0, s1, s2, s3, s4], &id) {
        Some((key, bump)) => Some((Pubkey { bytes: key.to_bytes() }, bump)),
        None => None,
    }
}

/// The seeds of a swap: the redeemer, the refundee, the digest, then the
/// amount and the timelock as eight little-endian bytes each.
pub open spec fn swap_seeds(
    redeemer: Pubkey,
    refundee: Pubkey,
    secret_hash: [u8; 32],
    swap_amount: u64,
    timelock: u64,
) -> Seq<Seq<u8>> {
    seq![
        redeemer@,
        refundee@,
        secret_hash@,
        spec_u64_to_le_bytes(swap_amount),
        spec_u64_to_le_bytes(timelock),
    ]
}

/// The address of the swap with the given identifying fields under
/// `program_id`, and its bump seed.
pub open spec fn swap_address(
    program_id: Pubkey,
    redeemer: Pubkey,
    refundee: Pubkey,
    secret_hash: [u8; 32],
    swap_amount: u64,
    timelock: u64,
) -> Option<(Pubkey, u8)> {
    match program_address(
        swap_seeds(redeemer, refundee, secret_hash, swap_amount, timelock),
        program_id@,
    ) {
        Some((bytes, bump)) => Some((Pubkey::from_seq(bytes), bump)),
        None => None,
    }
}

/// Derives the address of a swap from its identifying fields.
pub fn find_swap_address(
    program_id: &Pubkey,
    redeemer: &Pubkey,
    refundee: &Pubkey,
    secret_hash: &[u8; 32],
    swap_amount: u64,
    timelock: u64,
) -> (found: Option<(Pubkey, u8)>)
    ensures
        found == swap_address(
            *program_id,
            *redeemer,
            *refundee,
            *secret_hash,
            swap_amount,
            timelock,
        ),
{
    let amount_le = u64_to_le_bytes(swap_amount);
    let timelock_le = u64_to_le_bytes(timelock);
    let found = try_find_program_address(
        &redeemer.bytes,
        &refundee.bytes,
        secret_hash,
        amount_le.as_slice(),
        timelock_le.as_slice(),
        program_id,
    );
    proof {
        assert(swap_seeds(*redeemer, *refundee, *secret_hash, swap_amount, timelock) =~= seq![
            redeemer.bytes@,
            refundee.bytes@,
            secret_hash@,
            amount_le@,
            timelock_le@,
        ]);
        if let Some((key, _)) = found {
            Pubkey::lemma_from_seq(key);
        }
    }
    found
}

} // verus!
