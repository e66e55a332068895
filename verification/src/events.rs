//! What an observer is told when a swap changes state.

use vstd::prelude::*;

use crate::pubkey::Pubkey;

verus! {

/// A swap was opened: the funder has deposited its amount.
#[derive(Clone, Debug, PartialEq, Eq)]
pub struct Initiated {
    pub redeemer: Pubkey,
    pub refundee: Pubkey,
    pub secret_hash: [u8; 32],
    /// The amount in base units: one SOL is 1,000,000,000.
    pub swap_amount: u64,
    /// The number of slots after which a refund without consent is allowed.
    pub timelock: u64,
    /// Whatever the funder wants to tell the other side of the swap.
    pub destination_data: Option<Vec<u8>>,
    /// The party that deposited the funds.
    pub funder: Pubkey,
}

/// A swap was redeemed. The event reveals the secret in place of its digest.
#[derive(Clone, Copy, Debug, PartialEq, Eq)]
pub struct Redeemed {
    pub redeemer: Pubkey,
    pub refundee: Pubkey,
    pub secret: [u8; 32],
    pub swap_amount: u64,
    pub timelock: u64,
}

/// A swap was refunded after its timelock had run out.
#[derive(Clone, Copy, Debug, PartialEq, Eq)]
pub struct Refunded {
    pub redeemer: Pubkey,
    pub refundee: Pubkey,
    pub secret_hash: [u8; 32],
    pub swap_amount: u64,
    pub timelock: u64,
}

/// A swap was refunded with the redeemer's consent.
#[derive(Clone, Copy, Debug, PartialEq, Eq)]
pub struct InstantRefunded {
    pub redeemer: Pubkey,
    pub refundee: Pubkey,
    pub secret_hash: [u8; 32],
    pub swap_amount: u64,
    pub timelock: u64,
}

} // verus!
