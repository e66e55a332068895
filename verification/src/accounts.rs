//! Who takes part in each operation.
//!
//! An operation is handed the addresses it is to act on. A party whose
//! consent the operation needs is handed over as a [`Signer`].

use vstd::prelude::*;

use crate::pubkey::{Pubkey, Signer};

verus! {

/// The parties to `initiate`.
#[derive(Clone, Copy, Debug, PartialEq, Eq)]
pub struct Initiate {
    /// The party that deposits the funds of the swap.
    pub funder: Signer,
    /// The party that pays the deposit for the swap account and gets it back
    /// when the swap is settled.
    pub rent_sponsor: Signer,
}

/// The accounts of `redeem`. Nobody has to sign.
#[derive(Clone, Copy, Debug, PartialEq, Eq)]
pub struct Redeem {
    /// The address of the swap.
    pub swap_account: Pubkey,
    /// The account that is paid; it has to be the swap's redeemer.
    pub redeemer: Pubkey,
    /// The account that gets the deposit back; it has to be the swap's rent sponsor.
    pub rent_sponsor: Pubkey,
}

/// The accounts of `refund`. Nobody has to sign.
#[derive(Clone, Copy, Debug, PartialEq, Eq)]
pub struct Refund {
    /// The address of the swap.
    pub swap_account: Pubkey,
    /// The account that is paid; it has to be the swap's refundee.
    pub refundee: Pubkey,
    /// The account that gets the deposit back; it has to be the swap's rent sponsor.
    pub rent_sponsor: Pubkey,
}

/// The accounts of `instant_refund`. The redeemer signs.
#[derive(Clone, Copy, Debug, PartialEq, Eq)]
pub struct InstantRefund {
    /// The address of the swap.
    pub swap_account: Pubkey,
    /// The account that is paid; it has to be the swap's refundee.
    pub refundee: Pubkey,
    /// The consenting party; it has to be the swap's redeemer.
    pub redeemer: Signer,
    /// The account that gets the deposit back; it has to be the swap's rent sponsor.
    pub rent_sponsor: Pubkey,
}

} // verus!
