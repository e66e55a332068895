//! The four operations on swaps.
//!
//! Each operation either takes effect as a whole or is refused and leaves
//! the ledger as it was.

use vstd::prelude::*;

use crate::accounts::{Initiate, InstantRefund, Redeem, Refund};
use crate::address::{find_swap_address, swap_address};
use crate::digest::{hash, sha256};
use crate::error::SwapError;
use crate::events::{Initiated, InstantRefunded, Redeemed, Refunded};
use crate::ledger::{Ledger, LedgerView};
use crate::pubkey::Pubkey;
use crate::state::SwapAccount;

verus! {

/// Opens a swap whose address is known to be `swap_account`, with the bump
/// seed `bump`.
///
/// Refused with `AlreadyExists` where a swap is open at the address, with
/// `InsufficientFunds` where the rent sponsor cannot pay the deposit or the
/// funder cannot then pay the amount, and with `Overflow` where the expiry
/// slot does not fit in 64 bits, in this order.
pub fn initiate_at(
    ledger: &mut Ledger,
    accounts: &Initiate,
    swap_account: Pubkey,
    bump: u8,
    redeemer: Pubkey,
    refundee: Pubkey,
    secret_hash: [u8; 32],
    swap_amount: u64,
    timelock: u64,
    destination_data: Option<Vec<u8>>,
) -> (result: Result<Initiated, SwapError>)
    requires
        old(ledger).wf(),
        swap_address(
            old(ledger)@.program_id,
            redeemer,
            refundee,
            secret_hash,
            swap_amount,
            timelock,
        ) == Some((swap_account, bump)),
    ensures
        final(ledger).wf(),
        match result {
            Ok(event) => {
                &&& old(ledger)@.initiate_at(
                    *accounts,
                    swap_account,
                    bump,
                    redeemer,
                    refundee,
                    secret_hash,
                    swap_amount,
                    timelock,
                ) == Ok::<_, SwapError>(final(ledger)@)
                &&& event == (Initiated {
                    redeemer,
                    refundee,
                    secret_hash,
                    swap_amount,
                    timelock,
                    destination_data,
                    funder: accounts.funder.key,
                })
            },
            Err(error) => {
                &&& old(ledger)@.initiate_at(
                    *accounts,
                    swap_account,
                    bump,
                    redeemer,
                    refundee,
                    secret_hash,
                    swap_amount,
                    timelock,
                ) == Err::<LedgerView, _>(error)
                &&& final(ledger)@ == old(ledger)@
            },
        },
{
    let rent_sponsor = accounts.rent_sponsor.key;
    let funder = accounts.funder.key;
    if ledger.swap_account(&swap_account).is_some() {
        return Err(SwapError::AlreadyExists);
    }
    let rent = ledger.rent();
    let sponsor_holds = ledger.balance(&rent_sponsor);
    if sponsor_holds < rent {
        return Err(SwapError::InsufficientFunds);
    }
    let funder_holds = if funder == rent_sponsor {
        sponsor_holds - rent
    } else {
        ledger.balance(&funder)
    };
    if funder_holds < swap_amount {
        return Err(SwapError::InsufficientFunds);
    }
    match SwapAccount::open(
        ledger.slot(),
        bump,
        rent_sponsor,
        redeemer,
        refundee,
        secret_hash,
        swap_amount,
        timelock,
    ) {
        Ok(swap) => {
            ledger.open_escrow(swap_account, swap, funder);
            Ok(swap.initiated(funder, destination_data))
        },
        Err(error) => Err(error),
    }
}

/// Opens a swap: derives its address from the redeemer, the refundee, the
/// digest, the amount and the timelock, moves the deposit from the rent
/// sponsor and the amount from the funder into the swap account, and records
/// the swap with its expiry slot.
///
/// Refused with `InvalidSeeds` where no address can be derived, and else as
/// `initiate_at` is.
pub fn initiate(
    ledger: &mut Ledger,
    accounts: &Initiate,
    redeemer: Pubkey,
    refundee: Pubkey,
    secret_hash: [u8; 32],
    swap_amount: u64,
    timelock: u64,
    destination_data: Option<Vec<u8>>,
) -> (result: Result<Initiated, SwapError>)
    requires
        old(ledger).wf(),
    ensures
        final(ledger).wf(),
        match result {
            Ok(event) => {
                &&& old(ledger)@.initiate(
                    *accounts,
                    redeemer,
                    refundee,
                    secret_hash,
                    swap_amount,
                    timelock,
                ) == Ok::<_, SwapError>(final(ledger)@)
                &&& event == (Initiated {
                    redeemer,
                    refundee,
                    secret_hash,
                    swap_amount,
                    timelock,
                    destination_data,
                    funder: accounts.funder.key,
                })
            },
            Err(error) => {
                &&& old(ledger)@.initiate(
                    *accounts,
                    redeemer,
                    refundee,
                    secret_hash,
                    swap_amount,
                    timelock,
                ) == Err::<LedgerView, _>(error)
                &&& final(ledger)@ == old(ledger)@
            },
        },
{
    let program_id = ledger.program_id();
    match find_swap_address(&program_id, &redeemer, &refundee, &secret_hash, swap_amount, timelock) {
        Some((swap_account, bump)) => initiate_at(
            ledger,
            accounts,
            swap_account,
            bump,
            redeemer,
            refundee,
            secret_hash,
            swap_amount,
            timelock,
            destination_data,
        ),
        None => Err(SwapError::InvalidSeeds),
    }
}

/// Redeems the swap at `accounts.swap_account` with `secret`, whose SHA-256
/// digest is `digest`.
///
/// Refused with `NotFound` where no swap is open at the address, then with
/// `InvalidRedeemer` or `InvalidRentSponsor` where the accounts are not
/// those of the swap, then with `InvalidSecret` where the digest is not the
/// one the swap is locked under.
pub fn redeem_with_digest(
    ledger: &mut Ledger,
    accounts: &Redeem,
    secret: [u8; 32],
    digest: &[u8; 32],
) -> (result: Result<Redeemed, SwapError>)
    requires
        old(ledger).wf(),
        digest@ == sha256(secret@),
    ensures
        final(ledger).wf(),
        match result {
            Ok(event) => {
                &&& old(ledger)@.redeem_with_digest(*accounts, secret, digest@) == Ok::<
                    _,
                    SwapError,
                >(final(ledger)@)
                &&& event == old(ledger)@.escrows[accounts.swap_account].swap.redeemed_event(secret)
            },
            Err(error) => {
                &&& old(ledger)@.redeem_with_digest(*accounts, secret, digest@) == Err::<
                    LedgerView,
                    _,
                >(error)
                &&& final(ledger)@ == old(ledger)@
            },
        },
{
    match ledger.swap_account(&accounts.swap_account) {
        Some(swap) => match swap.verify_redeem(accounts, secret, digest) {
            Ok(event) => {
                ledger.settle(accounts.swap_account, swap.redeemer);
                Ok(event)
            },
            Err(error) => Err(error),
        },
        None => Err(SwapError::NotFound),
    }
}

/// Pays the swap at `accounts.swap_account` out to its redeemer against the
/// secret, returns the deposit to the rent sponsor and deletes the swap.
/// Nobody has to sign: whoever knows the secret can have the redeemer paid.
///
/// Refused as `redeem_with_digest` is, for the SHA-256 digest of `secret`.
pub fn redeem(ledger: &mut Ledger, accounts: &Redeem, secret: [u8; 32]) -> (result: Result<
    Redeemed,
    SwapError,
>)
    requires
        old(ledger).wf(),
    ensures
        final(ledger).wf(),
        match result {
            Ok(event) => {
                &&& old(ledger)@.redeem(*accounts, secret) == Ok::<_, SwapError>(final(ledger)@)
                &&& event == old(ledger)@.escrows[accounts.swap_account].swap.redeemed_event(secret)
            },
            Err(error) => {
                &&& old(ledger)@.redeem(*accounts, secret) == Err::<LedgerView, _>(
                    error,
                )
                &&& final(ledger)@ == old(ledger)@
            },
        },
{
    let digest = hash(&secret);
    redeem_with_digest(ledger, accounts, secret, &digest)
}

/// Pays the swap at `accounts.swap_account` back to its refundee once the
/// clock is past the expiry slot, returns the deposit to the rent sponsor
/// and deletes the swap. Nobody has to sign.
///
/// Refused with `NotFound` where no swap is open at the address, then with
/// `InvalidRefundee` or `InvalidRentSponsor` where the accounts are not
/// those of the swap, then with `RefundBeforeExpiry` where the current slot
/// is not after the expiry slot.
pub fn refund(ledger: &mut Ledger, accounts: &Refund) -> (result: Result<Refunded, SwapError>)
    requires
        old(ledger).wf(),
    ensures
        final(ledger).wf(),
        match result {
            Ok(event) => {
                &&& old(ledger)@.refund(*accounts) == Ok::<_, SwapError>(final(ledger)@)
                &&& event == old(ledger)@.escrows[accounts.swap_account].swap.refunded_event()
            },
            Err(error) => {
                &&& old(ledger)@.refund(*accounts) == Err::<LedgerView, _>(error)
                &&& final(ledger)@ == old(ledger)@
            },
        },
{
    match ledger.swap_account(&accounts.swap_account) {
        Some(swap) => match swap.verify_refund(accounts, ledger.slot()) {
            Ok(event) => {
                ledger.settle(accounts.swap_account, swap.refundee);
                Ok(event)
            },
            Err(error) => Err(error),
        },
        None => Err(SwapError::NotFound),
    }
}

/// Pays the swap at `accounts.swap_account` back to its refundee with the
/// consent of the redeemer, at any time, returns the deposit to the rent
/// sponsor and deletes the swap.
///
/// Refused with `NotFound` where no swap is open at the address, then with
/// `InvalidRefundee`, `InvalidRedeemer` or `InvalidRentSponsor` where the
/// accounts are not those of the swap.
pub fn instant_refund(ledger: &mut Ledger, accounts: &InstantRefund) -> (result: Result<
    InstantRefunded,
    SwapError,
>)
    requires
        old(ledger).wf(),
    ensures
        final(ledger).wf(),
        match result {
            Ok(event) => {
                &&& old(ledger)@.instant_refund(*accounts) == Ok::<_, SwapError>(final(ledger)@)
                &&& event
                    == old(ledger)@.escrows[accounts.swap_account].swap.instant_refunded_event()
            },
            Err(error) => {
                &&& old(ledger)@.instant_refund(*accounts) == Err::<LedgerView, _>(
                    error,
                )
                &&& final(ledger)@ == old(ledger)@
            },
        },
{
    match ledger.swap_account(&accounts.swap_account) {
        Some(swap) => match swap.verify_instant_refund(accounts) {
            Ok(event) => {
                ledger.settle(accounts.swap_account, swap.refundee);
                Ok(event)
            },
            Err(error) => Err(error),
        },
        None => Err(SwapError::NotFound),
    }
}

} // verus!
