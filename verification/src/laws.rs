//! What holds of the operations, whatever the ledger and the arguments.
//!
//! The operations are stated here through the outcomes that
//! [`LedgerView`] gives them; the executable operations are proved to have
//! exactly these outcomes.

use vstd::prelude::*;

use crate::accounts::{Initiate, InstantRefund, Redeem, Refund};
use crate::address::swap_address;
use crate::digest::sha256;
use crate::error::SwapError;
use crate::ledger::LedgerView;
use crate::pubkey::Pubkey;
use crate::state::SwapAccount;

verus! {

impl LedgerView {
    /// What the swap account at `address` holds in escrow: its lamports
    /// beyond the deposit.
    pub open spec fn escrowed(self, address: Pubkey) -> int {
        self.escrows[address].lamports - self.rent
    }

    /// Apart from the swap at `address`, the same swaps are open in `self`
    /// and in `other`, with the same records and the same lamports.
    pub open spec fn same_swaps_but(self, other: LedgerView, address: Pubkey) -> bool {
        forall|k: Pubkey|
            k != address ==> {
                &&& self.escrows.contains_key(k) == other.escrows.contains_key(k)
                &&& self.escrows.contains_key(k) ==> self.escrows[k] == other.escrows[k]
            }
    }
}

/// After a successful `initiate` a swap is open at the address derived from
/// the five identifying fields, its record holds these fields, the rent
/// sponsor and the expiry slot, and its account holds exactly the amount in
/// escrow. No other swap has changed, and the ledger is still as
/// `LedgerView::inv` says.
pub proof fn lemma_initiate_escrows_amount(
    pre: LedgerView,
    post: LedgerView,
    accounts: Initiate,
    redeemer: Pubkey,
    refundee: Pubkey,
    secret_hash: [u8; 32],
    swap_amount: u64,
    timelock: u64,
)
    requires
        pre.inv(),
        pre.initiate(accounts, redeemer, refundee, secret_hash, swap_amount, timelock) == Ok::<
            _,
            SwapError,
        >(post),
    ensures
        post.inv(),
        swap_address(pre.program_id, redeemer, refundee, secret_hash, swap_amount, timelock) is Some,
        ({
            let (address, bump) = swap_address(
                pre.program_id,
                redeemer,
                refundee,
                secret_hash,
                swap_amount,
                timelock,
            )->Some_0;
            &&& !pre.escrows.contains_key(address)
            &&& post.escrows.contains_key(address)
            &&& post.escrowed(address) == swap_amount
            &&& post.escrows[address].swap == (SwapAccount {
                expiry_slot: (pre.slot + timelock) as u64,
                bump,
                redeemer,
                refundee,
                secret_hash,
                swap_amount,
                rent_sponsor: accounts.rent_sponsor.key,
                timelock,
            })
            &&& pre.slot + timelock <= u64::MAX
            &&& post.same_swaps_but(pre, address)
        }),
{
}

/// The funds of a successful `initiate` come from the two signers: the rent
/// sponsor is charged the deposit, the funder the amount, and every other
/// balance stays. Supply, clock and deposit stay too.
pub proof fn lemma_initiate_charges_signers(
    pre: LedgerView,
    post: LedgerView,
    accounts: Initiate,
    redeemer: Pubkey,
    refundee: Pubkey,
    secret_hash: [u8; 32],
    swap_amount: u64,
    timelock: u64,
)
    requires
        pre.inv(),
        pre.initiate(accounts, redeemer, refundee, secret_hash, swap_amount, timelock) == Ok::<
            _,
            SwapError,
        >(post),
    ensures
        post.supply == pre.supply,
        post.slot == pre.slot,
        post.rent == pre.rent,
        post.program_id == pre.program_id,
        forall|k: Pubkey|
            post.balances[k] == pre.balances[k] - (if k == accounts.rent_sponsor.key {
                pre.rent
            } else {
                0
            }) - (if k == accounts.funder.key {
                swap_amount as nat
            } else {
                0
            }),
{
}

/// Where the accounts named are those of the swap, `redeem` succeeds exactly
/// when a swap is open at the address and the secret hashes to the digest
/// the swap is locked under.
pub proof fn lemma_redeem_succeeds_iff(pre: LedgerView, accounts: Redeem, secret: [u8; 32])
    requires
        pre.escrows.contains_key(accounts.swap_account) ==> {
            &&& accounts.redeemer == pre.escrows[accounts.swap_account].swap.redeemer
            &&& accounts.rent_sponsor == pre.escrows[accounts.swap_account].swap.rent_sponsor
        },
    ensures
        pre.redeem(accounts, secret) is Ok <==> {
            &&& pre.escrows.contains_key(accounts.swap_account)
            &&& sha256(secret@) == pre.escrows[accounts.swap_account].swap.secret_hash@
        },
        pre.escrows.contains_key(accounts.swap_account) && sha256(secret@)
            != pre.escrows[accounts.swap_account].swap.secret_hash@ ==> pre.redeem(accounts, secret)
            == Err::<LedgerView, _>(SwapError::InvalidSecret),
{
}

/// Where the accounts named are those of the swap, `refund` succeeds exactly
/// when a swap is open at the address and the clock is past its expiry slot.
/// On an open swap that has not expired it fails with `RefundBeforeExpiry`,
/// at the expiry slot too.
pub proof fn lemma_refund_succeeds_iff(pre: LedgerView, accounts: Refund)
    requires
        pre.escrows.contains_key(accounts.swap_account) ==> {
            &&& accounts.refundee == pre.escrows[accounts.swap_account].swap.refundee
            &&& accounts.rent_sponsor == pre.escrows[accounts.swap_account].swap.rent_sponsor
        },
    ensures
        pre.refund(accounts) is Ok <==> {
            &&& pre.escrows.contains_key(accounts.swap_account)
            &&& pre.slot > pre.escrows[accounts.swap_account].swap.expiry_slot
        },
        pre.escrows.contains_key(accounts.swap_account) && pre.slot
            <= pre.escrows[accounts.swap_account].swap.expiry_slot ==> pre.refund(accounts) == Err::<
            LedgerView,
            _,
        >(SwapError::RefundBeforeExpiry),
{
}

/// Where the refundee and the rent sponsor named are those of the swap,
/// `instant_refund` succeeds exactly when a swap is open at the address and
/// the signer is its redeemer. The clock has no part in it: at any other
/// slot the outcome is the same but for the slot.
pub proof fn lemma_instant_refund_succeeds_iff(
    pre: LedgerView,
    accounts: InstantRefund,
    slot: u64,
)
    requires
        pre.escrows.contains_key(accounts.swap_account) ==> {
            &&& accounts.refundee == pre.escrows[accounts.swap_account].swap.refundee
            &&& accounts.rent_sponsor == pre.escrows[accounts.swap_account].swap.rent_sponsor
        },
    ensures
        pre.instant_refund(accounts) is Ok <==> {
            &&& pre.escrows.contains_key(accounts.swap_account)
            &&& accounts.redeemer.key == pre.escrows[accounts.swap_account].swap.redeemer
        },
        pre.escrows.contains_key(accounts.swap_account) && accounts.redeemer.key
            != pre.escrows[accounts.swap_account].swap.redeemer ==> pre.instant_refund(accounts)
            == Err::<LedgerView, _>(SwapError::InvalidRedeemer),
        match pre.instant_refund(accounts) {
            Ok(post) => (LedgerView { slot, ..pre }).instant_refund(accounts) == Ok::<
                _,
                SwapError,
            >(LedgerView { slot, ..post }),
            Err(error) => (LedgerView { slot, ..pre }).instant_refund(accounts) == Err::<
                LedgerView,
                _,
            >(error),
        },
{
}

/// Settling the swap at `address` in favour of `beneficiary` deletes it,
/// pays the beneficiary the amount that was in escrow and the rent sponsor
/// the deposit, and changes no other balance and no other swap. The supply
/// stays, and the ledger is still as `LedgerView::inv` says.
pub proof fn lemma_settle_pays_out(pre: LedgerView, address: Pubkey, beneficiary: Pubkey)
    requires
        pre.inv(),
        pre.escrows.contains_key(address),
    ensures
        pre.settle(address, beneficiary).inv(),
        !pre.settle(address, beneficiary).escrows.contains_key(address),
        pre.settle(address, beneficiary).same_swaps_but(pre, address),
        pre.settle(address, beneficiary).supply == pre.supply,
        pre.settle(address, beneficiary).slot == pre.slot,
        pre.settle(address, beneficiary).rent == pre.rent,
        pre.settle(address, beneficiary).program_id == pre.program_id,
        forall|k: Pubkey|
            pre.settle(address, beneficiary).balances[k] == pre.balances[k] + (if k
                == beneficiary {
                pre.escrowed(address)
            } else {
                0
            }) + (if k == pre.escrows[address].swap.rent_sponsor {
                pre.rent as int
            } else {
                0
            }),
        pre.escrowed(address) == pre.escrows[address].swap.swap_amount,
{
}

/// A successful `redeem` settles the swap in favour of its redeemer: see
/// `lemma_settle_pays_out` for what that does.
pub proof fn lemma_redeem_pays_redeemer(
    pre: LedgerView,
    post: LedgerView,
    accounts: Redeem,
    secret: [u8; 32],
)
    requires
        pre.inv(),
        pre.redeem(accounts, secret) == Ok::<_, SwapError>(post),
    ensures
        pre.escrows.contains_key(accounts.swap_account),
        post == pre.settle(
            accounts.swap_account,
            pre.escrows[accounts.swap_account].swap.redeemer,
        ),
        post.inv(),
        !post.escrows.contains_key(accounts.swap_account),
        accounts.redeemer != pre.escrows[accounts.swap_account].swap.rent_sponsor
            ==> post.balances[accounts.redeemer] == pre.balances[accounts.redeemer]
            + pre.escrows[accounts.swap_account].swap.swap_amount,
{
    lemma_settle_pays_out(
        pre,
        accounts.swap_account,
        pre.escrows[accounts.swap_account].swap.redeemer,
    );
}

/// A successful `refund` settles the swap in favour of its refundee.
pub proof fn lemma_refund_pays_refundee(pre: LedgerView, post: LedgerView, accounts: Refund)
    requires
        pre.inv(),
        pre.refund(accounts) == Ok::<_, SwapError>(post),
    ensures
        pre.escrows.contains_key(accounts.swap_account),
        post == pre.settle(
            accounts.swap_account,
            pre.escrows[accounts.swap_account].swap.refundee,
        ),
        post.inv(),
        !post.escrows.contains_key(accounts.swap_account),
        accounts.refundee != pre.escrows[accounts.swap_account].swap.rent_sponsor
            ==> post.balances[accounts.refundee] == pre.balances[accounts.refundee]
            + pre.escrows[accounts.swap_account].swap.swap_amount,
{
    lemma_settle_pays_out(
        pre,
        accounts.swap_account,
        pre.escrows[accounts.swap_account].swap.refundee,
    );
}

/// A successful `instant_refund` settles the swap in favour of its refundee.
pub proof fn lemma_instant_refund_pays_refundee(
    pre: LedgerView,
    post: LedgerView,
    accounts: InstantRefund,
)
    requires
        pre.inv(),
        pre.instant_refund(accounts) == Ok::<_, SwapError>(post),
    ensures
        pre.escrows.contains_key(accounts.swap_account),
        post == pre.settle(
            accounts.swap_account,
            pre.escrows[accounts.swap_account].swap.refundee,
        ),
        post.inv(),
        !post.escrows.contains_key(accounts.swap_account),
        accounts.refundee != pre.escrows[accounts.swap_account].swap.rent_sponsor
            ==> post.balances[accounts.refundee] == pre.balances[accounts.refundee]
            + pre.escrows[accounts.swap_account].swap.swap_amount,
{
    lemma_settle_pays_out(
        pre,
        accounts.swap_account,
        pre.escrows[accounts.swap_account].swap.refundee,
    );
}

/// A swap is settled once. After `redeem`, `refund` or `instant_refund` has
/// succeeded on the swap at an address, each of the three fails there with
/// `NotFound`, whoever calls it and with whatever secret: of competing
/// attempts the first one wins and the others find nothing.
pub proof fn lemma_settled_once(
    pre: LedgerView,
    post: LedgerView,
    address: Pubkey,
    first_redeem: Redeem,
    first_secret: [u8; 32],
    first_refund: Refund,
    first_instant_refund: InstantRefund,
    later_redeem: Redeem,
    later_secret: [u8; 32],
    later_refund: Refund,
    later_instant_refund: InstantRefund,
)
    requires
        first_redeem.swap_account == address,
        first_refund.swap_account == address,
        first_instant_refund.swap_account == address,
        later_redeem.swap_account == address,
        later_refund.swap_account == address,
        later_instant_refund.swap_account == address,
        pre.redeem(first_redeem, first_secret) == Ok::<_, SwapError>(post) || pre.refund(
            first_refund,
        ) == Ok::<_, SwapError>(post) || pre.instant_refund(first_instant_refund) == Ok::<
            _,
            SwapError,
        >(post),
    ensures
        post.redeem(later_redeem, later_secret) == Err::<LedgerView, _>(SwapError::NotFound),
        post.refund(later_refund) == Err::<LedgerView, _>(SwapError::NotFound),
        post.instant_refund(later_instant_refund) == Err::<LedgerView, _>(SwapError::NotFound),
{
}

/// While a swap is open, a second `initiate` with the same redeemer,
/// refundee, digest, amount and timelock fails with `AlreadyExists`, whoever
/// funds it and whatever the clock shows: `later` is any ledger of the same
/// program on which the swap that `initiate` opened on `pre` is still open.
pub proof fn lemma_second_initiate_fails(
    pre: LedgerView,
    post: LedgerView,
    later: LedgerView,
    first: Initiate,
    second: Initiate,
    redeemer: Pubkey,
    refundee: Pubkey,
    secret_hash: [u8; 32],
    swap_amount: u64,
    timelock: u64,
)
    requires
        pre.initiate(first, redeemer, refundee, secret_hash, swap_amount, timelock) == Ok::<
            _,
            SwapError,
        >(post),
        later.program_id == post.program_id,
        forall|k: Pubkey|
            post.escrows.contains_key(k) && !pre.escrows.contains_key(k)
                ==> later.escrows.contains_key(k),
    ensures
        post.initiate(second, redeemer, refundee, secret_hash, swap_amount, timelock) == Err::<
            LedgerView,
            _,
        >(SwapError::AlreadyExists),
        later.initiate(second, redeemer, refundee, secret_hash, swap_amount, timelock) == Err::<
            LedgerView,
            _,
        >(SwapError::AlreadyExists),
{
    let (address, _) = swap_address(
        pre.program_id,
        redeemer,
        refundee,
        secret_hash,
        swap_amount,
        timelock,
    )->Some_0;
    assert(post.escrows.contains_key(address));
}

/// A refused operation names an error that belongs to it.
pub proof fn lemma_errors_of_operations(
    pre: LedgerView,
    initiate: Initiate,
    redeemer: Pubkey,
    refundee: Pubkey,
    secret_hash: [u8; 32],
    swap_amount: u64,
    timelock: u64,
    redeem: Redeem,
    secret: [u8; 32],
    refund: Refund,
    instant_refund: InstantRefund,
)
    ensures
        match pre.initiate(initiate, redeemer, refundee, secret_hash, swap_amount, timelock) {
            Ok(_) => true,
            Err(error) => error == SwapError::InvalidSeeds || error == SwapError::AlreadyExists
                || error == SwapError::InsufficientFunds || error == SwapError::Overflow,
        },
        match pre.redeem(redeem, secret) {
            Ok(_) => true,
            Err(error) => error == SwapError::NotFound || error == SwapError::InvalidRedeemer
                || error == SwapError::InvalidRentSponsor || error == SwapError::InvalidSecret,
        },
        match pre.refund(refund) {
            Ok(_) => true,
            Err(error) => error == SwapError::NotFound || error == SwapError::InvalidRefundee
                || error == SwapError::InvalidRentSponsor || error
                == SwapError::RefundBeforeExpiry,
        },
        match pre.instant_refund(instant_refund) {
            Ok(_) => true,
            Err(error) => error == SwapError::NotFound || error == SwapError::InvalidRefundee
                || error == SwapError::InvalidRedeemer || error == SwapError::InvalidRentSponsor,
        },
{
}

} // verus!
