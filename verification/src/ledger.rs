//! The ledger that swaps are kept on: the balances of the parties, the open
//! swaps with what they hold in escrow, and the clock.

use vstd::prelude::*;

use crate::accounts::{Initiate, InstantRefund, Redeem, Refund};
use crate::address::swap_address;
use crate::digest::sha256;
use crate::error::SwapError;
use crate::pubkey::Pubkey;
use crate::state::SwapAccount;
use crate::store::{
    credit, debit, distinct, holds, index_of, lamports_at, lamports_of, lemma_index_of,
    lemma_pushed, lemma_removed, lemma_total_bounds, lemma_total_push, lemma_total_remove,
    position, total, Account,
};

verus! {

/// An open swap as the ledger shows it: its record and the lamports that the
/// swap account holds.
pub struct EscrowView {
    pub lamports: nat,
    pub swap: SwapAccount,
}

/// The ledger as a mathematical value.
pub struct LedgerView {
    /// The address of the swap program: it namespaces the swap addresses.
    pub program_id: Pubkey,
    /// The deposit that a swap account costs its rent sponsor.
    pub rent: nat,
    /// The current slot.
    pub slot: u64,
    /// All lamports on the ledger.
    pub supply: nat,
    /// What each party holds. Every address has a balance; most hold nothing.
    pub balances: Map<Pubkey, nat>,
    /// The open swaps, by address.
    pub escrows: Map<Pubkey, EscrowView>,
}

impl LedgerView {
    /// What holds of every ledger: each address has a balance, and each open
    /// swap stands at the address derived from its identifying fields, holds
    /// its amount on top of the deposit, and expires a timelock after a slot
    /// that the clock has shown.
    pub open spec fn inv(self) -> bool {
        &&& forall|k: Pubkey| self.balances.contains_key(k)
        &&& forall|k: Pubkey| #[trigger]
            self.escrows.contains_key(k) ==> {
                &&& self.escrows[k].lamports == self.rent + self.escrows[k].swap.swap_amount
                &&& self.escrows[k].swap.wf()
                &&& self.escrows[k].swap.expiry_slot - self.escrows[k].swap.timelock <= self.slot
                &&& self.escrows[k].swap.address(self.program_id) == Some(
                    (k, self.escrows[k].swap.bump),
                )
            }
    }

    /// The ledger after `from` has handed over `lamports`.
    pub open spec fn charge(self, from: Pubkey, lamports: nat) -> LedgerView {
        LedgerView {
            balances: self.balances.insert(from, (self.balances[from] - lamports) as nat),
            ..self
        }
    }

    /// The ledger after `to` has received `lamports`.
    pub open spec fn pay(self, to: Pubkey, lamports: nat) -> LedgerView {
        LedgerView { balances: self.balances.insert(to, self.balances[to] + lamports), ..self }
    }

    /// The ledger after `swap` has been opened at `address`: the rent sponsor
    /// has paid the deposit, then the funder the amount, and the swap account
    /// holds both.
    pub open spec fn open(self, address: Pubkey, swap: SwapAccount, funder: Pubkey) -> LedgerView {
        let charged = self.charge(swap.rent_sponsor, self.rent).charge(
            funder,
            swap.swap_amount as nat,
        );
        LedgerView {
            escrows: self.escrows.insert(
                address,
                EscrowView { lamports: self.rent + swap.swap_amount as nat, swap },
            ),
            ..charged
        }
    }

    /// The ledger after the swap at `address` has been settled in favour of
    /// `beneficiary`: the swap is gone, the beneficiary has its amount, and
    /// the rent sponsor has what the swap account held beyond that.
    pub open spec fn settle(self, address: Pubkey, beneficiary: Pubkey) -> LedgerView {
        let escrow = self.escrows[address];
        let closed = LedgerView { escrows: self.escrows.remove(address), ..self };
        closed.pay(beneficiary, escrow.swap.swap_amount as nat).pay(
            escrow.swap.rent_sponsor,
            (escrow.lamports - escrow.swap.swap_amount) as nat,
        )
    }

    /// The outcome of `initiate` where the swap's address is `address` with
    /// the bump seed `bump`.
    pub open spec fn initiate_at(
        self,
        accounts: Initiate,
        address: Pubkey,
        bump: u8,
        redeemer: Pubkey,
        refundee: Pubkey,
        secret_hash: [u8; 32],
        swap_amount: u64,
        timelock: u64,
    ) -> Result<LedgerView, SwapError> {
        let rent_sponsor = accounts.rent_sponsor.key;
        let funder = accounts.funder.key;
        if self.escrows.contains_key(address) {
            Err(SwapError::AlreadyExists)
        } else if self.balances[rent_sponsor] < self.rent {
            Err(SwapError::InsufficientFunds)
        } else if self.charge(rent_sponsor, self.rent).balances[funder] < swap_amount {
            Err(SwapError::InsufficientFunds)
        } else if self.slot + timelock > u64::MAX {
            Err(SwapError::Overflow)
        } else {
            Ok(
                self.open(
                    address,
                    SwapAccount {
                        expiry_slot: (self.slot + timelock) as u64,
                        bump,
                        redeemer,
                        refundee,
                        secret_hash,
                        swap_amount,
                        rent_sponsor,
                        timelock,
                    },
                    funder,
                ),
            )
        }
    }

    /// The outcome of `initiate`: the ledger with the swap opened, or why not.
    pub open spec fn initiate(
        self,
        accounts: Initiate,
        redeemer: Pubkey,
        refundee: Pubkey,
        secret_hash: [u8; 32],
        swap_amount: u64,
        timelock: u64,
    ) -> Result<LedgerView, SwapError> {
        match swap_address(self.program_id, redeemer, refundee, secret_hash, swap_amount, timelock) {
            Some((address, bump)) => self.initiate_at(
                accounts,
                address,
                bump,
                redeemer,
                refundee,
                secret_hash,
                swap_amount,
                timelock,
            ),
            None => Err(SwapError::InvalidSeeds),
        }
    }

    /// The outcome of `redeem` for a secret whose digest is `digest`.
    pub open spec fn redeem_with_digest(
        self,
        accounts: Redeem,
        secret: [u8; 32],
        digest: Seq<u8>,
    ) -> Result<LedgerView, SwapError> {
        if !self.escrows.contains_key(accounts.swap_account) {
            Err(SwapError::NotFound)
        } else {
            let swap = self.escrows[accounts.swap_account].swap;
            match swap.redeem_outcome(accounts, secret, digest) {
                Ok(_) => Ok(self.settle(accounts.swap_account, swap.redeemer)),
                Err(error) => Err(error),
            }
        }
    }

    /// The outcome of `redeem`: the ledger with the swap paid out to the
    /// redeemer, or why not.
    pub open spec fn redeem(self, accounts: Redeem, secret: [u8; 32]) -> Result<
        LedgerView,
        SwapError,
    > {
        self.redeem_with_digest(accounts, secret, sha256(secret@))
    }

    /// The outcome of `refund`: the ledger with the swap paid back to the
    /// refundee, or why not.
    pub open spec fn refund(self, accounts: Refund) -> Result<LedgerView, SwapError> {
        if !self.escrows.contains_key(accounts.swap_account) {
            Err(SwapError::NotFound)
        } else {
            let swap = self.escrows[accounts.swap_account].swap;
            match swap.refund_outcome(accounts, self.slot) {
                Ok(_) => Ok(self.settle(accounts.swap_account, swap.refundee)),
                Err(error) => Err(error),
            }
        }
    }

    /// The outcome of `instant_refund`: the ledger with the swap paid back to
    /// the refundee, or why not.
    pub open spec fn instant_refund(self, accounts: InstantRefund) -> Result<
        LedgerView,
        SwapError,
    > {
        if !self.escrows.contains_key(accounts.swap_account) {
            Err(SwapError::NotFound)
        } else {
            let swap = self.escrows[accounts.swap_account].swap;
            match swap.instant_refund_outcome(accounts) {
                Ok(_) => Ok(self.settle(accounts.swap_account, swap.refundee)),
                Err(error) => Err(error),
            }
        }
    }
}

/// A ledger: who holds how many lamports, which swaps are open, and what
/// slot it is.
pub struct Ledger {
    program_id: Pubkey,
    rent: u64,
    slot: u64,
    supply: u64,
    wallets: Vec<Account<()>>,
    escrows: Vec<Account<SwapAccount>>,
}

impl View for Ledger {
    type V = LedgerView;

    closed spec fn view(&self) -> LedgerView {
        LedgerView {
            program_id: self.program_id,
            rent: self.rent as nat,
            slot: self.slot,
            supply: self.supply as nat,
            balances: Map::total(|k: Pubkey| lamports_at(self.wallets@, k)),
            escrows: Map::new(
                |k: Pubkey| holds(self.escrows@, k),
                |k: Pubkey|
                    EscrowView {
                        lamports: self.escrows@[index_of(self.escrows@, k)].lamports as nat,
                        swap: self.escrows@[index_of(self.escrows@, k)].data,
                    },
            ),
        }
    }
}

impl Ledger {
    /// The ledger is sound: no address is listed twice, the lamports of all
    /// parties and swaps add up to the supply, and every open swap is as
    /// `LedgerView::inv` says.
    pub closed spec fn wf(&self) -> bool {
        &&& distinct(self.wallets@)
        &&& distinct(self.escrows@)
        &&& total(self.wallets@) + total(self.escrows@) == self.supply
        &&& forall|i: int|
            0 <= i < self.escrows@.len() ==> {
                &&& (#[trigger] self.escrows@[i]).lamports == self.rent
                    + self.escrows@[i].data.swap_amount
                &&& self.escrows@[i].data.wf()
                &&& self.escrows@[i].data.expiry_slot - self.escrows@[i].data.timelock
                    <= self.slot
                &&& self.escrows@[i].data.address(self.program_id) == Some(
                    (self.escrows@[i].key, self.escrows@[i].data.bump),
                )
            }
    }

    /// A sound ledger shows what `LedgerView::inv` says, and nobody holds
    /// more than the supply.
    pub proof fn lemma_wf(&self)
        requires
            self.wf(),
        ensures
            self@.inv(),
            forall|k: Pubkey| self@.balances[k] <= self@.supply,
            forall|k: Pubkey| #[trigger]
                self@.escrows.contains_key(k) ==> self@.escrows[k].lamports <= self@.supply,
    {
        assert forall|k: Pubkey| self@.balances[k] <= self@.supply by {
            if holds(self.wallets@, k) {
                lemma_total_bounds(self.wallets@, index_of(self.wallets@, k));
            }
        }
        assert forall|k: Pubkey| #[trigger] self@.escrows.contains_key(k) implies {
            &&& self@.escrows[k].lamports <= self@.supply
            &&& self@.escrows[k].lamports == self@.rent + self@.escrows[k].swap.swap_amount
            &&& self@.escrows[k].swap.wf()
            &&& self@.escrows[k].swap.expiry_slot - self@.escrows[k].swap.timelock
                <= self@.slot
            &&& self@.escrows[k].swap.address(self@.program_id) == Some(
                (k, self@.escrows[k].swap.bump),
            )
        } by {
            let i = index_of(self.escrows@, k);
            lemma_total_bounds(self.escrows@, i);
            assert(self.escrows@[i].key == k);
        }
    }

    /// An empty ledger at slot 0 for the swap program at `program_id`, on
    /// which a swap account costs a deposit of `rent` lamports.
    pub fn new(program_id: Pubkey, rent: u64) -> (ledger: Ledger)
        ensures
            ledger.wf(),
            ledger@.program_id == program_id,
            ledger@.rent == rent,
            ledger@.slot == 0,
            ledger@.supply == 0,
            forall|k: Pubkey| ledger@.balances[k] == 0,
            ledger@.escrows == Map::<Pubkey, EscrowView>::empty(),
    {
        let ledger = Ledger {
            program_id,
            rent,
            slot: 0,
            supply: 0,
            wallets: Vec::new(),
            escrows: Vec::new(),
        };
        assert(ledger@.escrows =~= Map::<Pubkey, EscrowView>::empty());
        ledger
    }

    /// The address of the swap program.
    pub fn program_id(&self) -> (program_id: Pubkey)
        ensures
            program_id == self@.program_id,
    {
        self.program_id
    }

    /// The deposit for a swap account.
    pub fn rent(&self) -> (rent: u64)
        ensures
            rent == self@.rent,
    {
        self.rent
    }

    /// The current slot.
    pub fn slot(&self) -> (slot: u64)
        ensures
            slot == self@.slot,
    {
        self.slot
    }

    /// All lamports on the ledger.
    pub fn supply(&self) -> (supply: u64)
        ensures
            supply == self@.supply,
    {
        self.supply
    }

    /// What the party at `key` holds.
    pub fn balance(&self, key: &Pubkey) -> (lamports: u64)
        requires
            self.wf(),
        ensures
            lamports == self@.balances[*key],
    {
        lamports_of(&self.wallets, key)
    }

    /// The record of the swap at `address`, if one is open there.
    pub fn swap_account(&self, address: &Pubkey) -> (record: Option<SwapAccount>)
        requires
            self.wf(),
        ensures
            record is Some <==> self@.escrows.contains_key(*address),
            record is Some ==> record->Some_0 == self@.escrows[*address].swap,
    {
        match position(&self.escrows, address) {
            Some(i) => {
                proof {
                    lemma_index_of(self.escrows@, i as int);
                }
                Some(self.escrows[i].data)
            },
            None => None,
        }
    }

    /// What the swap account at `address` holds: nothing where no swap is open.
    pub fn escrow_balance(&self, address: &Pubkey) -> (lamports: u64)
        requires
            self.wf(),
        ensures
            self@.escrows.contains_key(*address) ==> lamports == self@.escrows[*address].lamports,
            !self@.escrows.contains_key(*address) ==> lamports == 0,
    {
        lamports_of(&self.escrows, address)
    }

    /// Lets `slots` slots pass. The clock stops at the last slot that 64 bits hold.
    pub fn advance_clock(&mut self, slots: u64)
        requires
            old(self).wf(),
        ensures
            final(self).wf(),
            final(self)@ == (LedgerView {
                slot: if old(self)@.slot + slots <= u64::MAX {
                    (old(self)@.slot + slots) as u64
                } else {
                    u64::MAX
                },
                ..old(self)@
            }),
    {
        self.slot = self.slot.saturating_add(slots);
    }

    /// Hands `lamports` new lamports to the party at `to`. Where the supply
    /// would no longer fit in 64 bits nothing is handed out, and the answer
    /// is `false`.
    pub fn airdrop(&mut self, to: Pubkey, lamports: u64) -> (done: bool)
        requires
            old(self).wf(),
        ensures
            final(self).wf(),
            done <==> old(self)@.supply + lamports <= u64::MAX,
            done ==> final(self)@ == (LedgerView {
                supply: old(self)@.supply + lamports as nat,
                ..old(self)@.pay(to, lamports as nat)
            }),
            !done ==> final(self)@ == old(self)@,
    {
        match self.supply.checked_add(lamports) {
            Some(supply) => {
                credit(&mut self.wallets, to, lamports);
                self.supply = supply;
                assert(self@.balances =~= old(self)@.pay(to, lamports as nat).balances);
                true
            },
            None => false,
        }
    }

    /// Opens `swap` at `address`: the rent sponsor pays the deposit, the
    /// funder the amount, and the swap account holds both.
    pub(crate) fn open_escrow(&mut self, address: Pubkey, swap: SwapAccount, funder: Pubkey)
        requires
            old(self).wf(),
            !old(self)@.escrows.contains_key(address),
            old(self)@.rent <= old(self)@.balances[swap.rent_sponsor],
            swap.swap_amount <= old(self)@.charge(swap.rent_sponsor, old(self)@.rent).balances[funder],
            swap.wf(),
            swap.expiry_slot - swap.timelock <= old(self)@.slot,
            swap.address(old(self)@.program_id) == Some((address, swap.bump)),
        ensures
            final(self).wf(),
            final(self)@ == old(self)@.open(address, swap, funder),
    {
        let ghost wallets = self.wallets@;
        let ghost escrows = self.escrows@;
        debit(&mut self.wallets, swap.rent_sponsor, self.rent);
        debit(&mut self.wallets, funder, swap.swap_amount);
        let account = Account { key: address, lamports: self.rent + swap.swap_amount, data: swap };
        self.escrows.push(account);
        proof {
            lemma_total_push(escrows, account);
            lemma_pushed(escrows, account);
            let after = old(self)@.open(address, swap, funder);
            assert(self@.balances =~= after.balances);
            assert(self@.escrows =~= after.escrows);
        }
    }

    /// Settles the swap at `address` in favour of `beneficiary`: pays out the
    /// amount, returns the rest of what the swap account holds to the rent
    /// sponsor, and deletes the swap, all at once.
    pub(crate) fn settle(&mut self, address: Pubkey, beneficiary: Pubkey)
        requires
            old(self).wf(),
            old(self)@.escrows.contains_key(address),
        ensures
            final(self).wf(),
            final(self)@ == old(self)@.settle(address, beneficiary),
    {
        let ghost escrows = self.escrows@;
        match position(&self.escrows, &address) {
            Some(i) => {
                proof {
                    lemma_index_of(escrows, i as int);
                    lemma_total_bounds(escrows, i as int);
                    lemma_total_remove(escrows, i as int);
                    lemma_removed(escrows, i as int);
                }
                let escrow = self.escrows.remove(i);
                let amount = escrow.data.swap_amount;
                credit(&mut self.wallets, beneficiary, amount);
                credit(&mut self.wallets, escrow.data.rent_sponsor, escrow.lamports - amount);
                proof {
                    let after = old(self)@.settle(address, beneficiary);
                    assert(self@.balances =~= after.balances);
                    assert(self@.escrows =~= after.escrows);
                    assert forall|j: int| 0 <= j < self.escrows@.len() implies {
                        &&& (#[trigger] self.escrows@[j]).lamports == self.rent
                            + self.escrows@[j].data.swap_amount
                        &&& self.escrows@[j].data.wf()
                        &&& self.escrows@[j].data.expiry_slot - self.escrows@[j].data.timelock
                            <= self.slot
                        &&& self.escrows@[j].data.address(self.program_id) == Some(
                            (self.escrows@[j].key, self.escrows@[j].data.bump),
                        )
                    } by {
                        let j2 = if j < i { j } else { j + 1 };
                        assert(self.escrows@[j] == escrows[j2]);
                    }
                }
            },
            None => {},
        }
    }
}

} // verus!
