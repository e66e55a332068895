//! The record of an open swap, and what each operation decides on it.

use vstd::prelude::*;

use crate::accounts::{InstantRefund, Redeem, Refund};
use crate::address::swap_address;
use crate::error::SwapError;
use crate::events::{Initiated, InstantRefunded, Redeemed, Refunded};
use crate::pubkey::{bytes_eq, Pubkey};

verus! {

/// The state of one open swap.
#[derive(Clone, Copy, Debug, PartialEq, Eq)]
pub struct SwapAccount {
    /// The slot after which a refund without the redeemer's consent is allowed.
    pub expiry_slot: u64,
    /// The bump seed of the swap's address.
    pub bump: u8,
    /// The party that is paid against the secret.
    pub redeemer: Pubkey,
    /// The party that is paid when the swap is refunded.
    pub refundee: Pubkey,
    /// The digest that the swap is locked under.
    pub secret_hash: [u8; 32],
    /// The amount held in escrow, in base units.
    pub swap_amount: u64,
    /// The party that paid the deposit for this account.
    pub rent_sponsor: Pubkey,
    /// The number of slots between the opening of the swap and its expiry.
    pub timelock: u64,
}

impl SwapAccount {
    /// The expiry is the slot of opening plus the timelock.
    pub open spec fn wf(&self) -> bool {
        self.expiry_slot >= self.timelock
    }

    /// The address that the swap's identifying fields derive under `program_id`.
    pub open spec fn address(&self, program_id: Pubkey) -> Option<(Pubkey, u8)> {
        swap_address(
            program_id,
            self.redeemer,
            self.refundee,
            self.secret_hash,
            self.swap_amount,
            self.timelock,
        )
    }

    /// What `Initiated` says of this swap.
    pub open spec fn initiated_event(
        &self,
        funder: Pubkey,
        destination_data: Option<Vec<u8>>,
    ) -> Initiated {
        Initiated {
            redeemer: self.redeemer,
            refundee: self.refundee,
            secret_hash: self.secret_hash,
            swap_amount: self.swap_amount,
            timelock: self.timelock,
            destination_data,
            funder,
        }
    }

    /// What `Redeemed` says of this swap: the secret stands where the digest stood.
    pub open spec fn redeemed_event(&self, secret: [u8; 32]) -> Redeemed {
        Redeemed {
            redeemer: self.redeemer,
            refundee: self.refundee,
            secret,
            swap_amount: self.swap_amount,
            timelock: self.timelock,
        }
    }

    /// What `Refunded` says of this swap.
    pub open spec fn refunded_event(&self) -> Refunded {
        Refunded {
            redeemer: self.redeemer,
            refundee: self.refundee,
            secret_hash: self.secret_hash,
            swap_amount: self.swap_amount,
            timelock: self.timelock,
        }
    }

    /// What `InstantRefunded` says of this swap.
    pub open spec fn instant_refunded_event(&self) -> InstantRefunded {
        InstantRefunded {
            redeemer: self.redeemer,
            refundee: self.refundee,
            secret_hash: self.secret_hash,
            swap_amount: self.swap_amount,
            timelock: self.timelock,
        }
    }

    /// What `redeem` decides on this swap, for a secret with the given digest.
    pub open spec fn redeem_outcome(
        &self,
        accounts: Redeem,
        secret: [u8; 32],
        digest: Seq<u8>,
    ) -> Result<Redeemed, SwapError> {
        if accounts.redeemer != self.redeemer {
            Err(SwapError::InvalidRedeemer)
        } else if accounts.rent_sponsor != self.rent_sponsor {
            Err(SwapError::InvalidRentSponsor)
        } else if digest != self.secret_hash@ {
            Err(SwapError::InvalidSecret)
        } else {
            Ok(self.redeemed_event(secret))
        }
    }

    /// What `refund` decides on this swap at the slot `current_slot`.
    pub open spec fn refund_outcome(&self, accounts: Refund, current_slot: u64) -> Result<
        Refunded,
        SwapError,
    > {
        if accounts.refundee != self.refundee {
            Err(SwapError::InvalidRefundee)
        } else if accounts.rent_sponsor != self.rent_sponsor {
            Err(SwapError::InvalidRentSponsor)
        } else if current_slot <= self.expiry_slot {
            Err(SwapError::RefundBeforeExpiry)
        } else {
            Ok(self.refunded_event())
        }
    }

    /// What `instant_refund` decides on this swap.
    pub open spec fn instant_refund_outcome(&self, accounts: InstantRefund) -> Result<
        InstantRefunded,
        SwapError,
    > {
        if accounts.refundee != self.refundee {
            Err(SwapError::InvalidRefundee)
        } else if accounts.redeemer.key != self.redeemer {
            Err(SwapError::InvalidRedeemer)
        } else if accounts.rent_sponsor != self.rent_sponsor {
            Err(SwapError::InvalidRentSponsor)
        } else {
            Ok(self.instant_refunded_event())
        }
    }

    /// Opens a swap at `current_slot`. Fails with `Overflow`, and only then,
    /// when the expiry does not fit in 64 bits.
    pub fn open(
        current_slot: u64,
        bump: u8,
        rent_sponsor: Pubkey,
        redeemer: Pubkey,
        refundee: Pubkey,
        secret_hash: [u8; 32],
        swap_amount: u64,
        timelock: u64,
    ) -> (opened: Result<SwapAccount, SwapError>)
        ensures
            opened is Ok <==> current_slot + timelock <= u64::MAX,
            opened is Err ==> opened == Err::<SwapAccount, SwapError>(SwapError::Overflow),
            opened is Ok ==> opened->Ok_0 == (SwapAccount {
                expiry_slot: (current_slot + timelock) as u64,
                bump,
                redeemer,
                refundee,
                secret_hash,
                swap_amount,
                rent_sponsor,
                timelock,
            }),
            opened is Ok ==> opened->Ok_0.wf(),
    {
        match current_slot.checked_add(timelock) {
            Some(expiry_slot) => Ok(
                SwapAccount {
                    expiry_slot,
                    bump,
                    redeemer,
                    refundee,
                    secret_hash,
                    swap_amount,
                    rent_sponsor,
                    timelock,
                },
            ),
            None => Err(SwapError::Overflow),
        }
    }

    /// The event that tells of the opening of this swap.
    pub fn initiated(&self, funder: Pubkey, destination_data: Option<Vec<u8>>) -> (event:
        Initiated)
        ensures
            event == self.initiated_event(funder, destination_data),
    {
        Initiated {
            redeemer: self.redeemer,
            refundee: self.refundee,
            secret_hash: self.secret_hash,
            swap_amount: self.swap_amount,
            timelock: self.timelock,
            destination_data,
            funder,
        }
    }

    /// Decides a redemption with `secret`, whose SHA-256 digest is `digest`.
    ///
    /// The accounts are checked first, the redeemer before the rent sponsor,
    /// then the digest against the one the swap is locked under.
    pub fn verify_redeem(&self, accounts: &Redeem, secret: [u8; 32], digest: &[u8; 32]) -> (outcome:
        Result<Redeemed, SwapError>)
        ensures
            outcome == self.redeem_outcome(*accounts, secret, digest@),
    {
        if accounts.redeemer != self.redeemer {
            Err(SwapError::InvalidRedeemer)
        } else if accounts.rent_sponsor != self.rent_sponsor {
            Err(SwapError::InvalidRentSponsor)
        } else if !bytes_eq(digest, &self.secret_hash) {
            Err(SwapError::InvalidSecret)
        } else {
            Ok(
                Redeemed {
                    redeemer: self.redeemer,
                    refundee: self.refundee,
                    secret,
                    swap_amount: self.swap_amount,
                    timelock: self.timelock,
                },
            )
        }
    }

    /// Decides a refund at the slot `current_slot`.
    ///
    /// The accounts are checked first, the refundee before the rent sponsor,
    /// then the clock: a refund is allowed only after the expiry slot.
    pub fn verify_refund(&self, accounts: &Refund, current_slot: u64) -> (outcome: Result<
        Refunded,
        SwapError,
    >)
        ensures
            outcome == self.refund_outcome(*accounts, current_slot),
    {
        if accounts.refundee != self.refundee {
            Err(SwapError::InvalidRefundee)
        } else if accounts.rent_sponsor != self.rent_sponsor {
            Err(SwapError::InvalidRentSponsor)
        } else if current_slot <= self.expiry_slot {
            Err(SwapError::RefundBeforeExpiry)
        } else {
            Ok(
                Refunded {
                    redeemer: self.redeemer,
                    refundee: self.refundee,
                    secret_hash: self.secret_hash,
                    swap_amount: self.swap_amount,
                    timelock: self.timelock,
                },
            )
        }
    }

    /// Decides a refund that the redeemer consents to. The clock is not read.
    pub fn verify_instant_refund(&self, accounts: &InstantRefund) -> (outcome: Result<
        InstantRefunded,
        SwapError,
    >)
        ensures
            outcome == self.instant_refund_outcome(*accounts),
    {
        if accounts.refundee != self.refundee {
            Err(SwapError::InvalidRefundee)
        } else if accounts.redeemer.key != self.redeemer {
            Err(SwapError::InvalidRedeemer)
        } else if accounts.rent_sponsor != self.rent_sponsor {
            Err(SwapError::InvalidRentSponsor)
        } else {
            Ok(
                InstantRefunded {
                    redeemer: self.redeemer,
                    refundee: self.refundee,
                    secret_hash: self.secret_hash,
                    swap_amount: self.swap_amount,
                    timelock: self.timelock,
                },
            )
        }
    }
}

} // verus!
