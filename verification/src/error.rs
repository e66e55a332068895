//! The ways in which an operation on a swap is turned down.

use vstd::prelude::*;

verus! {

/// Why an operation was refused. A refused operation changes nothing.
#[derive(Clone, Copy, Debug, PartialEq, Eq, Structural)]
pub enum SwapError {
    /// The refundee that was named is not the one the swap was opened with.
    InvalidRefundee,
    /// The redeemer that was named is not the one the swap was opened with.
    InvalidRedeemer,
    /// The secret does not hash to the digest the swap was locked under.
    InvalidSecret,
    /// The rent sponsor that was named is not the one that paid for the swap account.
    InvalidRentSponsor,
    /// The timelock of the swap has not run out yet.
    RefundBeforeExpiry,
    /// A swap with the same redeemer, refundee, digest, amount and timelock is open.
    AlreadyExists,
    /// The slot at which the swap would expire does not fit in 64 bits.
    Overflow,
    /// No swap is open at the address: it never was, or it has been settled.
    NotFound,
    /// A payer holds less than it has to hand over.
    InsufficientFunds,
    /// No address can be derived for the swap.
    InvalidSeeds,
}

impl SwapError {
    /// The number under which the error is reported: 6000 and upwards, in
    /// the order in which the errors are listed.
    pub open spec fn spec_code(self) -> u32 {
        match self {
            SwapError::InvalidRefundee => 6000,
            SwapError::InvalidRedeemer => 6001,
            SwapError::InvalidSecret => 6002,
            SwapError::InvalidRentSponsor => 6003,
            SwapError::RefundBeforeExpiry => 6004,
            SwapError::AlreadyExists => 6005,
            SwapError::Overflow => 6006,
            SwapError::NotFound => 6007,
            SwapError::InsufficientFunds => 6008,
            SwapError::InvalidSeeds => 6009,
        }
    }

    /// The number under which the error is reported.
    pub fn code(&self) -> (code: u32)
        ensures
            code == self.spec_code(),
    {
        match self {
            SwapError::InvalidRefundee => 6000,
            SwapError::InvalidRedeemer => 6001,
            SwapError::InvalidSecret => 6002,
            SwapError::InvalidRentSponsor => 6003,
            SwapError::RefundBeforeExpiry => 6004,
            SwapError::AlreadyExists => 6005,
            SwapError::Overflow => 6006,
            SwapError::NotFound => 6007,
            SwapError::InsufficientFunds => 6008,
            SwapError::InvalidSeeds => 6009,
        }
    }

    /// The error that is reported under `code`, if there is one.
    pub fn from_code(code: u32) -> (error: Option<SwapError>)
        ensures
            match error {
                Some(error) => error.spec_code() == code,
                None => forall|error: SwapError| error.spec_code() != code,
            },
    {
        match code {
            6000 => Some(SwapError::InvalidRefundee),
            6001 => Some(SwapError::InvalidRedeemer),
            6002 => Some(SwapError::InvalidSecret),
            6003 => Some(SwapError::InvalidRentSponsor),
            6004 => Some(SwapError::RefundBeforeExpiry),
            6005 => Some(SwapError::AlreadyExists),
            6006 => Some(SwapError::Overflow),
            6007 => Some(SwapError::NotFound),
            6008 => Some(SwapError::InsufficientFunds),
            6009 => Some(SwapError::InvalidSeeds),
            _ => None,
        }
    }

    /// The error in words.
    pub fn message(&self) -> (text: &'static str)
        ensures
            text@ == match self {
                SwapError::InvalidRefundee => "The provided refundee is incorrect"@,
                SwapError::InvalidRedeemer =>
                    "The provided redeemer is not the original redeemer of this swap"@,
                SwapError::InvalidSecret =>
                    "The provided secret does not correspond to the secret hash of this swap"@,
                SwapError::InvalidRentSponsor => "The provided rent sponsor is incorrect"@,
                SwapError::RefundBeforeExpiry => "Attempt to refund before timelock expiry"@,
                SwapError::AlreadyExists => "A swap with these parameters is already open"@,
                SwapError::Overflow => "The timelock overflows the expiry slot"@,
                SwapError::NotFound => "No swap is open at the provided address"@,
                SwapError::InsufficientFunds => "The payer holds less than it has to pay"@,
                SwapError::InvalidSeeds => "No address can be derived for this swap"@,
            },
    {
        match self {
            SwapError::InvalidRefundee => "The provided refundee is incorrect",
            SwapError::InvalidRedeemer =>
                "The provided redeemer is not the original redeemer of this swap",
            SwapError::InvalidSecret =>
                "The provided secret does not correspond to the secret hash of this swap",
            SwapError::InvalidRentSponsor => "The provided rent sponsor is incorrect",
            SwapError::RefundBeforeExpiry => "Attempt to refund before timelock expiry",
            SwapError::AlreadyExists => "A swap with these parameters is already open",
            SwapError::Overflow => "The timelock overflows the expiry slot",
            SwapError::NotFound => "No swap is open at the provided address",
            SwapError::InsufficientFunds => "The payer holds less than it has to pay",
            SwapError::InvalidSeeds => "No address can be derived for this swap",
        }
    }
}

} // verus!
