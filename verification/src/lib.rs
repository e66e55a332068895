//! Hash-timelock escrow of a native value unit.
//!
//! A funder locks an amount for a redeemer under the digest of a secret. The
//! redeemer is paid by revealing the secret; after the timelock has run out
//! the refundee can take the amount back, and with the redeemer's consent it
//! can do so at any time. Each swap is settled through exactly one of these
//! paths.

pub mod accounts;
pub mod address;
pub mod digest;
pub mod error;
pub mod events;
pub mod instructions;
pub mod laws;
pub mod ledger;
pub mod program;
pub mod pubkey;
pub mod state;
mod store;
mod wire;

pub use accounts::{Initiate, InstantRefund, Redeem, Refund};
pub use address::{find_swap_address, program_address, swap_address, swap_seeds};
pub use digest::sha256;
pub use error::SwapError;
pub use events::{Initiated, InstantRefunded, Redeemed, Refunded};
pub use instructions::{
    AccountMeta, InitiateArgs, InitiateInstruction, InitiateInstructionAccounts,
    InitiateInstructionData, InstantRefundInstruction, InstantRefundInstructionAccounts,
    InstantRefundInstructionData, RedeemInstruction, RedeemInstructionAccounts,
    RedeemInstructionData, RefundInstruction, RefundInstructionAccounts, RefundInstructionData,
    INITIATE_DISCRIMINATOR, INSTANT_REFUND_DISCRIMINATOR, REDEEM_DISCRIMINATOR,
    REFUND_DISCRIMINATOR,
};
pub use ledger::{EscrowView, Ledger, LedgerView};
pub use program::{initiate, initiate_at, instant_refund, redeem, redeem_with_digest, refund};
pub use pubkey::{bytes_eq, Pubkey, Signer};
pub use state::SwapAccount;
