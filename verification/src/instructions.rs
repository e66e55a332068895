//! The four operations as instructions: which accounts each one names, and
//! how its arguments are laid out in bytes.
//!
//! Instruction data starts with the eight bytes that tell the operation and
//! goes on with the arguments: addresses and digests as their 32 bytes,
//! amounts and timelocks as eight little-endian bytes, and the optional
//! destination data as one byte that says whether it is there, followed,
//! where it is, by its length in four little-endian bytes and its bytes.

use vstd::bytes::{
    lemma_auto_spec_u32_to_from_le_bytes, lemma_auto_spec_u64_to_from_le_bytes,
    spec_u32_from_le_bytes, spec_u32_to_le_bytes, spec_u64_to_le_bytes,
};
use vstd::prelude::*;

use crate::pubkey::Pubkey;
use crate::wire::{get_32, get_bytes, get_u32, get_u64, put_bytes, put_u32, put_u64};

verus! {

/// An account that an instruction names, and what the instruction needs of it.
#[derive(Clone, Copy, Debug, PartialEq, Eq)]
pub struct AccountMeta {
    pub pubkey: Pubkey,
    /// The holder of the account has to sign the transaction.
    pub is_signer: bool,
    /// The instruction changes the account.
    pub is_writable: bool,
}

/// The arguments of `initiate` as a mathematical value.
pub struct InitiateArgs {
    pub redeemer: Pubkey,
    pub refundee: Pubkey,
    pub secret_hash: [u8; 32],
    pub swap_amount: u64,
    pub timelock: u64,
    pub destination_data: Option<Seq<u8>>,
}

/// The bytes of optional data: a zero byte where there is none, else a one
/// byte, the length in four little-endian bytes, and the data.
pub open spec fn optional_bytes(data: Option<Seq<u8>>) -> Seq<u8> {
    match data {
        None => seq![0u8],
        Some(bytes) => seq![1u8] + spec_u32_to_le_bytes(bytes.len() as u32) + bytes,
    }
}

impl InitiateArgs {
    /// The destination data, where there is any, has a length that fits in
    /// 32 bits.
    pub open spec fn encodable(self) -> bool {
        self.destination_data is Some ==> self.destination_data->Some_0.len() <= u32::MAX
    }

    /// The bytes of the arguments.
    pub open spec fn encoding(self) -> Seq<u8> {
        self.redeemer@ + self.refundee@ + self.secret_hash@ + spec_u64_to_le_bytes(
            self.swap_amount,
        ) + spec_u64_to_le_bytes(self.timelock) + optional_bytes(self.destination_data)
    }

    /// Where each argument stands in the encoding.
    pub proof fn lemma_layout(self)
        requires
            self.encodable(),
        ensures
            self.encoding().len() == 112 + optional_bytes(self.destination_data).len(),
            self.encoding().subrange(0, 32) == self.redeemer@,
            self.encoding().subrange(32, 64) == self.refundee@,
            self.encoding().subrange(64, 96) == self.secret_hash@,
            self.encoding().subrange(96, 104) == spec_u64_to_le_bytes(self.swap_amount),
            self.encoding().subrange(104, 112) == spec_u64_to_le_bytes(self.timelock),
            self.encoding().subrange(112, self.encoding().len() as int) == optional_bytes(
                self.destination_data,
            ),
            match self.destination_data {
                None => self.encoding().len() == 113 && self.encoding()[112] == 0,
                Some(bytes) => {
                    &&& self.encoding().len() == 117 + bytes.len()
                    &&& self.encoding()[112] == 1
                    &&& self.encoding().subrange(113, 117) == spec_u32_to_le_bytes(
                        bytes.len() as u32,
                    )
                    &&& self.encoding().subrange(117, self.encoding().len() as int) == bytes
                },
            },
    {
        lemma_auto_spec_u64_to_from_le_bytes();
        lemma_auto_spec_u32_to_from_le_bytes();
        let e = self.encoding();
        let tail = optional_bytes(self.destination_data);
        assert(e.subrange(0, 32) =~= self.redeemer@);
        assert(e.subrange(32, 64) =~= self.refundee@);
        assert(e.subrange(64, 96) =~= self.secret_hash@);
        assert(e.subrange(96, 104) =~= spec_u64_to_le_bytes(self.swap_amount));
        assert(e.subrange(104, 112) =~= spec_u64_to_le_bytes(self.timelock));
        assert(e.subrange(112, e.len() as int) =~= tail);
        match self.destination_data {
            None => {},
            Some(bytes) => {
                assert(tail[0] == 1);
                assert(e[112] == tail[0]);
                assert(e.subrange(113, 117) =~= spec_u32_to_le_bytes(bytes.len() as u32));
                assert(e.subrange(117, e.len() as int) =~= bytes);
            },
        }
    }

    /// Arguments with the same bytes are the same arguments.
    pub proof fn lemma_encoding_injective(self, other: InitiateArgs)
        requires
            self.encodable(),
            other.encodable(),
            self.encoding() == other.encoding(),
        ensures
            self == other,
    {
        self.lemma_layout();
        other.lemma_layout();
        lemma_auto_spec_u64_to_from_le_bytes();
        lemma_auto_spec_u32_to_from_le_bytes();
        Pubkey::lemma_view_injective(self.redeemer, other.redeemer);
        Pubkey::lemma_view_injective(self.refundee, other.refundee);
        assert(self.secret_hash =~= other.secret_hash);
        match (self.destination_data, other.destination_data) {
            (Some(a), Some(b)) => {
                assert(a =~= b);
            },
            _ => {},
        }
    }
}

/// The arguments of `initiate`.
#[derive(Clone, Debug, PartialEq, Eq)]
pub struct InitiateInstructionData {
    pub redeemer: Pubkey,
    pub refundee: Pubkey,
    pub secret_hash: [u8; 32],
    pub swap_amount: u64,
    pub timelock: u64,
    pub destination_data: Option<Vec<u8>>,
}

impl View for InitiateInstructionData {
    type V = InitiateArgs;

    open spec fn view(&self) -> InitiateArgs {
        InitiateArgs {
            redeemer: self.redeemer,
            refundee: self.refundee,
            secret_hash: self.secret_hash,
            swap_amount: self.swap_amount,
            timelock: self.timelock,
            destination_data: match self.destination_data {
                Some(bytes) => Some(bytes@),
                None => None,
            },
        }
    }
}

impl InitiateInstructionData {
    /// The bytes of the arguments; none where the destination data is too
    /// long for its length to be written in four bytes.
    pub fn serialize(&self) -> (bytes: Option<Vec<u8>>)
        ensures
            bytes is Some <==> self@.encodable(),
            bytes is Some ==> bytes->Some_0@ == self@.encoding(),
    {
        let mut out: Vec<u8> = Vec::new();
        put_bytes(&mut out, &self.redeemer.bytes);
        put_bytes(&mut out, &self.refundee.bytes);
        put_bytes(&mut out, &self.secret_hash);
        put_u64(&mut out, self.swap_amount);
        put_u64(&mut out, self.timelock);
        match &self.destination_data {
            None => {
                out.push(0u8);
                assert(out@ =~= self@.encoding());
            },
            Some(data) => {
                if data.len() > 0xffff_ffff {
                    return None;
                }
                out.push(1u8);
                put_u32(&mut out, data.len() as u32);
                put_bytes(&mut out, data.as_slice());
                assert(out@ =~= self@.encoding());
            },
        }
        Some(out)
    }

    /// The arguments that `bytes` are the encoding of; none where they are
    /// the encoding of no arguments. What `serialize` wrote is read back as
    /// it was.
    pub fn deserialize(bytes: &[u8]) -> (data: Option<InitiateInstructionData>)
        ensures
            match data {
                Some(data) => data@.encodable() && data@.encoding() == bytes@,
                None => forall|args: InitiateArgs|
                    args.encodable() ==> #[trigger] args.encoding() != bytes@,
            },
            forall|args: InitiateArgs|
                args.encodable() && #[trigger] args.encoding() == bytes@ ==> data is Some
                    && data->Some_0@ == args,
    {
        let len: usize = bytes.len();
        proof {
            assert forall|args: InitiateArgs| args.encodable() implies {
                let e = #[trigger] args.encoding();
                &&& e.len() >= 113
                &&& (e[112] == 0 || e[112] == 1)
                &&& e[112] == 0 ==> e.len() == 113
                &&& e[112] == 1 ==> e.len() >= 117 && e.subrange(113, 117) == spec_u32_to_le_bytes(
                    (e.len() - 117) as u32,
                ) && e.len() - 117 <= u32::MAX
            } by {
                args.lemma_layout();
            }
            lemma_auto_spec_u32_to_from_le_bytes();
        }
        if len < 113 {
            return None;
        }
        let redeemer = Pubkey { bytes: get_32(bytes, 0) };
        let refundee = Pubkey { bytes: get_32(bytes, 32) };
        let secret_hash = get_32(bytes, 64);
        let swap_amount = get_u64(bytes, 96);
        let timelock = get_u64(bytes, 104);
        let tag = bytes[112];
        let destination_data = if tag == 0 {
            if len != 113 {
                return None;
            }
            None
        } else if tag == 1 {
            if len < 117 {
                return None;
            }
            let count = get_u32(bytes, 113);
            if len - 117 != count as usize {
                proof {
                    assert forall|args: InitiateArgs| args.encodable() implies #[trigger]
                    args.encoding() != bytes@ by {
                        if args.encoding() == bytes@ {
                            args.lemma_layout();
                            let held = args.destination_data->Some_0.len() as u32;
                            assert(spec_u32_from_le_bytes(spec_u32_to_le_bytes(held)) == held);
                        }
                    }
                }
                return None;
            }
            Some(get_bytes(bytes, 117, len))
        } else {
            return None;
        };
        let data = InitiateInstructionData {
            redeemer,
            refundee,
            secret_hash,
            swap_amount,
            timelock,
            destination_data,
        };
        assert(data@.encoding() =~= bytes@) by {
            let b = bytes@;
            assert(b =~= b.subrange(0, 32) + b.subrange(32, 64) + b.subrange(64, 96) + b.subrange(
                96,
                104,
            ) + b.subrange(104, 112) + b.subrange(112, len as int));
            if tag == 1 {
                assert(b.subrange(112, len as int) =~= seq![1u8] + b.subrange(113, 117)
                    + b.subrange(117, len as int));
            } else {
                assert(b.subrange(112, len as int) =~= seq![0u8]);
            }
        }
        assert forall|args: InitiateArgs|
            args.encodable() && #[trigger] args.encoding() == bytes@ implies data@ == args by {
            args.lemma_encoding_injective(data@);
        }
        Some(data)
    }
}

/// The arguments of `redeem`: the secret, as its 32 bytes.
#[derive(Clone, Copy, Debug, PartialEq, Eq)]
pub struct RedeemInstructionData {
    pub secret: [u8; 32],
}

impl RedeemInstructionData {
    /// The bytes of the arguments.
    pub open spec fn encoding(self) -> Seq<u8> {
        self.secret@
    }

    /// The bytes of the arguments.
    pub fn serialize(&self) -> (bytes: Vec<u8>)
        ensures
            bytes@ == self.encoding(),
    {
        let mut out: Vec<u8> = Vec::new();
        put_bytes(&mut out, &self.secret);
        assert(out@ =~= self.encoding());
        out
    }

    /// The arguments that `bytes` are the encoding of: there are some
    /// exactly when `bytes` are 32 bytes.
    pub fn deserialize(bytes: &[u8]) -> (data: Option<RedeemInstructionData>)
        ensures
            data is Some <==> bytes@.len() == 32,
            data is Some ==> data->Some_0.encoding() == bytes@,
    {
        if bytes.len() != 32 {
            return None;
        }
        let secret = get_32(bytes, 0);
        assert(bytes@.subrange(0, 32) =~= bytes@);
        Some(RedeemInstructionData { secret })
    }
}

/// The arguments of `refund`: there are none.
#[derive(Clone, Copy, Debug, PartialEq, Eq)]
pub struct RefundInstructionData {}

impl RefundInstructionData {
    /// The bytes of the arguments: none.
    pub open spec fn encoding(self) -> Seq<u8> {
        Seq::empty()
    }

    /// The bytes of the arguments.
    pub fn serialize(&self) -> (bytes: Vec<u8>)
        ensures
            bytes@ == self.encoding(),
    {
        Vec::new()
    }

    /// The arguments that `bytes` are the encoding of: there are some
    /// exactly when `bytes` is empty.
    pub fn deserialize(bytes: &[u8]) -> (data: Option<RefundInstructionData>)
        ensures
            data is Some <==> bytes@.len() == 0,
    {
        if bytes.len() != 0 {
            return None;
        }
        Some(RefundInstructionData {  })
    }
}

/// The arguments of `instant_refund`: there are none.
#[derive(Clone, Copy, Debug, PartialEq, Eq)]
pub struct InstantRefundInstructionData {}

impl InstantRefundInstructionData {
    /// The bytes of the arguments: none.
    pub open spec fn encoding(self) -> Seq<u8> {
        Seq::empty()
    }

    /// The bytes of the arguments.
    pub fn serialize(&self) -> (bytes: Vec<u8>)
        ensures
            bytes@ == self.encoding(),
    {
        Vec::new()
    }

    /// The arguments that `bytes` are the encoding of: there are some
    /// exactly when `bytes` is empty.
    pub fn deserialize(bytes: &[u8]) -> (data: Option<InstantRefundInstructionData>)
        ensures
            data is Some <==> bytes@.len() == 0,
    {
        if bytes.len() != 0 {
            return None;
        }
        Some(InstantRefundInstructionData {  })
    }
}

/// The accounts that `initiate` names.
#[derive(Clone, Copy, Debug, PartialEq, Eq)]
pub struct InitiateInstructionAccounts {
    /// The address of the swap; the instruction creates the account.
    pub swap_account: Pubkey,
    /// The funder; it signs and pays the amount.
    pub funder: Pubkey,
    /// The rent sponsor; it signs and pays the deposit.
    pub rent_sponsor: Pubkey,
    /// The program that moves the funds.
    pub system_program: Pubkey,
}

impl InitiateInstructionAccounts {
    /// The accounts in the order of the instruction, with what is asked of each.
    pub open spec fn metas(self) -> Seq<AccountMeta> {
        seq![
            AccountMeta { pubkey: self.swap_account, is_signer: false, is_writable: true },
            AccountMeta { pubkey: self.funder, is_signer: true, is_writable: true },
            AccountMeta { pubkey: self.rent_sponsor, is_signer: true, is_writable: true },
            AccountMeta { pubkey: self.system_program, is_signer: false, is_writable: false },
        ]
    }

    /// The accounts in the order of the instruction, with what is asked of each.
    pub fn to_account_metas(&self) -> (metas: Vec<AccountMeta>)
        ensures
            metas@ == self.metas(),
    {
        let mut metas: Vec<AccountMeta> = Vec::new();
        metas.push(AccountMeta { pubkey: self.swap_account, is_signer: false, is_writable: true });
        metas.push(AccountMeta { pubkey: self.funder, is_signer: true, is_writable: true });
        metas.push(AccountMeta { pubkey: self.rent_sponsor, is_signer: true, is_writable: true });
        metas.push(
            AccountMeta { pubkey: self.system_program, is_signer: false, is_writable: false },
        );
        assert(metas@ =~= self.metas());
        metas
    }
}

/// The accounts that `redeem` names.
#[derive(Clone, Copy, Debug, PartialEq, Eq)]
pub struct RedeemInstructionAccounts {
    pub swap_account: Pubkey,
    pub redeemer: Pubkey,
    pub rent_sponsor: Pubkey,
}

impl RedeemInstructionAccounts {
    /// The accounts in the order of the instruction: all are changed, none signs.
    pub open spec fn metas(self) -> Seq<AccountMeta> {
        seq![
            AccountMeta { pubkey: self.swap_account, is_signer: false, is_writable: true },
            AccountMeta { pubkey: self.redeemer, is_signer: false, is_writable: true },
            AccountMeta { pubkey: self.rent_sponsor, is_signer: false, is_writable: true },
        ]
    }

    /// The accounts in the order of the instruction, with what is asked of each.
    pub fn to_account_metas(&self) -> (metas: Vec<AccountMeta>)
        ensures
            metas@ == self.metas(),
    {
        let mut metas: Vec<AccountMeta> = Vec::new();
        metas.push(AccountMeta { pubkey: self.swap_account, is_signer: false, is_writable: true });
        metas.push(AccountMeta { pubkey: self.redeemer, is_signer: false, is_writable: true });
        metas.push(AccountMeta { pubkey: self.rent_sponsor, is_signer: false, is_writable: true });
        assert(metas@ =~= self.metas());
        metas
    }
}

/// The accounts that `refund` names.
#[derive(Clone, Copy, Debug, PartialEq, Eq)]
pub struct RefundInstructionAccounts {
    pub swap_account: Pubkey,
    pub refundee: Pubkey,
    pub rent_sponsor: Pubkey,
}

impl RefundInstructionAccounts {
    /// The accounts in the order of the instruction: all are changed, none signs.
    pub open spec fn metas(self) -> Seq<AccountMeta> {
        seq![
            AccountMeta { pubkey: self.swap_account, is_signer: false, is_writable: true },
            AccountMeta { pubkey: self.refundee, is_signer: false, is_writable: true },
            AccountMeta { pubkey: self.rent_sponsor, is_signer: false, is_writable: true },
        ]
    }

    /// The accounts in the order of the instruction, with what is asked of each.
    pub fn to_account_metas(&self) -> (metas: Vec<AccountMeta>)
        ensures
            metas@ == self.metas(),
    {
        let mut metas: Vec<AccountMeta> = Vec::new();
        metas.push(AccountMeta { pubkey: self.swap_account, is_signer: false, is_writable: true });
        metas.push(AccountMeta { pubkey: self.refundee, is_signer: false, is_writable: true });
        metas.push(AccountMeta { pubkey: self.rent_sponsor, is_signer: false, is_writable: true });
        assert(metas@ =~= self.metas());
        metas
    }
}

/// The accounts that `instant_refund` names.
#[derive(Clone, Copy, Debug, PartialEq, Eq)]
pub struct InstantRefundInstructionAccounts {
    pub swap_account: Pubkey,
    pub refundee: Pubkey,
    pub redeemer: Pubkey,
    pub rent_sponsor: Pubkey,
}

impl InstantRefundInstructionAccounts {
    /// The accounts in the order of the instruction: the redeemer signs and
    /// is left as it is, the others are changed.
    pub open spec fn metas(self) -> Seq<AccountMeta> {
        seq![
            AccountMeta { pubkey: self.swap_account, is_signer: false, is_writable: true },
            AccountMeta { pubkey: self.refundee, is_signer: false, is_writable: true },
            AccountMeta { pubkey: self.redeemer, is_signer: true, is_writable: false },
            AccountMeta { pubkey: self.rent_sponsor, is_signer: false, is_writable: true },
        ]
    }

    /// The accounts in the order of the instruction, with what is asked of each.
    pub fn to_account_metas(&self) -> (metas: Vec<AccountMeta>)
        ensures
            metas@ == self.metas(),
    {
        let mut metas: Vec<AccountMeta> = Vec::new();
        metas.push(AccountMeta { pubkey: self.swap_account, is_signer: false, is_writable: true });
        metas.push(AccountMeta { pubkey: self.refundee, is_signer: false, is_writable: true });
        metas.push(AccountMeta { pubkey: self.redeemer, is_signer: true, is_writable: false });
        metas.push(AccountMeta { pubkey: self.rent_sponsor, is_signer: false, is_writable: true });
        assert(metas@ =~= self.metas());
        metas
    }
}

/// The eight bytes at the start of the data of an `initiate` instruction.
pub const INITIATE_DISCRIMINATOR: [u8; 8] = [5, 63, 123, 113, 153, 75, 148, 14];

/// The eight bytes at the start of the data of a `redeem` instruction.
pub const REDEEM_DISCRIMINATOR: [u8; 8] = [184, 12, 86, 149, 70, 196, 97, 225];

/// The eight bytes at the start of the data of a `refund` instruction.
pub const REFUND_DISCRIMINATOR: [u8; 8] = [2, 96, 183, 251, 63, 208, 46, 46];

/// The eight bytes at the start of the data of an `instant_refund` instruction.
pub const INSTANT_REFUND_DISCRIMINATOR: [u8; 8] = [211, 202, 103, 41, 183, 147, 59, 251];

/// An `initiate` instruction.
#[derive(Clone, Debug, PartialEq, Eq)]
pub struct InitiateInstruction {
    pub accounts: InitiateInstructionAccounts,
    pub data: InitiateInstructionData,
}

impl InitiateInstruction {
    /// The data of the instruction: the discriminator, then the arguments.
    /// There is none where the arguments have no encoding.
    pub fn data(&self) -> (bytes: Option<Vec<u8>>)
        ensures
            bytes is Some <==> self.data@.encodable(),
            bytes is Some ==> bytes->Some_0@ == INITIATE_DISCRIMINATOR@ + self.data@.encoding(),
    {
        match self.data.serialize() {
            Some(arguments) => {
                let mut out: Vec<u8> = Vec::new();
                put_bytes(&mut out, &INITIATE_DISCRIMINATOR);
                put_bytes(&mut out, arguments.as_slice());
                assert(out@ =~= INITIATE_DISCRIMINATOR@ + self.data@.encoding());
                Some(out)
            },
            None => None,
        }
    }
}

/// A `redeem` instruction.
#[derive(Clone, Copy, Debug, PartialEq, Eq)]
pub struct RedeemInstruction {
    pub accounts: RedeemInstructionAccounts,
    pub data: RedeemInstructionData,
}

impl RedeemInstruction {
    /// The data of the instruction: the discriminator, then the secret.
    pub fn data(&self) -> (bytes: Vec<u8>)
        ensures
            bytes@ == REDEEM_DISCRIMINATOR@ + self.data.encoding(),
    {
        let mut out: Vec<u8> = Vec::new();
        put_bytes(&mut out, &REDEEM_DISCRIMINATOR);
        put_bytes(&mut out, &self.data.secret);
        assert(out@ =~= REDEEM_DISCRIMINATOR@ + self.data.encoding());
        out
    }
}

/// A `refund` instruction.
#[derive(Clone, Copy, Debug, PartialEq, Eq)]
pub struct RefundInstruction {
    pub accounts: RefundInstructionAccounts,
    pub data: RefundInstructionData,
}

impl RefundInstruction {
    /// The data of the instruction: the discriminator alone.
    pub fn data(&self) -> (bytes: Vec<u8>)
        ensures
            bytes@ == REFUND_DISCRIMINATOR@ + self.data.encoding(),
    {
        let mut out: Vec<u8> = Vec::new();
        put_bytes(&mut out, &REFUND_DISCRIMINATOR);
        assert(out@ =~= REFUND_DISCRIMINATOR@ + self.data.encoding());
        out
    }
}

/// An `instant_refund` instruction.
#[derive(Clone, Copy, Debug, PartialEq, Eq)]
pub struct InstantRefundInstruction {
    pub accounts: InstantRefundInstructionAccounts,
    pub data: InstantRefundInstructionData,
}

impl InstantRefundInstruction {
    /// The data of the instruction: the discriminator alone.
    pub fn data(&self) -> (bytes: Vec<u8>)
        ensures
            bytes@ == INSTANT_REFUND_DISCRIMINATOR@ + self.data.encoding(),
    {
        let mut out: Vec<u8> = Vec::new();
        put_bytes(&mut out, &INSTANT_REFUND_DISCRIMINATOR);
        assert(out@ =~= INSTANT_REFUND_DISCRIMINATOR@ + self.data.encoding());
        out
    }
}


} // verus!
