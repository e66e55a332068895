use native_swaps::{
    find_swap_address, initiate, instant_refund, redeem, refund, Initiate, Initiated,
    InstantRefund, InstantRefunded, Ledger, Pubkey, Redeem, Redeemed, Refund, Refunded, Signer,
    SwapAccount, SwapError,
};

const PROGRAM_ID: [u8; 32] = [
    83, 246, 136, 107, 46, 139, 132, 9, 74, 24, 113, 122, 84, 52, 141, 92, 253, 46, 3, 67, 187,
    39, 108, 128, 28, 30, 198, 94, 243, 161, 93, 205,
];

const SECRET: [u8; 32] = [7; 32];

/// SHA-256 of `SECRET`.
const SECRET_HASH: [u8; 32] = [
    75, 176, 111, 142, 78, 58, 119, 21, 210, 1, 213, 115, 208, 170, 66, 55, 98, 229, 93, 171,
    214, 26, 44, 2, 39, 143, 165, 108, 198, 210, 148, 224,
];

/// The address of the swap that these tests open.
const SWAP: [u8; 32] = [
    19, 113, 122, 189, 192, 66, 77, 128, 76, 72, 132, 95, 124, 63, 163, 169, 117, 75, 98, 105,
    123, 44, 69, 25, 128, 107, 12, 107, 165, 121, 236, 162,
];

const AMOUNT: u64 = 1_000_000_000;
const TIMELOCK: u64 = 100;
const RENT: u64 = 1_392_000;

fn key(byte: u8) -> Pubkey {
    Pubkey::new_from_array([byte; 32])
}

fn redeemer() -> Pubkey {
    key(1)
}

fn refundee() -> Pubkey {
    key(2)
}

fn funder() -> Pubkey {
    key(3)
}

fn sponsor() -> Pubkey {
    key(4)
}

/// A ledger at slot 50 on which the funder and the rent sponsor hold funds
/// and the swap of these tests is open.
fn opened() -> Ledger {
    let mut ledger = Ledger::new(Pubkey::new_from_array(PROGRAM_ID), RENT);
    assert!(ledger.airdrop(funder(), 3 * AMOUNT));
    assert!(ledger.airdrop(sponsor(), 10 * RENT));
    ledger.advance_clock(50);
    let accounts = Initiate {
        funder: Signer { key: funder() },
        rent_sponsor: Signer { key: sponsor() },
    };
    let event = initiate(
        &mut ledger,
        &accounts,
        redeemer(),
        refundee(),
        SECRET_HASH,
        AMOUNT,
        TIMELOCK,
        Some(vec![0xde, 0xad]),
    );
    assert_eq!(
        event,
        Ok(Initiated {
            redeemer: redeemer(),
            refundee: refundee(),
            secret_hash: SECRET_HASH,
            swap_amount: AMOUNT,
            timelock: TIMELOCK,
            destination_data: Some(vec![0xde, 0xad]),
            funder: funder(),
        })
    );
    ledger
}

#[test]
fn initiate_escrows_the_amount_at_the_derived_address() {
    let ledger = opened();
    let swap = Pubkey::new_from_array(SWAP);
    assert_eq!(
        ledger.swap_account(&swap),
        Some(SwapAccount {
            expiry_slot: 150,
            bump: 255,
            redeemer: redeemer(),
            refundee: refundee(),
            secret_hash: SECRET_HASH,
            swap_amount: AMOUNT,
            rent_sponsor: sponsor(),
            timelock: TIMELOCK,
        })
    );
    assert_eq!(ledger.escrow_balance(&swap), AMOUNT + RENT);
    assert_eq!(ledger.escrow_balance(&swap) - ledger.rent(), AMOUNT);
    assert_eq!(ledger.balance(&funder()), 2 * AMOUNT);
    assert_eq!(ledger.balance(&sponsor()), 9 * RENT);
    assert_eq!(ledger.supply(), 3 * AMOUNT + 10 * RENT);
}

#[test]
fn redeem_before_expiry_pays_the_redeemer() {
    let mut ledger = opened();
    let swap = Pubkey::new_from_array(SWAP);
    let before = ledger.balance(&redeemer());
    let accounts = Redeem { swap_account: swap, redeemer: redeemer(), rent_sponsor: sponsor() };
    assert!(ledger.slot() <= 150);
    let event = redeem(&mut ledger, &accounts, SECRET);
    assert_eq!(
        event,
        Ok(Redeemed {
            redeemer: redeemer(),
            refundee: refundee(),
            secret: SECRET,
            swap_amount: AMOUNT,
            timelock: TIMELOCK,
        })
    );
    assert_eq!(ledger.balance(&redeemer()), before + 1_000_000_000);
    assert_eq!(ledger.swap_account(&swap), None);
    assert_eq!(ledger.escrow_balance(&swap), 0);
    assert_eq!(ledger.balance(&sponsor()), 10 * RENT);
    assert_eq!(ledger.balance(&refundee()), 0);
    assert_eq!(ledger.supply(), 3 * AMOUNT + 10 * RENT);
}

#[test]
fn refund_only_after_expiry() {
    let mut ledger = opened();
    let swap = Pubkey::new_from_array(SWAP);
    let accounts = Refund { swap_account: swap, refundee: refundee(), rent_sponsor: sponsor() };
    assert_eq!(refund(&mut ledger, &accounts), Err(SwapError::RefundBeforeExpiry));
    ledger.advance_clock(100);
    assert_eq!(ledger.slot(), 150);
    assert_eq!(refund(&mut ledger, &accounts), Err(SwapError::RefundBeforeExpiry));
    assert_eq!(ledger.balance(&refundee()), 0);
    assert_eq!(ledger.escrow_balance(&swap), AMOUNT + RENT);
    ledger.advance_clock(1);
    assert_eq!(
        refund(&mut ledger, &accounts),
        Ok(Refunded {
            redeemer: redeemer(),
            refundee: refundee(),
            secret_hash: SECRET_HASH,
            swap_amount: AMOUNT,
            timelock: TIMELOCK,
        })
    );
    assert_eq!(ledger.balance(&refundee()), AMOUNT);
    assert_eq!(ledger.balance(&sponsor()), 10 * RENT);
    assert_eq!(ledger.swap_account(&swap), None);
}

#[test]
fn instant_refund_with_the_redeemers_consent() {
    let mut ledger = opened();
    let swap = Pubkey::new_from_array(SWAP);
    let accounts = InstantRefund {
        swap_account: swap,
        refundee: refundee(),
        redeemer: Signer { key: redeemer() },
        rent_sponsor: sponsor(),
    };
    assert!(ledger.slot() < 150);
    assert_eq!(
        instant_refund(&mut ledger, &accounts),
        Ok(InstantRefunded {
            redeemer: redeemer(),
            refundee: refundee(),
            secret_hash: SECRET_HASH,
            swap_amount: AMOUNT,
            timelock: TIMELOCK,
        })
    );
    assert_eq!(ledger.balance(&refundee()), AMOUNT);
    assert_eq!(ledger.balance(&redeemer()), 0);
    assert_eq!(ledger.balance(&sponsor()), 10 * RENT);
    assert_eq!(ledger.swap_account(&swap), None);
}

#[test]
fn wrong_secret_changes_nothing() {
    let mut ledger = opened();
    let swap = Pubkey::new_from_array(SWAP);
    let record = ledger.swap_account(&swap);
    let accounts = Redeem { swap_account: swap, redeemer: redeemer(), rent_sponsor: sponsor() };
    assert_eq!(redeem(&mut ledger, &accounts, [8; 32]), Err(SwapError::InvalidSecret));
    // The digest itself is not its own pre-image.
    assert_eq!(redeem(&mut ledger, &accounts, SECRET_HASH), Err(SwapError::InvalidSecret));
    assert_eq!(ledger.swap_account(&swap), record);
    assert_eq!(ledger.escrow_balance(&swap), AMOUNT + RENT);
    assert_eq!(ledger.balance(&redeemer()), 0);
    assert_eq!(ledger.balance(&funder()), 2 * AMOUNT);
}

#[test]
fn the_address_is_derived_from_little_endian_seeds() {
    let program_id = Pubkey::new_from_array(PROGRAM_ID);
    let found =
        find_swap_address(&program_id, &redeemer(), &refundee(), &SECRET_HASH, AMOUNT, TIMELOCK);
    assert_eq!(found, Some((Pubkey::new_from_array(SWAP), 255)));
    let found = find_swap_address(&program_id, &redeemer(), &refundee(), &SECRET_HASH, AMOUNT, 0);
    let expected = [
        39, 137, 25, 62, 255, 157, 165, 241, 176, 19, 51, 90, 168, 194, 23, 165, 240, 114, 211,
        18, 255, 103, 8, 43, 192, 138, 112, 170, 100, 29, 51, 212,
    ];
    assert_eq!(found, Some((Pubkey::new_from_array(expected), 253)));
}
