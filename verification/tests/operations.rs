use native_swaps::{
    find_swap_address, initiate, initiate_at, instant_refund, redeem, redeem_with_digest, refund,
    Initiate, InstantRefund, Ledger, Pubkey, Redeem, Refund, Signer, SwapError,
};

const PROGRAM: [u8; 32] = [
    83, 246, 136, 107, 46, 139, 132, 9, 74, 24, 113, 122, 84, 52, 141, 92, 253, 46, 3, 67, 187,
    39, 108, 128, 28, 30, 198, 94, 243, 161, 93, 205,
];

/// SHA-256 of 32 zero bytes.
const HASH_OF_ZEROS: [u8; 32] = [
    102, 104, 122, 173, 248, 98, 189, 119, 108, 143, 193, 139, 142, 159, 142, 32, 8, 151, 20,
    133, 110, 226, 51, 179, 144, 42, 89, 29, 13, 95, 41, 37,
];

const R: u8 = 1;
const F: u8 = 2;
const FUNDER: u8 = 3;
const SPONSOR: u8 = 4;

fn party(byte: u8) -> Pubkey {
    Pubkey::new_from_array([byte; 32])
}

fn signers(funder: u8, rent_sponsor: u8) -> Initiate {
    Initiate {
        funder: Signer { key: party(funder) },
        rent_sponsor: Signer { key: party(rent_sponsor) },
    }
}

fn funded(rent: u64) -> Ledger {
    let mut ledger = Ledger::new(Pubkey::new_from_array(PROGRAM), rent);
    assert!(ledger.airdrop(party(FUNDER), 5_000));
    assert!(ledger.airdrop(party(SPONSOR), 1_000));
    ledger
}

fn swap_address(amount: u64, timelock: u64) -> Pubkey {
    let program = Pubkey::new_from_array(PROGRAM);
    find_swap_address(&program, &party(R), &party(F), &HASH_OF_ZEROS, amount, timelock)
        .unwrap()
        .0
}

fn open(ledger: &mut Ledger, amount: u64, timelock: u64) -> Pubkey {
    let opened = initiate(
        ledger,
        &signers(FUNDER, SPONSOR),
        party(R),
        party(F),
        HASH_OF_ZEROS,
        amount,
        timelock,
        None,
    );
    assert!(opened.is_ok());
    swap_address(amount, timelock)
}

fn balances(ledger: &Ledger) -> [u64; 4] {
    [
        ledger.balance(&party(R)),
        ledger.balance(&party(F)),
        ledger.balance(&party(FUNDER)),
        ledger.balance(&party(SPONSOR)),
    ]
}

#[test]
fn second_initiate_with_the_same_fields_already_exists() {
    let mut ledger = funded(10);
    let swap = open(&mut ledger, 700, 20);
    let before = balances(&ledger);
    let again = initiate(
        &mut ledger,
        &signers(FUNDER, SPONSOR),
        party(R),
        party(F),
        HASH_OF_ZEROS,
        700,
        20,
        Some(vec![1]),
    );
    assert_eq!(again, Err(SwapError::AlreadyExists));
    // Another funder and a later slot make no difference.
    ledger.advance_clock(1_000);
    let other = initiate(
        &mut ledger,
        &signers(SPONSOR, FUNDER),
        party(R),
        party(F),
        HASH_OF_ZEROS,
        700,
        20,
        None,
    );
    assert_eq!(other, Err(SwapError::AlreadyExists));
    assert_eq!(balances(&ledger), before);
    assert_eq!(ledger.escrow_balance(&swap), 710);
    assert_eq!(ledger.swap_account(&swap).unwrap().expiry_slot, 20);
}

#[test]
fn swaps_that_differ_in_one_field_live_side_by_side() {
    let mut ledger = funded(10);
    let first = open(&mut ledger, 700, 20);
    let second = open(&mut ledger, 700, 21);
    let third = open(&mut ledger, 701, 20);
    assert_ne!(first, second);
    assert_ne!(first, third);
    assert_ne!(second, third);
    assert_eq!(ledger.escrow_balance(&first), 710);
    assert_eq!(ledger.escrow_balance(&second), 710);
    assert_eq!(ledger.escrow_balance(&third), 711);
    assert_eq!(balances(&ledger), [0, 0, 5_000 - 2_101, 1_000 - 30]);
    assert_eq!(ledger.supply(), 6_000);
}

#[test]
fn a_settled_swap_can_be_opened_again() {
    let mut ledger = funded(10);
    let swap = open(&mut ledger, 700, 20);
    let accounts = Redeem { swap_account: swap, redeemer: party(R), rent_sponsor: party(SPONSOR) };
    assert!(redeem(&mut ledger, &accounts, [0; 32]).is_ok());
    ledger.advance_clock(7);
    assert_eq!(open(&mut ledger, 700, 20), swap);
    assert_eq!(ledger.swap_account(&swap).unwrap().expiry_slot, 27);
    assert_eq!(balances(&ledger), [700, 0, 5_000 - 1_400, 990]);
}

#[test]
fn initiate_overflows_when_the_expiry_does_not_fit() {
    let mut ledger = funded(10);
    ledger.advance_clock(1);
    let before = balances(&ledger);
    let refused = initiate(
        &mut ledger,
        &signers(FUNDER, SPONSOR),
        party(R),
        party(F),
        HASH_OF_ZEROS,
        700,
        u64::MAX,
        None,
    );
    assert_eq!(refused, Err(SwapError::Overflow));
    assert_eq!(balances(&ledger), before);
    assert_eq!(ledger.swap_account(&swap_address(700, u64::MAX)), None);
    // One slot less fits exactly.
    let swap = open(&mut ledger, 700, u64::MAX - 1);
    assert_eq!(ledger.swap_account(&swap).unwrap().expiry_slot, u64::MAX);
}

#[test]
fn initiate_needs_the_deposit_and_the_amount() {
    let mut ledger = funded(1_001);
    let refused = initiate(
        &mut ledger,
        &signers(FUNDER, SPONSOR),
        party(R),
        party(F),
        HASH_OF_ZEROS,
        700,
        20,
        None,
    );
    assert_eq!(refused, Err(SwapError::InsufficientFunds));

    let mut ledger = funded(10);
    let refused = initiate(
        &mut ledger,
        &signers(FUNDER, SPONSOR),
        party(R),
        party(F),
        HASH_OF_ZEROS,
        5_001,
        20,
        None,
    );
    assert_eq!(refused, Err(SwapError::InsufficientFunds));
    assert_eq!(balances(&ledger), [0, 0, 5_000, 1_000]);
    assert_eq!(ledger.swap_account(&swap_address(5_001, 20)), None);
    // All that the funder holds is enough.
    let swap = open(&mut ledger, 5_000, 20);
    assert_eq!(ledger.escrow_balance(&swap), 5_010);
    assert_eq!(balances(&ledger), [0, 0, 0, 990]);
}

#[test]
fn one_party_can_fund_and_sponsor() {
    let mut ledger = funded(10);
    // The deposit is paid first: 4_991 + 10 is more than the funder holds.
    let refused = initiate(
        &mut ledger,
        &signers(FUNDER, FUNDER),
        party(R),
        party(F),
        HASH_OF_ZEROS,
        4_991,
        20,
        None,
    );
    assert_eq!(refused, Err(SwapError::InsufficientFunds));
    let opened = initiate(
        &mut ledger,
        &signers(FUNDER, FUNDER),
        party(R),
        party(F),
        HASH_OF_ZEROS,
        4_990,
        20,
        None,
    );
    assert!(opened.is_ok());
    let swap = swap_address(4_990, 20);
    assert_eq!(ledger.swap_account(&swap).unwrap().rent_sponsor, party(FUNDER));
    assert_eq!(balances(&ledger), [0, 0, 0, 1_000]);
    // The refundee gets the amount, the funder its deposit.
    ledger.advance_clock(21);
    let accounts = Refund { swap_account: swap, refundee: party(F), rent_sponsor: party(FUNDER) };
    assert!(refund(&mut ledger, &accounts).is_ok());
    assert_eq!(balances(&ledger), [0, 4_990, 10, 1_000]);
}

#[test]
fn a_party_that_is_paid_twice_gets_both() {
    let mut ledger = Ledger::new(Pubkey::new_from_array(PROGRAM), 10);
    assert!(ledger.airdrop(party(R), 1_000));
    // The redeemer funds and sponsors a swap in its own favour.
    let opened = initiate(
        &mut ledger,
        &signers(R, R),
        party(R),
        party(F),
        HASH_OF_ZEROS,
        300,
        20,
        None,
    );
    assert!(opened.is_ok());
    assert_eq!(ledger.balance(&party(R)), 690);
    let swap = swap_address(300, 20);
    let accounts = Redeem { swap_account: swap, redeemer: party(R), rent_sponsor: party(R) };
    assert!(redeem(&mut ledger, &accounts, [0; 32]).is_ok());
    assert_eq!(ledger.balance(&party(R)), 1_000);
    assert_eq!(ledger.supply(), 1_000);
}

#[test]
fn a_swap_of_nothing_is_a_swap() {
    let mut ledger = funded(10);
    let swap = open(&mut ledger, 0, 0);
    assert_eq!(ledger.escrow_balance(&swap), 10);
    assert_eq!(ledger.swap_account(&swap).unwrap().expiry_slot, 0);
    let accounts = Refund { swap_account: swap, refundee: party(F), rent_sponsor: party(SPONSOR) };
    assert_eq!(refund(&mut ledger, &accounts), Err(SwapError::RefundBeforeExpiry));
    ledger.advance_clock(1);
    assert!(refund(&mut ledger, &accounts).is_ok());
    assert_eq!(balances(&ledger), [0, 0, 5_000, 1_000]);
}

#[test]
fn redeem_checks_the_accounts_before_the_secret() {
    let mut ledger = funded(10);
    let swap = open(&mut ledger, 700, 20);
    let before = balances(&ledger);
    let wrong_redeemer =
        Redeem { swap_account: swap, redeemer: party(F), rent_sponsor: party(SPONSOR) };
    assert_eq!(redeem(&mut ledger, &wrong_redeemer, [0; 32]), Err(SwapError::InvalidRedeemer));
    assert_eq!(redeem(&mut ledger, &wrong_redeemer, [1; 32]), Err(SwapError::InvalidRedeemer));
    let wrong_sponsor =
        Redeem { swap_account: swap, redeemer: party(R), rent_sponsor: party(FUNDER) };
    assert_eq!(redeem(&mut ledger, &wrong_sponsor, [0; 32]), Err(SwapError::InvalidRentSponsor));
    assert_eq!(redeem(&mut ledger, &wrong_sponsor, [1; 32]), Err(SwapError::InvalidRentSponsor));
    let both_wrong = Redeem { swap_account: swap, redeemer: party(F), rent_sponsor: party(F) };
    assert_eq!(redeem(&mut ledger, &both_wrong, [0; 32]), Err(SwapError::InvalidRedeemer));
    let right = Redeem { swap_account: swap, redeemer: party(R), rent_sponsor: party(SPONSOR) };
    assert_eq!(redeem(&mut ledger, &right, [1; 32]), Err(SwapError::InvalidSecret));
    assert_eq!(balances(&ledger), before);
    assert_eq!(ledger.escrow_balance(&swap), 710);
}

#[test]
fn redeem_works_after_expiry_too() {
    let mut ledger = funded(10);
    let swap = open(&mut ledger, 700, 20);
    ledger.advance_clock(1_000);
    let accounts = Redeem { swap_account: swap, redeemer: party(R), rent_sponsor: party(SPONSOR) };
    assert!(redeem(&mut ledger, &accounts, [0; 32]).is_ok());
    assert_eq!(balances(&ledger), [700, 0, 4_300, 1_000]);
}

#[test]
fn refund_checks_the_accounts_before_the_clock() {
    let mut ledger = funded(10);
    let swap = open(&mut ledger, 700, 20);
    let wrong_refundee =
        Refund { swap_account: swap, refundee: party(R), rent_sponsor: party(SPONSOR) };
    let wrong_sponsor = Refund { swap_account: swap, refundee: party(F), rent_sponsor: party(R) };
    assert_eq!(refund(&mut ledger, &wrong_refundee), Err(SwapError::InvalidRefundee));
    assert_eq!(refund(&mut ledger, &wrong_sponsor), Err(SwapError::InvalidRentSponsor));
    ledger.advance_clock(21);
    assert_eq!(refund(&mut ledger, &wrong_refundee), Err(SwapError::InvalidRefundee));
    assert_eq!(refund(&mut ledger, &wrong_sponsor), Err(SwapError::InvalidRentSponsor));
    assert_eq!(balances(&ledger), [0, 0, 4_300, 990]);
    assert_eq!(ledger.escrow_balance(&swap), 710);
}

#[test]
fn instant_refund_needs_the_redeemer_and_no_clock() {
    let mut ledger = funded(10);
    let swap = open(&mut ledger, 700, 20);
    let by = |refundee: u8, signer: u8, sponsor: u8| InstantRefund {
        swap_account: swap,
        refundee: party(refundee),
        redeemer: Signer { key: party(signer) },
        rent_sponsor: party(sponsor),
    };
    assert_eq!(instant_refund(&mut ledger, &by(R, R, SPONSOR)), Err(SwapError::InvalidRefundee));
    assert_eq!(instant_refund(&mut ledger, &by(R, F, R)), Err(SwapError::InvalidRefundee));
    // The refundee's own signature is not the redeemer's consent.
    assert_eq!(instant_refund(&mut ledger, &by(F, F, SPONSOR)), Err(SwapError::InvalidRedeemer));
    assert_eq!(instant_refund(&mut ledger, &by(F, FUNDER, R)), Err(SwapError::InvalidRedeemer));
    assert_eq!(instant_refund(&mut ledger, &by(F, R, R)), Err(SwapError::InvalidRentSponsor));
    assert_eq!(balances(&ledger), [0, 0, 4_300, 990]);
    assert_eq!(ledger.slot(), 0);
    assert!(instant_refund(&mut ledger, &by(F, R, SPONSOR)).is_ok());
    assert_eq!(balances(&ledger), [0, 700, 4_300, 1_000]);

    // After expiry it works as well.
    let swap = open(&mut ledger, 700, 20);
    ledger.advance_clock(500);
    let accounts = InstantRefund {
        swap_account: swap,
        refundee: party(F),
        redeemer: Signer { key: party(R) },
        rent_sponsor: party(SPONSOR),
    };
    assert!(instant_refund(&mut ledger, &accounts).is_ok());
    assert_eq!(balances(&ledger), [0, 1_400, 3_600, 1_000]);
}

#[test]
fn a_swap_is_settled_once() {
    let redeem_accounts = |swap: Pubkey| Redeem {
        swap_account: swap,
        redeemer: party(R),
        rent_sponsor: party(SPONSOR),
    };
    let refund_accounts = |swap: Pubkey| Refund {
        swap_account: swap,
        refundee: party(F),
        rent_sponsor: party(SPONSOR),
    };
    let instant_accounts = |swap: Pubkey| InstantRefund {
        swap_account: swap,
        refundee: party(F),
        redeemer: Signer { key: party(R) },
        rent_sponsor: party(SPONSOR),
    };
    for winner in 0..3 {
        let mut ledger = funded(10);
        let swap = open(&mut ledger, 700, 20);
        ledger.advance_clock(21);
        let settled = match winner {
            0 => redeem(&mut ledger, &redeem_accounts(swap), [0; 32]).is_ok(),
            1 => refund(&mut ledger, &refund_accounts(swap)).is_ok(),
            _ => instant_refund(&mut ledger, &instant_accounts(swap)).is_ok(),
        };
        assert!(settled);
        let after = balances(&ledger);
        assert_eq!(
            redeem(&mut ledger, &redeem_accounts(swap), [0; 32]),
            Err(SwapError::NotFound)
        );
        assert_eq!(refund(&mut ledger, &refund_accounts(swap)), Err(SwapError::NotFound));
        assert_eq!(
            instant_refund(&mut ledger, &instant_accounts(swap)),
            Err(SwapError::NotFound)
        );
        assert_eq!(balances(&ledger), after);
        assert_eq!(after[0] + after[1], 700);
        assert_eq!(ledger.supply(), 6_000);
    }
}

#[test]
fn operations_on_an_address_without_a_swap_find_nothing() {
    let mut ledger = funded(10);
    let nowhere = party(99);
    let accounts =
        Redeem { swap_account: nowhere, redeemer: party(R), rent_sponsor: party(SPONSOR) };
    assert_eq!(redeem(&mut ledger, &accounts, [0; 32]), Err(SwapError::NotFound));
    let accounts =
        Refund { swap_account: nowhere, refundee: party(F), rent_sponsor: party(SPONSOR) };
    assert_eq!(refund(&mut ledger, &accounts), Err(SwapError::NotFound));
    let accounts = InstantRefund {
        swap_account: nowhere,
        refundee: party(F),
        redeemer: Signer { key: party(R) },
        rent_sponsor: party(SPONSOR),
    };
    assert_eq!(instant_refund(&mut ledger, &accounts), Err(SwapError::NotFound));
    // A party's address is no swap either, whatever it holds.
    let accounts =
        Refund { swap_account: party(FUNDER), refundee: party(F), rent_sponsor: party(SPONSOR) };
    assert_eq!(refund(&mut ledger, &accounts), Err(SwapError::NotFound));
}

#[test]
fn settling_one_swap_leaves_the_others() {
    let mut ledger = funded(10);
    let first = open(&mut ledger, 700, 20);
    let second = open(&mut ledger, 300, 5);
    let third = open(&mut ledger, 100, 50);
    let kept = ledger.swap_account(&third);
    let accounts =
        Redeem { swap_account: second, redeemer: party(R), rent_sponsor: party(SPONSOR) };
    assert!(redeem(&mut ledger, &accounts, [0; 32]).is_ok());
    assert_eq!(ledger.swap_account(&second), None);
    assert_eq!(ledger.escrow_balance(&first), 710);
    assert_eq!(ledger.escrow_balance(&third), 110);
    assert_eq!(ledger.swap_account(&third), kept);
    let accounts =
        Redeem { swap_account: first, redeemer: party(R), rent_sponsor: party(SPONSOR) };
    assert!(redeem(&mut ledger, &accounts, [0; 32]).is_ok());
    assert_eq!(ledger.swap_account(&third), kept);
    assert_eq!(balances(&ledger), [1_000, 0, 3_900, 990]);
}

#[test]
fn the_operations_with_known_address_and_digest() {
    let mut ledger = funded(10);
    let program = Pubkey::new_from_array(PROGRAM);
    let (swap, bump) =
        find_swap_address(&program, &party(R), &party(F), &HASH_OF_ZEROS, 700, 20).unwrap();
    let opened = initiate_at(
        &mut ledger,
        &signers(FUNDER, SPONSOR),
        swap,
        bump,
        party(R),
        party(F),
        HASH_OF_ZEROS,
        700,
        20,
        None,
    );
    assert!(opened.is_ok());
    assert_eq!(ledger.swap_account(&swap).unwrap().bump, bump);
    let again = initiate_at(
        &mut ledger,
        &signers(FUNDER, SPONSOR),
        swap,
        bump,
        party(R),
        party(F),
        HASH_OF_ZEROS,
        700,
        20,
        None,
    );
    assert_eq!(again, Err(SwapError::AlreadyExists));
    let accounts = Redeem { swap_account: swap, redeemer: party(R), rent_sponsor: party(SPONSOR) };
    assert!(redeem_with_digest(&mut ledger, &accounts, [0; 32], &HASH_OF_ZEROS).is_ok());
    assert_eq!(balances(&ledger), [700, 0, 4_300, 1_000]);
}
