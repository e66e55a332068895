use native_swaps::{Ledger, Pubkey};

fn party(byte: u8) -> Pubkey {
    Pubkey::new_from_array([byte; 32])
}

#[test]
fn a_new_ledger_is_empty() {
    let ledger = Ledger::new(party(42), 17);
    assert_eq!(ledger.program_id(), party(42));
    assert_eq!(ledger.rent(), 17);
    assert_eq!(ledger.slot(), 0);
    assert_eq!(ledger.supply(), 0);
    assert_eq!(ledger.balance(&party(1)), 0);
    assert_eq!(ledger.swap_account(&party(1)), None);
    assert_eq!(ledger.escrow_balance(&party(1)), 0);
}

#[test]
fn airdrops_add_up() {
    let mut ledger = Ledger::new(party(42), 0);
    assert!(ledger.airdrop(party(1), 5));
    assert!(ledger.airdrop(party(2), 7));
    assert!(ledger.airdrop(party(1), 11));
    assert!(ledger.airdrop(party(3), 0));
    assert_eq!(ledger.balance(&party(1)), 16);
    assert_eq!(ledger.balance(&party(2)), 7);
    assert_eq!(ledger.balance(&party(3)), 0);
    assert_eq!(ledger.supply(), 23);
}

#[test]
fn the_supply_stays_within_64_bits() {
    let mut ledger = Ledger::new(party(42), 0);
    assert!(ledger.airdrop(party(1), u64::MAX - 1));
    assert!(!ledger.airdrop(party(2), 2));
    assert!(!ledger.airdrop(party(1), 2));
    assert_eq!(ledger.balance(&party(1)), u64::MAX - 1);
    assert_eq!(ledger.balance(&party(2)), 0);
    assert_eq!(ledger.supply(), u64::MAX - 1);
    assert!(ledger.airdrop(party(2), 1));
    assert_eq!(ledger.supply(), u64::MAX);
    assert!(!ledger.airdrop(party(2), 1));
    assert!(ledger.airdrop(party(2), 0));
}

#[test]
fn the_clock_only_moves_forward() {
    let mut ledger = Ledger::new(party(42), 0);
    ledger.advance_clock(0);
    assert_eq!(ledger.slot(), 0);
    ledger.advance_clock(5);
    ledger.advance_clock(6);
    assert_eq!(ledger.slot(), 11);
    ledger.advance_clock(u64::MAX - 11);
    assert_eq!(ledger.slot(), u64::MAX);
    ledger.advance_clock(3);
    assert_eq!(ledger.slot(), u64::MAX);
}
