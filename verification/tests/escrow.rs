use kumulus::escrow::{EscrowAccount, Ledger, TransferError};

#[test]
fn a_new_ledger_has_no_balances() {
    let ledger = Ledger::new(5);
    assert_eq!(ledger.existential_deposit(), 5);
    assert_eq!(ledger.free_balance(1), 0);
    assert_eq!(ledger.free_balance(u64::MAX), 0);
}

#[test]
fn transfer_moves_the_amount() {
    let mut ledger = Ledger::new(0);
    ledger.set_balance(1, 1000);
    ledger.set_balance(2, 50);
    assert_eq!(ledger.transfer(1, 2, 300), Ok(()));
    assert_eq!(ledger.free_balance(1), 700);
    assert_eq!(ledger.free_balance(2), 350);
    assert_eq!(ledger.transfer(1, 3, 700), Ok(()));
    assert_eq!(ledger.free_balance(1), 0);
    assert_eq!(ledger.free_balance(3), 700);
}

#[test]
fn transfer_keeps_the_payer_alive() {
    let mut ledger = Ledger::new(10);
    ledger.set_balance(1, 100);
    assert_eq!(ledger.can_transfer(1, 2, 91), Err(TransferError::InsufficientFunds));
    assert_eq!(ledger.transfer(1, 2, 91), Err(TransferError::InsufficientFunds));
    assert_eq!(ledger.free_balance(1), 100);
    assert_eq!(ledger.free_balance(2), 0);
    assert_eq!(ledger.can_transfer(1, 2, 90), Ok(()));
    assert_eq!(ledger.transfer(1, 2, 90), Ok(()));
    assert_eq!(ledger.free_balance(1), 10);
    assert_eq!(ledger.free_balance(2), 90);
}

#[test]
fn transfer_from_an_unknown_account_is_refused() {
    let mut ledger = Ledger::new(0);
    assert_eq!(ledger.transfer(1, 2, 1), Err(TransferError::InsufficientFunds));
    assert_eq!(ledger.free_balance(1), 0);
    assert_eq!(ledger.free_balance(2), 0);
}

#[test]
fn transfer_that_would_overflow_the_payee_is_refused() {
    let mut ledger = Ledger::new(0);
    ledger.set_balance(1, 10);
    ledger.set_balance(2, u128::MAX - 5);
    assert_eq!(ledger.transfer(1, 2, 6), Err(TransferError::Overflow));
    assert_eq!(ledger.free_balance(1), 10);
    assert_eq!(ledger.free_balance(2), u128::MAX - 5);
    assert_eq!(ledger.transfer(1, 2, 5), Ok(()));
    assert_eq!(ledger.free_balance(1), 5);
    assert_eq!(ledger.free_balance(2), u128::MAX);
}

#[test]
fn moving_nothing_always_succeeds() {
    let mut ledger = Ledger::new(10);
    assert_eq!(ledger.transfer(1, 2, 0), Ok(()));
    assert_eq!(ledger.free_balance(1), 0);
    assert_eq!(ledger.free_balance(2), 0);
    ledger.set_balance(2, u128::MAX);
    assert_eq!(ledger.transfer(1, 2, 0), Ok(()));
    assert_eq!(ledger.free_balance(2), u128::MAX);
}

#[test]
fn transfer_to_oneself_changes_nothing() {
    let mut ledger = Ledger::new(10);
    ledger.set_balance(1, 100);
    assert_eq!(ledger.transfer(1, 1, 90), Ok(()));
    assert_eq!(ledger.free_balance(1), 100);
    assert_eq!(ledger.transfer(1, 1, 91), Err(TransferError::InsufficientFunds));
    assert_eq!(ledger.free_balance(1), 100);
}

#[test]
fn transfer_conserves_the_total() {
    let mut ledger = Ledger::new(3);
    ledger.set_balance(1, 500);
    ledger.set_balance(2, 40);
    ledger.set_balance(3, 7);
    for (from, to, amount) in [(1u64, 2u64, 100u128), (2, 3, 137), (3, 1, 1000), (1, 3, 397), (3, 3, 2)] {
        let _ = ledger.transfer(from, to, amount);
        assert_eq!(ledger.free_balance(1) + ledger.free_balance(2) + ledger.free_balance(3), 547);
    }
    assert_eq!(ledger.free_balance(1), 3);
    assert_eq!(ledger.free_balance(2), 3);
    assert_eq!(ledger.free_balance(3), 541);
}

#[test]
fn escrow_account_follows_from_the_identifier() {
    let escrow = EscrowAccount::new(b"kumulus!");
    assert_eq!(escrow.account(), u64::from_le_bytes(*b"modlkumu"));
    assert_eq!(escrow.account(), 0x756d_756b_6c64_6f6d);
    let other = EscrowAccount::new(&[1, 2, 3, 4, 5, 6, 7, 8]);
    assert_eq!(other.account(), 0x0403_0201_6c64_6f6d);
    let same_start = EscrowAccount::new(&[1, 2, 3, 4, 0, 0, 0, 0]);
    assert_eq!(same_start, other);
    let zero = EscrowAccount::new(&[0; 8]);
    assert_eq!(zero.account(), 0x6c64_6f6d);
}

#[test]
fn escrow_holds_and_releases() {
    let escrow = EscrowAccount::new(b"kumulus!");
    let mut ledger = Ledger::new(0);
    ledger.set_balance(1, 1000);
    assert_eq!(escrow.hold(&mut ledger, 1, 600), Ok(()));
    assert_eq!(ledger.free_balance(1), 400);
    assert_eq!(ledger.free_balance(escrow.account()), 600);
    assert_eq!(escrow.release(&mut ledger, 2, 250), Ok(()));
    assert_eq!(ledger.free_balance(2), 250);
    assert_eq!(ledger.free_balance(escrow.account()), 350);
    assert_eq!(escrow.release(&mut ledger, 2, 351), Err(TransferError::InsufficientFunds));
    assert_eq!(escrow.hold(&mut ledger, 1, 401), Err(TransferError::InsufficientFunds));
    assert_eq!(ledger.free_balance(1), 400);
    assert_eq!(ledger.free_balance(2), 250);
    assert_eq!(ledger.free_balance(escrow.account()), 350);
}
