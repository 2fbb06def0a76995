//! The transfer executor: keep-alive transfers and the emptying transfer.

use vane_payment::balances::{Balances, TransferError};

#[test]
fn transfer_moves_funds_and_keeps_source_alive() {
    let mut ledger = Balances::new(500);
    ledger.set_free_balance(1, 10_000);
    assert_eq!(ledger.transfer(1, 2, 4_000), Ok(()));
    assert_eq!(ledger.free_balance(1), 6_000);
    assert_eq!(ledger.free_balance(2), 4_000);

    // Draining below the existential deposit is refused atomically.
    assert_eq!(ledger.transfer(1, 2, 5_700), Err(TransferError::KeepAlive));
    assert_eq!(ledger.free_balance(1), 6_000);
    assert_eq!(ledger.free_balance(2), 4_000);

    // More than the balance is refused.
    assert_eq!(ledger.transfer(1, 2, 60_000), Err(TransferError::InsufficientBalance));

    // A destination that cannot take the amount is refused.
    ledger.set_free_balance(3, u128::MAX);
    assert_eq!(ledger.transfer(1, 3, 1_000), Err(TransferError::Overflow));
    assert_eq!(ledger.free_balance(1), 6_000);
}

#[test]
fn transfer_all_empties_or_keeps_the_floor() {
    let mut ledger = Balances::new(500);
    ledger.set_free_balance(1, 10_000);
    assert_eq!(ledger.transfer_all(1, 2, true), Ok(()));
    assert_eq!(ledger.free_balance(1), 500);
    assert_eq!(ledger.free_balance(2), 9_500);

    assert_eq!(ledger.transfer_all(1, 2, false), Ok(()));
    assert_eq!(ledger.free_balance(1), 0);
    assert_eq!(ledger.free_balance(2), 10_000);
}
