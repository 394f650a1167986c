use pallets::currency::{Currency, CurrencyError, Ledger};

fn ledger() -> Ledger {
    let mut l = Ledger::new(10);
    l.set_free_balance(1, 100);
    l.set_free_balance(2, 50);
    l
}

#[test]
fn transfer_moves_funds_and_keeps_the_total() {
    let mut l = ledger();
    assert_eq!(l.transfer(1, 2, 30), Ok(()));
    assert_eq!(l.free_balance(1), 70);
    assert_eq!(l.free_balance(2), 80);
    assert_eq!(l.free_balance(1) + l.free_balance(2), 150);
}

#[test]
fn transfer_to_oneself_or_of_nothing_changes_nothing() {
    let mut l = ledger();
    assert_eq!(l.transfer(1, 1, 500), Ok(()));
    assert_eq!(l.transfer(1, 2, 0), Ok(()));
    assert_eq!(l.free_balance(1), 100);
    assert_eq!(l.free_balance(2), 50);
}

#[test]
fn transfer_of_more_than_the_balance_is_refused() {
    let mut l = ledger();
    assert_eq!(l.transfer(1, 2, 101), Err(CurrencyError::InsufficientBalance));
    assert_eq!(l.free_balance(1), 100);
}

#[test]
fn transfer_keeps_the_source_alive() {
    let mut l = ledger();
    assert_eq!(l.transfer(1, 2, 95), Err(CurrencyError::KeepAlive));
    assert_eq!(l.transfer(1, 2, 90), Ok(()));
    assert_eq!(l.free_balance(1), 10);
}

#[test]
fn transfer_below_the_existential_deposit_is_refused() {
    let mut l = ledger();
    assert_eq!(l.transfer(1, 3, 5), Err(CurrencyError::ExistentialDeposit));
    assert_eq!(l.free_balance(3), 0);
}

#[test]
fn transfer_that_overflows_the_destination_is_refused() {
    let mut l = ledger();
    l.set_free_balance(2, u128::MAX);
    assert_eq!(l.transfer(1, 2, 1), Err(CurrencyError::Overflow));
}

#[test]
fn reserve_and_unreserve_move_funds_between_free_and_reserved() {
    let mut l = ledger();
    assert_eq!(l.reserve(1, 40), Ok(()));
    assert_eq!(l.free_balance(1), 60);
    assert_eq!(l.reserved_balance(1), 40);
    assert_eq!(l.reserve(1, 61), Err(CurrencyError::InsufficientBalance));
    assert_eq!(l.unreserve(1, 50), 10);
    assert_eq!(l.free_balance(1), 100);
    assert_eq!(l.reserved_balance(1), 0);
}

#[test]
fn unreserve_from_an_unknown_account_returns_everything() {
    let mut l = ledger();
    assert_eq!(l.unreserve(7, 25), 25);
    assert_eq!(l.free_balance(7), 0);
}

#[test]
fn checkpoint_copies_the_balances() {
    let mut l = ledger();
    let copy = l.checkpoint();
    l.transfer(1, 2, 30).unwrap();
    assert_eq!(copy.free_balance(1), 100);
    assert_eq!(copy.free_balance(2), 50);
}
