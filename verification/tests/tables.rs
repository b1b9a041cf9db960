use erc20::{AllowanceTable, Balance, BalanceTable, Error, Event};

#[test]
fn balance_table_starts_empty() {
    let table = BalanceTable::new();
    assert!(!table.has_entry(0, 1));
    assert_eq!(table.get(0, 1), 0);
}

#[test]
fn balance_entry_of_zero_is_an_entry() {
    let mut table = BalanceTable::new();
    table.insert(3, 9, 0);
    assert!(table.has_entry(3, 9));
    assert!(!table.has_entry(9, 3));
    assert_eq!(table.get(3, 9), 0);
}

#[test]
fn balance_insert_overwrites() {
    let mut table = BalanceTable::new();
    table.insert(0, 1, 10);
    table.insert(0, 1, 7);
    table.insert(0, 2, 3);
    assert_eq!(table.get(0, 1), 7);
    assert_eq!(table.get(0, 2), 3);
    assert_eq!(table.get(1, 1), 0);
}

#[test]
fn table_transfer_debits_and_credits() {
    let mut table = BalanceTable::new();
    table.insert(0, 1, 10);
    table.insert(0, 2, 5);
    assert_eq!(
        table.transfer(0, 1, 2, 4),
        Ok(Event::Transfer { token_id: 0, from: 1, to: 2, value: 4 })
    );
    assert_eq!(table.get(0, 1), 6);
    assert_eq!(table.get(0, 2), 9);
}

#[test]
fn table_transfer_creates_the_receiver_entry() {
    let mut table = BalanceTable::new();
    table.insert(0, 1, 10);
    assert!(!table.has_entry(0, 2));
    assert!(table.transfer(0, 1, 2, 0).is_ok());
    assert!(table.has_entry(0, 2));
    assert_eq!(table.get(0, 2), 0);
    assert_eq!(table.get(0, 1), 10);
}

#[test]
fn table_transfer_that_overflows_changes_nothing() {
    let mut table = BalanceTable::new();
    table.insert(0, 1, 10);
    table.insert(0, 2, Balance::MAX - 4);
    assert_eq!(table.transfer(0, 1, 2, 5), Err(Error::TransferOverflow));
    assert_eq!(table.get(0, 1), 10);
    assert_eq!(table.get(0, 2), Balance::MAX - 4);
    assert!(table.transfer(0, 1, 2, 4).is_ok());
    assert_eq!(table.get(0, 1), 6);
    assert_eq!(table.get(0, 2), Balance::MAX);
}

#[test]
fn table_transfer_reports_errors_in_order() {
    let mut table = BalanceTable::new();
    table.insert(0, 2, Balance::MAX);
    assert_eq!(table.transfer(0, 1, 2, 5), Err(Error::NotAnOwner));
    table.insert(0, 1, 5);
    assert_eq!(table.transfer(0, 1, 2, 5), Err(Error::InsufficientBalance));
    assert_eq!(table.transfer(0, 1, 2, 4), Err(Error::TransferOverflow));
    assert_eq!(table.get(0, 1), 5);
    assert_eq!(table.get(0, 2), Balance::MAX);
}

#[test]
fn table_transfer_to_oneself_never_overflows() {
    let mut table = BalanceTable::new();
    table.insert(0, 1, Balance::MAX);
    assert!(table.transfer(0, 1, 1, Balance::MAX - 1).is_ok());
    assert_eq!(table.get(0, 1), Balance::MAX);
}

#[test]
fn allowance_table_starts_empty() {
    let table = AllowanceTable::new();
    assert!(!table.has_entry(0, 1, 2));
    assert_eq!(table.get(0, 1, 2), 0);
}

#[test]
fn allowance_increase_adds() {
    let mut table = AllowanceTable::new();
    table.increase(0, 1, 2, 100);
    table.increase(0, 1, 2, 50);
    assert!(table.has_entry(0, 1, 2));
    assert!(!table.has_entry(0, 2, 1));
    assert_eq!(table.get(0, 1, 2), 150);
    assert_eq!(table.get(0, 2, 1), 0);
}

#[test]
fn allowance_increase_that_overflows_is_dropped() {
    let mut table = AllowanceTable::new();
    table.increase(0, 1, 2, Balance::MAX);
    table.increase(0, 1, 2, 1);
    assert_eq!(table.get(0, 1, 2), Balance::MAX);
}

#[test]
fn allowance_decrease_subtracts() {
    let mut table = AllowanceTable::new();
    table.increase(0, 1, 2, 150);
    table.decrease(0, 1, 2, 120);
    assert_eq!(table.get(0, 1, 2), 30);
    table.decrease(0, 1, 2, 30);
    assert_eq!(table.get(0, 1, 2), 0);
    assert!(table.has_entry(0, 1, 2));
}

#[test]
fn allowance_decrease_beyond_the_allowance_is_dropped() {
    let mut table = AllowanceTable::new();
    table.increase(0, 1, 2, 30);
    table.decrease(0, 1, 2, 31);
    assert_eq!(table.get(0, 1, 2), 30);
    table.decrease(5, 1, 2, 1);
    assert!(table.has_entry(5, 1, 2));
    assert_eq!(table.get(5, 1, 2), 0);
}
