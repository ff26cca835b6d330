use poke_ledgers::address::Address;
use poke_ledgers::transfer::{Balances, TransferError};

#[test]
fn unseen_account_holds_nothing() {
    let bank = Balances::new();
    assert_eq!(bank.balance_of(&Address::new([1u8; 32])), 0);
}

#[test]
fn pay_in_moves_both_sides() {
    let a = Address::new([1u8; 32]);
    let mut bank = Balances::new();
    bank.deposit(&a, 100).unwrap();
    let mut vault = 5u64;
    assert_eq!(bank.pay_in(&a, &mut vault, 40), Ok(()));
    assert_eq!(bank.balance_of(&a), 60);
    assert_eq!(vault, 45);
}

#[test]
fn pay_in_without_funds_changes_nothing() {
    let a = Address::new([1u8; 32]);
    let mut bank = Balances::new();
    bank.deposit(&a, 10).unwrap();
    let mut vault = 0u64;
    assert_eq!(bank.pay_in(&a, &mut vault, 11), Err(TransferError::InsufficientFunds));
    assert_eq!(bank.balance_of(&a), 10);
    assert_eq!(vault, 0);
}

#[test]
fn pay_in_into_full_vault_changes_nothing() {
    let a = Address::new([1u8; 32]);
    let mut bank = Balances::new();
    bank.deposit(&a, 10).unwrap();
    let mut vault = u64::MAX - 5;
    assert_eq!(bank.pay_in(&a, &mut vault, 6), Err(TransferError::BalanceOverflow));
    assert_eq!(bank.balance_of(&a), 10);
    assert_eq!(vault, u64::MAX - 5);
}

#[test]
fn pay_out_moves_both_sides_and_checks_the_vault() {
    let a = Address::new([2u8; 32]);
    let mut bank = Balances::new();
    let mut vault = 30u64;
    assert_eq!(bank.pay_out(&mut vault, &a, 31), Err(TransferError::InsufficientFunds));
    assert_eq!(bank.pay_out(&mut vault, &a, 30), Ok(()));
    assert_eq!(bank.balance_of(&a), 30);
    assert_eq!(vault, 0);
}

#[test]
fn deposit_past_the_maximum_is_refused() {
    let a = Address::new([3u8; 32]);
    let b = Address::new([4u8; 32]);
    let mut bank = Balances::new();
    bank.deposit(&a, u64::MAX).unwrap();
    assert_eq!(bank.deposit(&a, 1), Err(TransferError::BalanceOverflow));
    assert_eq!(bank.balance_of(&a), u64::MAX);
    assert_eq!(bank.balance_of(&b), 0);
}

#[test]
fn addresses_compare_by_every_byte() {
    let mut bytes = [0u8; 32];
    let a = Address::new(bytes);
    bytes[31] = 1;
    let b = Address::new(bytes);
    assert!(a != b);
    assert!(a == Address::new([0u8; 32]));
}
