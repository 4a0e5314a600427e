use account_ledger::account::{Account, TransactionKind, ValidationError, MINOR_PER_MAJOR};

fn account_with(balance: i32) -> Account {
    Account::restore(7, balance).expect("a balance that is not negative")
}

#[test]
fn one_major_unit_is_a_hundred_minor_units() {
    assert_eq!(MINOR_PER_MAJOR, 100);
}

#[test]
fn new_account_is_empty() {
    let account = Account::new();
    assert_eq!(account.balance(), 0);
}

#[test]
fn fresh_account_number_is_a_random_uuid() {
    let number = Account::new().account_number();
    assert_eq!((number >> 76) & 0xf, 4);
    assert_eq!((number >> 62) & 0x3, 2);
    assert_eq!(uuid::Uuid::from_u128(number).get_version_num(), 4);
}

#[test]
fn fresh_account_numbers_differ() {
    let first = Account::new().account_number();
    let second = Account::new().account_number();
    assert_ne!(first, second);
}

#[test]
fn restore_keeps_number_and_balance() {
    let account = Account::restore(0xa1a2a3a4b1b2c1c2d1d2d3d4d5d6d7d8, 1234).unwrap();
    assert_eq!(account.account_number(), 0xa1a2a3a4b1b2c1c2d1d2d3d4d5d6d7d8);
    assert_eq!(account.balance(), 1234);
}

#[test]
fn restore_accepts_zero_and_the_largest_balance() {
    assert_eq!(Account::restore(1, 0).unwrap().balance(), 0);
    assert_eq!(Account::restore(1, i32::MAX).unwrap().balance(), i32::MAX);
}

#[test]
fn restore_refuses_a_negative_balance() {
    assert!(Account::restore(1, -1).is_none());
    assert!(Account::restore(1, i32::MIN).is_none());
}

#[test]
fn deposit_adds_the_amount_in_minor_units() {
    let mut account = account_with(0);
    assert_eq!(account.deposit(50), Ok(()));
    assert_eq!(account.balance(), 5000);
    assert_eq!(account.deposit(1), Ok(()));
    assert_eq!(account.balance(), 5100);
    assert_eq!(account.account_number(), 7);
}

#[test]
fn deposit_of_zero_is_an_invalid_amount() {
    let mut account = account_with(300);
    assert_eq!(account.deposit(0), Err(ValidationError::InvalidAmount));
    assert_eq!(account.balance(), 300);
}

#[test]
fn deposit_of_a_negative_amount_is_an_invalid_amount() {
    let mut account = account_with(300);
    assert_eq!(account.deposit(-1), Err(ValidationError::InvalidAmount));
    assert_eq!(account.deposit(i32::MIN), Err(ValidationError::InvalidAmount));
    assert_eq!(account.balance(), 300);
}

#[test]
fn withdraw_takes_the_amount_in_minor_units() {
    let mut account = account_with(5000);
    assert_eq!(account.withdraw(20), Ok(()));
    assert_eq!(account.balance(), 3000);
    assert_eq!(account.account_number(), 7);
}

#[test]
fn withdraw_of_the_whole_balance_leaves_nothing() {
    let mut account = account_with(3000);
    assert_eq!(account.withdraw(30), Ok(()));
    assert_eq!(account.balance(), 0);
}

#[test]
fn withdraw_of_more_than_the_balance_is_refused() {
    let mut account = account_with(3000);
    assert_eq!(account.withdraw(31), Err(ValidationError::InsufficientFunds));
    assert_eq!(account.balance(), 3000);
}

#[test]
fn withdraw_from_an_empty_account_is_refused() {
    let mut account = account_with(0);
    assert_eq!(account.withdraw(1), Err(ValidationError::InsufficientFunds));
    assert_eq!(account.balance(), 0);
}

#[test]
fn withdraw_ceiling_counts_whole_major_units_only() {
    let mut account = account_with(3050);
    assert_eq!(account.withdraw(31), Err(ValidationError::InsufficientFunds));
    assert_eq!(account.balance(), 3050);
    assert_eq!(account.withdraw(30), Ok(()));
    assert_eq!(account.balance(), 50);
    assert_eq!(account.withdraw(1), Err(ValidationError::InsufficientFunds));
    assert_eq!(account.balance(), 50);
}

#[test]
fn withdraw_of_nothing_changes_nothing() {
    let mut account = account_with(99);
    assert_eq!(account.withdraw(0), Ok(()));
    assert_eq!(account.balance(), 99);
}

#[test]
fn withdraw_of_a_negative_amount_takes_a_negative_sum() {
    let mut account = account_with(100);
    assert_eq!(account.withdraw(-5), Ok(()));
    assert_eq!(account.balance(), 600);
}

#[test]
fn balance_stays_non_negative_over_a_history() {
    let mut account = Account::new();
    let history: [(TransactionKind, i32); 8] = [
        (TransactionKind::Withdraw, 1),
        (TransactionKind::Deposit, 3),
        (TransactionKind::Withdraw, 4),
        (TransactionKind::Withdraw, 2),
        (TransactionKind::Deposit, 0),
        (TransactionKind::Withdraw, 1),
        (TransactionKind::Withdraw, 1),
        (TransactionKind::Deposit, -7),
    ];
    let expected: [i32; 8] = [0, 300, 300, 100, 100, 0, 0, 0];
    for (step, (kind, amount)) in history.iter().enumerate() {
        assert!(account.has_room_for(*kind, *amount));
        let _ = match kind {
            TransactionKind::Deposit => account.deposit(*amount),
            TransactionKind::Withdraw => account.withdraw(*amount),
        };
        assert!(account.balance() >= 0);
        assert_eq!(account.balance(), expected[step]);
    }
}

#[test]
fn has_room_for_a_deposit_up_to_the_largest_balance() {
    let account = account_with(2_147_483_547);
    assert!(account.has_room_for(TransactionKind::Deposit, 1));
    assert!(!account.has_room_for(TransactionKind::Deposit, 2));
    assert!(!account.has_room_for(TransactionKind::Deposit, i32::MAX));
    let mut account = account;
    assert_eq!(account.deposit(1), Ok(()));
    assert_eq!(account.balance(), i32::MAX);
}

#[test]
fn has_room_for_whatever_would_be_refused() {
    let account = account_with(i32::MAX);
    assert!(account.has_room_for(TransactionKind::Deposit, 0));
    assert!(account.has_room_for(TransactionKind::Deposit, -1));
    assert!(account.has_room_for(TransactionKind::Withdraw, i32::MAX));
}

#[test]
fn has_room_for_a_withdrawal_unless_it_adds_too_much() {
    let account = account_with(2_147_483_547);
    assert!(account.has_room_for(TransactionKind::Withdraw, 5));
    assert!(account.has_room_for(TransactionKind::Withdraw, -1));
    assert!(!account.has_room_for(TransactionKind::Withdraw, -2));
    assert!(!account.has_room_for(TransactionKind::Withdraw, i32::MIN));
}

#[test]
fn clone_of_an_account_is_the_same_account() {
    let account = account_with(4200);
    let copy = account.clone();
    assert_eq!(copy.account_number(), account.account_number());
    assert_eq!(copy.balance(), account.balance());
}
